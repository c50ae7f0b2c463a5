//! Text renderings of scalar values, as `{}` and `{:?}` render them, built by
//! appending to a `String`.

use vstd::prelude::*;
use vstd::string::StringExecFns;

verus! {

/// The decimal digit character of `d`, for `d < 10`.
pub open spec fn digit_char(d: nat) -> char {
    if d == 0 { '0' }
    else if d == 1 { '1' }
    else if d == 2 { '2' }
    else if d == 3 { '3' }
    else if d == 4 { '4' }
    else if d == 5 { '5' }
    else if d == 6 { '6' }
    else if d == 7 { '7' }
    else if d == 8 { '8' }
    else { '9' }
}

/// The value of a decimal digit character (`0` for any other character).
pub open spec fn digit_value(c: char) -> nat {
    if c == '1' { 1 }
    else if c == '2' { 2 }
    else if c == '3' { 3 }
    else if c == '4' { 4 }
    else if c == '5' { 5 }
    else if c == '6' { 6 }
    else if c == '7' { 7 }
    else if c == '8' { 8 }
    else if c == '9' { 9 }
    else { 0 }
}

/// Whether `c` is one of `0`..`9`.
pub open spec fn is_digit(c: char) -> bool {
    '0' <= c && c <= '9'
}

/// The decimal numeral of `n`, most significant digit first, without
/// leading zeros.
pub open spec fn nat_decimal(n: nat) -> Seq<char>
    decreases n,
{
    if n < 10 {
        seq![digit_char(n)]
    } else {
        nat_decimal(n / 10).push(digit_char(n % 10))
    }
}

/// The decimal numeral of `n` as `{}` renders an integer: a `-` before the
/// numeral of its magnitude when it is negative.
pub open spec fn int_decimal(n: int) -> Seq<char> {
    if n < 0 {
        seq!['-'] + nat_decimal((-n) as nat)
    } else {
        nat_decimal(n as nat)
    }
}

/// The number that a sequence of decimal digits denotes.
pub open spec fn numeral_value(s: Seq<char>) -> nat
    decreases s.len(),
{
    if s.len() == 0 {
        0
    } else {
        numeral_value(s.drop_last()) * 10 + digit_value(s.last())
    }
}

/// `true` or `false`, as `{}` renders a `bool`.
pub open spec fn bool_text(b: bool) -> Seq<char> {
    if b { "true"@ } else { "false"@ }
}

/// `None` or `Some(n)`, as `{:?}` renders an `Option<i32>`.
pub open spec fn option_i32_debug(o: Option<i32>) -> Seq<char> {
    match o {
        None => "None"@,
        Some(n) => "Some("@ + int_decimal(n as int) + ")"@,
    }
}

/// The decimal numeral of a natural number is made of digits, starts with a
/// non-zero digit unless the number is zero, and denotes that number.
pub proof fn lemma_nat_decimal_denotes(n: nat)
    ensures
        nat_decimal(n).len() >= 1,
        forall|i: int| 0 <= i < nat_decimal(n).len() ==> is_digit(#[trigger] nat_decimal(n)[i]),
        n > 0 ==> nat_decimal(n)[0] != '0',
        numeral_value(nat_decimal(n)) == n,
    decreases n,
{
    if n < 10 {
        assert(nat_decimal(n) =~= seq![digit_char(n)]);
        assert(seq![digit_char(n)].drop_last() =~= Seq::<char>::empty());
        assert(digit_value(digit_char(n)) == n);
        assert(numeral_value(Seq::<char>::empty()) == 0);
        assert(numeral_value(nat_decimal(n)) == numeral_value(Seq::<char>::empty()) * 10
            + digit_value(digit_char(n)));
    } else {
        lemma_nat_decimal_denotes(n / 10);
        let s = nat_decimal(n / 10);
        assert(nat_decimal(n) == s.push(digit_char(n % 10)));
        assert(s.push(digit_char(n % 10)).drop_last() =~= s);
        assert(digit_value(digit_char(n % 10)) == n % 10);
        assert(n == (n / 10) * 10 + n % 10);
        assert(numeral_value(nat_decimal(n)) == numeral_value(s) * 10 + digit_value(
            digit_char(n % 10),
        ));
        assert forall|i: int| 0 <= i < nat_decimal(n).len() implies is_digit(
            #[trigger] nat_decimal(n)[i],
        ) by {
            if i < s.len() {
                assert(nat_decimal(n)[i] == s[i]);
            }
        }
        assert(n / 10 > 0);
        assert(nat_decimal(n)[0] == s[0]);
    }
}

/// The rendering of an integer is a `-` followed by the numeral of its
/// magnitude when it is negative, and the numeral of the integer otherwise;
/// either numeral denotes the magnitude.
pub proof fn lemma_int_decimal_denotes(n: int)
    ensures
        n < 0 ==> int_decimal(n)[0] == '-' && int_decimal(n).drop_first() == nat_decimal(
            (-n) as nat,
        ) && numeral_value(int_decimal(n).drop_first()) == -n,
        n >= 0 ==> is_digit(int_decimal(n)[0]) && numeral_value(int_decimal(n)) == n,
{
    if n < 0 {
        lemma_nat_decimal_denotes((-n) as nat);
        assert(int_decimal(n).drop_first() =~= nat_decimal((-n) as nat));
    } else {
        lemma_nat_decimal_denotes(n as nat);
    }
}

/// `s` is a decimal numeral of `n` with no superfluous leading zero: one or
/// more digits, the first of them not `0` unless it is the only one, that
/// denote `n`.
pub open spec fn is_decimal_numeral(s: Seq<char>, n: nat) -> bool {
    &&& s.len() >= 1
    &&& forall|i: int| 0 <= i < s.len() ==> is_digit(#[trigger] s[i])
    &&& s.len() > 1 ==> s[0] != '0'
    &&& numeral_value(s) == n
}

/// `s` writes the integer `n` in decimal: a `-` and the decimal numeral of
/// its magnitude when `n` is negative, the decimal numeral of `n` otherwise.
pub open spec fn is_signed_decimal(s: Seq<char>, n: int) -> bool {
    if n < 0 {
        s.len() >= 1 && s[0] == '-' && is_decimal_numeral(s.drop_first(), (-n) as nat)
    } else {
        is_decimal_numeral(s, n as nat)
    }
}

/// A digit character is the digit character of its value.
proof fn lemma_digit_roundtrip(c: char)
    requires
        is_digit(c),
    ensures
        digit_value(c) < 10,
        digit_char(digit_value(c)) == c,
{
    let k = c as u32;
    assert(48 <= k <= 57);
    if k == 48 { assert(c == '0'); }
    else if k == 49 { assert(c == '1'); }
    else if k == 50 { assert(c == '2'); }
    else if k == 51 { assert(c == '3'); }
    else if k == 52 { assert(c == '4'); }
    else if k == 53 { assert(c == '5'); }
    else if k == 54 { assert(c == '6'); }
    else if k == 55 { assert(c == '7'); }
    else if k == 56 { assert(c == '8'); }
    else { assert(c == '9'); }
}

/// Digits with a first digit other than `0` denote a positive number.
proof fn lemma_leading_digit_positive(s: Seq<char>)
    requires
        s.len() >= 1,
        forall|i: int| 0 <= i < s.len() ==> is_digit(#[trigger] s[i]),
        s[0] != '0',
    ensures
        numeral_value(s) >= 1,
    decreases s.len(),
{
    let p = s.drop_last();
    assert(numeral_value(s) == numeral_value(p) * 10 + digit_value(s.last()));
    if s.len() == 1 {
        lemma_digit_roundtrip(s[0]);
        assert(digit_value(s[0]) != 0);
        assert(s.last() == s[0]);
    } else {
        assert forall|i: int| 0 <= i < p.len() implies is_digit(#[trigger] p[i]) by {
            assert(p[i] == s[i]);
        }
        assert(p[0] == s[0]);
        lemma_leading_digit_positive(p);
    }
}

/// There is one decimal numeral of each natural number: the one `nat_decimal`
/// gives.
pub proof fn lemma_decimal_numeral_unique(s: Seq<char>, n: nat)
    requires
        is_decimal_numeral(s, n),
    ensures
        s == nat_decimal(n),
    decreases s.len(),
{
    let p = s.drop_last();
    let c = s.last();
    assert(is_digit(s[s.len() - 1]));
    lemma_digit_roundtrip(c);
    assert(numeral_value(s) == numeral_value(p) * 10 + digit_value(c));
    if s.len() == 1 {
        assert(p =~= Seq::<char>::empty());
        assert(numeral_value(p) == 0);
        assert(n == digit_value(c));
        assert(s =~= seq![c]);
    } else {
        assert forall|i: int| 0 <= i < p.len() implies is_digit(#[trigger] p[i]) by {
            assert(p[i] == s[i]);
        }
        assert(p[0] == s[0]);
        lemma_leading_digit_positive(p);
        assert(n / 10 == numeral_value(p));
        assert(n % 10 == digit_value(c));
        assert(n >= 10);
        assert(is_decimal_numeral(p, n / 10));
        lemma_decimal_numeral_unique(p, n / 10);
        assert(s =~= p.push(c));
        assert(nat_decimal(n) == nat_decimal(n / 10).push(digit_char(n % 10)));
    }
}

/// What `{}` makes of an integer: its rendering writes it in decimal, and it
/// is the only text that does, so it has no leading zero, no `+`, and a `-`
/// exactly when the integer is negative.
pub proof fn lemma_int_decimal_is_signed_decimal(n: int, s: Seq<char>)
    ensures
        is_signed_decimal(int_decimal(n), n),
        is_signed_decimal(s, n) <==> s == int_decimal(n),
{
    if n < 0 {
        lemma_nat_decimal_denotes((-n) as nat);
        assert(int_decimal(n).drop_first() =~= nat_decimal((-n) as nat));
        if is_signed_decimal(s, n) {
            lemma_decimal_numeral_unique(s.drop_first(), (-n) as nat);
            assert(s =~= seq!['-'] + s.drop_first());
        }
    } else {
        lemma_nat_decimal_denotes(n as nat);
        if nat_decimal(n as nat).len() > 1 {
            assert(n >= 10);
        }
        if is_signed_decimal(s, n) {
            lemma_decimal_numeral_unique(s, n as nat);
        }
    }
}

/// What `{:?}` makes of an `Option<i32>`: `None` for `None`, and for `Some(n)`
/// the text `Some(`, then `n` written in decimal, then `)`.
pub proof fn lemma_option_i32_debug_shape(o: Option<i32>)
    ensures
        o is None ==> option_i32_debug(o) == seq!['N', 'o', 'n', 'e'],
        o matches Some(n) ==> {
            let t = option_i32_debug(o);
            &&& t.len() >= 7
            &&& t.subrange(0, 5) == seq!['S', 'o', 'm', 'e', '(']
            &&& t.last() == ')'
            &&& is_signed_decimal(t.subrange(5, t.len() - 1), n as int)
        },
{
    reveal_strlit("None");
    reveal_strlit("Some(");
    reveal_strlit(")");
    match o {
        None => {
            assert(option_i32_debug(o) =~= seq!['N', 'o', 'n', 'e']);
        },
        Some(n) => {
            let d = int_decimal(n as int);
            lemma_int_decimal_is_signed_decimal(n as int, d);
            let t = option_i32_debug(o);
            assert(t == "Some("@ + d + ")"@);
            assert(d.len() >= 1);
            assert(t.subrange(0, 5) =~= seq!['S', 'o', 'm', 'e', '(']);
            assert(t.subrange(5, t.len() - 1) =~= d);
        },
    }
}

/// The one-character string of the digit `d`.
fn digit_str(d: u32) -> (r: &'static str)
    requires
        d < 10,
    ensures
        r@ == seq![digit_char(d as nat)],
{
    if d == 0 {
        proof { reveal_strlit("0"); }
        "0"
    } else if d == 1 {
        proof { reveal_strlit("1"); }
        "1"
    } else if d == 2 {
        proof { reveal_strlit("2"); }
        "2"
    } else if d == 3 {
        proof { reveal_strlit("3"); }
        "3"
    } else if d == 4 {
        proof { reveal_strlit("4"); }
        "4"
    } else if d == 5 {
        proof { reveal_strlit("5"); }
        "5"
    } else if d == 6 {
        proof { reveal_strlit("6"); }
        "6"
    } else if d == 7 {
        proof { reveal_strlit("7"); }
        "7"
    } else if d == 8 {
        proof { reveal_strlit("8"); }
        "8"
    } else {
        proof { reveal_strlit("9"); }
        "9"
    }
}

/// Appends the decimal numeral of `n`.
pub fn append_nat_decimal(s: &mut String, n: u32)
    ensures
        final(s)@ == old(s)@ + nat_decimal(n as nat),
    decreases n,
{
    if n >= 10 {
        append_nat_decimal(s, n / 10);
    }
    s.append(digit_str(n % 10));
    assert(s@ =~= old(s)@ + nat_decimal(n as nat));
}

/// Appends `n` as `{}` renders it.
pub fn append_i32(s: &mut String, n: i32)
    ensures
        final(s)@ == old(s)@ + int_decimal(n as int),
        final(s)@.subrange(0, old(s)@.len() as int) == old(s)@,
        is_signed_decimal(final(s)@.subrange(old(s)@.len() as int, final(s)@.len() as int), n as int),
{
    proof { lemma_int_decimal_is_signed_decimal(n as int, int_decimal(n as int)); }
    if n < 0 {
        proof { reveal_strlit("-"); }
        s.append("-");
        let magnitude: u32 = (-(n as i64)) as u32;
        append_nat_decimal(s, magnitude);
        assert(s@ =~= old(s)@ + int_decimal(n as int));
    } else {
        append_nat_decimal(s, n as u32);
    }
    assert(s@.subrange(0, old(s)@.len() as int) =~= old(s)@);
    assert(s@.subrange(old(s)@.len() as int, s@.len() as int) =~= int_decimal(n as int));
}

/// Appends `b` as `{}` renders it.
pub fn append_bool(s: &mut String, b: bool)
    ensures
        final(s)@ == old(s)@ + bool_text(b),
{
    if b {
        s.append("true");
    } else {
        s.append("false");
    }
}

/// Appends `o` as `{:?}` renders it.
pub fn append_option_i32_debug(s: &mut String, o: Option<i32>)
    ensures
        final(s)@ == old(s)@ + option_i32_debug(o),
        final(s)@.subrange(0, old(s)@.len() as int) == old(s)@,
        o is None ==> final(s)@.subrange(old(s)@.len() as int, final(s)@.len() as int) == seq![
            'N',
            'o',
            'n',
            'e',
        ],
        o matches Some(n) ==> {
            let t = final(s)@.subrange(old(s)@.len() as int, final(s)@.len() as int);
            &&& t.len() >= 7
            &&& t.subrange(0, 5) == seq!['S', 'o', 'm', 'e', '(']
            &&& t.last() == ')'
            &&& is_signed_decimal(t.subrange(5, t.len() - 1), n as int)
        },
{
    proof { lemma_option_i32_debug_shape(o); }
    match o {
        None => {
            s.append("None");
        },
        Some(n) => {
            s.append("Some(");
            append_i32(s, n);
            s.append(")");
            assert(s@ =~= old(s)@ + option_i32_debug(o));
        },
    }
    assert(s@.subrange(0, old(s)@.len() as int) =~= old(s)@);
    assert(s@.subrange(old(s)@.len() as int, s@.len() as int) =~= option_i32_debug(o));
}

} // verus!
