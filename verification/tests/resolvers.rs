use std::marker::PhantomData;

use object_attr::argument;
use object_attr::bounded_generic_scalar;
use object_attr::custom_scalar;
use object_attr::default_argument;
use object_attr::deprecation_from_attr;
use object_attr::description_from_doc_comment;
use object_attr::executor;
use object_attr::explicit_custom_context;
use object_attr::explicit_generic_scalar;
use object_attr::explicit_name_description_and_deprecation;
use object_attr::explicit_scalar;
use object_attr::fallible_method;
use object_attr::generic;
use object_attr::generic_async;
use object_attr::generic_lifetime_async;
use object_attr::ignored_method;
use object_attr::inferred_custom_context_from_field;
use object_attr::nested_generic_lifetime_async;
use object_attr::raw_method;
use object_attr::renamed_all_fields_and_args;
use object_attr::switched_context;
use object_attr::trivial;
use object_attr::trivial_async;

#[test]
fn trivial_human_id_is_human_32() {
    let _human: trivial::Human = trivial::QueryRoot::human();
    assert_eq!(trivial::Human::id(), "human-32");
}

#[test]
fn trivial_async_human_id_is_human_32() {
    let _human: trivial_async::Human = trivial_async::QueryRoot::human();
    assert_eq!(trivial_async::Human::id(), "human-32");
}

#[test]
fn raw_method_fields_resolve() {
    let _human: raw_method::Human = raw_method::QueryRoot::human();
    assert_eq!(raw_method::Human::my_id(), "human-32");
    assert_eq!(raw_method::Human::async_(), "async-32");
}

#[test]
fn ignored_method_values() {
    let _human: ignored_method::Human = ignored_method::QueryRoot::human();
    assert_eq!(ignored_method::Human::id(), "human-32");
    assert_eq!(ignored_method::Human::planet(), "earth");
}

#[test]
fn fallible_method_fields_succeed() {
    let human = fallible_method::QueryRoot::human();
    match human.id() {
        Ok(id) => assert_eq!(id, "human-32"),
        Err(_) => panic!("the id field never fails"),
    }
    assert_eq!(fallible_method::Human::home_planet(), "earth");
}

#[test]
fn fallible_method_error_content() {
    let err = fallible_method::CustomError;
    assert_eq!(err.message(), "Whatever");
    assert_eq!(err.code(), "some");
    assert_eq!(err.extensions(), vec![("code", "some")]);
}

#[test]
fn fallible_method_id_is_what_it_holds() {
    let human = fallible_method::Human { id: "other".to_string() };
    assert!(matches!(human.id(), Ok("other")));
}

#[test]
fn generic_human_and_human_string() {
    let root = generic::QueryRoot;
    assert_eq!(root.human().id(), 32);
    assert_eq!(root.human_string().id(), "human-32");
    let other: generic::Human<String> = generic::Human { id: "x".to_string(), _home_planet: () };
    assert_eq!(other.id(), "x");
}

#[test]
fn generic_async_human_and_human_string() {
    let root = generic_async::QueryRoot;
    assert_eq!(root.human().id(), 32);
    assert_eq!(root.human_string().id(), "human-32");
}

#[test]
fn generic_lifetime_human() {
    let root = generic_lifetime_async::QueryRoot("mars".to_string());
    let human = root.human();
    assert_eq!(human.id(), 32);
    assert_eq!(human.planet(), "earth");
}

#[test]
fn generic_lifetime_human_string_borrows_root() {
    let root = generic_lifetime_async::QueryRoot("mars".to_string());
    let human = root.human_string();
    assert_eq!(human.id(), "mars");
    assert_eq!(human.planet(), "mars");
}

#[test]
fn nested_human_and_droid() {
    let root = nested_generic_lifetime_async::QueryRoot("mars".to_string());
    let human = root.human();
    assert_eq!(human.id(), 32);
    assert_eq!(human.planet(), "earth");
    let droid = human.droid();
    assert_eq!(droid.id(), 32);
    assert_eq!(droid.primary_function(), "run");
}

#[test]
fn nested_human_string_and_droid_string() {
    let root = nested_generic_lifetime_async::QueryRoot("mars".to_string());
    let human = root.human_string();
    assert_eq!(human.id(), "mars");
    assert_eq!(human.planet(), "mars");
    let droid = human.droid();
    assert_eq!(droid.id(), "none");
    assert_eq!(droid.primary_function(), "mars");
}

#[test]
fn nested_droid_keeps_any_human_id() {
    let human = nested_generic_lifetime_async::Human { id: -7, home_planet: "venus" };
    assert_eq!(human.droid().id(), -7);
}

#[test]
fn argument_id_echoes_argument() {
    let _human: argument::Human = argument::QueryRoot::human();
    assert_eq!(argument::Human::id("human-32".to_string()), "human-32");
    assert_eq!(argument::Human::id(String::new()), "");
}

#[test]
fn argument_home_planet_without_async() {
    let human = argument::QueryRoot::human();
    assert_eq!(human.home_planet("earth".to_string(), None), "earth,None");
}

#[test]
fn argument_home_planet_with_async() {
    let human = argument::QueryRoot::human();
    assert_eq!(human.home_planet("earth".to_string(), Some(7)), "earth,Some(7)");
    assert_eq!(human.home_planet("".to_string(), Some(-40)), ",Some(-40)");
    assert_eq!(
        human.home_planet("mars".to_string(), Some(i32::MIN)),
        format!("mars,{:?}", Some(i32::MIN))
    );
}

#[test]
fn default_argument_defaults() {
    assert_eq!(default_argument::Human::id_arg1_default(), 0);
    assert_eq!(default_argument::Human::id_arg2_default(), "second");
    assert!(default_argument::Human::id_arg3_default());
    assert_eq!(default_argument::Human::info_coord_default().x, 1);
}

#[test]
fn default_argument_id_with_defaults_and_overrides() {
    type Human = default_argument::Human;
    let cases: [(Option<i32>, Option<&str>, Option<bool>, &str); 5] = [
        (None, None, None, "0|second&true"),
        (Some(1), None, None, "1|second&true"),
        (None, Some(""), None, "0|&true"),
        (Some(2), Some(""), None, "2|&true"),
        (Some(1), Some(""), Some(false), "1|&false"),
    ];
    for (arg1, arg2, arg3, expected) in cases {
        let arg1 = arg1.unwrap_or_else(Human::id_arg1_default);
        let arg2 = match arg2 {
            Some(s) => s.to_string(),
            None => Human::id_arg2_default(),
        };
        let arg3 = arg3.unwrap_or_else(Human::id_arg3_default);
        assert_eq!(Human::id(arg1, arg2, arg3), expected);
    }
}

#[test]
fn default_argument_id_negative_and_extremes() {
    type Human = default_argument::Human;
    assert_eq!(Human::id(-15, "x".to_string(), false), "-15|x&false");
    assert_eq!(Human::id(i32::MAX, String::new(), true), "2147483647|&true");
    assert_eq!(Human::id(i32::MIN, String::new(), true), "-2147483648|&true");
}

#[test]
fn default_argument_info() {
    type Human = default_argument::Human;
    type Point = default_argument::Point;
    let _human: Human = default_argument::QueryRoot::human();
    assert_eq!(Human::info(Human::info_coord_default()), 1);
    assert_eq!(Human::info(Point { x: 2 }), 2);
}

#[test]
fn description_from_doc_comment_id() {
    let _human = description_from_doc_comment::QueryRoot::human();
    assert_eq!(description_from_doc_comment::Human::id(), "human-32");
}

#[test]
fn deprecation_from_attr_fields() {
    let human = deprecation_from_attr::QueryRoot::human();
    assert_eq!(deprecation_from_attr::Human::id(), "human-32");
    assert_eq!(human.a(), "a");
    assert_eq!(human.b(), "b");
}

#[test]
fn explicit_name_fields() {
    let human = explicit_name_description_and_deprecation::QueryRoot::human();
    assert_eq!(
        explicit_name_description_and_deprecation::Human::id(String::new()),
        "human-32"
    );
    assert_eq!(
        explicit_name_description_and_deprecation::Human::id("anything".to_string()),
        "human-32"
    );
    assert_eq!(human.a(), "a");
    assert_eq!(human.b(), "b");
}

#[test]
fn renamed_fields_echo_arguments() {
    let human = renamed_all_fields_and_args::QueryRoot::human();
    assert_eq!(renamed_all_fields_and_args::Human::id(), "human-32");
    assert_eq!(human.home_planet("earth".to_string()), "earth");
    assert_eq!(renamed_all_fields_and_args::Human::async_info(3), 3);
}

#[test]
fn explicit_scalar_fields() {
    let human = explicit_scalar::QueryRoot::human();
    assert_eq!(human.id(), "human-32");
    assert_eq!(explicit_scalar::Human::home_planet(), "earth");
}

#[test]
fn custom_scalar_fields() {
    let human = custom_scalar::QueryRoot::human();
    assert_eq!(custom_scalar::Human::id(), "human-32");
    assert_eq!(human.home_planet(), "earth");
}

#[test]
fn explicit_generic_scalar_another() {
    let human: explicit_generic_scalar::Human<u8> = explicit_generic_scalar::QueryRoot::human();
    let another: explicit_generic_scalar::Human<u8> = human.another();
    let _again = another.another();
    assert_eq!(explicit_generic_scalar::Human::<u8>::id(), "human-32");
    let _direct: explicit_generic_scalar::Human<()> = explicit_generic_scalar::Human(PhantomData);
}

#[test]
fn bounded_generic_scalar_another() {
    let human = bounded_generic_scalar::QueryRoot::human();
    let _another = human.another();
    assert_eq!(bounded_generic_scalar::Human::id(), "human-32");
}

#[test]
fn explicit_custom_context_fields() {
    type Human = explicit_custom_context::Human;
    type QueryRoot = explicit_custom_context::QueryRoot;
    let ctx = explicit_custom_context::CustomContext("ctx!".to_string());
    let human = QueryRoot::human();
    assert_eq!(human.id(&ctx), "ctx!");
    assert_eq!(Human::info(), "human being");
    assert_eq!(Human::more(&ctx), "ctx!");
}

#[test]
fn inferred_custom_context_fields() {
    type Human = inferred_custom_context_from_field::Human;
    type QueryRoot = inferred_custom_context_from_field::QueryRoot;
    let ctx = inferred_custom_context_from_field::CustomContext("ctx!".to_string());
    let human = QueryRoot::human();
    assert_eq!(human.id(&ctx), "ctx!");
    assert_eq!(Human::info(), "human being");
    assert_eq!(Human::more(&ctx), "ctx!");
}

#[test]
fn executor_fields() {
    let human = executor::QueryRoot::human();
    assert_eq!(human.id("id"), "id");
    assert_eq!(human.info("input!".to_string()), "input!");
    assert_eq!(executor::Human::info2(), "no info");
}

#[test]
fn switched_context_droids() {
    type Droid = switched_context::Droid;
    type Human = switched_context::Human;
    type QueryRoot = switched_context::QueryRoot;
    let human = QueryRoot::human();
    let _ctx = switched_context::CustomContext;
    assert_eq!(Human::switch_always(), Droid { id: 0 });
    assert_eq!(Human::switch_opt(), Some(Droid { id: 1 }));
    assert_eq!(human.switch_res(), Droid { id: 2 });
    assert_eq!(human.switch_res_opt(), Some(Droid { id: 3 }));
}
