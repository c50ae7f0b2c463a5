# object_attr

The object types of a GraphQL schema declared with `juniper`'s
`#[graphql_object]`, with their resolvers verified by Verus.

- `src/`: one module per kind of object declaration; every resolver carries a
  contract stating the value it resolves to. `src/render.rs` renders integers,
  booleans and `Option<i32>` as `{}` and `{:?}` do, with a proof that the
  decimal numerals denote the numbers they render.
- `app/`: the `juniper` side: for each object type a GraphQL type that holds
  the library's value and resolves its fields through it, the schema
  constructors, the field error of `fallible_method` and a custom scalar value
  type.
- `tests/`: the resolvers and renderings on concrete values.
