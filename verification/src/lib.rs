//! The object types of a GraphQL schema built with `juniper`'s
//! `#[graphql_object]`, one module per kind of declaration: plain and
//! asynchronous fields, raw identifiers, ignored and fallible methods, generic
//! and borrowing objects, arguments and their defaults, descriptions and
//! deprecations, renaming, scalar value types, contexts and executors.
//!
//! Each field's resolver stands here with a contract that states what it
//! resolves to; `render` holds the text renderings of integers, booleans and
//! options that some fields produce.

pub mod render;

pub mod trivial;
pub mod trivial_async;
pub mod raw_method;
pub mod ignored_method;
pub mod fallible_method;
pub mod generic;
pub mod generic_async;
pub mod generic_lifetime_async;
pub mod nested_generic_lifetime_async;
pub mod argument;
pub mod default_argument;
pub mod description_from_doc_comment;
pub mod deprecation_from_attr;
pub mod explicit_name_description_and_deprecation;
pub mod renamed_all_fields_and_args;
pub mod explicit_scalar;
pub mod custom_scalar;
pub mod explicit_generic_scalar;
pub mod bounded_generic_scalar;
pub mod explicit_custom_context;
pub mod inferred_custom_context_from_field;
pub mod executor;
pub mod switched_context;
