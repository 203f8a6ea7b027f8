//! Core of a role-partitioned GraphQL query engine: a schema visible per role,
//! a request normalizer that validates parsed documents against the role's
//! slice of the schema, a meta-circular introspection driver, and the typed
//! root-field intermediate representation every request is lowered into.

pub mod ast;
pub mod catalog;
pub mod generate_graphql_schema;
pub mod movie;
pub mod normalize;
pub mod root_field;
pub mod schema;
pub mod values;
