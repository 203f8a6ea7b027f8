//! The connector-facing type catalog: the shape of object types a backend
//! data connector exposes, consumed by the resolvers that turn root-field IR
//! into connector requests.

use vstd::prelude::*;
use crate::schema::{ArgumentDef, TypeRef};

verus! {

/// A field of a connector object type.
#[derive(Debug)]
pub struct ObjectField {
    pub description: Option<String>,
    pub field_type: TypeRef,
    pub arguments: Vec<ArgumentDef>,
}

/// An object type a connector exposes: a description and named fields.
#[derive(Debug)]
pub struct ObjectType {
    pub description: Option<String>,
    pub fields: Vec<(String, ObjectField)>,
}

} // verus!
