//! The movie object type of the example connector's catalog: pure data, with
//! a contract pinning every field.

use vstd::prelude::*;
use crate::catalog::{ObjectField, ObjectType};
use crate::schema::{SpecTypeRef, TypeRef};

verus! {

/// The catalog definition of the movie type: its primary key, title, rating
/// and genres, each with its description and type.
pub fn definition() -> (t: ObjectType)
    ensures
        t.description matches Some(d) && d@ == "A movie"@,
        t.fields@.len() == 4,
        t.fields@[0].0@ == "id"@,
        t.fields@[0].1.description matches Some(d) && d@ == "The movie's primary key"@,
        t.fields@[0].1.field_type.deep_view() == SpecTypeRef::Named("Int"@),
        t.fields@[0].1.arguments@.len() == 0,
        t.fields@[1].0@ == "title"@,
        t.fields@[1].1.description matches Some(d) && d@ == "The movie's title"@,
        t.fields@[1].1.field_type.deep_view() == SpecTypeRef::Named("String"@),
        t.fields@[1].1.arguments@.len() == 0,
        t.fields@[2].0@ == "rating"@,
        t.fields@[2].1.description matches Some(d) && d@ == "The movie's rating"@,
        t.fields@[2].1.field_type.deep_view() == SpecTypeRef::Named("Int"@),
        t.fields@[2].1.arguments@.len() == 0,
        t.fields@[3].0@ == "genres"@,
        t.fields@[3].1.description matches Some(d) && d@ == "The movie's genres"@,
        t.fields@[3].1.field_type.deep_view() == SpecTypeRef::Array(
            Box::new(SpecTypeRef::Named("Movie"@)),
        ),
        t.fields@[3].1.arguments@.len() == 0,
{
    let mut fields: Vec<(String, ObjectField)> = Vec::new();
    fields.push(
        (
            "id".to_owned(),
            ObjectField {
                description: Some("The movie's primary key".to_owned()),
                field_type: TypeRef::Named("Int".to_owned()),
                arguments: Vec::new(),
            },
        ),
    );
    fields.push(
        (
            "title".to_owned(),
            ObjectField {
                description: Some("The movie's title".to_owned()),
                field_type: TypeRef::Named("String".to_owned()),
                arguments: Vec::new(),
            },
        ),
    );
    fields.push(
        (
            "rating".to_owned(),
            ObjectField {
                description: Some("The movie's rating".to_owned()),
                field_type: TypeRef::Named("Int".to_owned()),
                arguments: Vec::new(),
            },
        ),
    );
    let genre_elem = TypeRef::Named("Movie".to_owned());
    proof {
        assert(genre_elem.deep_view() == SpecTypeRef::Named("Movie"@));
    }
    let genre_ty = TypeRef::Array(Box::new(genre_elem));
    proof {
        assert(genre_ty.deep_view() == SpecTypeRef::Array(Box::new(SpecTypeRef::Named("Movie"@))));
    }
    fields.push(
        (
            "genres".to_owned(),
            ObjectField {
                description: Some("The movie's genres".to_owned()),
                field_type: genre_ty,
                arguments: Vec::new(),
            },
        ),
    );
    ObjectType { description: Some("A movie".to_owned()), fields }
}

} // verus!
