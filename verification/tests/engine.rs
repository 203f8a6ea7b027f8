use graphql_engine::ast::{
    AstValue, Document, FragmentDef, Operation, OperationType, Request, Selection,
};
use graphql_engine::generate_graphql_schema::build_namespace_schema;
use graphql_engine::movie::definition;
use graphql_engine::normalize::{normalize_request, NormalizeError, NormalizedRequest};
use graphql_engine::root_field::{
    build_root_fields, IrError, MutationRootField, QueryRootField, RootField,
};
use graphql_engine::schema::{ArgumentDef, FieldDef, FieldTarget, Schema, TypeDef, TypeRef};
use graphql_engine::values::Value;

fn s(x: &str) -> String {
    x.to_owned()
}

fn field(
    name: &str,
    ty: TypeRef,
    args: Vec<ArgumentDef>,
    visible_to: Vec<String>,
    target: FieldTarget,
) -> FieldDef {
    FieldDef { name: s(name), field_type: ty, arguments: args, visible_to, target }
}

fn movie_schema() -> Schema {
    let user = vec![s("user")];
    let both = vec![s("user"), s("guest")];
    Schema {
        roles: vec![s("user"), s("guest")],
        query_root: s("Query"),
        mutation_root: s("Mutation"),
        types: vec![
            TypeDef {
                name: s("Query"),
                fields: vec![
                    field(
                        "movie_by_id",
                        TypeRef::Named(s("Movie")),
                        vec![ArgumentDef {
                            name: s("id"),
                            arg_type: TypeRef::Named(s("Int")),
                            required: true,
                        }],
                        user.clone(),
                        FieldTarget::ModelSelectOne { model_name: s("Movie") },
                    ),
                    field(
                        "movies",
                        TypeRef::Array(Box::new(TypeRef::Named(s("Movie")))),
                        vec![],
                        both.clone(),
                        FieldTarget::ModelSelectMany { model_name: s("Movie") },
                    ),
                    field(
                        "node",
                        TypeRef::Named(s("Node")),
                        vec![ArgumentDef {
                            name: s("id"),
                            arg_type: TypeRef::Named(s("ID")),
                            required: true,
                        }],
                        user.clone(),
                        FieldTarget::RelayNode,
                    ),
                ],
            },
            TypeDef {
                name: s("Mutation"),
                fields: vec![
                    field(
                        "create_movie",
                        TypeRef::Named(s("Movie")),
                        vec![],
                        user.clone(),
                        FieldTarget::Command { command_name: s("create_movie"), mutating: true },
                    ),
                    field(
                        "peek_movie",
                        TypeRef::Named(s("Movie")),
                        vec![],
                        user.clone(),
                        FieldTarget::Command { command_name: s("peek_movie"), mutating: false },
                    ),
                ],
            },
            TypeDef {
                name: s("Movie"),
                fields: vec![
                    field("id", TypeRef::Named(s("Int")), vec![], both.clone(), FieldTarget::Data),
                    field(
                        "title",
                        TypeRef::Named(s("String")),
                        vec![],
                        user.clone(),
                        FieldTarget::Data,
                    ),
                    field(
                        "rating",
                        TypeRef::Named(s("Int")),
                        vec![],
                        user.clone(),
                        FieldTarget::Data,
                    ),
                ],
            },
        ],
    }
}

fn fld(name: &str, args: Vec<(String, AstValue)>, sub: Vec<Selection>) -> Selection {
    Selection::Field { alias: None, name: s(name), arguments: args, selection_set: sub }
}

fn query_request(sels: Vec<Selection>) -> Request {
    Request {
        operation_name: None,
        query: Document {
            operations: vec![Operation {
                name: None,
                op_type: OperationType::Query,
                selection_set: sels,
            }],
            fragments: vec![],
        },
        variables: vec![],
    }
}

fn mutation_request(sels: Vec<Selection>) -> Request {
    Request {
        operation_name: None,
        query: Document {
            operations: vec![Operation {
                name: None,
                op_type: OperationType::Mutation,
                selection_set: sels,
            }],
            fragments: vec![],
        },
        variables: vec![],
    }
}

fn normalize(schema: &Schema, role: &str, req: &Request) -> Result<NormalizedRequest, NormalizeError> {
    normalize_request(schema, &s(role), req)
}

#[test]
fn movie_by_id_lowers_to_model_select_one() {
    let schema = movie_schema();
    let req = query_request(vec![fld(
        "movie_by_id",
        vec![(s("id"), AstValue::Lit(Value::Int(1)))],
        vec![fld("title", vec![], vec![])],
    )]);
    let nr = normalize(&schema, "user", &req).unwrap();
    assert_eq!(nr.fields.len(), 1);
    assert_eq!(nr.fields[0].field_call.name, s("movie_by_id"));
    let ir = build_root_fields(&schema, &s("user"), &nr).unwrap();
    assert_eq!(ir.len(), 1);
    match &ir[0] {
        RootField::QueryRootField(QueryRootField::ModelSelectOne { ir }) => {
            assert_eq!(ir.model_name, s("Movie"));
            assert_eq!(ir.field_index, 0);
        }
        other => panic!("expected ModelSelectOne, got {:?}", other),
    }
}

#[test]
fn invisible_field_is_a_role_visibility_error() {
    let schema = movie_schema();
    let req = query_request(vec![fld(
        "movie_by_id",
        vec![(s("id"), AstValue::Lit(Value::Int(1)))],
        vec![fld("title", vec![], vec![])],
    )]);
    assert!(matches!(normalize(&schema, "guest", &req), Err(NormalizeError::FieldNotVisible)));
}

#[test]
fn nested_invisible_field_is_rejected_not_dropped() {
    let schema = movie_schema();
    let req = query_request(vec![fld(
        "movies",
        vec![],
        vec![fld("id", vec![], vec![]), fld("title", vec![], vec![])],
    )]);
    assert!(normalize(&schema, "user", &req).is_ok());
    assert!(matches!(normalize(&schema, "guest", &req), Err(NormalizeError::FieldNotVisible)));
}

#[test]
fn unknown_role_is_rejected() {
    let schema = movie_schema();
    let req = query_request(vec![fld("movies", vec![], vec![])]);
    assert!(matches!(normalize(&schema, "nobody", &req), Err(NormalizeError::UnknownRole)));
}

#[test]
fn unknown_field_is_rejected() {
    let schema = movie_schema();
    let req = query_request(vec![fld("albums", vec![], vec![])]);
    assert!(matches!(normalize(&schema, "user", &req), Err(NormalizeError::UnknownField)));
}

#[test]
fn normalization_is_idempotent() {
    let schema = movie_schema();
    let req = query_request(vec![fld(
        "movie_by_id",
        vec![(s("id"), AstValue::Lit(Value::Int(1)))],
        vec![fld("title", vec![], vec![]), fld("rating", vec![], vec![])],
    )]);
    let a = normalize(&schema, "user", &req).unwrap();
    let b = normalize(&schema, "user", &req).unwrap();
    assert_eq!(format!("{:?}", a), format!("{:?}", b));
}

#[test]
fn variables_resolve_and_type_check() {
    let schema = movie_schema();
    let mut req = query_request(vec![fld(
        "movie_by_id",
        vec![(s("id"), AstValue::Variable(s("x")))],
        vec![],
    )]);
    req.variables = vec![(s("x"), Value::Int(7))];
    let nr = normalize(&schema, "user", &req).unwrap();
    match &nr.fields[0].field_call.arguments[0] {
        (name, Value::Int(v)) => {
            assert_eq!(name, &s("id"));
            assert_eq!(*v, 7);
        }
        other => panic!("expected bound int argument, got {:?}", other),
    }

    req.variables = vec![];
    assert!(matches!(normalize(&schema, "user", &req), Err(NormalizeError::VariableNotSupplied)));

    req.variables = vec![(s("x"), Value::Str(s("one")))];
    assert!(matches!(normalize(&schema, "user", &req), Err(NormalizeError::ArgumentTypeMismatch)));
}

#[test]
fn missing_required_argument_is_rejected() {
    let schema = movie_schema();
    let req = query_request(vec![fld("movie_by_id", vec![], vec![])]);
    assert!(matches!(normalize(&schema, "user", &req), Err(NormalizeError::MissingRequiredArgument)));
}

#[test]
fn unknown_argument_is_rejected() {
    let schema = movie_schema();
    let req = query_request(vec![fld(
        "movie_by_id",
        vec![(s("key"), AstValue::Lit(Value::Int(1)))],
        vec![],
    )]);
    assert!(matches!(normalize(&schema, "user", &req), Err(NormalizeError::UnknownArgument)));
}

#[test]
fn fragments_expand_and_cycles_are_caught() {
    let schema = movie_schema();
    let mut req = query_request(vec![fld(
        "movies",
        vec![],
        vec![Selection::FragmentSpread { name: s("movieFields") }],
    )]);
    req.query.fragments = vec![FragmentDef {
        name: s("movieFields"),
        selection_set: vec![fld("id", vec![], vec![])],
    }];
    let nr = normalize(&schema, "user", &req).unwrap();
    assert_eq!(nr.fields[0].selection_set.len(), 1);
    assert_eq!(nr.fields[0].selection_set[0].field_call.name, s("id"));

    req.query.fragments = vec![];
    assert!(matches!(normalize(&schema, "user", &req), Err(NormalizeError::UnknownFragment)));

    req.query.fragments = vec![FragmentDef {
        name: s("movieFields"),
        selection_set: vec![Selection::FragmentSpread { name: s("movieFields") }],
    }];
    assert!(matches!(normalize(&schema, "user", &req), Err(NormalizeError::FragmentCycle)));
}

#[test]
fn operation_selection_errors() {
    let schema = movie_schema();
    let mut req = query_request(vec![fld("movies", vec![], vec![])]);
    req.operation_name = Some(s("Missing"));
    assert!(matches!(normalize(&schema, "user", &req), Err(NormalizeError::UnknownOperation)));

    let mut req = query_request(vec![fld("movies", vec![], vec![])]);
    req.query.operations.push(Operation {
        name: Some(s("Second")),
        op_type: OperationType::Query,
        selection_set: vec![fld("movies", vec![], vec![])],
    });
    assert!(matches!(normalize(&schema, "user", &req), Err(NormalizeError::AmbiguousOperation)));
}

#[test]
fn mixed_meta_and_domain_root_is_rejected() {
    let schema = movie_schema();
    let req = query_request(vec![
        fld("__schema", vec![], vec![]),
        fld("movies", vec![], vec![]),
    ]);
    let nr = normalize(&schema, "user", &req).unwrap();
    assert!(matches!(build_root_fields(&schema, &s("user"), &nr), Err(IrError::MixedRootFields)));
}

#[test]
fn sole_schema_field_produces_introspection() {
    let schema = movie_schema();
    let req = query_request(vec![fld("__schema", vec![], vec![])]);
    let nr = normalize(&schema, "user", &req).unwrap();
    let ir = build_root_fields(&schema, &s("user"), &nr).unwrap();
    assert!(matches!(
        &ir[0],
        RootField::QueryRootField(QueryRootField::SchemaField { .. })
    ));
}

#[test]
fn typename_lowers_to_wanted_type() {
    let schema = movie_schema();
    let req = query_request(vec![fld("__typename", vec![], vec![])]);
    let nr = normalize(&schema, "user", &req).unwrap();
    let ir = build_root_fields(&schema, &s("user"), &nr).unwrap();
    match &ir[0] {
        RootField::QueryRootField(QueryRootField::TypeName { typename }) => {
            assert_eq!(typename, &s("Query"));
        }
        other => panic!("expected TypeName, got {:?}", other),
    }
}

#[test]
fn node_select_on_unknown_type_is_none() {
    let schema = movie_schema();
    let req = query_request(vec![fld(
        "node",
        vec![(s("id"), AstValue::Lit(Value::Str(s("Ghost/42"))))],
        vec![],
    )]);
    let nr = normalize(&schema, "user", &req).unwrap();
    let ir = build_root_fields(&schema, &s("user"), &nr).unwrap();
    assert!(matches!(
        &ir[0],
        RootField::QueryRootField(QueryRootField::NodeSelect(None))
    ));
}

#[test]
fn node_select_on_known_type_resolves() {
    let schema = movie_schema();
    let req = query_request(vec![fld(
        "node",
        vec![(s("id"), AstValue::Lit(Value::Str(s("Movie/7"))))],
        vec![],
    )]);
    let nr = normalize(&schema, "user", &req).unwrap();
    let ir = build_root_fields(&schema, &s("user"), &nr).unwrap();
    match &ir[0] {
        RootField::QueryRootField(QueryRootField::NodeSelect(Some(node))) => {
            assert_eq!(node.typename, s("Movie"));
            assert_eq!(node.key, s("7"));
        }
        other => panic!("expected a resolved node, got {:?}", other),
    }
}

#[test]
fn malformed_global_id_is_rejected() {
    let schema = movie_schema();
    let req = query_request(vec![fld(
        "node",
        vec![(s("id"), AstValue::Lit(Value::Str(s("NoSeparator"))))],
        vec![],
    )]);
    let nr = normalize(&schema, "user", &req).unwrap();
    assert!(matches!(build_root_fields(&schema, &s("user"), &nr), Err(IrError::MalformedGlobalId)));
}

#[test]
fn mutating_command_is_admitted_under_mutation_root() {
    let schema = movie_schema();
    let req = mutation_request(vec![fld("create_movie", vec![], vec![])]);
    let nr = normalize(&schema, "user", &req).unwrap();
    let ir = build_root_fields(&schema, &s("user"), &nr).unwrap();
    match &ir[0] {
        RootField::MutationRootField(MutationRootField::CommandRepresentation { ir }) => {
            assert_eq!(ir.command_name, s("create_movie"));
            assert!(ir.mutating);
        }
        other => panic!("expected a command, got {:?}", other),
    }
}

#[test]
fn non_mutating_command_under_mutation_root_is_rejected() {
    let schema = movie_schema();
    let req = mutation_request(vec![fld("peek_movie", vec![], vec![])]);
    let nr = normalize(&schema, "user", &req).unwrap();
    assert!(matches!(build_root_fields(&schema, &s("user"), &nr), Err(IrError::NonMutatingCommandInMutationRoot)));
}

fn object_get<'a>(v: &'a Value, key: &str) -> &'a Value {
    match v {
        Value::Object(pairs) => {
            for (k, val) in pairs {
                if k == key {
                    return val;
                }
            }
            panic!("missing key {}", key)
        }
        other => panic!("expected object, got {:?}", other),
    }
}

fn reported_field_names(answer: &Value, wanted_type: &str) -> Vec<String> {
    let schema_value = object_get(answer, "__schema");
    let types = match object_get(schema_value, "types") {
        Value::Array(ts) => ts,
        other => panic!("expected types array, got {:?}", other),
    };
    for t in types {
        if let Value::Str(n) = object_get(t, "name") {
            if n == wanted_type {
                let fields = match object_get(t, "fields") {
                    Value::Array(fs) => fs,
                    other => panic!("expected fields array, got {:?}", other),
                };
                return fields
                    .iter()
                    .map(|f| match object_get(f, "name") {
                        Value::Str(n) => n.clone(),
                        other => panic!("expected name string, got {:?}", other),
                    })
                    .collect();
            }
        }
    }
    panic!("type {} not reported", wanted_type)
}

#[test]
fn introspection_reports_exactly_the_visible_fields() {
    let schema = movie_schema();
    let user_answer = build_namespace_schema(&schema, &s("user")).unwrap();
    let guest_answer = build_namespace_schema(&schema, &s("guest")).unwrap();

    assert_eq!(
        reported_field_names(&user_answer, "Query"),
        vec![s("movie_by_id"), s("movies"), s("node")]
    );
    assert_eq!(reported_field_names(&guest_answer, "Query"), vec![s("movies")]);
    assert_eq!(
        reported_field_names(&user_answer, "Movie"),
        vec![s("id"), s("title"), s("rating")]
    );
    assert_eq!(reported_field_names(&guest_answer, "Movie"), vec![s("id")]);

    // What introspection reports is what normalization accepts.
    let ok = query_request(vec![fld("movies", vec![], vec![fld("id", vec![], vec![])])]);
    assert!(normalize(&schema, "guest", &ok).is_ok());
    let not_reported = query_request(vec![fld(
        "movies",
        vec![],
        vec![fld("title", vec![], vec![])],
    )]);
    assert!(matches!(normalize(&schema, "guest", &not_reported), Err(NormalizeError::FieldNotVisible)));
}

#[test]
fn introspection_fails_for_unknown_role() {
    let schema = movie_schema();
    match build_namespace_schema(&schema, &s("nobody")) {
        Err(graphql_engine::generate_graphql_schema::Error::NormalizeIntrospectionQuery(e)) => {
            assert_eq!(e, NormalizeError::UnknownRole);
        }
        other => panic!("expected a normalization failure, got {:?}", other),
    }
}

#[test]
fn movie_definition_is_the_expected_catalog_entry() {
    let t = definition();
    assert_eq!(t.description, Some(s("A movie")));
    let names: Vec<&String> = t.fields.iter().map(|(n, _)| n).collect();
    assert_eq!(names, vec![&s("id"), &s("title"), &s("rating"), &s("genres")]);
    assert!(matches!(&t.fields[0].1.field_type, TypeRef::Named(n) if n == "Int"));
    assert!(matches!(&t.fields[1].1.field_type, TypeRef::Named(n) if n == "String"));
    assert!(matches!(&t.fields[2].1.field_type, TypeRef::Named(n) if n == "Int"));
    match &t.fields[3].1.field_type {
        TypeRef::Array(e) => assert!(matches!(&**e, TypeRef::Named(n) if n == "Movie")),
        other => panic!("expected an array type, got {:?}", other),
    }
    assert_eq!(t.fields[0].1.description, Some(s("The movie's primary key")));
}
