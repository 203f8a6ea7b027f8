//! Meta-circular introspection: a fixed canonical document requesting only
//! `__schema` is fed through the ordinary normalizer against the caller's
//! schema and role, and the answer is built by walking exactly the slice of
//! the schema that role may see. Introspection therefore can never drift from
//! what normalization accepts.

use vstd::prelude::*;
use crate::ast::{Document, Operation, OperationType, Request, Selection, SpecSelection};
use crate::normalize::{
    normalize_request, spec_normalize_request, NormalizeError, SpecNormalizedField,
};
use crate::schema::{
    spec_field_visible, spec_lookup_field, ArgumentDef, FieldDef, Schema, SpecArgumentDef,
    SpecFieldDef, SpecSchema, SpecTypeDef, TypeDef,
};
use crate::values::{SpecValue, Value};

verus! {

broadcast use
    crate::ast::lemma_selections_view,
    crate::ast::lemma_vec_selections_view,
    crate::values::lemma_values_view,
    crate::values::lemma_vec_values_view,
    crate::values::lemma_entries_view,
    crate::values::lemma_vec_entries_view,
    crate::normalize::lemma_normalized_fields_view,
    crate::normalize::lemma_vec_normalized_fields_view;

/// The ways answering the introspection request fails.
#[derive(Debug)]
pub enum Error {
    /// The canonical introspection document did not normalize against the
    /// schema and role it was asked for.
    NormalizeIntrospectionQuery(NormalizeError),
    /// The canonical document is authored to request only `__schema`; any
    /// other top-level field is a contract violation and fails loudly.
    OnlySchemaFieldExpected { name: String },
}

/// Mathematical model of an `Error`.
#[verifier::ext_equal]
pub enum SpecError {
    NormalizeIntrospectionQuery(NormalizeError),
    OnlySchemaFieldExpected { name: Seq<char> },
}

impl DeepView for Error {
    type V = SpecError;

    open spec fn deep_view(&self) -> SpecError {
        match self {
            Error::NormalizeIntrospectionQuery(e) => SpecError::NormalizeIntrospectionQuery(*e),
            Error::OnlySchemaFieldExpected { name } => SpecError::OnlySchemaFieldExpected {
                name: name@,
            },
        }
    }
}

/// The canonical introspection request: one unnamed query operation whose
/// sole selection is the bare `__schema` field.
pub open spec fn spec_canonical_request() -> crate::ast::SpecRequest {
    crate::ast::SpecRequest {
        operation_name: None,
        query: crate::ast::SpecDocument {
            operations: seq![
                crate::ast::SpecOperation {
                    name: None,
                    op_type: OperationType::Query,
                    selection_set: seq![
                        SpecSelection::Field {
                            alias: None,
                            name: "__schema"@,
                            arguments: Seq::empty(),
                            selection_set: Seq::empty(),
                        }
                    ],
                }
            ],
            fragments: Seq::empty(),
        },
        variables: Seq::empty(),
    }
}

/// Build the canonical introspection request. It is fixed, hand-authored
/// data; every call returns the same document.
pub fn canonical_introspection_request() -> (r: Request)
    ensures
        r.deep_view() == spec_canonical_request(),
{
    let sel = Selection::Field {
        alias: None,
        name: "__schema".to_owned(),
        arguments: Vec::new(),
        selection_set: Vec::new(),
    };
    let mut sels: Vec<Selection> = Vec::new();
    sels.push(sel);
    let op = Operation { name: None, op_type: OperationType::Query, selection_set: sels };
    let mut ops: Vec<Operation> = Vec::new();
    ops.push(op);
    let doc = Document { operations: ops, fragments: Vec::new() };
    let r = Request { operation_name: None, query: doc, variables: Vec::new() };
    proof {
        let rd = r.deep_view();
        let cd = spec_canonical_request();
        assert(rd.query.operations.len() == 1);
        assert(rd.query.operations[0].selection_set =~~= cd.query.operations[0].selection_set);
        assert(rd.query.operations[0] =~~= cd.query.operations[0]);
        assert(rd.query.operations =~~= cd.query.operations);
        assert(rd.query.fragments =~~= cd.query.fragments);
        assert(rd.variables =~~= cd.variables);
        assert(rd =~~= cd);
    }
    r
}

/// The introspection entry for one argument: its name.
pub open spec fn spec_arg_entry(d: SpecArgumentDef) -> SpecValue {
    SpecValue::Object(seq![("name"@, SpecValue::Str(d.name))])
}

/// The introspection entries for the arguments from position `i` on.
pub open spec fn spec_args_list(defs: Seq<SpecArgumentDef>, i: int) -> Seq<SpecValue>
    decreases defs.len() - i,
{
    if defs.len() <= i || i < 0 {
        Seq::empty()
    } else {
        seq![spec_arg_entry(defs[i])].add(spec_args_list(defs, i + 1))
    }
}

/// The introspection entry for one field: its name, the name of its
/// underlying type, and its arguments.
pub open spec fn spec_field_entry(f: SpecFieldDef) -> SpecValue {
    SpecValue::Object(
        seq![
            ("name"@, SpecValue::Str(f.name)),
            (
                "type"@,
                SpecValue::Object(
                    seq![
                        (
                            "name"@,
                            SpecValue::Str(crate::schema::spec_underlying_type_name(f.field_type)),
                        )
                    ],
                ),
            ),
            ("args"@, SpecValue::Array(spec_args_list(f.arguments, 0))),
        ],
    )
}

/// The introspection entries for the fields visible to `role`, from position
/// `i` on, in schema order.
pub open spec fn spec_visible_fields(fields: Seq<SpecFieldDef>, role: Seq<char>, i: int) -> Seq<
    SpecValue,
>
    decreases fields.len() - i,
{
    if fields.len() <= i || i < 0 {
        Seq::empty()
    } else if spec_field_visible(fields[i], role) {
        seq![spec_field_entry(fields[i])].add(spec_visible_fields(fields, role, i + 1))
    } else {
        spec_visible_fields(fields, role, i + 1)
    }
}

/// The introspection entry for one type: its name and its role-visible
/// fields.
pub open spec fn spec_type_entry(t: SpecTypeDef, role: Seq<char>) -> SpecValue {
    SpecValue::Object(
        seq![
            ("name"@, SpecValue::Str(t.name)),
            ("fields"@, SpecValue::Array(spec_visible_fields(t.fields, role, 0))),
        ],
    )
}

/// The introspection entries for the types from position `i` on.
pub open spec fn spec_types_list(types: Seq<SpecTypeDef>, role: Seq<char>, i: int) -> Seq<
    SpecValue,
>
    decreases types.len() - i,
{
    if types.len() <= i || i < 0 {
        Seq::empty()
    } else {
        seq![spec_type_entry(types[i], role)].add(spec_types_list(types, role, i + 1))
    }
}

/// The structural description of the schema slice visible to `role`, in the
/// shape of the standard introspection schema.
pub open spec fn spec_schema_description(s: SpecSchema, role: Seq<char>) -> SpecValue {
    SpecValue::Object(
        seq![
            ("queryType"@, SpecValue::Object(seq![("name"@, SpecValue::Str(s.query_root))])),
            ("mutationType"@, SpecValue::Object(seq![("name"@, SpecValue::Str(s.mutation_root))])),
            ("types"@, SpecValue::Array(spec_types_list(s.types, role, 0))),
            ("directives"@, SpecValue::Array(Seq::empty())),
        ],
    )
}

/// Answer the normalized top-level fields, from position `i` on: only
/// `__schema` is expected, keyed by its alias.
pub open spec fn spec_answer_fields(
    s: SpecSchema,
    role: Seq<char>,
    fields: Seq<SpecNormalizedField>,
    i: int,
) -> Result<Seq<(Seq<char>, SpecValue)>, SpecError>
    decreases fields.len() - i,
{
    if fields.len() <= i || i < 0 {
        Ok(Seq::empty())
    } else if fields[i].field_call.name == "__schema"@ {
        match spec_answer_fields(s, role, fields, i + 1) {
            Err(e) => Err(e),
            Ok(rest) => Ok(seq![(fields[i].alias, spec_schema_description(s, role))].add(rest)),
        }
    } else {
        Err(SpecError::OnlySchemaFieldExpected { name: fields[i].field_call.name })
    }
}

/// The whole introspection answer, as a mathematical function of schema and
/// role: normalize the canonical request, then answer its fields.
pub open spec fn spec_build_namespace_schema(s: SpecSchema, role: Seq<char>) -> Result<
    SpecValue,
    SpecError,
> {
    match spec_normalize_request(s, role, spec_canonical_request()) {
        Err(e) => Err(SpecError::NormalizeIntrospectionQuery(e)),
        Ok(nr) => match spec_answer_fields(s, role, nr.fields, 0) {
            Err(e) => Err(e),
            Ok(pairs) => Ok(SpecValue::Object(pairs)),
        },
    }
}

/// The introspection entries for the arguments from position `i` on.
fn args_list(defs: &Vec<ArgumentDef>, i: usize) -> (r: Vec<Value>)
    ensures
        r.deep_view() == spec_args_list(defs.deep_view(), i as int),
    decreases defs@.len() - i,
{
    if i >= defs.len() {
        let out: Vec<Value> = Vec::new();
        proof {
            assert(out.deep_view() =~~= Seq::<SpecValue>::empty());
        }
        out
    } else {
        let mut pairs: Vec<(String, Value)> = Vec::new();
        pairs.push(("name".to_owned(), Value::Str(defs[i].name.clone())));
        let entry = Value::Object(pairs);
        let ghost ev = entry.deep_view();
        proof {
            crate::values::lemma_entries_view(entry->Object_0@);
            assert(entry->Object_0@.len() == 1);
            assert(ev->Object_0 == crate::values::spec_entries_view(entry->Object_0@));
            assert(ev->Object_0.len() == 1);
            assert(ev->Object_0[0] == (entry->Object_0@[0].0@, entry->Object_0@[0].1.deep_view()));
            assert(ev->Object_0 =~~= seq![("name"@, SpecValue::Str(defs.deep_view()[i as int].name))]);
            assert(ev == spec_arg_entry(defs.deep_view()[i as int]));
        }
        let rest = args_list(defs, i + 1);
        let ghost restv = rest.deep_view();
        let mut out: Vec<Value> = Vec::new();
        out.push(entry);
        let mut rest = rest;
        out.append(&mut rest);
        proof {
            assert(out.deep_view() =~~= seq![ev].add(restv));
        }
        out
    }
}

/// The introspection entry for one field.
fn field_entry(f: &FieldDef) -> (r: Value)
    ensures
        r.deep_view() == spec_field_entry(f.deep_view()),
{
    let args = args_list(&f.arguments, 0);
    let ghost argsv = args.deep_view();
    let mut tpairs: Vec<(String, Value)> = Vec::new();
    tpairs.push(("name".to_owned(), Value::Str(f.field_type.underlying_name().clone())));
    let tentry = Value::Object(tpairs);
    let ghost tv = tentry.deep_view();
    let mut pairs: Vec<(String, Value)> = Vec::new();
    pairs.push(("name".to_owned(), Value::Str(f.name.clone())));
    pairs.push(("type".to_owned(), tentry));
    pairs.push(("args".to_owned(), Value::Array(args)));
    let r = Value::Object(pairs);
    proof {
        let fd = f.deep_view();
        crate::values::lemma_entries_view(tentry->Object_0@);
        assert(tv->Object_0 == crate::values::spec_entries_view(tentry->Object_0@));
        assert(tv->Object_0 =~~= seq![
            ("name"@, SpecValue::Str(crate::schema::spec_underlying_type_name(fd.field_type)))
        ]);
        crate::values::lemma_entries_view(r->Object_0@);
        crate::values::lemma_vec_values_view(args);
        assert(r.deep_view()->Object_0 == crate::values::spec_entries_view(r->Object_0@));
        assert(r->Object_0@.len() == 3);
        assert(r.deep_view()->Object_0 =~~= seq![
            ("name"@, SpecValue::Str(fd.name)),
            ("type"@, tv),
            ("args"@, SpecValue::Array(argsv)),
        ]);
        assert(r.deep_view() == spec_field_entry(fd));
    }
    r
}

/// The introspection entries for the fields visible to `role`, from position
/// `i` on.
fn visible_fields(fields: &Vec<FieldDef>, role: &String, i: usize) -> (r: Vec<Value>)
    ensures
        r.deep_view() == spec_visible_fields(fields.deep_view(), role@, i as int),
    decreases fields@.len() - i,
{
    if i >= fields.len() {
        let out: Vec<Value> = Vec::new();
        proof {
            assert(out.deep_view() =~~= Seq::<SpecValue>::empty());
        }
        out
    } else if fields[i].is_visible_to(role) {
        let entry = field_entry(&fields[i]);
        let ghost ev = entry.deep_view();
        let rest = visible_fields(fields, role, i + 1);
        let ghost restv = rest.deep_view();
        let mut out: Vec<Value> = Vec::new();
        out.push(entry);
        let mut rest = rest;
        out.append(&mut rest);
        proof {
            assert(out.deep_view() =~~= seq![ev].add(restv));
        }
        out
    } else {
        visible_fields(fields, role, i + 1)
    }
}

/// The introspection entry for one type.
fn type_entry(t: &TypeDef, role: &String) -> (r: Value)
    ensures
        r.deep_view() == spec_type_entry(t.deep_view(), role@),
{
    let fields = visible_fields(&t.fields, role, 0);
    let ghost fv = fields.deep_view();
    let mut pairs: Vec<(String, Value)> = Vec::new();
    pairs.push(("name".to_owned(), Value::Str(t.name.clone())));
    pairs.push(("fields".to_owned(), Value::Array(fields)));
    let r = Value::Object(pairs);
    proof {
        let td = t.deep_view();
        crate::values::lemma_entries_view(r->Object_0@);
        crate::values::lemma_vec_values_view(fields);
        assert(r.deep_view()->Object_0 == crate::values::spec_entries_view(r->Object_0@));
        assert(r->Object_0@.len() == 2);
        assert(r.deep_view()->Object_0 =~~= seq![
            ("name"@, SpecValue::Str(td.name)),
            ("fields"@, SpecValue::Array(fv)),
        ]);
        assert(r.deep_view() == spec_type_entry(td, role@));
    }
    r
}

/// The introspection entries for the types from position `i` on.
fn types_list(types: &Vec<TypeDef>, role: &String, i: usize) -> (r: Vec<Value>)
    ensures
        r.deep_view() == spec_types_list(types.deep_view(), role@, i as int),
    decreases types@.len() - i,
{
    if i >= types.len() {
        let out: Vec<Value> = Vec::new();
        proof {
            assert(out.deep_view() =~~= Seq::<SpecValue>::empty());
        }
        out
    } else {
        let entry = type_entry(&types[i], role);
        let ghost ev = entry.deep_view();
        let rest = types_list(types, role, i + 1);
        let ghost restv = rest.deep_view();
        let mut out: Vec<Value> = Vec::new();
        out.push(entry);
        let mut rest = rest;
        out.append(&mut rest);
        proof {
            assert(out.deep_view() =~~= seq![ev].add(restv));
        }
        out
    }
}

/// The structural description of the schema slice visible to `role`.
fn schema_description(schema: &Schema, role: &String) -> (r: Value)
    ensures
        r.deep_view() == spec_schema_description(schema.deep_view(), role@),
{
    let types = types_list(&schema.types, role, 0);
    let ghost tv = types.deep_view();
    let mut qpairs: Vec<(String, Value)> = Vec::new();
    qpairs.push(("name".to_owned(), Value::Str(schema.query_root.clone())));
    let q = Value::Object(qpairs);
    let ghost qv = q.deep_view();
    let mut mpairs: Vec<(String, Value)> = Vec::new();
    mpairs.push(("name".to_owned(), Value::Str(schema.mutation_root.clone())));
    let m = Value::Object(mpairs);
    let ghost mv = m.deep_view();
    let mut pairs: Vec<(String, Value)> = Vec::new();
    pairs.push(("queryType".to_owned(), q));
    pairs.push(("mutationType".to_owned(), m));
    pairs.push(("types".to_owned(), Value::Array(types)));
    let dirs: Vec<Value> = Vec::new();
    proof {
        assert(crate::values::spec_values_view(dirs@) =~~= Seq::<SpecValue>::empty());
    }
    pairs.push(("directives".to_owned(), Value::Array(dirs)));
    let r = Value::Object(pairs);
    proof {
        let sd = schema.deep_view();
        crate::values::lemma_entries_view(q->Object_0@);
        assert(qv->Object_0 == crate::values::spec_entries_view(q->Object_0@));
        assert(qv->Object_0 =~~= seq![("name"@, SpecValue::Str(sd.query_root))]);
        crate::values::lemma_entries_view(m->Object_0@);
        assert(mv->Object_0 == crate::values::spec_entries_view(m->Object_0@));
        assert(mv->Object_0 =~~= seq![("name"@, SpecValue::Str(sd.mutation_root))]);
        crate::values::lemma_entries_view(r->Object_0@);
        crate::values::lemma_vec_values_view(types);
        assert(r.deep_view()->Object_0 == crate::values::spec_entries_view(r->Object_0@));
        assert(r->Object_0@.len() == 4);
        assert(r.deep_view()->Object_0 =~~= seq![
            ("queryType"@, qv),
            ("mutationType"@, mv),
            ("types"@, SpecValue::Array(tv)),
            ("directives"@, SpecValue::Array(Seq::empty())),
        ]);
        assert(r.deep_view() == spec_schema_description(sd, role@));
    }
    r
}

/// Answer the normalized top-level fields, from position `i` on.
fn answer_fields(
    schema: &Schema,
    role: &String,
    fields: &Vec<crate::normalize::NormalizedField>,
    i: usize,
) -> (r: Result<Vec<(String, Value)>, Error>)
    ensures
        ({
            let sres = spec_answer_fields(
                schema.deep_view(),
                role@,
                fields.deep_view(),
                i as int,
            );
            match r {
                Ok(v) => sres == Ok::<_, SpecError>(v.deep_view()),
                Err(e) => sres == Err::<Seq<(Seq<char>, SpecValue)>, _>(e.deep_view()),
            }
        }),
    decreases fields@.len() - i,
{
    if i >= fields.len() {
        let out: Vec<(String, Value)> = Vec::new();
        proof {
            assert(out.deep_view() =~~= Seq::<(Seq<char>, SpecValue)>::empty());
        }
        Ok(out)
    } else if crate::normalize::string_is(&fields[i].field_call.name, "__schema") {
        match answer_fields(schema, role, fields, i + 1) {
            Err(e) => Err(e),
            Ok(rest) => {
                let ghost restv = rest.deep_view();
                let desc = schema_description(schema, role);
                let ghost dv = desc.deep_view();
                let alias = fields[i].alias.clone();
                let mut out: Vec<(String, Value)> = Vec::new();
                out.push((alias, desc));
                let mut rest = rest;
                out.append(&mut rest);
                proof {
                    assert(out.deep_view() =~~= seq![
                        (fields.deep_view()[i as int].alias, dv)
                    ].add(restv));
                }
                Ok(out)
            },
        }
    } else {
        Err(Error::OnlySchemaFieldExpected { name: fields[i].field_call.name.clone() })
    }
}

/// Generate the introspection answer for a role: normalize the canonical
/// document through the ordinary pipeline against this schema and role, then
/// walk the role-visible schema slice into the standard response shape,
/// keyed by field alias.
pub fn build_namespace_schema(schema: &Schema, role: &String) -> (r: Result<Value, Error>)
    ensures
        ({
            let sres = spec_build_namespace_schema(schema.deep_view(), role@);
            match r {
                Ok(v) => sres == Ok::<_, SpecError>(v.deep_view()),
                Err(e) => sres == Err::<SpecValue, _>(e.deep_view()),
            }
        }),
{
    let request = canonical_introspection_request();
    match normalize_request(schema, role, &request) {
        Err(e) => Err(Error::NormalizeIntrospectionQuery(e)),
        Ok(nr) => match answer_fields(schema, role, &nr.fields, 0) {
            Err(e) => Err(e),
            Ok(pairs) => Ok(Value::Object(pairs)),
        },
    }
}

/// The name a field entry reports.
pub open spec fn spec_entry_name(v: SpecValue) -> Seq<char> {
    v->Object_0[0].1->Str_0
}

/// Whether the entries report a field of this name.
pub open spec fn spec_reports_field(entries: Seq<SpecValue>, fname: Seq<char>) -> bool {
    exists|k: int| 0 <= k < entries.len() && spec_entry_name(#[trigger] entries[k]) == fname
}

/// Introspection and reality agree: under any role, the field names reported
/// for a type are exactly the names of fields of that type visible to the
/// role. With field names unique on the type, those are exactly the fields
/// normalization accepts: `spec_lookup_field` finds a visible field.
pub proof fn lemma_reported_iff_exists(
    fields: Seq<SpecFieldDef>,
    role: Seq<char>,
    fname: Seq<char>,
    i: int,
)
    requires
        0 <= i <= fields.len(),
    ensures
        spec_reports_field(spec_visible_fields(fields, role, i), fname) <==> exists|j: int|
            i <= j < fields.len() && (#[trigger] fields[j].name) == fname && spec_field_visible(
                fields[j],
                role,
            ),
    decreases fields.len() - i,
{
    if i == fields.len() {
        assert(spec_visible_fields(fields, role, i) =~~= Seq::<SpecValue>::empty());
    } else {
        lemma_reported_iff_exists(fields, role, fname, i + 1);
        let here = spec_visible_fields(fields, role, i);
        let rest = spec_visible_fields(fields, role, i + 1);
        if spec_field_visible(fields[i], role) {
            assert(here == seq![spec_field_entry(fields[i])].add(rest));
            assert(here[0] == spec_field_entry(fields[i]));
            assert(spec_entry_name(spec_field_entry(fields[i])) == fields[i].name);
            assert(forall|k: int| 1 <= k < here.len() ==> here[k] == rest[k - 1]);
            if spec_reports_field(here, fname) {
                let k = choose|k: int| 0 <= k < here.len() && spec_entry_name(
                    #[trigger] here[k],
                ) == fname;
                if k == 0 {
                    assert(fields[i].name == fname && spec_field_visible(fields[i], role));
                } else {
                    assert(spec_entry_name(rest[k - 1]) == fname);
                    assert(spec_reports_field(rest, fname));
                }
            }
            if exists|j: int| i <= j < fields.len() && (#[trigger] fields[j].name) == fname
                && spec_field_visible(fields[j], role) {
                let j = choose|j: int| i <= j < fields.len() && (#[trigger] fields[j].name)
                    == fname && spec_field_visible(fields[j], role);
                if j == i {
                    assert(spec_entry_name(here[0]) == fname);
                } else {
                    assert(spec_reports_field(rest, fname));
                    let k = choose|k: int| 0 <= k < rest.len() && spec_entry_name(
                        #[trigger] rest[k],
                    ) == fname;
                    assert(here[k + 1] == rest[k]);
                    assert(spec_entry_name(here[k + 1]) == fname);
                }
            }
        } else {
            assert(here == rest);
            assert(forall|j: int| i <= j < fields.len() && (#[trigger] fields[j].name) == fname
                && spec_field_visible(fields[j], role) ==> j != i);
        }
    }
}

/// With unique field names, "some field of this name is visible" is exactly
/// "the field lookup finds it and it is visible": what introspection reports
/// is what normalization accepts.
pub proof fn lemma_exists_iff_accepted(fields: Seq<SpecFieldDef>, role: Seq<char>, fname: Seq<char>)
    requires
        forall|a: int, b: int| 0 <= a < b < fields.len() ==> (#[trigger] fields[a].name)
            != (#[trigger] fields[b].name),
    ensures
        (exists|j: int| 0 <= j < fields.len() && (#[trigger] fields[j].name) == fname
            && spec_field_visible(fields[j], role)) <==> (spec_lookup_field(fields, fname)
            matches Some(f) && spec_field_visible(f, role)),
    decreases fields.len(),
{
    if fields.len() > 0 {
        if fields[0].name == fname {
            assert(spec_lookup_field(fields, fname) == Some(fields[0]));
            if exists|j: int| 0 <= j < fields.len() && (#[trigger] fields[j].name) == fname
                && spec_field_visible(fields[j], role) {
                let j = choose|j: int| 0 <= j < fields.len() && (#[trigger] fields[j].name)
                    == fname && spec_field_visible(fields[j], role);
                assert(j == 0);
            }
        } else {
            let tail = fields.drop_first();
            assert(forall|a: int, b: int| 0 <= a < b < tail.len() ==> (#[trigger] tail[a].name)
                != (#[trigger] tail[b].name)) by {
                assert(forall|a: int| 0 <= a < tail.len() ==> tail[a] == fields[a + 1]);
            }
            lemma_exists_iff_accepted(tail, role, fname);
            assert(spec_lookup_field(fields, fname) == spec_lookup_field(tail, fname));
            assert(forall|j: int| 0 <= j < tail.len() ==> tail[j] == fields[j + 1]);
            if exists|j: int| 0 <= j < fields.len() && (#[trigger] fields[j].name) == fname
                && spec_field_visible(fields[j], role) {
                let j = choose|j: int| 0 <= j < fields.len() && (#[trigger] fields[j].name)
                    == fname && spec_field_visible(fields[j], role);
                assert(j != 0);
                assert(tail[j - 1] == fields[j]);
            }
            if exists|j: int| 0 <= j < tail.len() && (#[trigger] tail[j].name) == fname
                && spec_field_visible(tail[j], role) {
                let j = choose|j: int| 0 <= j < tail.len() && (#[trigger] tail[j].name) == fname
                    && spec_field_visible(tail[j], role);
                assert(fields[j + 1] == tail[j]);
            }
        }
    }
}

/// Introspection/reality consistency, end to end: for a type with unique
/// field names, a name is reported in the type's introspection entry exactly
/// when normalization accepts that field on the type under the same role.
pub proof fn lemma_introspection_reality(t: SpecTypeDef, role: Seq<char>, fname: Seq<char>)
    requires
        forall|a: int, b: int| 0 <= a < b < t.fields.len() ==> (#[trigger] t.fields[a].name)
            != (#[trigger] t.fields[b].name),
    ensures
        spec_reports_field(spec_type_entry(t, role)->Object_0[1].1->Array_0, fname) <==> (
        spec_lookup_field(t.fields, fname) matches Some(f) && spec_field_visible(f, role)),
{
    assert(spec_type_entry(t, role)->Object_0[1].1->Array_0 == spec_visible_fields(
        t.fields,
        role,
        0,
    ));
    lemma_reported_iff_exists(t.fields, role, fname, 0);
    lemma_exists_iff_accepted(t.fields, role, fname);
}

} // verus!
