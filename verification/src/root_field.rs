//! The root-field intermediate representation: every top-level field of a
//! normalized request is classified into exactly one operation kind, driven by
//! the schema's declaration of the field. Meta fields and domain fields are
//! mutually exclusive at the root, and the mutation root admits only
//! `__typename` and mutating commands. IR values refer back into the
//! normalized selection set by index, so nothing is copied.

use vstd::prelude::*;
use vstd::string::StrSliceExecFns;
use crate::ast::OperationType;
use crate::normalize::{NormalizedRequest, SpecNormalizedField};
use crate::schema::{
    spec_lookup_field, spec_lookup_type, Schema, SpecFieldTarget, SpecSchema,
};
use crate::values::SpecValue;

verus! {

broadcast use crate::normalize::lemma_normalized_fields_view,
    crate::normalize::lemma_vec_normalized_fields_view;

/// The ways root-field classification rejects a request.
#[derive(Clone, Copy, Debug, PartialEq, Eq, Structural)]
pub enum IrError {
    /// Introspection meta fields and domain fields mixed at the root.
    MixedRootFields,
    /// A `__type` field without a string `name` argument.
    MalformedTypeField,
    /// A node lookup without a string global identifier argument, or with an
    /// identifier missing its separator.
    MalformedGlobalId,
    /// The root type named by the schema does not exist.
    UnknownRootType,
    /// A top-level field call that names no field of the root type.
    UnknownRootField,
    /// A root field whose schema declaration fits no operation kind here.
    InvalidRootField,
    /// A non-mutating command under the mutation root.
    NonMutatingCommandInMutationRoot,
}

/// Select a single row of a model through its unique key.
#[derive(Debug)]
pub struct ModelSelectOne {
    pub model_name: String,
    pub field_index: usize,
}

/// Mathematical model of a `ModelSelectOne`.
#[verifier::ext_equal]
pub struct SpecModelSelectOne {
    pub model_name: Seq<char>,
    pub field_index: int,
}

impl DeepView for ModelSelectOne {
    type V = SpecModelSelectOne;

    open spec fn deep_view(&self) -> SpecModelSelectOne {
        SpecModelSelectOne { model_name: self.model_name@, field_index: self.field_index as int }
    }
}

/// Select many rows of a model.
#[derive(Debug)]
pub struct ModelSelectMany {
    pub model_name: String,
    pub field_index: usize,
}

/// Mathematical model of a `ModelSelectMany`.
#[verifier::ext_equal]
pub struct SpecModelSelectMany {
    pub model_name: Seq<char>,
    pub field_index: int,
}

impl DeepView for ModelSelectMany {
    type V = SpecModelSelectMany;

    open spec fn deep_view(&self) -> SpecModelSelectMany {
        SpecModelSelectMany { model_name: self.model_name@, field_index: self.field_index as int }
    }
}

/// Select the row behind a decoded global identifier.
#[derive(Debug)]
pub struct NodeSelect {
    pub typename: String,
    pub key: String,
    pub field_index: usize,
}

/// Mathematical model of a `NodeSelect`.
#[verifier::ext_equal]
pub struct SpecNodeSelect {
    pub typename: Seq<char>,
    pub key: Seq<char>,
    pub field_index: int,
}

impl DeepView for NodeSelect {
    type V = SpecNodeSelect;

    open spec fn deep_view(&self) -> SpecNodeSelect {
        SpecNodeSelect {
            typename: self.typename@,
            key: self.key@,
            field_index: self.field_index as int,
        }
    }
}

/// Invoke a command.
#[derive(Debug)]
pub struct CommandRepresentation {
    pub command_name: String,
    pub mutating: bool,
    pub field_index: usize,
}

/// Mathematical model of a `CommandRepresentation`.
#[verifier::ext_equal]
pub struct SpecCommandRepresentation {
    pub command_name: Seq<char>,
    pub mutating: bool,
    pub field_index: int,
}

impl DeepView for CommandRepresentation {
    type V = SpecCommandRepresentation;

    open spec fn deep_view(&self) -> SpecCommandRepresentation {
        SpecCommandRepresentation {
            command_name: self.command_name@,
            mutating: self.mutating,
            field_index: self.field_index as int,
        }
    }
}

/// IR of a query root field.
#[derive(Debug)]
pub enum QueryRootField {
    TypeName { typename: String },
    SchemaField { role: String, field_index: usize },
    TypeField { role: String, typename: String, field_index: usize },
    ModelSelectOne { ir: ModelSelectOne },
    ModelSelectMany { ir: ModelSelectMany },
    NodeSelect(Option<NodeSelect>),
    CommandRepresentation { ir: CommandRepresentation },
}

/// Mathematical model of a `QueryRootField`.
#[verifier::ext_equal]
pub enum SpecQueryRootField {
    TypeName { typename: Seq<char> },
    SchemaField { role: Seq<char>, field_index: int },
    TypeField { role: Seq<char>, typename: Seq<char>, field_index: int },
    ModelSelectOne { ir: SpecModelSelectOne },
    ModelSelectMany { ir: SpecModelSelectMany },
    NodeSelect(Option<SpecNodeSelect>),
    CommandRepresentation { ir: SpecCommandRepresentation },
}

impl DeepView for QueryRootField {
    type V = SpecQueryRootField;

    open spec fn deep_view(&self) -> SpecQueryRootField {
        match self {
            QueryRootField::TypeName { typename } => SpecQueryRootField::TypeName {
                typename: typename@,
            },
            QueryRootField::SchemaField { role, field_index } => SpecQueryRootField::SchemaField {
                role: role@,
                field_index: *field_index as int,
            },
            QueryRootField::TypeField { role, typename, field_index } => (
                SpecQueryRootField::TypeField {
                    role: role@,
                    typename: typename@,
                    field_index: *field_index as int,
                }
            ),
            QueryRootField::ModelSelectOne { ir } => SpecQueryRootField::ModelSelectOne {
                ir: ir.deep_view(),
            },
            QueryRootField::ModelSelectMany { ir } => SpecQueryRootField::ModelSelectMany {
                ir: ir.deep_view(),
            },
            QueryRootField::NodeSelect(n) => SpecQueryRootField::NodeSelect(n.deep_view()),
            QueryRootField::CommandRepresentation { ir } => (
                SpecQueryRootField::CommandRepresentation { ir: ir.deep_view() }
            ),
        }
    }
}

/// IR of a mutation root field.
#[derive(Debug)]
pub enum MutationRootField {
    TypeName { typename: String },
    CommandRepresentation { ir: CommandRepresentation },
}

/// Mathematical model of a `MutationRootField`.
#[verifier::ext_equal]
pub enum SpecMutationRootField {
    TypeName { typename: Seq<char> },
    CommandRepresentation { ir: SpecCommandRepresentation },
}

impl DeepView for MutationRootField {
    type V = SpecMutationRootField;

    open spec fn deep_view(&self) -> SpecMutationRootField {
        match self {
            MutationRootField::TypeName { typename } => SpecMutationRootField::TypeName {
                typename: typename@,
            },
            MutationRootField::CommandRepresentation { ir } => (
                SpecMutationRootField::CommandRepresentation { ir: ir.deep_view() }
            ),
        }
    }
}

/// IR of a root field.
#[derive(Debug)]
pub enum RootField {
    QueryRootField(QueryRootField),
    MutationRootField(MutationRootField),
}

/// Mathematical model of a `RootField`.
#[verifier::ext_equal]
pub enum SpecRootField {
    QueryRootField(SpecQueryRootField),
    MutationRootField(SpecMutationRootField),
}

impl DeepView for RootField {
    type V = SpecRootField;

    open spec fn deep_view(&self) -> SpecRootField {
        match self {
            RootField::QueryRootField(q) => SpecRootField::QueryRootField(q.deep_view()),
            RootField::MutationRootField(m) => SpecRootField::MutationRootField(m.deep_view()),
        }
    }
}

/// The first bound argument of this name, from position `i` on.
pub open spec fn spec_lookup_bound_arg(
    args: Seq<(Seq<char>, SpecValue)>,
    name: Seq<char>,
    i: int,
) -> Option<SpecValue>
    decreases args.len() - i,
{
    if args.len() <= i || i < 0 {
        None
    } else if args[i].0 == name {
        Some(args[i].1)
    } else {
        spec_lookup_bound_arg(args, name, i + 1)
    }
}

/// The first position of a character, from position `i` on.
pub open spec fn spec_find_char(s: Seq<char>, c: char, i: int) -> Option<int>
    decreases s.len() - i,
{
    if s.len() <= i || i < 0 {
        None
    } else if s[i] == c {
        Some(i)
    } else {
        spec_find_char(s, c, i + 1)
    }
}

/// Split a global identifier at its first separator: the type name before it,
/// the key after it. A separator-free identifier is malformed.
pub open spec fn spec_split_global_id(s: Seq<char>) -> Option<(Seq<char>, Seq<char>)> {
    match spec_find_char(s, '/', 0) {
        Some(i) => Some((s.subrange(0, i), s.subrange(i + 1, s.len() as int))),
        None => None,
    }
}

/// Whether some field from position `i` on is an introspection meta root
/// field (`__schema` or `__type`).
pub open spec fn spec_has_meta_root(fields: Seq<SpecNormalizedField>, i: int) -> bool
    decreases fields.len() - i,
{
    if fields.len() <= i || i < 0 {
        false
    } else {
        fields[i].field_call.name == "__schema"@ || fields[i].field_call.name == "__type"@
            || spec_has_meta_root(fields, i + 1)
    }
}

/// Whether some field from position `i` on is a domain root field (anything
/// but `__typename`, `__schema` and `__type`).
pub open spec fn spec_has_domain_root(fields: Seq<SpecNormalizedField>, i: int) -> bool
    decreases fields.len() - i,
{
    if fields.len() <= i || i < 0 {
        false
    } else {
        !(fields[i].field_call.name == "__typename"@ || fields[i].field_call.name == "__schema"@
            || fields[i].field_call.name == "__type"@) || spec_has_domain_root(fields, i + 1)
    }
}

/// Classify one top-level field of a query operation.
pub open spec fn spec_classify_query_field(
    s: SpecSchema,
    role: Seq<char>,
    nf: SpecNormalizedField,
    idx: int,
) -> Result<SpecQueryRootField, IrError> {
    if nf.field_call.name == "__typename"@ {
        Ok(SpecQueryRootField::TypeName { typename: s.query_root })
    } else if nf.field_call.name == "__schema"@ {
        Ok(SpecQueryRootField::SchemaField { role, field_index: idx })
    } else if nf.field_call.name == "__type"@ {
        match spec_lookup_bound_arg(nf.field_call.arguments, "name"@, 0) {
            Some(SpecValue::Str(tn)) => Ok(
                SpecQueryRootField::TypeField { role, typename: tn, field_index: idx },
            ),
            _ => Err(IrError::MalformedTypeField),
        }
    } else {
        match spec_lookup_type(s.types, s.query_root) {
            None => Err(IrError::UnknownRootType),
            Some(t) => match spec_lookup_field(t.fields, nf.field_call.name) {
                None => Err(IrError::UnknownRootField),
                Some(f) => match f.target {
                    SpecFieldTarget::Data => Err(IrError::InvalidRootField),
                    SpecFieldTarget::ModelSelectOne { model_name } => Ok(
                        SpecQueryRootField::ModelSelectOne {
                            ir: SpecModelSelectOne { model_name, field_index: idx },
                        },
                    ),
                    SpecFieldTarget::ModelSelectMany { model_name } => Ok(
                        SpecQueryRootField::ModelSelectMany {
                            ir: SpecModelSelectMany { model_name, field_index: idx },
                        },
                    ),
                    SpecFieldTarget::RelayNode => spec_classify_node(s, nf, idx),
                    SpecFieldTarget::Command { command_name, mutating } => Ok(
                        SpecQueryRootField::CommandRepresentation {
                            ir: SpecCommandRepresentation {
                                command_name,
                                mutating,
                                field_index: idx,
                            },
                        },
                    ),
                },
            },
        }
    }
}

/// Classify a node lookup: decode the global identifier; an identifier whose
/// type part names no known type is the empty (`None`) case, not an error.
pub open spec fn spec_classify_node(
    s: SpecSchema,
    nf: SpecNormalizedField,
    idx: int,
) -> Result<SpecQueryRootField, IrError> {
    match spec_lookup_bound_arg(nf.field_call.arguments, "id"@, 0) {
        Some(SpecValue::Str(gid)) => match spec_split_global_id(gid) {
            Some((tn, key)) => match spec_lookup_type(s.types, tn) {
                Some(_) => Ok(
                    SpecQueryRootField::NodeSelect(
                        Some(SpecNodeSelect { typename: tn, key, field_index: idx }),
                    ),
                ),
                None => Ok(SpecQueryRootField::NodeSelect(None)),
            },
            None => Err(IrError::MalformedGlobalId),
        },
        _ => Err(IrError::MalformedGlobalId),
    }
}

/// Classify one top-level field of a mutation operation: only `__typename`
/// and mutating commands are admissible.
pub open spec fn spec_classify_mutation_field(
    s: SpecSchema,
    nf: SpecNormalizedField,
    idx: int,
) -> Result<SpecMutationRootField, IrError> {
    if nf.field_call.name == "__typename"@ {
        Ok(SpecMutationRootField::TypeName { typename: s.mutation_root })
    } else {
        match spec_lookup_type(s.types, s.mutation_root) {
            None => Err(IrError::UnknownRootType),
            Some(t) => match spec_lookup_field(t.fields, nf.field_call.name) {
                None => Err(IrError::UnknownRootField),
                Some(f) => match f.target {
                    SpecFieldTarget::Command { command_name, mutating } => if mutating {
                        Ok(
                            SpecMutationRootField::CommandRepresentation {
                                ir: SpecCommandRepresentation {
                                    command_name,
                                    mutating,
                                    field_index: idx,
                                },
                            },
                        )
                    } else {
                        Err(IrError::NonMutatingCommandInMutationRoot)
                    },
                    _ => Err(IrError::InvalidRootField),
                },
            },
        }
    }
}

/// Classify the fields from position `i` on.
pub open spec fn spec_classify_fields(
    s: SpecSchema,
    role: Seq<char>,
    op_type: OperationType,
    fields: Seq<SpecNormalizedField>,
    i: int,
) -> Result<Seq<SpecRootField>, IrError>
    decreases fields.len() - i,
{
    if fields.len() <= i || i < 0 {
        Ok(Seq::empty())
    } else {
        let head = if op_type is Query {
            match spec_classify_query_field(s, role, fields[i], i) {
                Ok(q) => Ok(SpecRootField::QueryRootField(q)),
                Err(e) => Err(e),
            }
        } else {
            match spec_classify_mutation_field(s, fields[i], i) {
                Ok(m) => Ok(SpecRootField::MutationRootField(m)),
                Err(e) => Err(e),
            }
        };
        match head {
            Err(e) => Err(e),
            Ok(h) => match spec_classify_fields(s, role, op_type, fields, i + 1) {
                Err(e) => Err(e),
                Ok(rest) => Ok(seq![h].add(rest)),
            },
        }
    }
}

/// The whole classification: meta and domain root fields are mutually
/// exclusive per request, and each field is lowered into exactly one root
/// field of the IR.
pub open spec fn spec_build_root_fields(
    s: SpecSchema,
    role: Seq<char>,
    nr: crate::normalize::SpecNormalizedRequest,
) -> Result<Seq<SpecRootField>, IrError> {
    if nr.op_type is Query && spec_has_meta_root(nr.fields, 0) && spec_has_domain_root(
        nr.fields,
        0,
    ) {
        Err(IrError::MixedRootFields)
    } else {
        spec_classify_fields(s, role, nr.op_type, nr.fields, 0)
    }
}

/// The first bound argument of this name, from position `i` on.
fn lookup_bound_arg<'a>(
    args: &'a Vec<(String, crate::values::Value)>,
    name: &String,
    i: usize,
) -> (r: Option<&'a crate::values::Value>)
    ensures
        match r {
            Some(v) => spec_lookup_bound_arg(args.deep_view(), name@, i as int) == Some(
                v.deep_view(),
            ),
            None => spec_lookup_bound_arg(args.deep_view(), name@, i as int) is None,
        },
    decreases args@.len() - i,
{
    if i >= args.len() {
        None
    } else if args[i].0 == *name {
        Some(&args[i].1)
    } else {
        lookup_bound_arg(args, name, i + 1)
    }
}

/// Split a global identifier at its first separator.
fn split_global_id(gid: &String) -> (r: Option<(String, String)>)
    ensures
        match r {
            Some(p) => spec_split_global_id(gid@) == Some((p.0@, p.1@)),
            None => spec_split_global_id(gid@) is None,
        },
{
    let s = gid.as_str();
    let n = s.unicode_len();
    let mut i: usize = 0;
    while i < n
        invariant
            i <= n,
            n == s@.len(),
            s@ == gid@,
            spec_find_char(gid@, '/', 0) == spec_find_char(gid@, '/', i as int),
        decreases n - i,
    {
        if s.get_char(i) == '/' {
            let tn = s.substring_char(0, i).to_owned();
            let key = s.substring_char(i + 1, n).to_owned();
            return Some((tn, key));
        }
        i = i + 1;
    }
    None
}

/// Classify one top-level field of a query operation.
fn classify_query_field(
    schema: &Schema,
    role: &String,
    nf: &crate::normalize::NormalizedField,
    idx: usize,
) -> (r: Result<QueryRootField, IrError>)
    ensures
        ({
            let sres = spec_classify_query_field(
                schema.deep_view(),
                role@,
                nf.deep_view(),
                idx as int,
            );
            match r {
                Ok(q) => sres == Ok::<_, IrError>(q.deep_view()),
                Err(e) => sres == Err::<SpecQueryRootField, _>(e),
            }
        }),
{
    let name = &nf.field_call.name;
    if crate::normalize::string_is(name, "__typename") {
        Ok(QueryRootField::TypeName { typename: schema.query_root.clone() })
    } else if crate::normalize::string_is(name, "__schema") {
        Ok(QueryRootField::SchemaField { role: role.clone(), field_index: idx })
    } else if crate::normalize::string_is(name, "__type") {
        let key: String = "name".to_owned();
        match lookup_bound_arg(&nf.field_call.arguments, &key, 0) {
            Some(crate::values::Value::Str(tn)) => Ok(
                QueryRootField::TypeField {
                    role: role.clone(),
                    typename: tn.clone(),
                    field_index: idx,
                },
            ),
            _ => Err(IrError::MalformedTypeField),
        }
    } else {
        match schema.get_type(&schema.query_root) {
            None => Err(IrError::UnknownRootType),
            Some(t) => match t.get_field(name) {
                None => Err(IrError::UnknownRootField),
                Some(f) => match &f.target {
                    crate::schema::FieldTarget::Data => Err(IrError::InvalidRootField),
                    crate::schema::FieldTarget::ModelSelectOne { model_name } => Ok(
                        QueryRootField::ModelSelectOne {
                            ir: ModelSelectOne { model_name: model_name.clone(), field_index: idx },
                        },
                    ),
                    crate::schema::FieldTarget::ModelSelectMany { model_name } => Ok(
                        QueryRootField::ModelSelectMany {
                            ir: ModelSelectMany {
                                model_name: model_name.clone(),
                                field_index: idx,
                            },
                        },
                    ),
                    crate::schema::FieldTarget::RelayNode => classify_node(schema, nf, idx),
                    crate::schema::FieldTarget::Command { command_name, mutating } => Ok(
                        QueryRootField::CommandRepresentation {
                            ir: CommandRepresentation {
                                command_name: command_name.clone(),
                                mutating: *mutating,
                                field_index: idx,
                            },
                        },
                    ),
                },
            },
        }
    }
}

/// Classify a node lookup.
fn classify_node(
    schema: &Schema,
    nf: &crate::normalize::NormalizedField,
    idx: usize,
) -> (r: Result<QueryRootField, IrError>)
    ensures
        ({
            let sres = spec_classify_node(schema.deep_view(), nf.deep_view(), idx as int);
            match r {
                Ok(q) => sres == Ok::<_, IrError>(q.deep_view()),
                Err(e) => sres == Err::<SpecQueryRootField, _>(e),
            }
        }),
{
    let key: String = "id".to_owned();
    match lookup_bound_arg(&nf.field_call.arguments, &key, 0) {
        Some(crate::values::Value::Str(gid)) => match split_global_id(gid) {
            Some((tn, k)) => match schema.get_type(&tn) {
                Some(_) => Ok(
                    QueryRootField::NodeSelect(
                        Some(NodeSelect { typename: tn, key: k, field_index: idx }),
                    ),
                ),
                None => Ok(QueryRootField::NodeSelect(None)),
            },
            None => Err(IrError::MalformedGlobalId),
        },
        _ => Err(IrError::MalformedGlobalId),
    }
}

/// Classify one top-level field of a mutation operation.
fn classify_mutation_field(
    schema: &Schema,
    nf: &crate::normalize::NormalizedField,
    idx: usize,
) -> (r: Result<MutationRootField, IrError>)
    ensures
        ({
            let sres = spec_classify_mutation_field(schema.deep_view(), nf.deep_view(), idx as int);
            match r {
                Ok(m) => sres == Ok::<_, IrError>(m.deep_view()),
                Err(e) => sres == Err::<SpecMutationRootField, _>(e),
            }
        }),
{
    let name = &nf.field_call.name;
    if crate::normalize::string_is(name, "__typename") {
        Ok(MutationRootField::TypeName { typename: schema.mutation_root.clone() })
    } else {
        match schema.get_type(&schema.mutation_root) {
            None => Err(IrError::UnknownRootType),
            Some(t) => match t.get_field(name) {
                None => Err(IrError::UnknownRootField),
                Some(f) => match &f.target {
                    crate::schema::FieldTarget::Command { command_name, mutating } => if *mutating {
                        Ok(
                            MutationRootField::CommandRepresentation {
                                ir: CommandRepresentation {
                                    command_name: command_name.clone(),
                                    mutating: *mutating,
                                    field_index: idx,
                                },
                            },
                        )
                    } else {
                        Err(IrError::NonMutatingCommandInMutationRoot)
                    },
                    _ => Err(IrError::InvalidRootField),
                },
            },
        }
    }
}

/// Whether some field from position `i` on is an introspection meta root
/// field.
fn has_meta_root(fields: &Vec<crate::normalize::NormalizedField>, i: usize) -> (r: bool)
    ensures
        r == spec_has_meta_root(fields.deep_view(), i as int),
    decreases fields@.len() - i,
{
    if i >= fields.len() {
        false
    } else {
        let name = &fields[i].field_call.name;
        if crate::normalize::string_is(name, "__schema") || crate::normalize::string_is(
            name,
            "__type",
        ) {
            true
        } else {
            has_meta_root(fields, i + 1)
        }
    }
}

/// Whether some field from position `i` on is a domain root field.
fn has_domain_root(fields: &Vec<crate::normalize::NormalizedField>, i: usize) -> (r: bool)
    ensures
        r == spec_has_domain_root(fields.deep_view(), i as int),
    decreases fields@.len() - i,
{
    if i >= fields.len() {
        false
    } else {
        let name = &fields[i].field_call.name;
        if !(crate::normalize::string_is(name, "__typename") || crate::normalize::string_is(
            name,
            "__schema",
        ) || crate::normalize::string_is(name, "__type")) {
            true
        } else {
            has_domain_root(fields, i + 1)
        }
    }
}

/// Classify the fields from position `i` on.
fn classify_fields(
    schema: &Schema,
    role: &String,
    op_type: OperationType,
    fields: &Vec<crate::normalize::NormalizedField>,
    i: usize,
) -> (r: Result<Vec<RootField>, IrError>)
    ensures
        ({
            let sres = spec_classify_fields(
                schema.deep_view(),
                role@,
                op_type,
                fields.deep_view(),
                i as int,
            );
            match r {
                Ok(v) => sres == Ok::<_, IrError>(v.deep_view()),
                Err(e) => sres == Err::<Seq<SpecRootField>, _>(e),
            }
        }),
    decreases fields@.len() - i,
{
    if i >= fields.len() {
        let out: Vec<RootField> = Vec::new();
        proof {
            assert(out.deep_view() =~= Seq::<SpecRootField>::empty());
        }
        Ok(out)
    } else {
        let head = if matches!(op_type, OperationType::Query) {
            match classify_query_field(schema, role, &fields[i], i) {
                Ok(q) => RootField::QueryRootField(q),
                Err(e) => {
                    return Err(e);
                },
            }
        } else {
            match classify_mutation_field(schema, &fields[i], i) {
                Ok(m) => RootField::MutationRootField(m),
                Err(e) => {
                    return Err(e);
                },
            }
        };
        match classify_fields(schema, role, op_type, fields, i + 1) {
            Err(e) => Err(e),
            Ok(rest) => {
                let ghost hv = head.deep_view();
                let ghost restv = rest.deep_view();
                let mut out: Vec<RootField> = Vec::new();
                out.push(head);
                let mut rest = rest;
                out.append(&mut rest);
                proof {
                    assert(out.deep_view() =~= seq![hv].add(restv));
                }
                Ok(out)
            },
        }
    }
}

/// Lower a normalized request into its root-field IR: meta and domain root
/// fields are mutually exclusive, and each top-level field is classified into
/// exactly one root-field kind, as the spec-level classifier states.
pub fn build_root_fields(schema: &Schema, role: &String, nr: &NormalizedRequest) -> (r: Result<
    Vec<RootField>,
    IrError,
>)
    ensures
        ({
            let sres = spec_build_root_fields(schema.deep_view(), role@, nr.deep_view());
            match r {
                Ok(v) => sres == Ok::<_, IrError>(v.deep_view()),
                Err(e) => sres == Err::<Seq<SpecRootField>, _>(e),
            }
        }),
{
    let is_query = matches!(nr.op_type, OperationType::Query);
    if is_query && has_meta_root(&nr.fields, 0) && has_domain_root(&nr.fields, 0) {
        return Err(IrError::MixedRootFields);
    }
    classify_fields(schema, role, nr.op_type, &nr.fields, 0)
}

/// A request whose root mixes `__schema` or `__type` with a domain field is
/// rejected outright.
pub proof fn lemma_mixed_root_rejected(
    s: SpecSchema,
    role: Seq<char>,
    nr: crate::normalize::SpecNormalizedRequest,
)
    requires
        nr.op_type is Query,
        spec_has_meta_root(nr.fields, 0),
        spec_has_domain_root(nr.fields, 0),
    ensures
        spec_build_root_fields(s, role, nr) == Err::<Seq<SpecRootField>, _>(IrError::MixedRootFields),
{
}

/// A well-formed global identifier whose type part names no known type
/// classifies to the empty node selection, never to an error.
pub proof fn lemma_unknown_node_is_none(
    s: SpecSchema,
    nf: SpecNormalizedField,
    idx: int,
    gid: Seq<char>,
)
    requires
        spec_lookup_bound_arg(nf.field_call.arguments, "id"@, 0) == Some(SpecValue::Str(gid)),
        spec_split_global_id(gid) is Some,
        spec_lookup_type(s.types, spec_split_global_id(gid)->Some_0.0) is None,
    ensures
        spec_classify_node(s, nf, idx) == Ok::<_, IrError>(
            SpecQueryRootField::NodeSelect(None),
        ),
{
}

/// A non-mutating command under the mutation root fails classification.
pub proof fn lemma_non_mutating_command_rejected(
    s: SpecSchema,
    nf: SpecNormalizedField,
    idx: int,
)
    requires
        nf.field_call.name != "__typename"@,
        spec_lookup_type(s.types, s.mutation_root) matches Some(t)
            && spec_lookup_field(t.fields, nf.field_call.name) matches Some(f)
            && f.target matches SpecFieldTarget::Command { mutating: false, .. },
    ensures
        spec_classify_mutation_field(s, nf, idx) == Err::<SpecMutationRootField, _>(
            IrError::NonMutatingCommandInMutationRoot,
        ),
{
}

} // verus!
