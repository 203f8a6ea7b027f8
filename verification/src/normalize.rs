//! Request normalization: validating a parsed document against the slice of
//! the schema a role may see, resolving fragments and variables, and binding
//! checked argument values, producing a selection tree with no ambiguity left.
//!
//! The whole transform is specified by a spec-level normalizer; the executable
//! functions return exactly its value, so normalization is deterministic by
//! contract.

use vstd::prelude::*;
use crate::ast::{
    AstValue, Document, Operation, OperationType, Request, Selection, SpecAstValue, SpecDocument,
    SpecSelection,
};
use crate::schema::{
    spec_field_visible, spec_lookup_field, spec_lookup_type, spec_role_known,
    spec_underlying_type_name, ArgumentDef, Schema, SpecArgumentDef, SpecSchema, SpecTypeDef,
    TypeDef,
};
use crate::values::{SpecValue, Value};

verus! {

broadcast use
    crate::ast::lemma_selections_view,
    crate::ast::lemma_vec_selections_view,
    crate::values::lemma_values_view,
    crate::values::lemma_vec_values_view,
    crate::values::lemma_entries_view,
    crate::values::lemma_vec_entries_view;

/// The distinct ways normalization rejects a request.
#[derive(Clone, Copy, Debug, PartialEq, Eq, Structural)]
pub enum NormalizeError {
    /// The role has no entry in the schema's namespace mapping.
    UnknownRole,
    /// The named operation does not exist, or the document has none.
    UnknownOperation,
    /// The document holds several operations and none was named.
    AmbiguousOperation,
    /// A fragment spread names no fragment of the document.
    UnknownFragment,
    /// Fragment spreads form a cycle.
    FragmentCycle,
    /// A named type is absent from the schema.
    UnknownType,
    /// A field does not exist on its parent type.
    UnknownField,
    /// The field exists on the full schema but the role may not see it.
    FieldNotVisible,
    /// An argument the field does not declare.
    UnknownArgument,
    /// An argument value does not fit the declared argument type.
    ArgumentTypeMismatch,
    /// A required argument was not given.
    MissingRequiredArgument,
    /// A variable was referenced but not supplied.
    VariableNotSupplied,
}

/// A resolved field call: the target field name and its bound argument values.
#[derive(Debug)]
pub struct FieldCall {
    pub name: String,
    pub arguments: Vec<(String, Value)>,
}

/// Mathematical model of a `FieldCall`.
#[verifier::ext_equal]
pub struct SpecFieldCall {
    pub name: Seq<char>,
    pub arguments: Seq<(Seq<char>, SpecValue)>,
}

impl DeepView for FieldCall {
    type V = SpecFieldCall;

    open spec fn deep_view(&self) -> SpecFieldCall {
        SpecFieldCall { name: self.name@, arguments: self.arguments.deep_view() }
    }
}

/// One normalized field: its response key (alias or name), its resolved field
/// call, and its normalized sub-selection.
#[derive(Debug)]
pub struct NormalizedField {
    pub alias: String,
    pub field_call: FieldCall,
    pub selection_set: Vec<NormalizedField>,
}

/// Mathematical model of a `NormalizedField`.
#[verifier::ext_equal]
pub struct SpecNormalizedField {
    pub alias: Seq<char>,
    pub field_call: SpecFieldCall,
    pub selection_set: Seq<SpecNormalizedField>,
}

impl DeepView for NormalizedField {
    type V = SpecNormalizedField;

    open spec fn deep_view(&self) -> SpecNormalizedField
        decreases self,
    {
        SpecNormalizedField {
            alias: self.alias@,
            field_call: self.field_call.deep_view(),
            selection_set: spec_normalized_fields_view(self.selection_set@),
        }
    }
}

/// The models of a sequence of normalized fields.
pub open spec fn spec_normalized_fields_view(fs: Seq<NormalizedField>) -> Seq<SpecNormalizedField>
    decreases fs,
{
    if fs.len() == 0 {
        Seq::empty()
    } else {
        spec_normalized_fields_view(fs.drop_last()).push(fs.last().deep_view())
    }
}

/// `spec_normalized_fields_view` is the pointwise model.
pub broadcast proof fn lemma_normalized_fields_view(fs: Seq<NormalizedField>)
    ensures
        (#[trigger] spec_normalized_fields_view(fs)).len() == fs.len(),
        forall|i: int| 0 <= i < fs.len() ==> spec_normalized_fields_view(fs)[i]
            == fs[i].deep_view(),
    decreases fs.len(),
{
    if fs.len() > 0 {
        lemma_normalized_fields_view(fs.drop_last());
        let pre = spec_normalized_fields_view(fs.drop_last());
        let x = fs.last().deep_view();
        assert(spec_normalized_fields_view(fs) == pre.push(x));
        assert(pre.len() == fs.len() - 1);
        assert forall|i: int| 0 <= i < fs.len() implies spec_normalized_fields_view(fs)[i]
            == fs[i].deep_view() by {
            if i < fs.len() - 1 {
                assert(pre.push(x)[i] == pre[i]);
                assert(fs.drop_last()[i] == fs[i]);
            } else {
                assert(pre.push(x)[i] == x);
                assert(fs.last() == fs[i]);
            }
        }
    }
}

/// The deep view of a vector of normalized fields is the model of its
/// contents.
pub broadcast proof fn lemma_vec_normalized_fields_view(v: Vec<NormalizedField>)
    ensures
        #[trigger] v.deep_view() == spec_normalized_fields_view(v@),
{
    lemma_normalized_fields_view(v@);
    assert(v.deep_view() =~= spec_normalized_fields_view(v@));
}

/// A normalized request: the resolved operation type and the normalized
/// top-level selection set.
#[derive(Debug)]
pub struct NormalizedRequest {
    pub op_type: OperationType,
    pub fields: Vec<NormalizedField>,
}

/// Mathematical model of a `NormalizedRequest`.
#[verifier::ext_equal]
pub struct SpecNormalizedRequest {
    pub op_type: OperationType,
    pub fields: Seq<SpecNormalizedField>,
}

impl DeepView for NormalizedRequest {
    type V = SpecNormalizedRequest;

    open spec fn deep_view(&self) -> SpecNormalizedRequest {
        SpecNormalizedRequest { op_type: self.op_type, fields: self.fields.deep_view() }
    }
}

/// Whether a field name is a meta field here: `__typename` anywhere, and
/// `__schema` / `__type` at the query root only.
pub open spec fn spec_is_meta(name: Seq<char>, at_query_root: bool) -> bool {
    name == "__typename"@ || (at_query_root && (name == "__schema"@ || name == "__type"@))
}

/// The first variable of this name, from position `i` on.
pub open spec fn spec_lookup_var(
    vars: Seq<(Seq<char>, SpecValue)>,
    name: Seq<char>,
    i: int,
) -> Option<SpecValue>
    decreases vars.len() - i,
{
    if vars.len() <= i || i < 0 {
        None
    } else if vars[i].0 == name {
        Some(vars[i].1)
    } else {
        spec_lookup_var(vars, name, i + 1)
    }
}

/// The first argument declaration of this name, from position `i` on.
pub open spec fn spec_lookup_argdef(
    defs: Seq<SpecArgumentDef>,
    name: Seq<char>,
    i: int,
) -> Option<SpecArgumentDef>
    decreases defs.len() - i,
{
    if defs.len() <= i || i < 0 {
        None
    } else if defs[i].name == name {
        Some(defs[i])
    } else {
        spec_lookup_argdef(defs, name, i + 1)
    }
}

/// The first given argument of this name, from position `i` on.
pub open spec fn spec_lookup_given_arg(
    args: Seq<(Seq<char>, SpecAstValue)>,
    name: Seq<char>,
    i: int,
) -> Option<SpecAstValue>
    decreases args.len() - i,
{
    if args.len() <= i || i < 0 {
        None
    } else if args[i].0 == name {
        Some(args[i].1)
    } else {
        spec_lookup_given_arg(args, name, i + 1)
    }
}

/// The first fragment of this name, from position `i` on.
pub open spec fn spec_lookup_fragment(
    frags: Seq<crate::ast::SpecFragmentDef>,
    name: Seq<char>,
    i: int,
) -> Option<crate::ast::SpecFragmentDef>
    decreases frags.len() - i,
{
    if frags.len() <= i || i < 0 {
        None
    } else if frags[i].name == name {
        Some(frags[i])
    } else {
        spec_lookup_fragment(frags, name, i + 1)
    }
}

/// Whether a value fits a type reference. `Null` fits anything; the built-in
/// scalars are checked exactly; a named type outside the built-ins accepts any
/// value; an array requires an array of fitting elements.
pub open spec fn spec_value_matches(v: SpecValue, t: crate::schema::SpecTypeRef) -> bool
    decreases t,
{
    if v is Null {
        true
    } else {
        match t {
            crate::schema::SpecTypeRef::Named(n) => if n == "Int"@ {
                v is Int
            } else if n == "String"@ {
                v is Str
            } else if n == "Boolean"@ {
                v is Bool
            } else if n == "ID"@ {
                v is Str
            } else {
                true
            },
            crate::schema::SpecTypeRef::Array(e) => match v {
                SpecValue::Array(items) => forall|i: int|
                    0 <= i < items.len() ==> spec_value_matches(#[trigger] items[i], *e),
                _ => false,
            },
        }
    }
}

/// A literal stands for itself; a variable resolves against the request's
/// variables or fails.
pub open spec fn spec_resolve_ast_value(
    vars: Seq<(Seq<char>, SpecValue)>,
    av: SpecAstValue,
) -> Result<SpecValue, NormalizeError> {
    match av {
        SpecAstValue::Lit(v) => Ok(v),
        SpecAstValue::Variable(x) => match spec_lookup_var(vars, x, 0) {
            Some(v) => Ok(v),
            None => Err(NormalizeError::VariableNotSupplied),
        },
    }
}

/// Resolve and check the given arguments against the declared ones, from
/// position `i` on: each given argument must be declared, resolve, and fit
/// its declared type.
pub open spec fn spec_resolve_args(
    defs: Seq<SpecArgumentDef>,
    args: Seq<(Seq<char>, SpecAstValue)>,
    vars: Seq<(Seq<char>, SpecValue)>,
    i: int,
) -> Result<Seq<(Seq<char>, SpecValue)>, NormalizeError>
    decreases args.len() - i,
{
    if args.len() <= i || i < 0 {
        Ok(Seq::empty())
    } else {
        match spec_lookup_argdef(defs, args[i].0, 0) {
            None => Err(NormalizeError::UnknownArgument),
            Some(d) => match spec_resolve_ast_value(vars, args[i].1) {
                Err(e) => Err(e),
                Ok(v) => if !spec_value_matches(v, d.arg_type) {
                    Err(NormalizeError::ArgumentTypeMismatch)
                } else {
                    match spec_resolve_args(defs, args, vars, i + 1) {
                        Err(e) => Err(e),
                        Ok(rest) => Ok(seq![(args[i].0, v)].add(rest)),
                    }
                },
            },
        }
    }
}

/// Resolve the arguments of a meta field, from position `i` on: variables must
/// resolve, but meta fields declare no argument list to check against.
pub open spec fn spec_resolve_meta_args(
    args: Seq<(Seq<char>, SpecAstValue)>,
    vars: Seq<(Seq<char>, SpecValue)>,
    i: int,
) -> Result<Seq<(Seq<char>, SpecValue)>, NormalizeError>
    decreases args.len() - i,
{
    if args.len() <= i || i < 0 {
        Ok(Seq::empty())
    } else {
        match spec_resolve_ast_value(vars, args[i].1) {
            Err(e) => Err(e),
            Ok(v) => match spec_resolve_meta_args(args, vars, i + 1) {
                Err(e) => Err(e),
                Ok(rest) => Ok(seq![(args[i].0, v)].add(rest)),
            },
        }
    }
}

/// Whether some declared argument from position `i` on is required but not
/// given.
pub open spec fn spec_missing_required(
    defs: Seq<SpecArgumentDef>,
    args: Seq<(Seq<char>, SpecAstValue)>,
    i: int,
) -> bool
    decreases defs.len() - i,
{
    if defs.len() <= i || i < 0 {
        false
    } else {
        (defs[i].required && spec_lookup_given_arg(args, defs[i].name, 0) is None)
            || spec_missing_required(defs, args, i + 1)
    }
}

/// Normalize the selections of `sels` from position `i` on, against parent
/// type `parent`. `at_query_root` admits `__schema` / `__type`; `meta` marks a
/// subtree under a meta field, where the schema has nothing to say; `depth`
/// bounds fragment expansion, so a spread chain longer than the number of
/// fragments is reported as a cycle.
pub open spec fn spec_normalize_set(
    s: SpecSchema,
    role: Seq<char>,
    doc: SpecDocument,
    vars: Seq<(Seq<char>, SpecValue)>,
    parent: SpecTypeDef,
    at_query_root: bool,
    meta: bool,
    depth: nat,
    sels: Seq<SpecSelection>,
    i: int,
) -> Result<Seq<SpecNormalizedField>, NormalizeError>
    decreases depth, sels, sels.len() - i, 0int,
{
    if sels.len() <= i || i < 0 {
        Ok(Seq::empty())
    } else {
        match spec_normalize_one(s, role, doc, vars, parent, at_query_root, meta, depth, sels[i]) {
            Err(e) => Err(e),
            Ok(head) => match spec_normalize_set(
                s,
                role,
                doc,
                vars,
                parent,
                at_query_root,
                meta,
                depth,
                sels,
                i + 1,
            ) {
                Err(e) => Err(e),
                Ok(rest) => Ok(head.add(rest)),
            },
        }
    }
}

/// Normalize one selection: a field becomes one normalized field; a fragment
/// spread becomes the normalized fields of the fragment's selection set.
pub open spec fn spec_normalize_one(
    s: SpecSchema,
    role: Seq<char>,
    doc: SpecDocument,
    vars: Seq<(Seq<char>, SpecValue)>,
    parent: SpecTypeDef,
    at_query_root: bool,
    meta: bool,
    depth: nat,
    sel: SpecSelection,
) -> Result<Seq<SpecNormalizedField>, NormalizeError>
    decreases depth, sel, 0int, 0int,
{
    match sel {
        SpecSelection::Field { alias, name, arguments, selection_set } => {
            let out_alias = match alias {
                Some(a) => a,
                None => name,
            };
            if meta || spec_is_meta(name, at_query_root) {
                match spec_resolve_meta_args(arguments, vars, 0) {
                    Err(e) => Err(e),
                    Ok(bound) => match spec_normalize_set(
                        s,
                        role,
                        doc,
                        vars,
                        parent,
                        false,
                        true,
                        depth,
                        selection_set,
                        0,
                    ) {
                        Err(e) => Err(e),
                        Ok(sub) => Ok(
                            seq![
                                SpecNormalizedField {
                                    alias: out_alias,
                                    field_call: SpecFieldCall { name, arguments: bound },
                                    selection_set: sub,
                                }
                            ],
                        ),
                    },
                }
            } else {
                match spec_lookup_field(parent.fields, name) {
                    None => Err(NormalizeError::UnknownField),
                    Some(f) => if !spec_field_visible(f, role) {
                        Err(NormalizeError::FieldNotVisible)
                    } else {
                        match spec_resolve_args(f.arguments, arguments, vars, 0) {
                            Err(e) => Err(e),
                            Ok(bound) => if spec_missing_required(f.arguments, arguments, 0) {
                                Err(NormalizeError::MissingRequiredArgument)
                            } else if selection_set.len() == 0 {
                                Ok(
                                    seq![
                                        SpecNormalizedField {
                                            alias: out_alias,
                                            field_call: SpecFieldCall { name, arguments: bound },
                                            selection_set: Seq::empty(),
                                        }
                                    ],
                                )
                            } else {
                                match spec_lookup_type(
                                    s.types,
                                    spec_underlying_type_name(f.field_type),
                                ) {
                                    None => Err(NormalizeError::UnknownType),
                                    Some(sub_parent) => match spec_normalize_set(
                                        s,
                                        role,
                                        doc,
                                        vars,
                                        sub_parent,
                                        false,
                                        false,
                                        depth,
                                        selection_set,
                                        0,
                                    ) {
                                        Err(e) => Err(e),
                                        Ok(sub) => Ok(
                                            seq![
                                                SpecNormalizedField {
                                                    alias: out_alias,
                                                    field_call: SpecFieldCall {
                                                        name,
                                                        arguments: bound,
                                                    },
                                                    selection_set: sub,
                                                }
                                            ],
                                        ),
                                    },
                                }
                            },
                        }
                    },
                }
            }
        },
        SpecSelection::FragmentSpread { name } => {
            match spec_lookup_fragment(doc.fragments, name, 0) {
                None => Err(NormalizeError::UnknownFragment),
                Some(fr) => if depth == 0 {
                    Err(NormalizeError::FragmentCycle)
                } else {
                    spec_normalize_set(
                        s,
                        role,
                        doc,
                        vars,
                        parent,
                        at_query_root,
                        meta,
                        (depth - 1) as nat,
                        fr.selection_set,
                        0,
                    )
                },
            }
        },
    }
}

/// Select the operation the request names: an unnamed request needs the
/// document to hold exactly one operation.
pub open spec fn spec_select_operation(
    ops: Seq<crate::ast::SpecOperation>,
    opname: Option<Seq<char>>,
    i: int,
) -> Result<crate::ast::SpecOperation, NormalizeError>
    decreases ops.len() - i,
{
    match opname {
        Some(n) => if ops.len() <= i || i < 0 {
            Err(NormalizeError::UnknownOperation)
        } else if ops[i].name == Some(n) {
            Ok(ops[i])
        } else {
            spec_select_operation(ops, opname, i + 1)
        },
        None => if ops.len() == 0 {
            Err(NormalizeError::UnknownOperation)
        } else if ops.len() == 1 {
            Ok(ops[0])
        } else {
            Err(NormalizeError::AmbiguousOperation)
        },
    }
}

/// The whole normalization, as a mathematical function of the schema, the
/// role and the request.
pub open spec fn spec_normalize_request(
    s: SpecSchema,
    role: Seq<char>,
    req: crate::ast::SpecRequest,
) -> Result<SpecNormalizedRequest, NormalizeError> {
    if !spec_role_known(s, role) {
        Err(NormalizeError::UnknownRole)
    } else {
        match spec_select_operation(req.query.operations, req.operation_name, 0) {
            Err(e) => Err(e),
            Ok(op) => {
                let root_name = if op.op_type is Query {
                    s.query_root
                } else {
                    s.mutation_root
                };
                match spec_lookup_type(s.types, root_name) {
                    None => Err(NormalizeError::UnknownType),
                    Some(root) => match spec_normalize_set(
                        s,
                        role,
                        req.query,
                        req.variables,
                        root,
                        op.op_type is Query,
                        false,
                        req.query.fragments.len(),
                        op.selection_set,
                        0,
                    ) {
                        Err(e) => Err(e),
                        Ok(fields) => Ok(SpecNormalizedRequest { op_type: op.op_type, fields }),
                    },
                }
            },
        }
    }
}

/// Whether a string equals a literal.
pub(crate) fn string_is(s: &String, lit: &str) -> (r: bool)
    ensures
        r == (s@ == lit@),
{
    let t: String = lit.to_owned();
    *s == t
}

/// The first variable of this name, from position `i` on.
fn lookup_var<'a>(vars: &'a Vec<(String, Value)>, name: &String, i: usize) -> (r: Option<
    &'a Value,
>)
    ensures
        match r {
            Some(v) => spec_lookup_var(vars.deep_view(), name@, i as int) == Some(v.deep_view()),
            None => spec_lookup_var(vars.deep_view(), name@, i as int) is None,
        },
    decreases vars@.len() - i,
{
    if i >= vars.len() {
        None
    } else if vars[i].0 == *name {
        Some(&vars[i].1)
    } else {
        lookup_var(vars, name, i + 1)
    }
}

/// The first argument declaration of this name, from position `i` on.
fn lookup_argdef<'a>(defs: &'a Vec<ArgumentDef>, name: &String, i: usize) -> (r: Option<
    &'a ArgumentDef,
>)
    ensures
        match r {
            Some(d) => spec_lookup_argdef(defs.deep_view(), name@, i as int) == Some(d.deep_view()),
            None => spec_lookup_argdef(defs.deep_view(), name@, i as int) is None,
        },
    decreases defs@.len() - i,
{
    if i >= defs.len() {
        None
    } else if defs[i].name == *name {
        Some(&defs[i])
    } else {
        lookup_argdef(defs, name, i + 1)
    }
}

/// Whether some given argument carries this name, from position `i` on.
fn has_given_arg(args: &Vec<(String, AstValue)>, name: &String, i: usize) -> (r: bool)
    ensures
        r == (spec_lookup_given_arg(args.deep_view(), name@, i as int) is Some),
    decreases args@.len() - i,
{
    if i >= args.len() {
        false
    } else if args[i].0 == *name {
        true
    } else {
        has_given_arg(args, name, i + 1)
    }
}

/// The first fragment of this name, from position `i` on.
fn lookup_fragment<'a>(
    frags: &'a Vec<crate::ast::FragmentDef>,
    name: &String,
    i: usize,
) -> (r: Option<&'a crate::ast::FragmentDef>)
    ensures
        match r {
            Some(f) => spec_lookup_fragment(frags.deep_view(), name@, i as int) == Some(
                f.deep_view(),
            ),
            None => spec_lookup_fragment(frags.deep_view(), name@, i as int) is None,
        },
    decreases frags@.len() - i,
{
    if i >= frags.len() {
        None
    } else if frags[i].name == *name {
        Some(&frags[i])
    } else {
        lookup_fragment(frags, name, i + 1)
    }
}

/// Whether a value fits a type reference.
#[verifier::loop_isolation(false)]
fn value_matches(v: &Value, t: &crate::schema::TypeRef) -> (r: bool)
    ensures
        r == spec_value_matches(v.deep_view(), t.deep_view()),
    decreases *t,
{
    match v {
        Value::Null => true,
        _ => match t {
            crate::schema::TypeRef::Named(n) => {
                if string_is(n, "Int") {
                    matches!(v, Value::Int(_))
                } else if string_is(n, "String") {
                    matches!(v, Value::Str(_))
                } else if string_is(n, "Boolean") {
                    matches!(v, Value::Bool(_))
                } else if string_is(n, "ID") {
                    matches!(v, Value::Str(_))
                } else {
                    true
                }
            },
            crate::schema::TypeRef::Array(e) => match v {
                Value::Array(items) => {
                    let ghost vd = v.deep_view();
                    let ghost ed = (**e).deep_view();
                    proof {
                        assert(vd->Array_0 == crate::values::spec_values_view(items@));
                    }
                    let mut j: usize = 0;
                    while j < items.len()
                        invariant
                            j <= items@.len(),
                            forall|k: int| 0 <= k < j
                                ==> spec_value_matches(#[trigger] vd->Array_0[k], ed),
                        decreases items@.len() - j,
                    {
                        let ok = value_matches(&items[j], e);
                        proof {
                            assert(vd->Array_0[j as int] == items@[j as int].deep_view());
                        }
                        if !ok {
                            proof {
                                assert(!spec_value_matches(vd->Array_0[j as int], ed));
                            }
                            return false;
                        }
                        j = j + 1;
                    }
                    true
                },
                _ => false,
            },
        },
    }
}

/// A literal stands for itself; a variable resolves against the request's
/// variables or fails.
fn resolve_ast_value(vars: &Vec<(String, Value)>, av: &AstValue) -> (r: Result<
    Value,
    NormalizeError,
>)
    ensures
        match r {
            Ok(v) => spec_resolve_ast_value(vars.deep_view(), av.deep_view()) == Ok::<
                _,
                NormalizeError,
            >(v.deep_view()),
            Err(e) => spec_resolve_ast_value(vars.deep_view(), av.deep_view()) == Err::<
                SpecValue,
                _,
            >(e),
        },
{
    match av {
        AstValue::Lit(v) => Ok(v.clone()),
        AstValue::Variable(x) => match lookup_var(vars, x, 0) {
            Some(v) => Ok(v.clone()),
            None => Err(NormalizeError::VariableNotSupplied),
        },
    }
}

/// Resolve and check the given arguments against the declared ones, from
/// position `i` on.
fn resolve_args(
    defs: &Vec<ArgumentDef>,
    args: &Vec<(String, AstValue)>,
    vars: &Vec<(String, Value)>,
    i: usize,
) -> (r: Result<Vec<(String, Value)>, NormalizeError>)
    ensures
        ({
            let sres = spec_resolve_args(defs.deep_view(), args.deep_view(), vars.deep_view(), i as int);
            match r {
                Ok(v) => sres == Ok::<_, NormalizeError>(v.deep_view()),
                Err(e) => sres == Err::<Seq<(Seq<char>, SpecValue)>, _>(e),
            }
        }),
    decreases args@.len() - i,
{
    if i >= args.len() {
        let out: Vec<(String, Value)> = Vec::new();
        proof {
            assert(out.deep_view() =~= Seq::<(Seq<char>, SpecValue)>::empty());
        }
        Ok(out)
    } else {
        match lookup_argdef(defs, &args[i].0, 0) {
            None => Err(NormalizeError::UnknownArgument),
            Some(d) => match resolve_ast_value(vars, &args[i].1) {
                Err(e) => Err(e),
                Ok(v) => if !value_matches(&v, &d.arg_type) {
                    Err(NormalizeError::ArgumentTypeMismatch)
                } else {
                    match resolve_args(defs, args, vars, i + 1) {
                        Err(e) => Err(e),
                        Ok(rest) => {
                            let ghost vv = v.deep_view();
                            let ghost restv = rest.deep_view();
                            let n = args[i].0.clone();
                            let mut out: Vec<(String, Value)> = Vec::new();
                            out.push((n, v));
                            let mut rest = rest;
                            out.append(&mut rest);
                            proof {
                                assert(out.deep_view() =~= seq![
                                    (args.deep_view()[i as int].0, vv)
                                ].add(restv));
                            }
                            Ok(out)
                        },
                    }
                },
            },
        }
    }
}

/// Resolve the arguments of a meta field, from position `i` on.
fn resolve_meta_args(
    args: &Vec<(String, AstValue)>,
    vars: &Vec<(String, Value)>,
    i: usize,
) -> (r: Result<Vec<(String, Value)>, NormalizeError>)
    ensures
        ({
            let sres = spec_resolve_meta_args(args.deep_view(), vars.deep_view(), i as int);
            match r {
                Ok(v) => sres == Ok::<_, NormalizeError>(v.deep_view()),
                Err(e) => sres == Err::<Seq<(Seq<char>, SpecValue)>, _>(e),
            }
        }),
    decreases args@.len() - i,
{
    if i >= args.len() {
        let out: Vec<(String, Value)> = Vec::new();
        proof {
            assert(out.deep_view() =~= Seq::<(Seq<char>, SpecValue)>::empty());
        }
        Ok(out)
    } else {
        match resolve_ast_value(vars, &args[i].1) {
            Err(e) => Err(e),
            Ok(v) => match resolve_meta_args(args, vars, i + 1) {
                Err(e) => Err(e),
                Ok(rest) => {
                    let ghost vv = v.deep_view();
                    let ghost restv = rest.deep_view();
                    let n = args[i].0.clone();
                    let mut out: Vec<(String, Value)> = Vec::new();
                    out.push((n, v));
                    let mut rest = rest;
                    out.append(&mut rest);
                    proof {
                        assert(out.deep_view() =~= seq![
                            (args.deep_view()[i as int].0, vv)
                        ].add(restv));
                    }
                    Ok(out)
                },
            },
        }
    }
}

/// Whether some declared argument from position `i` on is required but not
/// given.
fn missing_required(defs: &Vec<ArgumentDef>, args: &Vec<(String, AstValue)>, i: usize) -> (r: bool)
    ensures
        r == spec_missing_required(defs.deep_view(), args.deep_view(), i as int),
    decreases defs@.len() - i,
{
    if i >= defs.len() {
        false
    } else {
        if defs[i].required && !has_given_arg(args, &defs[i].name, 0) {
            true
        } else {
            missing_required(defs, args, i + 1)
        }
    }
}

/// Build the one-field result every normalized field selection yields.
fn singleton(
    alias: String,
    name: String,
    bound: Vec<(String, Value)>,
    sub: Vec<NormalizedField>,
) -> (r: Vec<NormalizedField>)
    ensures
        r.deep_view() == seq![
            SpecNormalizedField {
                alias: alias@,
                field_call: SpecFieldCall { name: name@, arguments: bound.deep_view() },
                selection_set: sub.deep_view(),
            }
        ],
{
    proof {
        lemma_vec_normalized_fields_view(sub);
    }
    let ghost subv = sub.deep_view();
    let ghost boundv = bound.deep_view();
    let ghost aliasv = alias@;
    let ghost namev = name@;
    let nf = NormalizedField {
        alias,
        field_call: FieldCall { name, arguments: bound },
        selection_set: sub,
    };
    let ghost nfv = nf.deep_view();
    let mut out: Vec<NormalizedField> = Vec::new();
    out.push(nf);
    proof {
        lemma_vec_normalized_fields_view(nf.selection_set);
        assert(nfv.selection_set == subv);
        assert(nfv == SpecNormalizedField {
            alias: aliasv,
            field_call: SpecFieldCall { name: namev, arguments: boundv },
            selection_set: subv,
        });
        assert(out.deep_view() =~= seq![nfv]);
    }
    out
}

/// Normalize the selections of `sels` from position `i` on, against parent
/// type `parent`. Returns exactly what the spec-level normalizer returns.
fn normalize_set(
    schema: &Schema,
    role: &String,
    doc: &Document,
    vars: &Vec<(String, Value)>,
    parent: &TypeDef,
    at_query_root: bool,
    meta: bool,
    depth: usize,
    sels: &Vec<Selection>,
    i: usize,
) -> (r: Result<Vec<NormalizedField>, NormalizeError>)
    ensures
        ({
            let sres = spec_normalize_set(
                schema.deep_view(),
                role@,
                doc.deep_view(),
                vars.deep_view(),
                parent.deep_view(),
                at_query_root,
                meta,
                depth as nat,
                sels.deep_view(),
                i as int,
            );
            match r {
                Ok(v) => sres == Ok::<_, NormalizeError>(v.deep_view()),
                Err(e) => sres == Err::<Seq<SpecNormalizedField>, _>(e),
            }
        }),
    decreases depth, *sels, sels@.len() - i, 0int,
{
    if i >= sels.len() {
        let out: Vec<NormalizedField> = Vec::new();
        proof {
            assert(out.deep_view() =~= Seq::<SpecNormalizedField>::empty());
        }
        Ok(out)
    } else {
        match normalize_one(schema, role, doc, vars, parent, at_query_root, meta, depth, &sels[i]) {
            Err(e) => Err(e),
            Ok(head) => match normalize_set(
                schema,
                role,
                doc,
                vars,
                parent,
                at_query_root,
                meta,
                depth,
                sels,
                i + 1,
            ) {
                Err(e) => Err(e),
                Ok(rest) => {
                    let ghost hv = head.deep_view();
                    let ghost rv = rest.deep_view();
                    let mut head = head;
                    let mut rest = rest;
                    head.append(&mut rest);
                    proof {
                        lemma_vec_normalized_fields_view(head);
                        assert(head.deep_view() =~= hv.add(rv));
                    }
                    Ok(head)
                },
            },
        }
    }
}

/// Normalize one selection: a field becomes one normalized field; a fragment
/// spread becomes the normalized fields of the fragment's selection set.
fn normalize_one(
    schema: &Schema,
    role: &String,
    doc: &Document,
    vars: &Vec<(String, Value)>,
    parent: &TypeDef,
    at_query_root: bool,
    meta: bool,
    depth: usize,
    sel: &Selection,
) -> (r: Result<Vec<NormalizedField>, NormalizeError>)
    ensures
        ({
            let sres = spec_normalize_one(
                schema.deep_view(),
                role@,
                doc.deep_view(),
                vars.deep_view(),
                parent.deep_view(),
                at_query_root,
                meta,
                depth as nat,
                sel.deep_view(),
            );
            match r {
                Ok(v) => sres == Ok::<_, NormalizeError>(v.deep_view()),
                Err(e) => sres == Err::<Seq<SpecNormalizedField>, _>(e),
            }
        }),
    decreases depth, *sel, 0int, 0int,
{
    match sel {
        Selection::Field { alias, name, arguments, selection_set } => {
            let out_alias: String = match alias {
                Some(a) => a.clone(),
                None => name.clone(),
            };
            let is_meta = string_is(name, "__typename") || (at_query_root && (string_is(
                name,
                "__schema",
            ) || string_is(name, "__type")));
            if meta || is_meta {
                match resolve_meta_args(arguments, vars, 0) {
                    Err(e) => Err(e),
                    Ok(bound) => match normalize_set(
                        schema,
                        role,
                        doc,
                        vars,
                        parent,
                        false,
                        true,
                        depth,
                        selection_set,
                        0,
                    ) {
                        Err(e) => Err(e),
                        Ok(sub) => Ok(singleton(out_alias, name.clone(), bound, sub)),
                    },
                }
            } else {
                match parent.get_field(name) {
                    None => Err(NormalizeError::UnknownField),
                    Some(f) => if !f.is_visible_to(role) {
                        Err(NormalizeError::FieldNotVisible)
                    } else {
                        match resolve_args(&f.arguments, arguments, vars, 0) {
                            Err(e) => Err(e),
                            Ok(bound) => if missing_required(&f.arguments, arguments, 0) {
                                Err(NormalizeError::MissingRequiredArgument)
                            } else if selection_set.len() == 0 {
                                let sub: Vec<NormalizedField> = Vec::new();
                                proof {
                                    assert(sub.deep_view() =~= Seq::<SpecNormalizedField>::empty());
                                }
                                Ok(singleton(out_alias, name.clone(), bound, sub))
                            } else {
                                match schema.get_type(f.field_type.underlying_name()) {
                                    None => Err(NormalizeError::UnknownType),
                                    Some(sub_parent) => match normalize_set(
                                        schema,
                                        role,
                                        doc,
                                        vars,
                                        sub_parent,
                                        false,
                                        false,
                                        depth,
                                        selection_set,
                                        0,
                                    ) {
                                        Err(e) => Err(e),
                                        Ok(sub) => Ok(singleton(out_alias, name.clone(), bound, sub)),
                                    },
                                }
                            },
                        }
                    },
                }
            }
        },
        Selection::FragmentSpread { name } => {
            match lookup_fragment(&doc.fragments, name, 0) {
                None => Err(NormalizeError::UnknownFragment),
                Some(fr) => if depth == 0 {
                    Err(NormalizeError::FragmentCycle)
                } else {
                    normalize_set(
                        schema,
                        role,
                        doc,
                        vars,
                        parent,
                        at_query_root,
                        meta,
                        depth - 1,
                        &fr.selection_set,
                        0,
                    )
                },
            }
        },
    }
}

/// Select the operation the request names.
fn select_operation<'a>(
    ops: &'a Vec<Operation>,
    opname: &Option<String>,
    i: usize,
) -> (r: Result<&'a Operation, NormalizeError>)
    ensures
        match r {
            Ok(op) => spec_select_operation(ops.deep_view(), opname.deep_view(), i as int) == Ok::<
                _,
                NormalizeError,
            >(op.deep_view()),
            Err(e) => spec_select_operation(ops.deep_view(), opname.deep_view(), i as int) == Err::<
                crate::ast::SpecOperation,
                _,
            >(e),
        },
    decreases ops@.len() - i,
{
    match opname {
        Some(n) => {
            if i >= ops.len() {
                Err(NormalizeError::UnknownOperation)
            } else {
                let hit = match &ops[i].name {
                    Some(m) => *m == *n,
                    None => false,
                };
                if hit {
                    Ok(&ops[i])
                } else {
                    select_operation(ops, opname, i + 1)
                }
            }
        },
        None => {
            if ops.len() == 0 {
                Err(NormalizeError::UnknownOperation)
            } else if ops.len() == 1 {
                Ok(&ops[0])
            } else {
                Err(NormalizeError::AmbiguousOperation)
            }
        },
    }
}

/// Normalize a request against the slice of the schema `role` may see: the
/// result is exactly the value of the spec-level normalizer, so every field of
/// the normalized tree exists on its parent type and is visible to the role,
/// every argument is declared, bound and well-typed, and every fragment and
/// variable is resolved.
pub fn normalize_request(schema: &Schema, role: &String, request: &Request) -> (r: Result<
    NormalizedRequest,
    NormalizeError,
>)
    ensures
        ({
            let sres = spec_normalize_request(schema.deep_view(), role@, request.deep_view());
            match r {
                Ok(n) => sres == Ok::<_, NormalizeError>(n.deep_view()),
                Err(e) => sres == Err::<SpecNormalizedRequest, _>(e),
            }
        }),
{
    if !schema.has_role(role) {
        return Err(NormalizeError::UnknownRole);
    }
    let op = match select_operation(&request.query.operations, &request.operation_name, 0) {
        Ok(op) => op,
        Err(e) => return Err(e),
    };
    let is_query = matches!(op.op_type, OperationType::Query);
    let root_name = if is_query {
        &schema.query_root
    } else {
        &schema.mutation_root
    };
    let root = match schema.get_type(root_name) {
        Some(t) => t,
        None => return Err(NormalizeError::UnknownType),
    };
    match normalize_set(
        schema,
        role,
        &request.query,
        &request.variables,
        root,
        is_query,
        false,
        request.query.fragments.len(),
        &op.selection_set,
        0,
    ) {
        Err(e) => Err(e),
        Ok(fields) => Ok(NormalizedRequest { op_type: op.op_type, fields }),
    }
}

/// Changing the role changes nothing but visibility: selections that
/// normalize under one role normalize to the very same fields under another,
/// unless some field is not visible to the new role, in which case the walk
/// fails with the role-visibility error — it never silently drops a field.
pub proof fn lemma_role_change_set(
    s: SpecSchema,
    r1: Seq<char>,
    r2: Seq<char>,
    doc: SpecDocument,
    vars: Seq<(Seq<char>, SpecValue)>,
    parent: SpecTypeDef,
    at_query_root: bool,
    meta: bool,
    depth: nat,
    sels: Seq<SpecSelection>,
    i: int,
    n: Seq<SpecNormalizedField>,
)
    requires
        spec_normalize_set(s, r1, doc, vars, parent, at_query_root, meta, depth, sels, i) == Ok::<
            _,
            NormalizeError,
        >(n),
    ensures
        spec_normalize_set(s, r2, doc, vars, parent, at_query_root, meta, depth, sels, i) == Ok::<
            _,
            NormalizeError,
        >(n) || spec_normalize_set(s, r2, doc, vars, parent, at_query_root, meta, depth, sels, i)
            == Err::<Seq<SpecNormalizedField>, _>(NormalizeError::FieldNotVisible),
    decreases depth, sels, sels.len() - i, 1int,
{
    if sels.len() <= i || i < 0 {
    } else {
        match spec_normalize_one(s, r1, doc, vars, parent, at_query_root, meta, depth, sels[i]) {
            Ok(head) => {
                lemma_role_change_one(
                    s,
                    r1,
                    r2,
                    doc,
                    vars,
                    parent,
                    at_query_root,
                    meta,
                    depth,
                    sels[i],
                    head,
                );
                match spec_normalize_set(
                    s,
                    r1,
                    doc,
                    vars,
                    parent,
                    at_query_root,
                    meta,
                    depth,
                    sels,
                    i + 1,
                ) {
                    Ok(rest) => {
                        lemma_role_change_set(
                            s,
                            r1,
                            r2,
                            doc,
                            vars,
                            parent,
                            at_query_root,
                            meta,
                            depth,
                            sels,
                            i + 1,
                            rest,
                        );
                    },
                    Err(_) => {},
                }
            },
            Err(_) => {},
        }
    }
}

/// One selection under a changed role: the same normalized fields, or the
/// role-visibility error.
pub proof fn lemma_role_change_one(
    s: SpecSchema,
    r1: Seq<char>,
    r2: Seq<char>,
    doc: SpecDocument,
    vars: Seq<(Seq<char>, SpecValue)>,
    parent: SpecTypeDef,
    at_query_root: bool,
    meta: bool,
    depth: nat,
    sel: SpecSelection,
    n: Seq<SpecNormalizedField>,
)
    requires
        spec_normalize_one(s, r1, doc, vars, parent, at_query_root, meta, depth, sel) == Ok::<
            _,
            NormalizeError,
        >(n),
    ensures
        spec_normalize_one(s, r2, doc, vars, parent, at_query_root, meta, depth, sel) == Ok::<
            _,
            NormalizeError,
        >(n) || spec_normalize_one(s, r2, doc, vars, parent, at_query_root, meta, depth, sel)
            == Err::<Seq<SpecNormalizedField>, _>(NormalizeError::FieldNotVisible),
    decreases depth, sel, 0int, 0int,
{
    match sel {
        SpecSelection::Field { alias, name, arguments, selection_set } => {
            if meta || spec_is_meta(name, at_query_root) {
                match spec_resolve_meta_args(arguments, vars, 0) {
                    Err(_) => {},
                    Ok(_) => match spec_normalize_set(
                        s,
                        r1,
                        doc,
                        vars,
                        parent,
                        false,
                        true,
                        depth,
                        selection_set,
                        0,
                    ) {
                        Ok(sub) => {
                            lemma_role_change_set(
                                s,
                                r1,
                                r2,
                                doc,
                                vars,
                                parent,
                                false,
                                true,
                                depth,
                                selection_set,
                                0,
                                sub,
                            );
                        },
                        Err(_) => {},
                    },
                }
            } else {
                match spec_lookup_field(parent.fields, name) {
                    None => {},
                    Some(f) => {
                        if spec_field_visible(f, r1) && spec_field_visible(f, r2)
                            && selection_set.len() > 0 {
                            match spec_lookup_type(
                                s.types,
                                spec_underlying_type_name(f.field_type),
                            ) {
                                None => {},
                                Some(sub_parent) => match spec_normalize_set(
                                    s,
                                    r1,
                                    doc,
                                    vars,
                                    sub_parent,
                                    false,
                                    false,
                                    depth,
                                    selection_set,
                                    0,
                                ) {
                                    Ok(sub) => {
                                        lemma_role_change_set(
                                            s,
                                            r1,
                                            r2,
                                            doc,
                                            vars,
                                            sub_parent,
                                            false,
                                            false,
                                            depth,
                                            selection_set,
                                            0,
                                            sub,
                                        );
                                    },
                                    Err(_) => {},
                                },
                            }
                        }
                    },
                }
            }
        },
        SpecSelection::FragmentSpread { name } => {
            match spec_lookup_fragment(doc.fragments, name, 0) {
                None => {},
                Some(fr) => {
                    if depth > 0 {
                        match spec_normalize_set(
                            s,
                            r1,
                            doc,
                            vars,
                            parent,
                            at_query_root,
                            meta,
                            (depth - 1) as nat,
                            fr.selection_set,
                            0,
                        ) {
                            Ok(sub) => {
                                lemma_role_change_set(
                                    s,
                                    r1,
                                    r2,
                                    doc,
                                    vars,
                                    parent,
                                    at_query_root,
                                    meta,
                                    (depth - 1) as nat,
                                    fr.selection_set,
                                    0,
                                    sub,
                                );
                            },
                            Err(_) => {},
                        }
                    }
                },
            }
        },
    }
}

/// A document that normalizes under one role normalizes identically under any
/// other known role whose slice of the schema covers every field it touches;
/// and where the new role may not see some touched field, normalization fails
/// with the role-visibility error — the field is never silently dropped.
pub proof fn lemma_role_visibility(
    s: SpecSchema,
    r1: Seq<char>,
    r2: Seq<char>,
    req: crate::ast::SpecRequest,
    n: SpecNormalizedRequest,
)
    requires
        spec_normalize_request(s, r1, req) == Ok::<_, NormalizeError>(n),
        spec_role_known(s, r2),
    ensures
        spec_normalize_request(s, r2, req) == Ok::<_, NormalizeError>(n)
            || spec_normalize_request(s, r2, req) == Err::<SpecNormalizedRequest, _>(
            NormalizeError::FieldNotVisible,
        ),
{
    match spec_select_operation(req.query.operations, req.operation_name, 0) {
        Err(_) => {},
        Ok(op) => {
            let root_name = if op.op_type is Query {
                s.query_root
            } else {
                s.mutation_root
            };
            match spec_lookup_type(s.types, root_name) {
                None => {},
                Some(root) => match spec_normalize_set(
                    s,
                    r1,
                    req.query,
                    req.variables,
                    root,
                    op.op_type is Query,
                    false,
                    req.query.fragments.len(),
                    op.selection_set,
                    0,
                ) {
                    Ok(fields) => {
                        lemma_role_change_set(
                            s,
                            r1,
                            r2,
                            req.query,
                            req.variables,
                            root,
                            op.op_type is Query,
                            false,
                            req.query.fragments.len(),
                            op.selection_set,
                            0,
                            fields,
                        );
                    },
                    Err(_) => {},
                },
            }
        },
    }
}

/// Normalization is idempotent: the same parsed document against the same
/// schema and role always yields the same normalized tree, because the result
/// is a function of schema, role and request alone.
pub proof fn lemma_normalize_deterministic(
    s: SpecSchema,
    role: Seq<char>,
    req: crate::ast::SpecRequest,
    r1: Result<SpecNormalizedRequest, NormalizeError>,
    r2: Result<SpecNormalizedRequest, NormalizeError>,
)
    requires
        r1 == spec_normalize_request(s, role, req),
        r2 == spec_normalize_request(s, role, req),
    ensures
        r1 == r2,
{
}

} // verus!
