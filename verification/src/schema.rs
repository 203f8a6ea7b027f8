//! The role-partitioned schema: types, fields, arguments, and for every field
//! the set of roles permitted to select it. A role ("namespace") is an opaque
//! key; looking a role up in the schema yields the subset of fields visible to
//! it, and an unknown role is a normalization failure, never a panic.

use vstd::prelude::*;

verus! {

/// A reference to a type: either a named type or an array of some element type.
#[derive(Debug)]
pub enum TypeRef {
    Named(String),
    Array(Box<TypeRef>),
}

/// Mathematical model of a `TypeRef`.
#[verifier::ext_equal]
pub enum SpecTypeRef {
    Named(Seq<char>),
    Array(Box<SpecTypeRef>),
}

impl DeepView for TypeRef {
    type V = SpecTypeRef;

    open spec fn deep_view(&self) -> SpecTypeRef
        decreases self,
    {
        match self {
            TypeRef::Named(n) => SpecTypeRef::Named(n@),
            TypeRef::Array(e) => SpecTypeRef::Array(Box::new((**e).deep_view())),
        }
    }
}

/// The name of the named type underlying a type reference (an array's
/// innermost element type).
pub open spec fn spec_underlying_type_name(t: SpecTypeRef) -> Seq<char>
    decreases t,
{
    match t {
        SpecTypeRef::Named(n) => n,
        SpecTypeRef::Array(e) => spec_underlying_type_name(*e),
    }
}

impl TypeRef {
    /// The name of the named type underlying this reference.
    pub fn underlying_name(&self) -> (r: &String)
        ensures
            r@ == spec_underlying_type_name(self.deep_view()),
        decreases self,
    {
        match self {
            TypeRef::Named(n) => n,
            TypeRef::Array(e) => e.underlying_name(),
        }
    }
}

/// An argument a field accepts.
#[derive(Debug)]
pub struct ArgumentDef {
    pub name: String,
    pub arg_type: TypeRef,
    pub required: bool,
}

/// Mathematical model of an `ArgumentDef`.
#[verifier::ext_equal]
pub struct SpecArgumentDef {
    pub name: Seq<char>,
    pub arg_type: SpecTypeRef,
    pub required: bool,
}

impl DeepView for ArgumentDef {
    type V = SpecArgumentDef;

    open spec fn deep_view(&self) -> SpecArgumentDef {
        SpecArgumentDef {
            name: self.name@,
            arg_type: self.arg_type.deep_view(),
            required: self.required,
        }
    }
}

/// What a field stands for, as declared by the schema. Root fields are
/// classified into operation kinds from this declaration alone.
#[derive(Debug)]
pub enum FieldTarget {
    /// A plain data field (scalar or nested object).
    Data,
    /// Selects a single row of a model through its unique key.
    ModelSelectOne { model_name: String },
    /// Selects many rows of a model.
    ModelSelectMany { model_name: String },
    /// Looks an entity up by a single opaque global identifier.
    RelayNode,
    /// Invokes a command; only mutating commands may stand under the
    /// mutation root.
    Command { command_name: String, mutating: bool },
}

/// Mathematical model of a `FieldTarget`.
#[verifier::ext_equal]
pub enum SpecFieldTarget {
    Data,
    ModelSelectOne { model_name: Seq<char> },
    ModelSelectMany { model_name: Seq<char> },
    RelayNode,
    Command { command_name: Seq<char>, mutating: bool },
}

impl DeepView for FieldTarget {
    type V = SpecFieldTarget;

    open spec fn deep_view(&self) -> SpecFieldTarget {
        match self {
            FieldTarget::Data => SpecFieldTarget::Data,
            FieldTarget::ModelSelectOne { model_name } => SpecFieldTarget::ModelSelectOne {
                model_name: model_name@,
            },
            FieldTarget::ModelSelectMany { model_name } => SpecFieldTarget::ModelSelectMany {
                model_name: model_name@,
            },
            FieldTarget::RelayNode => SpecFieldTarget::RelayNode,
            FieldTarget::Command { command_name, mutating } => SpecFieldTarget::Command {
                command_name: command_name@,
                mutating: *mutating,
            },
        }
    }
}

/// A field of an object type, with the roles permitted to select it.
#[derive(Debug)]
pub struct FieldDef {
    pub name: String,
    pub field_type: TypeRef,
    pub arguments: Vec<ArgumentDef>,
    pub visible_to: Vec<String>,
    pub target: FieldTarget,
}

/// Mathematical model of a `FieldDef`.
#[verifier::ext_equal]
pub struct SpecFieldDef {
    pub name: Seq<char>,
    pub field_type: SpecTypeRef,
    pub arguments: Seq<SpecArgumentDef>,
    pub visible_to: Seq<Seq<char>>,
    pub target: SpecFieldTarget,
}

impl DeepView for FieldDef {
    type V = SpecFieldDef;

    open spec fn deep_view(&self) -> SpecFieldDef {
        SpecFieldDef {
            name: self.name@,
            field_type: self.field_type.deep_view(),
            arguments: self.arguments.deep_view(),
            visible_to: self.visible_to.deep_view(),
            target: self.target.deep_view(),
        }
    }
}

/// An object type of the schema.
#[derive(Debug)]
pub struct TypeDef {
    pub name: String,
    pub fields: Vec<FieldDef>,
}

/// Mathematical model of a `TypeDef`.
#[verifier::ext_equal]
pub struct SpecTypeDef {
    pub name: Seq<char>,
    pub fields: Seq<SpecFieldDef>,
}

impl DeepView for TypeDef {
    type V = SpecTypeDef;

    open spec fn deep_view(&self) -> SpecTypeDef {
        SpecTypeDef { name: self.name@, fields: self.fields.deep_view() }
    }
}

/// The whole schema: the known roles, the two root type names, and the types.
#[derive(Debug)]
pub struct Schema {
    pub roles: Vec<String>,
    pub query_root: String,
    pub mutation_root: String,
    pub types: Vec<TypeDef>,
}

/// Mathematical model of a `Schema`.
#[verifier::ext_equal]
pub struct SpecSchema {
    pub roles: Seq<Seq<char>>,
    pub query_root: Seq<char>,
    pub mutation_root: Seq<char>,
    pub types: Seq<SpecTypeDef>,
}

impl DeepView for Schema {
    type V = SpecSchema;

    open spec fn deep_view(&self) -> SpecSchema {
        SpecSchema {
            roles: self.roles.deep_view(),
            query_root: self.query_root@,
            mutation_root: self.mutation_root@,
            types: self.types.deep_view(),
        }
    }
}

/// Whether the schema knows this role: the namespaced lookup is defined
/// exactly for the known roles.
pub open spec fn spec_role_known(s: SpecSchema, role: Seq<char>) -> bool {
    exists|i: int| 0 <= i < s.roles.len() && s.roles[i] == role
}

/// The first type with this name, if any.
pub open spec fn spec_lookup_type(types: Seq<SpecTypeDef>, name: Seq<char>) -> Option<SpecTypeDef>
    decreases types.len(),
{
    if types.len() == 0 {
        None
    } else if types[0].name == name {
        Some(types[0])
    } else {
        spec_lookup_type(types.drop_first(), name)
    }
}

/// The first field of this name on a type, if any.
pub open spec fn spec_lookup_field(fields: Seq<SpecFieldDef>, name: Seq<char>) -> Option<
    SpecFieldDef,
>
    decreases fields.len(),
{
    if fields.len() == 0 {
        None
    } else if fields[0].name == name {
        Some(fields[0])
    } else {
        spec_lookup_field(fields.drop_first(), name)
    }
}

/// Whether a field is visible to a role.
pub open spec fn spec_field_visible(f: SpecFieldDef, role: Seq<char>) -> bool {
    exists|i: int| 0 <= i < f.visible_to.len() && f.visible_to[i] == role
}

/// The namespaced lookup: whether field `fname` on type `tname` both exists
/// and is visible to `role`. This single predicate is what normalization
/// accepts and what introspection reports, so the two can never drift apart.
pub open spec fn spec_field_accepted(
    s: SpecSchema,
    role: Seq<char>,
    tname: Seq<char>,
    fname: Seq<char>,
) -> bool {
    match spec_lookup_type(s.types, tname) {
        Some(t) => match spec_lookup_field(t.fields, fname) {
            Some(f) => spec_field_visible(f, role),
            None => false,
        },
        None => false,
    }
}

/// A lookup skips a wholly mismatched prefix.
proof fn lemma_lookup_type_skip(types: Seq<SpecTypeDef>, name: Seq<char>, i: int)
    requires
        0 <= i <= types.len(),
        forall|j: int| 0 <= j < i ==> types[j].name != name,
    ensures
        spec_lookup_type(types, name) == spec_lookup_type(types.skip(i), name),
    decreases i,
{
    if i == 0 {
        assert(types.skip(0) =~= types);
    } else {
        lemma_lookup_type_skip(types, name, i - 1);
        assert(types.skip(i - 1).drop_first() =~= types.skip(i));
        assert(types.skip(i - 1)[0] == types[i - 1]);
    }
}

/// A lookup skips a wholly mismatched prefix.
proof fn lemma_lookup_field_skip(fields: Seq<SpecFieldDef>, name: Seq<char>, i: int)
    requires
        0 <= i <= fields.len(),
        forall|j: int| 0 <= j < i ==> fields[j].name != name,
    ensures
        spec_lookup_field(fields, name) == spec_lookup_field(fields.skip(i), name),
    decreases i,
{
    if i == 0 {
        assert(fields.skip(0) =~= fields);
    } else {
        lemma_lookup_field_skip(fields, name, i - 1);
        assert(fields.skip(i - 1).drop_first() =~= fields.skip(i));
        assert(fields.skip(i - 1)[0] == fields[i - 1]);
    }
}

impl Schema {
    /// Whether the schema knows this role.
    pub fn has_role(&self, role: &String) -> (r: bool)
        ensures
            r == spec_role_known(self.deep_view(), role@),
    {
        let mut i: usize = 0;
        while i < self.roles.len()
            invariant
                i <= self.roles.len(),
                forall|j: int| 0 <= j < i ==> self.deep_view().roles[j] != role@,
            decreases self.roles.len() - i,
        {
            if self.roles[i] == *role {
                proof {
                    assert(self.deep_view().roles[i as int] == role@);
                }
                return true;
            }
            i = i + 1;
        }
        false
    }

    /// The first type with this name, if any.
    pub fn get_type(&self, name: &String) -> (r: Option<&TypeDef>)
        ensures
            match r {
                Some(t) => spec_lookup_type(self.deep_view().types, name@) == Some(t.deep_view()),
                None => spec_lookup_type(self.deep_view().types, name@) is None,
            },
    {
        let ghost types = self.deep_view().types;
        let mut i: usize = 0;
        while i < self.types.len()
            invariant
                i <= self.types.len(),
                types == self.deep_view().types,
                forall|j: int| 0 <= j < i ==> types[j].name != name@,
            decreases self.types.len() - i,
        {
            if self.types[i].name == *name {
                proof {
                    lemma_lookup_type_skip(types, name@, i as int);
                    assert(types.skip(i as int)[0] == types[i as int]);
                }
                return Some(&self.types[i]);
            }
            i = i + 1;
        }
        proof {
            lemma_lookup_type_skip(types, name@, i as int);
        }
        None
    }
}

impl TypeDef {
    /// The first field of this name on the type, if any.
    pub fn get_field(&self, name: &String) -> (r: Option<&FieldDef>)
        ensures
            match r {
                Some(f) => spec_lookup_field(self.deep_view().fields, name@)
                    == Some(f.deep_view()),
                None => spec_lookup_field(self.deep_view().fields, name@) is None,
            },
    {
        let ghost fields = self.deep_view().fields;
        let mut i: usize = 0;
        while i < self.fields.len()
            invariant
                i <= self.fields.len(),
                fields == self.deep_view().fields,
                forall|j: int| 0 <= j < i ==> fields[j].name != name@,
            decreases self.fields.len() - i,
        {
            if self.fields[i].name == *name {
                proof {
                    lemma_lookup_field_skip(fields, name@, i as int);
                    assert(fields.skip(i as int)[0] == fields[i as int]);
                }
                return Some(&self.fields[i]);
            }
            i = i + 1;
        }
        proof {
            lemma_lookup_field_skip(fields, name@, i as int);
        }
        None
    }
}

impl FieldDef {
    /// Whether this field is visible to a role.
    pub fn is_visible_to(&self, role: &String) -> (r: bool)
        ensures
            r == spec_field_visible(self.deep_view(), role@),
    {
        let mut i: usize = 0;
        while i < self.visible_to.len()
            invariant
                i <= self.visible_to.len(),
                forall|j: int| 0 <= j < i ==> self.deep_view().visible_to[j] != role@,
            decreases self.visible_to.len() - i,
        {
            if self.visible_to[i] == *role {
                proof {
                    assert(self.deep_view().visible_to[i as int] == role@);
                }
                return true;
            }
            i = i + 1;
        }
        false
    }
}

} // verus!
