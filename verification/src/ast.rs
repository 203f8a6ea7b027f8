//! The parsed query document, as an external parser hands it over: operations,
//! fragments, selections and argument values, plus the request envelope of
//! operation name, document and variables.

use vstd::prelude::*;
use crate::values::{SpecValue, Value};

verus! {

/// An argument value as written in the document: a literal, or a reference to
/// a request variable.
#[derive(Debug)]
pub enum AstValue {
    Lit(Value),
    Variable(String),
}

/// Mathematical model of an `AstValue`.
#[verifier::ext_equal]
pub enum SpecAstValue {
    Lit(SpecValue),
    Variable(Seq<char>),
}

impl DeepView for AstValue {
    type V = SpecAstValue;

    open spec fn deep_view(&self) -> SpecAstValue {
        match self {
            AstValue::Lit(v) => SpecAstValue::Lit(v.deep_view()),
            AstValue::Variable(x) => SpecAstValue::Variable(x@),
        }
    }
}

/// One selection of a selection set: a field (possibly aliased, with
/// arguments and a nested selection set) or a fragment spread.
#[derive(Debug)]
pub enum Selection {
    Field {
        alias: Option<String>,
        name: String,
        arguments: Vec<(String, AstValue)>,
        selection_set: Vec<Selection>,
    },
    FragmentSpread {
        name: String,
    },
}

/// Mathematical model of a `Selection`.
#[verifier::ext_equal]
pub enum SpecSelection {
    Field {
        alias: Option<Seq<char>>,
        name: Seq<char>,
        arguments: Seq<(Seq<char>, SpecAstValue)>,
        selection_set: Seq<SpecSelection>,
    },
    FragmentSpread {
        name: Seq<char>,
    },
}

impl DeepView for Selection {
    type V = SpecSelection;

    open spec fn deep_view(&self) -> SpecSelection
        decreases self,
    {
        match self {
            Selection::Field { alias, name, arguments, selection_set } => SpecSelection::Field {
                alias: alias.deep_view(),
                name: name@,
                arguments: arguments.deep_view(),
                selection_set: spec_selections_view(selection_set@),
            },
            Selection::FragmentSpread { name } => SpecSelection::FragmentSpread { name: name@ },
        }
    }
}

/// The models of a sequence of selections.
pub open spec fn spec_selections_view(ss: Seq<Selection>) -> Seq<SpecSelection>
    decreases ss,
{
    if ss.len() == 0 {
        Seq::empty()
    } else {
        spec_selections_view(ss.drop_last()).push(ss.last().deep_view())
    }
}

/// `spec_selections_view` is the pointwise model.
pub broadcast proof fn lemma_selections_view(ss: Seq<Selection>)
    ensures
        (#[trigger] spec_selections_view(ss)).len() == ss.len(),
        forall|i: int| 0 <= i < ss.len() ==> spec_selections_view(ss)[i] == ss[i].deep_view(),
    decreases ss.len(),
{
    if ss.len() > 0 {
        lemma_selections_view(ss.drop_last());
        let pre = spec_selections_view(ss.drop_last());
        let x = ss.last().deep_view();
        assert(spec_selections_view(ss) == pre.push(x));
        assert(pre.len() == ss.len() - 1);
        assert forall|i: int| 0 <= i < ss.len() implies spec_selections_view(ss)[i]
            == ss[i].deep_view() by {
            if i < ss.len() - 1 {
                assert(pre.push(x)[i] == pre[i]);
                assert(ss.drop_last()[i] == ss[i]);
            } else {
                assert(pre.push(x)[i] == x);
                assert(ss.last() == ss[i]);
            }
        }
    }
}

/// The deep view of a vector of selections is the model of its contents.
pub broadcast proof fn lemma_vec_selections_view(v: Vec<Selection>)
    ensures
        #[trigger] v.deep_view() == spec_selections_view(v@),
{
    lemma_selections_view(v@);
    assert(v.deep_view() =~= spec_selections_view(v@));
}

/// Whether an operation reads or mutates.
#[derive(Clone, Copy, Debug, PartialEq, Eq, Structural)]
pub enum OperationType {
    Query,
    Mutation,
}

/// One operation of a document.
#[derive(Debug)]
pub struct Operation {
    pub name: Option<String>,
    pub op_type: OperationType,
    pub selection_set: Vec<Selection>,
}

/// Mathematical model of an `Operation`.
#[verifier::ext_equal]
pub struct SpecOperation {
    pub name: Option<Seq<char>>,
    pub op_type: OperationType,
    pub selection_set: Seq<SpecSelection>,
}

impl DeepView for Operation {
    type V = SpecOperation;

    open spec fn deep_view(&self) -> SpecOperation {
        SpecOperation {
            name: self.name.deep_view(),
            op_type: self.op_type,
            selection_set: self.selection_set.deep_view(),
        }
    }
}

/// A named fragment of a document.
#[derive(Debug)]
pub struct FragmentDef {
    pub name: String,
    pub selection_set: Vec<Selection>,
}

/// Mathematical model of a `FragmentDef`.
#[verifier::ext_equal]
pub struct SpecFragmentDef {
    pub name: Seq<char>,
    pub selection_set: Seq<SpecSelection>,
}

impl DeepView for FragmentDef {
    type V = SpecFragmentDef;

    open spec fn deep_view(&self) -> SpecFragmentDef {
        SpecFragmentDef { name: self.name@, selection_set: self.selection_set.deep_view() }
    }
}

/// A parsed document: its operations and its fragments.
#[derive(Debug)]
pub struct Document {
    pub operations: Vec<Operation>,
    pub fragments: Vec<FragmentDef>,
}

/// Mathematical model of a `Document`.
#[verifier::ext_equal]
pub struct SpecDocument {
    pub operations: Seq<SpecOperation>,
    pub fragments: Seq<SpecFragmentDef>,
}

impl DeepView for Document {
    type V = SpecDocument;

    open spec fn deep_view(&self) -> SpecDocument {
        SpecDocument {
            operations: self.operations.deep_view(),
            fragments: self.fragments.deep_view(),
        }
    }
}

/// A request: an optional operation name, the parsed document, and the
/// variables supplied with it.
#[derive(Debug)]
pub struct Request {
    pub operation_name: Option<String>,
    pub query: Document,
    pub variables: Vec<(String, Value)>,
}

/// Mathematical model of a `Request`.
#[verifier::ext_equal]
pub struct SpecRequest {
    pub operation_name: Option<Seq<char>>,
    pub query: SpecDocument,
    pub variables: Seq<(Seq<char>, SpecValue)>,
}

impl DeepView for Request {
    type V = SpecRequest;

    open spec fn deep_view(&self) -> SpecRequest {
        SpecRequest {
            operation_name: self.operation_name.deep_view(),
            query: self.query.deep_view(),
            variables: self.variables.deep_view(),
        }
    }
}

} // verus!
