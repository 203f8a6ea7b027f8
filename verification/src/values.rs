//! JSON-shaped values: the common currency for query arguments, variables,
//! and introspection results.

use vstd::prelude::*;

verus! {

/// A JSON-shaped value.
#[derive(Debug)]
pub enum Value {
    Null,
    Bool(bool),
    Int(i64),
    Str(String),
    Array(Vec<Value>),
    Object(Vec<(String, Value)>),
}

/// Mathematical model of a `Value`.
#[verifier::ext_equal]
pub enum SpecValue {
    Null,
    Bool(bool),
    Int(int),
    Str(Seq<char>),
    Array(Seq<SpecValue>),
    Object(Seq<(Seq<char>, SpecValue)>),
}

impl DeepView for Value {
    type V = SpecValue;

    open spec fn deep_view(&self) -> SpecValue
        decreases self,
    {
        match self {
            Value::Null => SpecValue::Null,
            Value::Bool(b) => SpecValue::Bool(*b),
            Value::Int(i) => SpecValue::Int(*i as int),
            Value::Str(s) => SpecValue::Str(s@),
            Value::Array(vs) => SpecValue::Array(spec_values_view(vs@)),
            Value::Object(ps) => SpecValue::Object(spec_entries_view(ps@)),
        }
    }
}


/// The models of a sequence of values.
pub open spec fn spec_values_view(vs: Seq<Value>) -> Seq<SpecValue>
    decreases vs,
{
    if vs.len() == 0 {
        Seq::empty()
    } else {
        spec_values_view(vs.drop_last()).push(vs.last().deep_view())
    }
}

/// The models of a sequence of keyed values.
pub open spec fn spec_entries_view(ps: Seq<(String, Value)>) -> Seq<(Seq<char>, SpecValue)>
    decreases ps,
{
    if ps.len() == 0 {
        Seq::empty()
    } else {
        spec_entries_view(ps.drop_last()).push((ps.last().0@, ps.last().1.deep_view()))
    }
}

/// `spec_values_view` is the pointwise model.
pub broadcast proof fn lemma_values_view(vs: Seq<Value>)
    ensures
        (#[trigger] spec_values_view(vs)).len() == vs.len(),
        forall|i: int| 0 <= i < vs.len() ==> spec_values_view(vs)[i] == vs[i].deep_view(),
    decreases vs.len(),
{
    if vs.len() > 0 {
        lemma_values_view(vs.drop_last());
        let pre = spec_values_view(vs.drop_last());
        let x = vs.last().deep_view();
        assert(spec_values_view(vs) == pre.push(x));
        assert(pre.len() == vs.len() - 1);
        assert forall|i: int| 0 <= i < vs.len() implies spec_values_view(vs)[i]
            == vs[i].deep_view() by {
            if i < vs.len() - 1 {
                assert(pre.push(x)[i] == pre[i]);
                assert(vs.drop_last()[i] == vs[i]);
            } else {
                assert(pre.push(x)[i] == x);
                assert(vs.last() == vs[i]);
            }
        }
    }
}

/// `spec_entries_view` is the pointwise model.
pub broadcast proof fn lemma_entries_view(ps: Seq<(String, Value)>)
    ensures
        (#[trigger] spec_entries_view(ps)).len() == ps.len(),
        forall|i: int| 0 <= i < ps.len() ==> spec_entries_view(ps)[i] == (
            ps[i].0@,
            ps[i].1.deep_view(),
        ),
    decreases ps.len(),
{
    if ps.len() > 0 {
        lemma_entries_view(ps.drop_last());
        let pre = spec_entries_view(ps.drop_last());
        let x = (ps.last().0@, ps.last().1.deep_view());
        assert(spec_entries_view(ps) == pre.push(x));
        assert(pre.len() == ps.len() - 1);
        assert forall|i: int| 0 <= i < ps.len() implies spec_entries_view(ps)[i] == (
            ps[i].0@,
            ps[i].1.deep_view(),
        ) by {
            if i < ps.len() - 1 {
                assert(pre.push(x)[i] == pre[i]);
                assert(ps.drop_last()[i] == ps[i]);
            } else {
                assert(pre.push(x)[i] == x);
                assert(ps.last() == ps[i]);
            }
        }
    }
}

/// The deep view of a vector of values is the model of its contents.
pub broadcast proof fn lemma_vec_values_view(v: Vec<Value>)
    ensures
        #[trigger] v.deep_view() == spec_values_view(v@),
{
    lemma_values_view(v@);
    assert(v.deep_view() =~= spec_values_view(v@));
}

/// The deep view of a vector of keyed values is the model of its contents.
pub broadcast proof fn lemma_vec_entries_view(v: Vec<(String, Value)>)
    ensures
        #[trigger] v.deep_view() == spec_entries_view(v@),
{
    lemma_entries_view(v@);
    assert(v.deep_view() =~= spec_entries_view(v@));
}

impl Clone for Value {
    /// A deep copy: the model of the copy is the model of the original.
    #[verifier::loop_isolation(false)]
    fn clone(&self) -> (r: Self)
        ensures
            r.deep_view() == self.deep_view(),
        decreases self,
    {
        match self {
            Value::Null => Value::Null,
            Value::Bool(b) => Value::Bool(*b),
            Value::Int(i) => Value::Int(*i),
            Value::Str(s) => Value::Str(s.clone()),
            Value::Array(vs) => {
                let mut out: Vec<Value> = Vec::new();
                let mut i: usize = 0;
                while i < vs.len()
                    invariant
                        i <= vs.len(),
                        out@.len() == i as nat,
                        forall|j: int| 0 <= j < i ==> out@[j].deep_view() == vs@[j].deep_view(),
                    decreases vs.len() - i,
                {
                    proof {
                        assert(decreases_to!(*self => self->Array_0));
                        assert(self->Array_0 == *vs);
                        assert(decreases_to!(*vs => vs@[i as int]));
                    }
                    let e = vs[i].clone();
                    out.push(e);
                    i = i + 1;
                }
                let r = Value::Array(out);
                proof {
                    lemma_values_view(vs@);
                    lemma_values_view(out@);
                    let sv = self.deep_view();
                    let rv = r.deep_view();
                    assert(sv->Array_0 =~= rv->Array_0);
                }
                r
            },
            Value::Object(ps) => {
                let mut out: Vec<(String, Value)> = Vec::new();
                let mut i: usize = 0;
                while i < ps.len()
                    invariant
                        i <= ps.len(),
                        out@.len() == i as nat,
                        forall|j: int| 0 <= j < i ==> out@[j].0@ == ps@[j].0@
                            && out@[j].1.deep_view() == ps@[j].1.deep_view(),
                    decreases ps.len() - i,
                {
                    proof {
                        assert(decreases_to!(*self => self->Object_0));
                        assert(self->Object_0 == *ps);
                        assert(decreases_to!(*ps => ps@[i as int]));
                    }
                    let k = ps[i].0.clone();
                    let v = ps[i].1.clone();
                    out.push((k, v));
                    i = i + 1;
                }
                let r = Value::Object(out);
                proof {
                    lemma_entries_view(ps@);
                    lemma_entries_view(out@);
                    let sv = self.deep_view();
                    let rv = r.deep_view();
                    assert(sv->Object_0 =~= rv->Object_0);
                }
                r
            },
        }
    }
}

} // verus!
