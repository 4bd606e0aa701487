//! The protocol-native structured value: the dynamically typed wire value
//! that crosses the module boundary, together with its mathematical model.

use vstd::prelude::*;

verus! {

/// Mathematical model of a [`ProtocolValue`]: the same tree, with strings as
/// character sequences and vectors as sequences.
#[verifier::ext_equal]
pub enum ValueModel {
    Null,
    Bool(bool),
    Int(i64),
    Text(Seq<char>),
    List(Seq<ValueModel>),
    Record(Seq<(Seq<char>, ValueModel)>),
}

/// A protocol-native structured value: null, a boolean, an integer, a UTF-8
/// string, an ordered list of values, or a string-keyed record of values.
#[derive(Debug, PartialEq, Eq)]
pub enum ProtocolValue {
    Null,
    Bool(bool),
    Int(i64),
    Text(String),
    List(Vec<ProtocolValue>),
    Record(Vec<(String, ProtocolValue)>),
}

/// Model of a sequence of values: the models of its elements, in order.
pub open spec fn list_view(s: Seq<ProtocolValue>) -> Seq<ValueModel>
    decreases s,
{
    if s.len() == 0 {
        Seq::empty()
    } else {
        seq![s[0].view()] + list_view(s.subrange(1, s.len() as int))
    }
}

/// Model of a sequence of record entries: each key as a character sequence
/// beside the model of its value, in order.
pub open spec fn record_view(s: Seq<(String, ProtocolValue)>) -> Seq<(Seq<char>, ValueModel)>
    decreases s,
{
    if s.len() == 0 {
        Seq::empty()
    } else {
        seq![(s[0].0@, s[0].1.view())] + record_view(s.subrange(1, s.len() as int))
    }
}

impl View for ProtocolValue {
    type V = ValueModel;

    open spec fn view(&self) -> ValueModel
        decreases self,
    {
        match self {
            ProtocolValue::Null => ValueModel::Null,
            ProtocolValue::Bool(b) => ValueModel::Bool(*b),
            ProtocolValue::Int(i) => ValueModel::Int(*i),
            ProtocolValue::Text(s) => ValueModel::Text(s@),
            ProtocolValue::List(vs) => ValueModel::List(list_view(vs@)),
            ProtocolValue::Record(es) => ValueModel::Record(record_view(es@)),
        }
    }
}

/// The model of a value sequence has one entry per element, the model of
/// that element.
pub proof fn lemma_list_view_index(s: Seq<ProtocolValue>)
    ensures
        list_view(s).len() == s.len(),
        forall|i: int| 0 <= i < s.len() ==> list_view(s)[i] == s[i]@,
    decreases s,
{
    if s.len() > 0 {
        let rest = s.subrange(1, s.len() as int);
        lemma_list_view_index(rest);
        assert forall|i: int| 0 <= i < s.len() implies list_view(s)[i] == s[i]@ by {
            if i > 0 {
                assert(rest[i - 1] == s[i]);
                assert(list_view(s) == seq![s[0]@] + list_view(rest));
                assert(list_view(s)[i] == list_view(rest)[i - 1]);
            }
        }
    }
}

/// The model of an entry sequence has one entry per element: the key's view
/// beside the value's model.
pub proof fn lemma_record_view_index(s: Seq<(String, ProtocolValue)>)
    ensures
        record_view(s).len() == s.len(),
        forall|i: int| 0 <= i < s.len() ==> record_view(s)[i] == (s[i].0@, s[i].1@),
    decreases s,
{
    if s.len() > 0 {
        let rest = s.subrange(1, s.len() as int);
        lemma_record_view_index(rest);
        assert forall|i: int| 0 <= i < s.len() implies record_view(s)[i] == (
        s[i].0@,
        s[i].1@,
        ) by {
            if i > 0 {
                assert(rest[i - 1] == s[i]);
                assert(record_view(s) == seq![(s[0].0@, s[0].1@)] + record_view(rest));
                assert(record_view(s)[i] == record_view(rest)[i - 1]);
            }
        }
    }
}

/// String equality, stated over the views.
pub fn str_eq(a: &str, b: &str) -> (r: bool)
    ensures
        r == (a@ == b@),
{
    let owned_a: String = a.to_owned();
    let owned_b: String = b.to_owned();
    owned_a == owned_b
}

fn deep_copy(v: &ProtocolValue) -> (res: ProtocolValue)
    ensures
        res@ == v@,
    decreases v,
{
    match v {
        ProtocolValue::Null => ProtocolValue::Null,
        ProtocolValue::Bool(b) => ProtocolValue::Bool(*b),
        ProtocolValue::Int(i) => ProtocolValue::Int(*i),
        ProtocolValue::Text(s) => ProtocolValue::Text(s.clone()),
        ProtocolValue::List(vs) => {
            let out = copy_list(vs);
            proof {
                lemma_list_view_index(out@);
                lemma_list_view_index(vs@);
                assert(list_view(out@) =~= list_view(vs@));
            }
            ProtocolValue::List(out)
        },
        ProtocolValue::Record(es) => {
            let out = copy_record(es);
            proof {
                lemma_record_view_index(out@);
                lemma_record_view_index(es@);
                assert(record_view(out@) =~= record_view(es@));
            }
            ProtocolValue::Record(out)
        },
    }
}

fn copy_list(vs: &Vec<ProtocolValue>) -> (out: Vec<ProtocolValue>)
    ensures
        out@.len() == vs@.len(),
        forall|j: int| 0 <= j < vs@.len() ==> out@[j]@ == vs@[j]@,
    decreases vs@,
{
    let mut out: Vec<ProtocolValue> = Vec::new();
    let mut i: usize = 0;
    while i < vs.len()
        invariant
            i <= vs.len(),
            out@.len() == i,
            forall|j: int| 0 <= j < i ==> out@[j]@ == vs@[j]@,
        decreases vs@.len() - i,
    {
        out.push(deep_copy(&vs[i]));
        i = i + 1;
    }
    out
}

fn copy_record(es: &Vec<(String, ProtocolValue)>) -> (out: Vec<(String, ProtocolValue)>)
    ensures
        out@.len() == es@.len(),
        forall|j: int| 0 <= j < es@.len() ==> out@[j].0@ == es@[j].0@ && out@[j].1@ == es@[j].1@,
    decreases es@,
{
    let mut out: Vec<(String, ProtocolValue)> = Vec::new();
    let mut i: usize = 0;
    while i < es.len()
        invariant
            i <= es.len(),
            out@.len() == i,
            forall|j: int| 0 <= j < i ==> out@[j].0@ == es@[j].0@ && out@[j].1@ == es@[j].1@,
        decreases es@.len() - i,
    {
        out.push((es[i].0.clone(), deep_copy(&es[i].1)));
        i = i + 1;
    }
    out
}

impl Clone for ProtocolValue {
    /// A clone has the same model as the original.
    fn clone(&self) -> (res: Self)
        ensures
            res@ == self@,
    {
        deep_copy(self)
    }
}

} // verus!
