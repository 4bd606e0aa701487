//! A string-keyed map of protocol values, modelled as a mathematical map
//! from character sequences to value models.
//!
//! Keys are unique; the order of entries carries no meaning. The inbound
//! argument bag of a command invocation is such a map.

use vstd::prelude::*;

use crate::value::ProtocolValue;
use crate::value::ValueModel;
use crate::value::str_eq;

verus! {

/// True when `s` holds an entry whose key reads `k`.
pub open spec fn seq_has_key(s: Seq<(String, ProtocolValue)>, k: Seq<char>) -> bool {
    exists|i: int| 0 <= i < s.len() && s[i].0@ == k
}

/// True when no two entries of `s` share a key.
pub open spec fn keys_unique(s: Seq<(String, ProtocolValue)>) -> bool {
    forall|i: int, j: int| 0 <= i < j < s.len() ==> s[i].0@ != s[j].0@
}

/// Index of an entry whose key reads `k`; meaningful only when one exists.
pub closed spec fn entry_index(s: Seq<(String, ProtocolValue)>, k: Seq<char>) -> int {
    choose|i: int| 0 <= i < s.len() && s[i].0@ == k
}

/// The mathematical map that an entry sequence with unique keys stands for.
pub open spec fn assoc_view(s: Seq<(String, ProtocolValue)>) -> Map<Seq<char>, ValueModel> {
    Map::new(|k: Seq<char>| seq_has_key(s, k), |k: Seq<char>| s[entry_index(s, k)].1@)
}

/// With unique keys, the entry found at `i` is the one the map holds for its
/// key.
proof fn lemma_found_value(s: Seq<(String, ProtocolValue)>, i: int)
    requires
        keys_unique(s),
        0 <= i < s.len(),
    ensures
        assoc_view(s).contains_key(s[i].0@),
        assoc_view(s)[s[i].0@] == s[i].1@,
{
    let k = s[i].0@;
    assert(seq_has_key(s, k));
    let j = entry_index(s, k);
    assert(0 <= j < s.len() && s[j].0@ == k);
    assert(j == i);
}

/// Removing the entry at `i` takes exactly its key out of the map.
proof fn lemma_remove_entry(s: Seq<(String, ProtocolValue)>, i: int)
    requires
        keys_unique(s),
        0 <= i < s.len(),
    ensures
        keys_unique(s.remove(i)),
        !seq_has_key(s.remove(i), s[i].0@),
        assoc_view(s.remove(i)) == assoc_view(s).remove(s[i].0@),
{
    let k = s[i].0@;
    let t = s.remove(i);
    s.remove_ensures(i);
    assert forall|p: int, q: int| 0 <= p < q < t.len() implies t[p].0@ != t[q].0@ by {
        let p1: int = if p < i {
            p
        } else {
            p + 1
        };
        let q1: int = if q < i {
            q
        } else {
            q + 1
        };
        assert(t[p] == s[p1] && t[q] == s[q1]);
    }
    assert forall|p: int| 0 <= p < t.len() implies t[p].0@ != k by {
        let p1: int = if p < i {
            p
        } else {
            p + 1
        };
        assert(t[p] == s[p1]);
    }
    assert forall|q: Seq<char>| q != k implies seq_has_key(t, q) == seq_has_key(s, q) by {
        if seq_has_key(s, q) {
            let p = choose|p: int| 0 <= p < s.len() && s[p].0@ == q;
            let p1: int = if p < i {
                p
            } else {
                p - 1
            };
            assert(t[p1] == s[p]);
        }
        if seq_has_key(t, q) {
            let p = choose|p: int| 0 <= p < t.len() && t[p].0@ == q;
            let p1: int = if p < i {
                p
            } else {
                p + 1
            };
            assert(s[p1] == t[p]);
        }
    }
    assert forall|q: Seq<char>| seq_has_key(t, q) implies t[entry_index(t, q)].1@ == s[entry_index(
        s,
        q,
    )].1@ by {
        let a = entry_index(t, q);
        assert(0 <= a < t.len() && t[a].0@ == q);
        let a1: int = if a < i {
            a
        } else {
            a + 1
        };
        assert(s[a1] == t[a]);
        assert(seq_has_key(s, q));
        let b = entry_index(s, q);
        assert(0 <= b < s.len() && s[b].0@ == q);
        assert(b == a1);
    }
    assert(assoc_view(t) =~= assoc_view(s).remove(k));
}

/// Appending an entry whose key the sequence lacks adds exactly that binding
/// to the map.
proof fn lemma_push_entry(s: Seq<(String, ProtocolValue)>, e: (String, ProtocolValue))
    requires
        keys_unique(s),
        !seq_has_key(s, e.0@),
    ensures
        keys_unique(s.push(e)),
        assoc_view(s.push(e)) == assoc_view(s).insert(e.0@, e.1@),
{
    let k = e.0@;
    let t = s.push(e);
    let n = s.len() as int;
    assert forall|p: int, q: int| 0 <= p < q < t.len() implies t[p].0@ != t[q].0@ by {
        assert(t[p] == s[p]);
        if q < n {
            assert(t[q] == s[q]);
        } else {
            assert(t[q] == e);
        }
    }
    assert(t[n] == e);
    assert(seq_has_key(t, k));
    assert forall|q: Seq<char>| q != k implies seq_has_key(t, q) == seq_has_key(s, q) by {
        if seq_has_key(s, q) {
            let p = choose|p: int| 0 <= p < s.len() && s[p].0@ == q;
            assert(t[p] == s[p]);
        }
        if seq_has_key(t, q) {
            let p = choose|p: int| 0 <= p < t.len() && t[p].0@ == q;
            assert(p < n);
            assert(s[p] == t[p]);
        }
    }
    assert(entry_index(t, k) == n) by {
        let a = entry_index(t, k);
        assert(0 <= a < t.len() && t[a].0@ == k);
        if a < n {
            assert(s[a] == t[a]);
        }
    }
    assert forall|q: Seq<char>| q != k && seq_has_key(t, q) implies t[entry_index(t, q)].1@
        == s[entry_index(s, q)].1@ by {
        let a = entry_index(t, q);
        assert(0 <= a < t.len() && t[a].0@ == q);
        assert(a < n);
        assert(s[a] == t[a]);
        let b = entry_index(s, q);
        assert(0 <= b < s.len() && s[b].0@ == q);
        assert(b == a);
    }
    assert(assoc_view(t) =~= assoc_view(s).insert(e.0@, e.1@));
}

/// Index of the first entry of `es` whose key reads `key`, if any.
fn find_entry(es: &Vec<(String, ProtocolValue)>, key: &str) -> (r: Option<usize>)
    ensures
        match r {
            Some(i) => i < es@.len() && es@[i as int].0@ == key@,
            None => !seq_has_key(es@, key@),
        },
{
    let mut i: usize = 0;
    while i < es.len()
        invariant
            i <= es@.len(),
            forall|j: int| 0 <= j < i ==> es@[j].0@ != key@,
        decreases es@.len() - i,
    {
        if str_eq(es[i].0.as_str(), key) {
            return Some(i);
        }
        i = i + 1;
    }
    None
}

/// A map from names to protocol values; keys unique, order irrelevant.
#[derive(Debug)]
pub struct ValueMap {
    entries: Vec<(String, ProtocolValue)>,
}

/// The inbound argument bag of a command invocation: a map from parameter
/// names to protocol values.
pub type ParameterMap = ValueMap;

impl View for ValueMap {
    type V = Map<Seq<char>, ValueModel>;

    closed spec fn view(&self) -> Map<Seq<char>, ValueModel> {
        assoc_view(self.entries@)
    }
}

impl ValueMap {
    #[verifier::type_invariant]
    spec fn wf(self) -> bool {
        keys_unique(self.entries@)
    }

    /// The empty map.
    pub fn new() -> (r: Self)
        ensures
            r@ == Map::<Seq<char>, ValueModel>::empty(),
    {
        let r = ValueMap { entries: Vec::new() };
        proof {
            assert(r@ =~= Map::<Seq<char>, ValueModel>::empty());
        }
        r
    }

    /// True when the map holds an entry for `key`.
    pub fn contains_key(&self, key: &str) -> (r: bool)
        ensures
            r == self@.contains_key(key@),
    {
        proof {
            use_type_invariant(self);
        }
        match find_entry(&self.entries, key) {
            Some(i) => {
                proof {
                    lemma_found_value(self.entries@, i as int);
                }
                true
            },
            None => false,
        }
    }

    /// The value stored for `key`, if any.
    pub fn get(&self, key: &str) -> (r: Option<&ProtocolValue>)
        ensures
            match r {
                Some(v) => self@.contains_key(key@) && v@ == self@[key@],
                None => !self@.contains_key(key@),
            },
    {
        proof {
            use_type_invariant(self);
        }
        match find_entry(&self.entries, key) {
            Some(i) => {
                proof {
                    lemma_found_value(self.entries@, i as int);
                }
                Some(&self.entries[i].1)
            },
            None => None,
        }
    }

    /// Stores `value` under `key`, replacing any entry the key had.
    pub fn insert(&mut self, key: String, value: ProtocolValue)
        ensures
            final(self)@ == old(self)@.insert(key@, value@),
    {
        proof {
            use_type_invariant(&*self);
        }
        let mut es: Vec<(String, ProtocolValue)> = Vec::new();
        core::mem::swap(&mut es, &mut self.entries);
        let ghost before = es@;
        match find_entry(&es, key.as_str()) {
            Some(i) => {
                es.remove(i);
                proof {
                    lemma_remove_entry(before, i as int);
                }
            },
            None => {},
        }
        let ghost cleared = es@;
        proof {
            assert(keys_unique(cleared));
            assert(!seq_has_key(cleared, key@));
            assert(assoc_view(cleared) =~= assoc_view(before).remove(key@));
            lemma_push_entry(cleared, (key, value));
        }
        es.push((key, value));
        proof {
            assert(assoc_view(es@) =~= assoc_view(before).insert(key@, value@));
        }
        self.entries = es;
    }

    /// Removes the entry for `key` and hands its value out, if any.
    pub fn remove(&mut self, key: &str) -> (r: Option<ProtocolValue>)
        ensures
            final(self)@ == old(self)@.remove(key@),
            match r {
                Some(v) => old(self)@.contains_key(key@) && v@ == old(self)@[key@],
                None => !old(self)@.contains_key(key@),
            },
    {
        proof {
            use_type_invariant(&*self);
        }
        let mut es: Vec<(String, ProtocolValue)> = Vec::new();
        core::mem::swap(&mut es, &mut self.entries);
        let ghost before = es@;
        let r = match find_entry(&es, key) {
            Some(i) => {
                proof {
                    lemma_found_value(before, i as int);
                    lemma_remove_entry(before, i as int);
                }
                let entry = es.remove(i);
                Some(entry.1)
            },
            None => {
                proof {
                    assert(assoc_view(before) =~= assoc_view(before).remove(key@));
                }
                None
            },
        };
        self.entries = es;
        r
    }
}

} // verus!
