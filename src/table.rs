//! The client table: which peer identities have a live session, and the
//! outbound sender of each.
use vstd::prelude::*;
use crate::identity::{bytes_equal, PublicKey};

verus! {

/// No identity appears twice in `s`.
pub open spec fn keys_unique<S>(s: Seq<(PublicKey, S)>) -> bool {
    forall|a: int, b: int| 0 <= a < b < s.len() ==> (#[trigger] s[a]).0@ != (#[trigger] s[b]).0@
}

/// Some entry of `s` has identity `k`.
pub open spec fn has_key<S>(s: Seq<(PublicKey, S)>, k: Seq<u8>) -> bool {
    exists|i: int| 0 <= i < s.len() && (#[trigger] s[i]).0@ == k
}

/// Position of an entry of `s` with identity `k`.
pub open spec fn index_of<S>(s: Seq<(PublicKey, S)>, k: Seq<u8>) -> int {
    choose|i: int| 0 <= i < s.len() && (#[trigger] s[i]).0@ == k
}

/// The map from identity bytes to sender that `s` holds.
pub open spec fn table_map<S>(s: Seq<(PublicKey, S)>) -> Map<Seq<u8>, S> {
    Map::new(|k: Seq<u8>| has_key(s, k), |k: Seq<u8>| s[index_of(s, k)].1)
}

proof fn lemma_index_of<S>(s: Seq<(PublicKey, S)>, i: int)
    requires
        keys_unique(s),
        0 <= i < s.len(),
    ensures
        has_key(s, s[i].0@),
        index_of(s, s[i].0@) == i,
        table_map(s).contains_key(s[i].0@),
        table_map(s)[s[i].0@] == s[i].1,
{
    let k = s[i].0@;
    assert(has_key(s, k));
    let j = index_of(s, k);
    if j < i {
        assert(s[j].0@ != s[i].0@);
    } else if i < j {
        assert(s[i].0@ != s[j].0@);
    }
}

proof fn lemma_push<S>(s: Seq<(PublicKey, S)>, key: PublicKey, v: S)
    requires
        keys_unique(s),
        !has_key(s, key@),
    ensures
        keys_unique(s.push((key, v))),
        table_map(s.push((key, v))) == table_map(s).insert(key@, v),
{
    let t = s.push((key, v));
    assert forall|a: int, b: int| 0 <= a < b < t.len() implies (#[trigger] t[a]).0@ != (#[trigger] t[b]).0@ by {
        if b == s.len() {
            assert(t[a] == s[a]);
        } else {
            assert(t[a] == s[a] && t[b] == s[b]);
        }
    }
    assert forall|k: Seq<u8>| #[trigger] table_map(t).contains_key(k) == table_map(s).insert(key@, v).contains_key(k) by {
        if has_key(s, k) {
            let j = index_of(s, k);
            assert(t[j] == s[j]);
        }
        if has_key(t, k) && k != key@ {
            let j = index_of(t, k);
            assert(j < s.len());
            assert(s[j] == t[j]);
        }
        if k == key@ {
            assert(t[s.len() as int].0@ == k);
        }
    }
    assert forall|k: Seq<u8>| #[trigger] table_map(t).contains_key(k) implies table_map(t)[k]
        == table_map(s).insert(key@, v)[k] by {
        if k == key@ {
            lemma_index_of(t, s.len() as int);
        } else {
            let j = index_of(t, k);
            assert(j < s.len());
            assert(s[j] == t[j]);
            lemma_index_of(t, j);
            lemma_index_of(s, j);
        }
    }
    assert(table_map(t) =~= table_map(s).insert(key@, v));
}

proof fn lemma_remove<S>(s: Seq<(PublicKey, S)>, i: int)
    requires
        keys_unique(s),
        0 <= i < s.len(),
    ensures
        keys_unique(s.remove(i)),
        table_map(s.remove(i)) == table_map(s).remove(s[i].0@),
        !has_key(s.remove(i), s[i].0@),
{
    let t = s.remove(i);
    let key = s[i].0@;
    assert forall|a: int, b: int| 0 <= a < b < t.len() implies (#[trigger] t[a]).0@ != (#[trigger] t[b]).0@ by {
        let a2 = if a < i { a } else { a + 1 };
        let b2 = if b < i { b } else { b + 1 };
        assert(t[a] == s[a2] && t[b] == s[b2]);
        assert(s[a2].0@ != s[b2].0@);
    }
    assert forall|k: Seq<u8>| #[trigger] table_map(t).contains_key(k) == table_map(s).remove(key).contains_key(k) by {
        if has_key(t, k) {
            let j = index_of(t, k);
            let j2 = if j < i { j } else { j + 1 };
            assert(t[j] == s[j2]);
            assert(has_key(s, k));
            if k == key {
                assert(s[j2].0@ == s[i].0@);
            }
        }
        if has_key(s, k) && k != key {
            let j = index_of(s, k);
            assert(j != i);
            let j2 = if j < i { j } else { j - 1 };
            assert(t[j2] == s[j]);
        }
    }
    assert forall|k: Seq<u8>| #[trigger] table_map(t).contains_key(k) implies table_map(t)[k]
        == table_map(s).remove(key)[k] by {
        let j = index_of(t, k);
        let j2 = if j < i { j } else { j + 1 };
        assert(t[j] == s[j2]);
        lemma_index_of(t, j);
        lemma_index_of(s, j2);
    }
    assert(table_map(t) =~= table_map(s).remove(key));
    assert(!has_key(t, key)) by {
        if has_key(t, key) {
            let j = index_of(t, key);
            let j2 = if j < i { j } else { j + 1 };
            assert(t[j] == s[j2]);
            assert(j2 != i);
        }
    }
}

/// Process-wide mapping from peer identity to the sender of its session. No
/// identity has more than one entry.
pub struct ClientTable<S> {
    entries: Vec<(PublicKey, S)>,
}

impl<S> View for ClientTable<S> {
    type V = Map<Seq<u8>, S>;

    open spec fn view(&self) -> Map<Seq<u8>, S> {
        table_map(self.entries())
    }
}

impl<S> ClientTable<S> {
    /// The entries in the order they are stored.
    pub closed spec fn entries(&self) -> Seq<(PublicKey, S)> {
        self.entries@
    }

    /// Each identity has at most one entry.
    pub open spec fn wf(&self) -> bool {
        keys_unique(self.entries())
    }

    pub fn new() -> (r: Self)
        ensures
            r.wf(),
            r@ == Map::<Seq<u8>, S>::empty(),
    {
        let r = ClientTable { entries: Vec::new() };
        assert(r@ =~= Map::<Seq<u8>, S>::empty());
        r
    }

    fn find(&self, key: &PublicKey) -> (r: Option<usize>)
        ensures
            r matches Some(i) ==> i < self.entries().len() && self.entries()[i as int].0@ == key@,
            r is None ==> !has_key(self.entries(), key@),
    {
        let mut i: usize = 0;
        while i < self.entries.len()
            invariant
                i <= self.entries@.len(),
                forall|j: int| 0 <= j < i ==> (#[trigger] self.entries@[j]).0@ != key@,
            decreases self.entries@.len() - i,
        {
            if bytes_equal(self.entries[i].0.as_bytes(), key.as_bytes()) {
                return Some(i);
            }
            i = i + 1;
        }
        None
    }

    /// Whether `key` has an entry.
    pub fn contains(&self, key: &PublicKey) -> (r: bool)
        requires
            self.wf(),
        ensures
            r == self@.contains_key(key@),
    {
        self.find(key).is_some()
    }

    /// The sender registered for `key`, if any.
    pub fn get(&self, key: &PublicKey) -> (r: Option<&S>)
        requires
            self.wf(),
        ensures
            r is Some == self@.contains_key(key@),
            r matches Some(v) ==> *v == self@[key@],
    {
        match self.find(key) {
            Some(i) => {
                proof {
                    lemma_index_of(self.entries(), i as int);
                }
                Some(&self.entries[i].1)
            },
            None => None,
        }
    }

    /// Removes the entry of `key`, if there is one.
    pub fn unregister(&mut self, key: &PublicKey)
        requires
            old(self).wf(),
        ensures
            final(self).wf(),
            final(self)@ == old(self)@.remove(key@),
    {
        match self.find(key) {
            Some(i) => {
                proof {
                    lemma_remove(self.entries(), i as int);
                }
                self.entries.remove(i);
            },
            None => {
                assert(self@ =~= old(self)@.remove(key@));
            },
        }
    }

    /// Sets the sender of `key`, replacing an earlier entry of the same
    /// identity.
    pub fn register(&mut self, key: PublicKey, sender: S)
        requires
            old(self).wf(),
        ensures
            final(self).wf(),
            final(self)@ == old(self)@.insert(key@, sender),
    {
        self.unregister(&key);
        proof {
            assert(!has_key(self.entries(), key@)) by {
                if has_key(self.entries(), key@) {
                    assert(self@.contains_key(key@));
                }
            }
            lemma_push(self.entries(), key, sender);
        }
        self.entries.push((key, sender));
        assert(self@ =~= old(self)@.insert(key@, sender));
    }
}

/// At any moment the table holds at most one entry for an identity, and
/// registering or unregistering keeps it so.
pub proof fn lemma_identity_uniqueness<S>(t: ClientTable<S>, a: int, b: int)
    requires
        t.wf(),
        0 <= a < t.entries().len(),
        0 <= b < t.entries().len(),
        t.entries()[a].0@ == t.entries()[b].0@,
    ensures
        a == b,
{
    if a < b {
        assert(t.entries()[a].0@ != t.entries()[b].0@);
    } else if b < a {
        assert(t.entries()[b].0@ != t.entries()[a].0@);
    }
}

} // verus!
