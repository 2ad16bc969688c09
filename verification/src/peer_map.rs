use crate::peer::PeerId;
use vstd::prelude::*;

verus! {

/// One peer with what is kept for it.
pub struct Entry<V> {
    pub key: PeerId,
    pub value: V,
}

/// The mapping that a list of entries stands for. A later entry for a peer
/// would hide an earlier one; a well-formed map has one entry per peer.
pub open spec fn entries_map<V: View>(entries: Seq<Entry<V>>) -> Map<Seq<char>, V::V>
    decreases entries.len(),
{
    if entries.len() == 0 {
        Map::empty()
    } else {
        entries_map(entries.drop_last()).insert(entries.last().key@, entries.last().value@)
    }
}

pub open spec fn distinct_keys<V>(entries: Seq<Entry<V>>) -> bool {
    forall|i: int, j: int|
        0 <= i < j < entries.len() ==> (#[trigger] entries[i]).key@ != (#[trigger] entries[j]).key@
}

/// A peer is in the mapping exactly when some entry is about it.
pub proof fn lemma_entries_map_dom<V: View>(entries: Seq<Entry<V>>, key: Seq<char>)
    ensures
        entries_map(entries).contains_key(key) <==> exists|i: int|
            0 <= i < entries.len() && (#[trigger] entries[i]).key@ == key,
    decreases entries.len(),
{
    if entries.len() > 0 {
        let front = entries.drop_last();
        lemma_entries_map_dom(front, key);
        if entries_map(entries).contains_key(key) {
            if entries.last().key@ == key {
                assert(entries[entries.len() - 1].key@ == key);
            } else {
                let i = choose|i: int| 0 <= i < front.len() && (#[trigger] front[i]).key@ == key;
                assert(entries[i].key@ == key);
            }
        }
        if exists|i: int| 0 <= i < entries.len() && (#[trigger] entries[i]).key@ == key {
            let i = choose|i: int| 0 <= i < entries.len() && (#[trigger] entries[i]).key@ == key;
            if i < front.len() {
                assert(front[i].key@ == key);
            }
        }
    }
}

/// With one entry per peer, the mapping gives each peer its entry's value.
pub proof fn lemma_entries_map_value<V: View>(entries: Seq<Entry<V>>, i: int)
    requires
        distinct_keys(entries),
        0 <= i < entries.len(),
    ensures
        entries_map(entries).contains_key(entries[i].key@),
        entries_map(entries)[entries[i].key@] == entries[i].value@,
    decreases entries.len(),
{
    let front = entries.drop_last();
    if i < entries.len() - 1 {
        assert(distinct_keys(front)) by {
            assert forall|a: int, b: int| 0 <= a < b < front.len() implies (#[trigger] front[a]).key@
                != (#[trigger] front[b]).key@ by {
                assert(entries[a].key@ != entries[b].key@);
            }
        }
        lemma_entries_map_value(front, i);
        assert(front[i] == entries[i]);
        assert(entries[i].key@ != entries[entries.len() - 1].key@);
    }
}

/// A mapping from peers to values of one kind.
pub struct PeerMap<V> {
    entries: Vec<Entry<V>>,
}

impl<V: View> View for PeerMap<V> {
    type V = Map<Seq<char>, V::V>;

    closed spec fn view(&self) -> Map<Seq<char>, V::V> {
        entries_map(self.entries@)
    }
}

impl<V> PeerMap<V> {
    /// No peer has two entries.
    #[verifier::type_invariant]
    spec fn inv(self) -> bool {
        distinct_keys(self.entries@)
    }
}

impl<V: View> PeerMap<V> {
    pub fn new() -> (map: Self)
        ensures
            map@ == Map::<Seq<char>, V::V>::empty(),
    {
        PeerMap { entries: Vec::new() }
    }

    /// How many peers the mapping holds.
    pub fn len(&self) -> (n: usize)
        ensures
            n == self@.len(),
            self@.dom().finite(),
    {
        proof {
            use_type_invariant(self);
            lemma_entries_len(self.entries@);
        }
        self.entries.len()
    }

    fn position(&self, key: &PeerId) -> (found: Option<usize>)
        ensures
            match found {
                Some(i) => i < self.entries.len() && self.entries[i as int].key@ == key@,
                None => forall|i: int|
                    0 <= i < self.entries.len() ==> (#[trigger] self.entries[i]).key@ != key@,
            },
    {
        let mut i: usize = 0;
        while i < self.entries.len()
            invariant
                i <= self.entries.len(),
                forall|j: int| 0 <= j < i ==> (#[trigger] self.entries[j]).key@ != key@,
            decreases self.entries.len() - i,
        {
            if self.entries[i].key.same(key) {
                return Some(i);
            }
            i += 1;
        }
        None
    }

    pub fn contains_key(&self, key: &PeerId) -> (b: bool)
        ensures
            b == self@.contains_key(key@),
    {
        proof {
            lemma_entries_map_dom(self.entries@, key@);
        }
        self.position(key).is_some()
    }

    /// What is kept for `key`, if anything.
    pub fn get(&self, key: &PeerId) -> (value: Option<&V>)
        ensures
            match value {
                Some(v) => self@.contains_key(key@) && self@[key@] == v@,
                None => !self@.contains_key(key@),
            },
    {
        proof {
            use_type_invariant(self);
            lemma_entries_map_dom(self.entries@, key@);
        }
        match self.position(key) {
            Some(i) => {
                proof {
                    lemma_entries_map_value(self.entries@, i as int);
                }
                Some(&self.entries[i].value)
            },
            None => None,
        }
    }

    /// Hands the entries out and leaves an empty mapping.
    fn take_entries(&mut self) -> (entries: Vec<Entry<V>>)
        ensures
            entries@ == old(self).entries@,
            final(self).entries@.len() == 0,
    {
        let mut entries: Vec<Entry<V>> = Vec::new();
        core::mem::swap(&mut self.entries, &mut entries);
        entries
    }

    /// Keeps `value` for `key`, in place of what was kept for it before.
    pub fn insert(&mut self, key: PeerId, value: V)
        ensures
            final(self)@ == old(self)@.insert(key@, value@),
    {
        proof {
            use_type_invariant(&*self);
        }
        let found = self.position(&key);
        let mut entries = self.take_entries();
        let ghost before = entries@;
        match found {
            Some(i) => {
                entries.remove(i);
                proof {
                    lemma_remove_entry(before, i as int);
                }
            },
            None => {
                proof {
                    lemma_entries_map_dom(before, key@);
                }
            },
        }
        let ghost kept = entries@;
        entries.push(Entry { key, value });
        proof {
            assert(entries@.drop_last() =~= kept);
            lemma_entries_map_dom(kept, key@);
            assert(distinct_keys(entries@)) by {
                assert forall|a: int, b: int| 0 <= a < b < entries@.len() implies (
                #[trigger] entries@[a]).key@ != (#[trigger] entries@[b]).key@ by {
                    assert(entries@[a] == kept[a]);
                    if b < kept.len() {
                        assert(entries@[b] == kept[b]);
                    }
                }
            }
            assert(entries_map(entries@) =~= old(self)@.insert(key@, value@));
        }
        *self = PeerMap { entries };
    }

    /// Forgets `key`. Hands out what was kept for it.
    pub fn remove(&mut self, key: &PeerId) -> (value: Option<V>)
        ensures
            final(self)@ == old(self)@.remove(key@),
            match value {
                Some(v) => old(self)@.contains_key(key@) && old(self)@[key@] == v@,
                None => !old(self)@.contains_key(key@),
            },
    {
        proof {
            use_type_invariant(&*self);
            lemma_entries_map_dom(self.entries@, key@);
        }
        match self.position(key) {
            Some(i) => {
                let mut entries = self.take_entries();
                proof {
                    lemma_entries_map_value(entries@, i as int);
                    lemma_remove_entry(entries@, i as int);
                }
                let entry = entries.remove(i);
                *self = PeerMap { entries };
                Some(entry.value)
            },
            None => {
                assert(self@ =~= old(self)@.remove(key@));
                None
            },
        }
    }
}

/// Taking one entry out takes its peer out of the mapping, and leaves one
/// entry per peer.
proof fn lemma_remove_entry<V: View>(entries: Seq<Entry<V>>, i: int)
    requires
        distinct_keys(entries),
        0 <= i < entries.len(),
    ensures
        distinct_keys(entries.remove(i)),
        entries_map(entries.remove(i)) == entries_map(entries).remove(entries[i].key@),
        !entries_map(entries.remove(i)).contains_key(entries[i].key@),
{
    let rest = entries.remove(i);
    assert forall|a: int, b: int| 0 <= a < b < rest.len() implies (#[trigger] rest[a]).key@ != (
    #[trigger] rest[b]).key@ by {
        let a0 = if a < i { a } else { a + 1 };
        let b0 = if b < i { b } else { b + 1 };
        assert(rest[a] == entries[a0]);
        assert(rest[b] == entries[b0]);
    }
    let left = entries_map(rest);
    let right = entries_map(entries).remove(entries[i].key@);
    assert forall|k: Seq<char>| left.contains_key(k) <==> right.contains_key(k) by {
        lemma_entries_map_dom(rest, k);
        lemma_entries_map_dom(entries, k);
        if left.contains_key(k) {
            let a = choose|a: int| 0 <= a < rest.len() && (#[trigger] rest[a]).key@ == k;
            let a0 = if a < i { a } else { a + 1 };
            assert(rest[a] == entries[a0]);
            assert(entries[a0].key@ == k);
            if a0 < i {
                assert(entries[a0].key@ != entries[i].key@);
            } else {
                assert(entries[i].key@ != entries[a0].key@);
            }
        }
        if right.contains_key(k) {
            let a0 = choose|a: int| 0 <= a < entries.len() && (#[trigger] entries[a]).key@ == k;
            let a = if a0 < i { a0 } else { a0 - 1 };
            assert(rest[a] == entries[a0]);
            assert(rest[a].key@ == k);
        }
    }
    assert forall|k: Seq<char>| left.contains_key(k) implies left[k] == right[k] by {
        lemma_entries_map_dom(rest, k);
        let a = choose|a: int| 0 <= a < rest.len() && (#[trigger] rest[a]).key@ == k;
        let a0 = if a < i { a } else { a + 1 };
        assert(rest[a] == entries[a0]);
        lemma_entries_map_value(rest, a);
        lemma_entries_map_value(entries, a0);
    }
    assert(left =~= right);
}

/// With one entry per peer, the mapping holds as many peers as there are
/// entries.
proof fn lemma_entries_len<V: View>(entries: Seq<Entry<V>>)
    requires
        distinct_keys(entries),
    ensures
        entries_map(entries).dom().finite(),
        entries_map(entries).len() == entries.len(),
    decreases entries.len(),
{
    if entries.len() > 0 {
        let front = entries.drop_last();
        assert(distinct_keys(front)) by {
            assert forall|a: int, b: int| 0 <= a < b < front.len() implies (#[trigger] front[a]).key@
                != (#[trigger] front[b]).key@ by {
                assert(entries[a].key@ != entries[b].key@);
            }
        }
        lemma_entries_len(front);
        lemma_entries_map_dom(front, entries.last().key@);
        if entries_map(front).contains_key(entries.last().key@) {
            let i = choose|i: int|
                0 <= i < front.len() && (#[trigger] front[i]).key@ == entries.last().key@;
            assert(entries[i].key@ != entries[entries.len() - 1].key@);
        }
    }
}

} // verus!
