//! The reassembly store: pending first halves of two-fragment AIS
//! transmissions, keyed by transmission identity.

use vstd::prelude::*;
use crate::MAX_SENTENCE_CHARS;

verus! {

/// Identity of a multi-fragment AIS transmission. Two fragments belong
/// together exactly when their keys agree on every field but the
/// fragment number.
#[derive(Debug, Clone, PartialEq)]
pub struct ReassemblyKey {
    /// Whether the sentence reports the own vessel (`VDO`) or another (`VDM`).
    pub own_vessel: bool,
    pub message_id: u64,
    pub fragment_count: u8,
    pub fragment_number: u8,
    /// Radio channel code (usually `A`, `B` or empty).
    pub channel: String,
}

/// Mathematical model of a reassembly key.
#[verifier::ext_equal]
pub struct KeyModel {
    pub own_vessel: bool,
    pub message_id: u64,
    pub fragment_count: u8,
    pub fragment_number: u8,
    pub channel: Seq<char>,
}

impl View for ReassemblyKey {
    type V = KeyModel;

    open spec fn view(&self) -> KeyModel {
        KeyModel {
            own_vessel: self.own_vessel,
            message_id: self.message_id,
            fragment_count: self.fragment_count,
            fragment_number: self.fragment_number,
            channel: self.channel@,
        }
    }
}

impl ReassemblyKey {
    /// Whether two keys name the same transmission fragment.
    pub fn matches(&self, other: &ReassemblyKey) -> (r: bool)
        ensures
            r == (self@ == other@),
    {
        let r = self.own_vessel == other.own_vessel && self.message_id == other.message_id
            && self.fragment_count == other.fragment_count && self.fragment_number
            == other.fragment_number && self.channel == other.channel;
        proof {
            if r {
                assert(self@ =~= other@);
            }
        }
        r
    }
}

/// The map an entry sequence denotes; a later entry overwrites an earlier
/// one with the same key.
pub open spec fn entries_map(s: Seq<(ReassemblyKey, String)>) -> Map<KeyModel, Seq<char>>
    decreases s.len(),
{
    if s.len() == 0 {
        Map::empty()
    } else {
        entries_map(s.drop_last()).insert(s.last().0@, s.last().1@)
    }
}

/// Pending fragment payloads, a map from transmission identity to the
/// buffered payload text. Entries are consumed on pairing.
#[derive(Debug)]
pub struct NmeaStore {
    entries: Vec<(ReassemblyKey, String)>,
}

pub proof fn lemma_entries_map_contains(s: Seq<(ReassemblyKey, String)>, k: KeyModel)
    ensures
        entries_map(s).contains_key(k) <==> exists|i: int| 0 <= i < s.len() && s[i].0@ == k,
    decreases s.len(),
{
    if s.len() > 0 {
        lemma_entries_map_contains(s.drop_last(), k);
        if s.last().0@ == k {
            assert(s[s.len() - 1].0@ == k);
        } else if entries_map(s).contains_key(k) {
            let i = choose|i: int| 0 <= i < s.drop_last().len() && s.drop_last()[i].0@ == k;
            assert(s[i].0@ == k);
        } else {
            assert(forall|i: int| 0 <= i < s.len() - 1 ==> s.drop_last()[i] == s[i]);
        }
    }
}

impl NmeaStore {
    /// The store's internal well-formedness: entry keys are distinct, and
    /// every buffered payload respects the decoder's length bound.
    pub closed spec fn wf(&self) -> bool {
        &&& forall|i: int, j: int|
            0 <= i < j < self.entries@.len() ==> self.entries@[i].0@ != self.entries@[j].0@
        &&& forall|i: int|
            0 <= i < self.entries@.len() ==> #[trigger] self.entries@[i].1@.len()
                <= MAX_SENTENCE_CHARS
    }

    /// A store with no pending fragments.
    pub fn new() -> (r: NmeaStore)
        ensures
            r.wf(),
            r@ == Map::<KeyModel, Seq<char>>::empty(),
    {
        NmeaStore { entries: Vec::new() }
    }

    fn find_index(&self, key: &ReassemblyKey) -> (r: Option<usize>)
        ensures
            match r {
                Some(i) => i < self.entries@.len() && self.entries@[i as int].0@ == key@,
                None => forall|i: int| 0 <= i < self.entries@.len() ==> self.entries@[i].0@ != key@,
            },
    {
        let mut i: usize = 0;
        while i < self.entries.len()
            invariant
                i <= self.entries@.len(),
                forall|j: int| 0 <= j < i ==> self.entries@[j].0@ != key@,
            decreases self.entries@.len() - i,
        {
            if self.entries[i].0.matches(key) {
                return Some(i);
            }
            i = i + 1;
        }
        None
    }

    /// Removes and returns the payload buffered under `key`, if any.
    pub fn take(&mut self, key: &ReassemblyKey) -> (r: Option<String>)
        requires
            old(self).wf(),
        ensures
            final(self).wf(),
            match r {
                Some(p) => {
                    &&& old(self)@.contains_key(key@)
                    &&& p@ == old(self)@[key@]
                    &&& p@.len() <= MAX_SENTENCE_CHARS
                    &&& final(self)@ == old(self)@.remove(key@)
                },
                None => {
                    &&& !old(self)@.contains_key(key@)
                    &&& *final(self) == *old(self)
                },
            },
    {
        proof {
            lemma_entries_map_contains(self.entries@, key@);
        }
        match self.find_index(key) {
            Some(i) => {
                let ghost s = self.entries@;
                let (_, payload) = self.entries.remove(i);
                proof {
                    lemma_entries_map_at(s, i as int);
                    lemma_entries_map_remove(s, i as int);
                    assert forall|a: int, b: int|
                        0 <= a < b < self.entries@.len() implies self.entries@[a].0@
                        != self.entries@[b].0@ by {
                        s.remove_ensures(i as int);
                    }
                    assert forall|a: int|
                        0 <= a < self.entries@.len() implies #[trigger] self.entries@[a].1@.len()
                        <= MAX_SENTENCE_CHARS by {
                        s.remove_ensures(i as int);
                    }
                }
                Some(payload)
            },
            None => None,
        }
    }

    /// Buffers `payload` under `key`, overwriting any prior entry there:
    /// a newer transmission takes precedence.
    pub fn put(&mut self, key: ReassemblyKey, payload: String)
        requires
            old(self).wf(),
            payload@.len() <= MAX_SENTENCE_CHARS,
        ensures
            final(self).wf(),
            final(self)@ == old(self)@.insert(key@, payload@),
    {
        let ghost m0 = self@;
        let _ = self.take(&key);
        proof {
            lemma_entries_map_contains(self.entries@, key@);
        }
        let ghost s = self.entries@;
        self.entries.push((key, payload));
        proof {
            assert(self.entries@.drop_last() =~= s);
            assert(self.entries@.last() == self.entries@[s.len() as int]);
            assert(self@ =~= m0.insert(self.entries@.last().0@, self.entries@.last().1@));
        }
    }
}

impl View for NmeaStore {
    type V = Map<KeyModel, Seq<char>>;

    closed spec fn view(&self) -> Map<KeyModel, Seq<char>> {
        entries_map(self.entries@)
    }
}

/// Under distinct keys, the entry at `i` is what the map holds at its key.
proof fn lemma_entries_map_at(s: Seq<(ReassemblyKey, String)>, i: int)
    requires
        0 <= i < s.len(),
        forall|a: int, b: int| 0 <= a < b < s.len() ==> s[a].0@ != s[b].0@,
    ensures
        entries_map(s).contains_key(s[i].0@),
        entries_map(s)[s[i].0@] == s[i].1@,
    decreases s.len(),
{
    if i == s.len() - 1 {
    } else {
        assert(forall|a: int| 0 <= a < s.len() - 1 ==> s.drop_last()[a] == s[a]);
        lemma_entries_map_at(s.drop_last(), i);
        assert(s[i].0@ != s.last().0@);
    }
}

/// Under distinct keys, removing the entry at `i` removes its key from
/// the map and nothing else.
proof fn lemma_entries_map_remove(s: Seq<(ReassemblyKey, String)>, i: int)
    requires
        0 <= i < s.len(),
        forall|a: int, b: int| 0 <= a < b < s.len() ==> s[a].0@ != s[b].0@,
    ensures
        entries_map(s.remove(i)) == entries_map(s).remove(s[i].0@),
    decreases s.len(),
{
    let k = s[i].0@;
    if i == s.len() - 1 {
        assert(s.remove(i) =~= s.drop_last());
        lemma_entries_map_contains(s.drop_last(), k);
        assert(forall|a: int| 0 <= a < s.len() - 1 ==> s.drop_last()[a] == s[a]);
        assert(!entries_map(s.drop_last()).contains_key(k));
        assert(entries_map(s.drop_last()).insert(k, s.last().1@).remove(k) =~= entries_map(
            s.drop_last(),
        ));
    } else {
        let dl = s.drop_last();
        assert(forall|a: int| 0 <= a < s.len() - 1 ==> dl[a] == s[a]);
        lemma_entries_map_remove(dl, i);
        assert(s.remove(i).drop_last() =~= dl.remove(i));
        assert(s.remove(i).last() == s.last());
        assert(entries_map(s.remove(i)) == entries_map(dl.remove(i)).insert(
            s.last().0@,
            s.last().1@,
        ));
        assert(s.last().0@ != k);
        assert(entries_map(dl).remove(k).insert(s.last().0@, s.last().1@) =~= entries_map(
            dl,
        ).insert(s.last().0@, s.last().1@).remove(k));
    }
}

} // verus!
