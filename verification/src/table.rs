use vstd::prelude::*;

use crate::vec2::Vec2;

verus! {

/// One entity's registration: its identifier and its current position.
#[derive(Copy, Clone, PartialEq, Eq, Structural, Debug)]
pub struct Entry {
    pub id: u32,
    pub pos: Vec2,
}

/// The finite map an entry sequence denotes: later entries win, though a
/// well-formed table never holds the same identifier twice.
pub open spec fn entries_map(s: Seq<Entry>) -> Map<u32, Vec2>
    decreases s.len(),
{
    if s.len() == 0 {
        Map::empty()
    } else {
        entries_map(s.drop_last()).insert(s.last().id, s.last().pos)
    }
}

/// Pairwise-distinct identifiers.
pub open spec fn distinct_ids(s: Seq<Entry>) -> bool {
    forall|i: int, j: int| 0 <= i < j < s.len() ==> s[i].id != s[j].id
}

/// The entity-position mapping, stored as a vector of entries with
/// pairwise-distinct identifiers. Its view is the finite map from entity
/// identifier to position.
pub struct PositionTable {
    entries: Vec<Entry>,
}

impl View for PositionTable {
    type V = Map<u32, Vec2>;

    closed spec fn view(&self) -> Map<u32, Vec2> {
        entries_map(self.entries@)
    }
}

proof fn lemma_entries_map_dom(s: Seq<Entry>, k: u32)
    ensures
        entries_map(s).dom().contains(k) <==> exists|i: int| 0 <= i < s.len() && s[i].id == k,
    decreases s.len(),
{
    if s.len() > 0 {
        lemma_entries_map_dom(s.drop_last(), k);
        if s.last().id == k {
            assert(s[s.len() - 1].id == k);
        } else if entries_map(s).dom().contains(k) {
            let i = choose|i: int| 0 <= i < s.drop_last().len() && s.drop_last()[i].id == k;
            assert(s[i].id == k);
        } else if exists|i: int| 0 <= i < s.len() && s[i].id == k {
            let i = choose|i: int| 0 <= i < s.len() && s[i].id == k;
            assert(s.drop_last()[i].id == k);
        }
    }
}

proof fn lemma_entries_map_at(s: Seq<Entry>, i: int)
    requires
        distinct_ids(s),
        0 <= i < s.len(),
    ensures
        entries_map(s).dom().contains(s[i].id),
        entries_map(s)[s[i].id] == s[i].pos,
    decreases s.len(),
{
    if i < s.len() - 1 {
        assert(s.drop_last()[i] == s[i]);
        lemma_entries_map_at(s.drop_last(), i);
    }
}

proof fn lemma_entries_map_update(s: Seq<Entry>, k: int, pos: Vec2)
    requires
        distinct_ids(s),
        0 <= k < s.len(),
    ensures
        distinct_ids(s.update(k, Entry { id: s[k].id, pos })),
        entries_map(s.update(k, Entry { id: s[k].id, pos })) == entries_map(s).insert(s[k].id, pos),
    decreases s.len(),
{
    let id = s[k].id;
    let e = Entry { id, pos };
    let s2 = s.update(k, e);
    assert forall|i: int, j: int| 0 <= i < j < s2.len() implies s2[i].id != s2[j].id by {
        assert(s[i].id != s[j].id);
    }
    if k == s.len() - 1 {
        assert(s2.drop_last() =~= s.drop_last());
        assert(entries_map(s2) =~= entries_map(s).insert(id, pos));
    } else {
        let dl = s.drop_last();
        assert(s2.drop_last() =~= dl.update(k, e));
        assert(dl[k] == s[k]);
        lemma_entries_map_update(dl, k, pos);
        // The identifier being updated differs from the last entry's, so the
        // two inserts commute.
        assert(s.last().id != id);
        assert(entries_map(s2) =~= entries_map(s).insert(id, pos));
    }
}

impl PositionTable {
    /// Representation invariant: no identifier occurs twice.
    pub closed spec fn wf(self) -> bool {
        distinct_ids(self.entries@)
    }

    /// Builds an empty table.
    pub fn new() -> (t: PositionTable)
        ensures
            t.wf(),
            t@ == Map::<u32, Vec2>::empty(),
    {
        PositionTable { entries: Vec::new() }
    }

    /// Removes every registration.
    pub fn clear(&mut self)
        ensures
            final(self).wf(),
            final(self)@ == Map::<u32, Vec2>::empty(),
    {
        self.entries.clear();
    }

    /// Whether `id` is registered.
    pub fn contains_key(&self, id: u32) -> (r: bool)
        ensures
            r == self@.dom().contains(id),
    {
        let n = self.entries.len();
        let mut i: usize = 0;
        while i < n
            invariant
                n == self.entries@.len(),
                0 <= i <= n,
                forall|j: int| 0 <= j < i ==> self.entries@[j].id != id,
            decreases n - i,
        {
            if self.entries[i].id == id {
                proof {
                    lemma_entries_map_dom(self.entries@, id);
                }
                return true;
            }
            i += 1;
        }
        proof {
            lemma_entries_map_dom(self.entries@, id);
        }
        false
    }

    /// Looks `id` up: its position when registered, `None` otherwise.
    pub fn get(&self, id: u32) -> (r: Option<Vec2>)
        requires
            self.wf(),
        ensures
            r == (if self@.dom().contains(id) {
                Some(self@[id])
            } else {
                Option::<Vec2>::None
            }),
    {
        let n = self.entries.len();
        let mut i: usize = 0;
        while i < n
            invariant
                self.wf(),
                n == self.entries@.len(),
                0 <= i <= n,
                forall|j: int| 0 <= j < i ==> self.entries@[j].id != id,
            decreases n - i,
        {
            if self.entries[i].id == id {
                proof {
                    lemma_entries_map_at(self.entries@, i as int);
                }
                return Some(self.entries[i].pos);
            }
            i += 1;
        }
        proof {
            lemma_entries_map_dom(self.entries@, id);
        }
        None
    }

    /// Inserts or overwrites the position of `id`.
    pub fn insert(&mut self, id: u32, pos: Vec2)
        requires
            old(self).wf(),
        ensures
            final(self).wf(),
            final(self)@ == old(self)@.insert(id, pos),
    {
        let n = self.entries.len();
        let mut i: usize = 0;
        while i < n
            invariant
                self == old(self),
                self.wf(),
                n == self.entries@.len(),
                0 <= i <= n,
                forall|j: int| 0 <= j < i ==> self.entries@[j].id != id,
            decreases n - i,
        {
            if self.entries[i].id == id {
                proof {
                    lemma_entries_map_update(self.entries@, i as int, pos);
                }
                self.entries[i] = Entry { id, pos };
                return;
            }
            i += 1;
        }
        let e = Entry { id, pos };
        proof {
            lemma_entries_map_dom(self.entries@, id);
            assert(self.entries@.push(e).drop_last() =~= self.entries@);
        }
        self.entries.push(e);
        proof {
            assert(self@ =~= old(self)@.insert(id, pos));
        }
    }

    /// Takes a full copy, the per-tick snapshot appended to the ledger.
    pub fn snapshot(&self) -> (t: PositionTable)
        ensures
            t@ == self@,
            self.wf() ==> t.wf(),
    {
        let n = self.entries.len();
        let mut out: Vec<Entry> = Vec::new();
        let mut i: usize = 0;
        while i < n
            invariant
                n == self.entries@.len(),
                0 <= i <= n,
                out@ == self.entries@.subrange(0, i as int),
            decreases n - i,
        {
            out.push(self.entries[i]);
            proof {
                assert(out@ =~= self.entries@.subrange(0, i + 1));
            }
            i += 1;
        }
        proof {
            assert(out@ =~= self.entries@);
        }
        PositionTable { entries: out }
    }
}

} // verus!
