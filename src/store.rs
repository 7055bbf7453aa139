//! A keyed record store: one mapping from id to record per kind of record.
//!
//! The mapping lives in memory here; reading and writing its file is left to
//! the caller. Saving or deleting re-reads, changes and rewrites the whole
//! mapping, with no locking: two writers of one kind can lose an update.
use vstd::prelude::*;

use crate::text::text_eq;

verus! {

/// Why a record could not be read or written.
#[derive(Debug, Clone, PartialEq, Eq)]
pub enum StoreError {
    /// No record has the id, or the file does not exist.
    NotFound,
    /// The file could not be read or written.
    Io(String),
    /// The file does not hold a well-formed mapping.
    Parse(String),
}

/// A record kept under its own id.
pub trait StoredInDb: Sized {
    spec fn key(&self) -> Seq<char>;

    fn id(&self) -> (r: String)
        ensures
            r@ == self.key(),
    ;
}

/// The mapping that a list of (id, record) pairs stands for: a later pair wins
/// over an earlier one with the same id.
pub open spec fn to_map<T>(s: Seq<(String, T)>) -> Map<Seq<char>, T>
    decreases s.len(),
{
    if s.len() == 0 {
        Map::empty()
    } else {
        to_map(s.drop_last()).insert(s.last().0@, s.last().1)
    }
}

/// The pairs of `s` whose id is not `k`, in order.
pub open spec fn without<T>(s: Seq<(String, T)>, k: Seq<char>) -> Seq<(String, T)>
    decreases s.len(),
{
    if s.len() == 0 {
        s
    } else if s.last().0@ == k {
        without(s.drop_last(), k)
    } else {
        without(s.drop_last(), k).push(s.last())
    }
}

proof fn lemma_without<T>(s: Seq<(String, T)>, k: Seq<char>)
    ensures
        to_map(without(s, k)) == to_map(s).remove(k),
    decreases s.len(),
{
    if s.len() > 0 {
        lemma_without(s.drop_last(), k);
        let w = without(s.drop_last(), k);
        if s.last().0@ != k {
            assert(without(s, k).drop_last() == w);
            assert(to_map(without(s, k)) =~= to_map(s).remove(k));
        } else {
            assert(to_map(without(s, k)) =~= to_map(s).remove(k));
        }
    } else {
        assert(to_map(s).remove(k) =~= to_map(s));
    }
}

proof fn lemma_last_match<T>(s: Seq<(String, T)>, i: int, k: Seq<char>)
    requires
        0 <= i < s.len(),
        s[i].0@ == k,
        forall|j: int| i < j < s.len() ==> (#[trigger] s[j]).0@ != k,
    ensures
        to_map(s).contains_key(k),
        to_map(s)[k] == s[i].1,
    decreases s.len(),
{
    if i < s.len() - 1 {
        let t = s.drop_last();
        assert forall|j: int| i < j < t.len() implies (#[trigger] t[j]).0@ != k by {
            assert(t[j] == s[j]);
        }
        lemma_last_match(t, i, k);
    }
}

proof fn lemma_no_match<T>(s: Seq<(String, T)>, k: Seq<char>)
    requires
        forall|j: int| 0 <= j < s.len() ==> (#[trigger] s[j]).0@ != k,
    ensures
        !to_map(s).contains_key(k),
    decreases s.len(),
{
    if s.len() > 0 {
        let t = s.drop_last();
        assert forall|j: int| 0 <= j < t.len() implies (#[trigger] t[j]).0@ != k by {
            assert(t[j] == s[j]);
        }
        lemma_no_match(t, k);
    }
}

/// The records of one kind, by id.
pub struct Database<T> {
    entries: Vec<(String, T)>,
}

impl<T> View for Database<T> {
    type V = Map<Seq<char>, T>;

    closed spec fn view(&self) -> Map<Seq<char>, T> {
        to_map(self.entries@)
    }
}

impl<T> Database<T> {
    /// The empty mapping.
    pub fn new() -> (d: Database<T>)
        ensures
            d@ == Map::<Seq<char>, T>::empty(),
    {
        let d = Database { entries: Vec::new() };
        assert(d@ =~= Map::<Seq<char>, T>::empty());
        d
    }

    /// The mapping that (id, record) pairs stand for; of two pairs with one id the later wins.
    pub fn from_entries(entries: Vec<(String, T)>) -> (d: Database<T>)
        ensures
            d@ == to_map(entries@),
    {
        Database { entries }
    }

    /// The mapping from what reading its file gave: an absent file is an empty mapping.
    pub fn loaded(read: Result<Vec<(String, T)>, StoreError>) -> (r: Result<Database<T>, StoreError>)
        ensures
            match read {
                Ok(entries) => r is Ok && r->Ok_0@ == to_map(entries@),
                Err(StoreError::NotFound) => r is Ok && r->Ok_0@ == Map::<Seq<char>, T>::empty(),
                Err(e) => r == Err::<Database<T>, StoreError>(e),
            },
    {
        match read {
            Ok(entries) => Ok(Database::from_entries(entries)),
            Err(StoreError::NotFound) => Ok(Database::new()),
            Err(e) => Err(e),
        }
    }

    /// The (id, record) pairs; of two with one id the later counts.
    pub fn entries(&self) -> (r: &Vec<(String, T)>)
        ensures
            to_map(r@) == self@,
    {
        &self.entries
    }

    /// The pairs, handed over.
    pub fn into_entries(self) -> (r: Vec<(String, T)>)
        ensures
            to_map(r@) == self@,
    {
        self.entries
    }

    /// The record under `id`.
    pub fn get_by_id(&self, id: &str) -> (r: Result<&T, StoreError>)
        ensures
            self@.contains_key(id@) ==> r is Ok && *r->Ok_0 == self@[id@],
            !self@.contains_key(id@) ==> r == Err::<&T, StoreError>(StoreError::NotFound),
    {
        let mut i: usize = self.entries.len();
        while i > 0
            invariant
                i <= self.entries.len(),
                forall|j: int| i <= j < self.entries@.len() ==> (#[trigger] self.entries@[j]).0@
                    != id@,
            decreases i,
        {
            i = i - 1;
            if text_eq(self.entries[i].0.as_str(), id) {
                proof {
                    lemma_last_match(self.entries@, i as int, id@);
                }
                return Ok(&self.entries[i].1);
            }
        }
        proof {
            lemma_no_match(self.entries@, id@);
        }
        Err(StoreError::NotFound)
    }

    /// Removes the record under `id`; fails with `NotFound`, changing nothing, when there is none.
    pub fn delete_by_id(&mut self, id: &str) -> (r: Result<(), StoreError>)
        ensures
            old(self)@.contains_key(id@) ==> r is Ok && final(self)@ == old(self)@.remove(id@),
            !old(self)@.contains_key(id@) ==> r == Err::<(), StoreError>(StoreError::NotFound)
                && final(self)@ == old(self)@,
    {
        match self.get_by_id(id) {
            Ok(_) => {},
            Err(e) => {
                return Err(e);
            },
        }
        self.remove_key(id);
        Ok(())
    }

    /// Drops every pair under `id`.
    fn remove_key(&mut self, id: &str)
        ensures
            final(self)@ == old(self)@.remove(id@),
    {
        let mut old_entries: Vec<(String, T)> = Vec::new();
        std::mem::swap(&mut old_entries, &mut self.entries);
        let ghost s = old_entries@;
        let mut kept: Vec<(String, T)> = Vec::new();
        for e in it: old_entries
            invariant
                it.seq() == s,
                kept@ == without(s.take(it.index() as int), id@),
        {
            let ghost before = s.take(it.index() as int);
            assert(s.take(it.index() + 1).drop_last() =~= before);
            if !text_eq(e.0.as_str(), id) {
                kept.push(e);
            }
        }
        assert(s.take(s.len() as int) =~= s);
        proof {
            lemma_without(s, id@);
        }
        self.entries = kept;
    }
}

impl<T: StoredInDb> Database<T> {
    /// Puts `record` under its id, replacing what was there.
    pub fn save(&mut self, record: T)
        ensures
            final(self)@ == old(self)@.insert(record.key(), record),
    {
        let id = record.id();
        self.remove_key(id.as_str());
        let ghost before = self.entries@;
        self.entries.push((id, record));
        assert(self.entries@.drop_last() == before);
        assert(self@ =~= old(self)@.insert(record.key(), record));
    }

    /// Removes the record under the id of `record`; without one, nothing changes.
    pub fn delete(&mut self, record: &T)
        ensures
            final(self)@ == old(self)@.remove(record.key()),
    {
        let id = record.id();
        self.remove_key(id.as_str());
    }
}

} // verus!
