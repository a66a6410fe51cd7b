//! Create and manipulate eBPF maps.
//!
//! The two map kinds are modelled exactly as the kernel keeps them: a
//! dense-array map with integer keys `0..max_entries`, pre-populated with
//! zero values and rejecting deletion, and a sparse hash map holding only the
//! entries explicitly written.  Every operation carries the contract of the
//! corresponding kernel action, error codes included, and iteration follows
//! the kernel protocol of repeated `get_next_key` / `get` rounds.  The
//! functions at the end of the module interpret a raw syscall result for the
//! callers that drive the same operations against a kernel-resident map.

use crate::data::{
    MapCreateAttr,
    MapElemAttr,
    MapFd,
    RawOsError,
    WriteOption,
    E2BIG,
    EEXIST,
    EINVAL,
    ENOENT,
};
use vstd::prelude::*;

verus! {

/// Failure to create a map.
#[derive(Clone, Copy, Debug, PartialEq, Eq, Structural)]
pub enum CreationError {
    PermissionDenied,
}

/// Iteration cursor: the key the previous round returned, and whether the
/// key space is exhausted.
pub struct Iter<K> {
    pub last: Option<K>,
    pub done: bool,
}

impl<K> Iter<K> {
    /// A cursor positioned before the first key.
    pub fn new() -> (r: Iter<K>)
        ensures
            r.last is None,
            !r.done,
    {
        Iter { last: None, done: false }
    }
}

/// The mathematical contents of an association list: later entries win,
/// though the maps below keep their keys unique.
pub open spec fn seq_to_map(s: Seq<(u64, u64)>) -> Map<u64, u64>
    decreases s.len(),
{
    if s.len() == 0 {
        Map::empty()
    } else {
        seq_to_map(s.drop_last()).insert(s.last().0, s.last().1)
    }
}

/// Whether some entry of `s` carries the key `k`.
pub open spec fn seq_has_key(s: Seq<(u64, u64)>, k: u64) -> bool {
    exists|i: int| 0 <= i < s.len() && s[i].0 == k
}

/// Index of the first entry carrying `k`.
pub open spec fn spec_key_index(s: Seq<(u64, u64)>, k: u64) -> int
    decreases s.len(),
{
    if s.len() == 0 {
        0
    } else if s[0].0 == k {
        0
    } else {
        1 + spec_key_index(s.skip(1), k)
    }
}

/// No two entries of `s` carry the same key.
pub open spec fn keys_unique(s: Seq<(u64, u64)>) -> bool {
    forall|i: int, j: int| 0 <= i < j < s.len() ==> s[i].0 != s[j].0
}

/// The contents of an association list hold a key exactly when some entry
/// carries it.
pub proof fn lemma_seq_to_map_domain(s: Seq<(u64, u64)>, k: u64)
    ensures
        seq_to_map(s).contains_key(k) <==> seq_has_key(s, k),
    decreases s.len(),
{
    if s.len() > 0 {
        lemma_seq_to_map_domain(s.drop_last(), k);
        if seq_has_key(s.drop_last(), k) {
            let i = choose|i: int| 0 <= i < s.drop_last().len() && s.drop_last()[i].0 == k;
            assert(s[i].0 == k);
        }
        if seq_has_key(s, k) && s.last().0 != k {
            let i = choose|i: int| 0 <= i < s.len() && s[i].0 == k;
            assert(s.drop_last()[i].0 == k);
        }
    }
}

/// Under unique keys, the contents map each key to the value stored beside
/// it.
pub proof fn lemma_seq_to_map_value(s: Seq<(u64, u64)>, i: int)
    requires
        keys_unique(s),
        0 <= i < s.len(),
    ensures
        seq_to_map(s).contains_key(s[i].0),
        seq_to_map(s)[s[i].0] == s[i].1,
    decreases s.len(),
{
    if i == s.len() - 1 {
        lemma_seq_to_map_domain(s, s[i].0);
    } else {
        lemma_seq_to_map_value(s.drop_last(), i);
        assert(s.drop_last()[i] == s[i]);
        assert(s.last().0 != s[i].0);
    }
}

/// Updating the entry that carries `k` in place updates the contents at `k`.
pub proof fn lemma_seq_to_map_update(s: Seq<(u64, u64)>, i: int, k: u64, v: u64)
    requires
        keys_unique(s),
        0 <= i < s.len(),
        s[i].0 == k,
    ensures
        seq_to_map(s.update(i, (k, v))) =~= seq_to_map(s).insert(k, v),
    decreases s.len(),
{
    lemma_seq_to_map_domain(s, k);
    if i == s.len() - 1 {
        assert(s.update(i, (k, v)).drop_last() =~= s.drop_last());
        assert(s.update(i, (k, v)).last() == (k, v));
    } else {
        assert(s.update(i, (k, v)).drop_last() =~= s.drop_last().update(i, (k, v)));
        assert(s.update(i, (k, v)).last() == s.last());
        lemma_seq_to_map_update(s.drop_last(), i, k, v);
        assert(s.last().0 != k);
    }
}

/// Removing the entry that carries `k` removes `k` from the contents.
pub proof fn lemma_seq_to_map_remove(s: Seq<(u64, u64)>, i: int)
    requires
        keys_unique(s),
        0 <= i < s.len(),
    ensures
        seq_to_map(s.remove(i)) =~= seq_to_map(s).remove(s[i].0),
    decreases s.len(),
{
    let k = s[i].0;
    lemma_seq_to_map_domain(s.remove(i), k);
    if i == s.len() - 1 {
        assert(s.remove(i) =~= s.drop_last());
        lemma_seq_to_map_domain(s.drop_last(), k);
        assert(!seq_has_key(s.drop_last(), k)) by {
            if seq_has_key(s.drop_last(), k) {
                let j = choose|j: int| 0 <= j < s.drop_last().len() && s.drop_last()[j].0 == k;
                assert(s[j].0 == s[i].0);
            }
        }
        assert(seq_to_map(s.drop_last()) =~= seq_to_map(s.drop_last()).remove(k));
    } else {
        assert(s.remove(i).drop_last() =~= s.drop_last().remove(i));
        assert(s.remove(i).last() == s.last());
        lemma_seq_to_map_remove(s.drop_last(), i);
        assert(s.last().0 != k);
    }
}

/// The first index carrying a key is the index where a front-to-back scan
/// stops.
pub proof fn lemma_key_index(s: Seq<(u64, u64)>, k: u64, i: int)
    requires
        0 <= i < s.len(),
        s[i].0 == k,
        forall|j: int| 0 <= j < i ==> s[j].0 != k,
    ensures
        spec_key_index(s, k) == i,
    decreases s.len(),
{
    if s[0].0 != k {
        assert(s.skip(1)[i - 1].0 == k);
        assert(forall|j: int| 0 <= j < i - 1 ==> s.skip(1)[j].0 != #[trigger] s.skip(1)[j].0
            || s.skip(1)[j] == s[j + 1]);
        lemma_key_index(s.skip(1), k, i - 1);
    }
}

/// A key that some entry carries has its first index inside the sequence.
pub proof fn lemma_key_index_valid(s: Seq<(u64, u64)>, k: u64)
    requires
        seq_has_key(s, k),
    ensures
        0 <= spec_key_index(s, k) < s.len(),
        s[spec_key_index(s, k)].0 == k,
    decreases s.len(),
{
    if s[0].0 != k {
        assert(seq_has_key(s.skip(1), k)) by {
            let i = choose|i: int| 0 <= i < s.len() && s[i].0 == k;
            assert(s.skip(1)[i - 1].0 == k);
        }
        lemma_key_index_valid(s.skip(1), k);
        assert(s[spec_key_index(s, k)] == s.skip(1)[spec_key_index(s.skip(1), k)]);
    }
}

/// A sparse kernel map: holds exactly the entries written, keyed by 64-bit
/// words.
pub struct HashMap {
    pub max_entries: u32,
    pub entries: Vec<(u64, u64)>,
}

impl HashMap {
    /// Well-formedness: a positive capacity bounds the entry count, and keys
    /// are unique.
    pub open spec fn wf(&self) -> bool {
        &&& self.max_entries > 0
        &&& self.entries@.len() <= self.max_entries
        &&& keys_unique(self.entries@)
    }

    /// The key/value store this map holds.
    pub open spec fn contents(&self) -> Map<u64, u64> {
        seq_to_map(self.entries@)
    }

    /// The payload a map-create action for this shape of map carries: hash
    /// kind, 8-byte keys and values.
    pub fn create_attr(max_entries: u32) -> (r: MapCreateAttr)
        ensures
            r == (MapCreateAttr {
                map_type: 1u32,
                key_size: 8u32,
                value_size: 8u32,
                max_entries: max_entries,
                map_flags: 0u32,
            }),
    {
        MapCreateAttr {
            map_type: crate::data::MapType::Hash.code(),
            key_size: 8,
            value_size: 8,
            max_entries,
            map_flags: 0,
        }
    }

    /// Creates an empty map able to hold `max_entries` entries; a zero
    /// capacity is rejected as the kernel rejects it.
    pub fn new(max_entries: u32) -> (r: Result<HashMap, RawOsError>)
        ensures
            max_entries == 0 ==> r == Err::<HashMap, RawOsError>(RawOsError(EINVAL)),
            max_entries > 0 ==> (match r {
                Ok(m) => m.wf() && m.max_entries == max_entries && m.contents() =~= Map::empty()
                    && m.entries@ =~= Seq::<(u64, u64)>::empty(),
                Err(_) => false,
            }),
    {
        if max_entries == 0 {
            Err(RawOsError::new(EINVAL))
        } else {
            Ok(HashMap { max_entries, entries: Vec::new() })
        }
    }

    /// The capacity fixed at creation.
    pub fn max_entries(&self) -> (r: u32)
        ensures
            r == self.max_entries,
    {
        self.max_entries
    }

    /// Releases the map.  The kernel-resident twin would close its
    /// descriptor here; whether closing should also drop a pinned filesystem
    /// path is left to the caller.
    pub fn destroy(self) {
    }

    /// Index of the entry carrying `k`, scanning from the front.
    fn find_index(&self, k: u64) -> (r: Option<usize>)
        ensures
            match r {
                Some(i) => i < self.entries@.len() && self.entries@[i as int].0 == k && i
                    == spec_key_index(self.entries@, k) && seq_has_key(self.entries@, k),
                None => !seq_has_key(self.entries@, k),
            },
    {
        let mut i: usize = 0;
        while i < self.entries.len()
            invariant
                i <= self.entries@.len(),
                forall|j: int| 0 <= j < i ==> self.entries@[j].0 != k,
            decreases self.entries@.len() - i,
        {
            if self.entries[i].0 == k {
                proof {
                    lemma_key_index(self.entries@, k, i as int);
                }
                return Some(i);
            }
            i = i + 1;
        }
        None
    }

    /// Looks the key up; a missing key reports the not-found code.
    pub fn get(&self, k: u64) -> (r: Result<u64, RawOsError>)
        requires
            self.wf(),
        ensures
            self.contents().contains_key(k) ==> r == Ok::<u64, RawOsError>(self.contents()[k]),
            !self.contents().contains_key(k) ==> r == Err::<u64, RawOsError>(RawOsError(ENOENT)),
    {
        proof {
            lemma_seq_to_map_domain(self.entries@, k);
        }
        match self.find_index(k) {
            Some(i) => {
                proof {
                    lemma_seq_to_map_value(self.entries@, i as int);
                }
                Ok(self.entries[i].1)
            },
            None => Err(RawOsError::new(ENOENT)),
        }
    }

    /// Looks the key up, writing the value into a caller-provided slot
    /// instead of returning it.
    pub fn get_and_write_to_ptr(&self, k: u64, val_ptr: &mut u64) -> (r: Result<(), RawOsError>)
        requires
            self.wf(),
        ensures
            self.contents().contains_key(k) ==> r == Ok::<(), RawOsError>(()) && *final(val_ptr)
                == self.contents()[k],
            !self.contents().contains_key(k) ==> r == Err::<(), RawOsError>(RawOsError(ENOENT))
                && *final(val_ptr) == *old(val_ptr),
    {
        match self.get(k) {
            Ok(v) => {
                *val_ptr = v;
                Ok(())
            },
            Err(e) => Err(e),
        }
    }

    /// Writes `v` under `k` subject to the write option: `CreateEntry` fails
    /// with the already-exists code on a present key and changes nothing;
    /// `UpdateEntry` fails with the not-found code on an absent key and
    /// creates no entry; a new entry in a full map fails with the
    /// out-of-space code.
    pub fn set_if(&mut self, k: u64, v: u64, opt: WriteOption) -> (r: Result<(), RawOsError>)
        requires
            old(self).wf(),
        ensures
            final(self).wf(),
            final(self).max_entries == old(self).max_entries,
            match r {
                Ok(_) => {
                    &&& final(self).contents() =~= old(self).contents().insert(k, v)
                    &&& (old(self).contents().contains_key(k) ==> final(self).entries@
                        =~= old(self).entries@.update(
                        spec_key_index(old(self).entries@, k),
                        (k, v),
                    ))
                    &&& (!old(self).contents().contains_key(k) ==> final(self).entries@
                        =~= old(self).entries@.push((k, v)))
                    &&& (opt is CreateEntry ==> !old(self).contents().contains_key(k))
                    &&& (opt is UpdateEntry ==> old(self).contents().contains_key(k))
                },
                Err(e) => {
                    &&& *final(self) == *old(self)
                    &&& (e == RawOsError(EEXIST) <==> opt is CreateEntry && old(
                        self,
                    ).contents().contains_key(k))
                    &&& (e == RawOsError(ENOENT) <==> opt is UpdateEntry && !old(
                        self,
                    ).contents().contains_key(k))
                    &&& (e == RawOsError(E2BIG) <==> !(opt is UpdateEntry) && !old(
                        self,
                    ).contents().contains_key(k) && old(self).entries@.len() == old(
                        self,
                    ).max_entries)
                    &&& (e == RawOsError(EEXIST) || e == RawOsError(ENOENT) || e == RawOsError(
                        E2BIG,
                    ))
                },
            },
    {
        proof {
            lemma_seq_to_map_domain(self.entries@, k);
        }
        match self.find_index(k) {
            Some(i) => {
                if matches!(opt, WriteOption::CreateEntry) {
                    return Err(RawOsError::new(EEXIST));
                }
                proof {
                    lemma_seq_to_map_update(self.entries@, i as int, k, v);
                }
                self.entries[i] = (k, v);
                proof {
                    let s0 = old(self).entries@;
                    let s1 = self.entries@;
                    assert forall|a: int| 0 <= a < s1.len() implies #[trigger] s1[a].0
                        == s0[a].0 by {}
                    assert(keys_unique(s1));
                }
                Ok(())
            },
            None => {
                if matches!(opt, WriteOption::UpdateEntry) {
                    return Err(RawOsError::new(ENOENT));
                }
                if self.entries.len() >= self.max_entries as usize {
                    return Err(RawOsError::new(E2BIG));
                }
                self.entries.push((k, v));
                proof {
                    let s0 = old(self).entries@;
                    let s1 = self.entries@;
                    assert(s1.drop_last() =~= s0);
                    assert(s1.last() == (k, v));
                    assert(seq_to_map(s1) =~= seq_to_map(s0).insert(k, v));
                    assert forall|a: int, b: int| 0 <= a < b < s1.len() implies s1[a].0
                        != s1[b].0 by {
                        if b == s0.len() {
                            assert(!seq_has_key(s0, k));
                            assert(s1[a].0 == s0[a].0);
                            if s0[a].0 == k {
                                assert(seq_has_key(s0, k));
                            }
                        }
                    }
                }
                Ok(())
            },
        }
    }

    /// Writes `v` under `k`, creating or updating as needed.
    pub fn set(&mut self, k: u64, v: u64) -> (r: Result<(), RawOsError>)
        requires
            old(self).wf(),
        ensures
            final(self).wf(),
            final(self).max_entries == old(self).max_entries,
            match r {
                Ok(_) => final(self).contents() =~= old(self).contents().insert(k, v),
                Err(e) => *final(self) == *old(self) && e == RawOsError(E2BIG) && !old(
                    self,
                ).contents().contains_key(k) && old(self).entries@.len() == old(self).max_entries,
            },
    {
        self.set_if(k, v, WriteOption::CreateOrUpdate)
    }

    /// Removes the entry under `k`; a missing key reports the not-found
    /// code.
    pub fn delete(&mut self, k: u64) -> (r: Result<(), RawOsError>)
        requires
            old(self).wf(),
        ensures
            final(self).wf(),
            final(self).max_entries == old(self).max_entries,
            match r {
                Ok(_) => old(self).contents().contains_key(k) && final(self).contents()
                    =~= old(self).contents().remove(k) && final(self).entries@
                    =~= old(self).entries@.remove(spec_key_index(old(self).entries@, k)),
                Err(e) => *final(self) == *old(self) && e == RawOsError(ENOENT) && !old(
                    self,
                ).contents().contains_key(k),
            },
    {
        proof {
            lemma_seq_to_map_domain(self.entries@, k);
        }
        match self.find_index(k) {
            Some(i) => {
                proof {
                    lemma_seq_to_map_remove(self.entries@, i as int);
                }
                self.entries.remove(i);
                Ok(())
            },
            None => Err(RawOsError::new(ENOENT)),
        }
    }

    /// Removes the entry under `k`, reporting failure without a code.
    pub fn delete_entry(&mut self, k: u64) -> (r: Result<(), ()>)
        requires
            old(self).wf(),
        ensures
            final(self).wf(),
            final(self).max_entries == old(self).max_entries,
            match r {
                Ok(_) => old(self).contents().contains_key(k) && final(self).contents()
                    =~= old(self).contents().remove(k),
                Err(_) => *final(self) == *old(self) && !old(self).contents().contains_key(k),
            },
    {
        match self.delete(k) {
            Ok(_) => Ok(()),
            Err(_) => Err(()),
        }
    }

    /// The key the kernel hands out after `k`: `None` as input requests the
    /// first key; the end of the key space comes back as `Ok(None)`; an
    /// absent input key restarts from the first key, as the kernel's hash
    /// table does.
    pub fn get_next_key(&self, k: Option<u64>) -> (r: Result<Option<u64>, RawOsError>)
        requires
            self.wf(),
        ensures
            r == Ok::<Option<u64>, RawOsError>(self.get_next_key_spec(k)),
    {
        if self.entries.len() == 0 {
            return Ok(None);
        }
        match k {
            None => Ok(Some(self.entries[0].0)),
            Some(x) => match self.find_index(x) {
                None => Ok(Some(self.entries[0].0)),
                Some(i) => {
                    if i + 1 == self.entries.len() {
                        Ok(None)
                    } else {
                        Ok(Some(self.entries[i + 1].0))
                    }
                },
            },
        }
    }

    /// A cursor for iterating this map's entries.
    pub fn iter(&self) -> (r: Iter<u64>)
        ensures
            r.last is None,
            !r.done,
    {
        Iter::new()
    }

    /// One round of the iteration protocol: `get_next_key`, then `get`.  The
    /// cursor remembers the key handed out; once the key space is exhausted
    /// the cursor stays done.
    pub fn next_entry(&self, it: &mut Iter<u64>) -> (r: Option<(u64, u64)>)
        requires
            self.wf(),
        ensures
            old(it).done ==> r is None && *final(it) == *old(it),
            !old(it).done ==> (match r {
                None => final(it).done && self.get_next_key_spec(old(it).last) is None,
                Some(p) => {
                    &&& !final(it).done
                    &&& final(it).last == Some(p.0)
                    &&& self.get_next_key_spec(old(it).last) == Some(p.0)
                    &&& self.contents().contains_key(p.0)
                    &&& p.1 == self.contents()[p.0]
                },
            }),
    {
        if it.done {
            return None;
        }
        let next = match self.get_next_key(it.last) {
            Ok(n) => n,
            Err(_) => {
                // `get_next_key` reports no error on an exclusively owned map.
                proof {
                    assert(false);
                }
                None
            },
        };
        match next {
            None => {
                it.done = true;
                None
            },
            Some(nk) => {
                proof {
                    self.lemma_next_key_has_entry(it.last);
                }
                match self.get(nk) {
                    Ok(v) => {
                        it.last = Some(nk);
                        Some((nk, v))
                    },
                    Err(_) => {
                        // A concurrent writer could remove the key between the
                        // two rounds; an exclusively owned map cannot.
                        proof {
                            assert(false);
                        }
                        None
                    },
                }
            },
        }
    }

    /// What `get_next_key` returns on this map for a given cursor key.
    pub open spec fn get_next_key_spec(&self, k: Option<u64>) -> Option<u64> {
        if self.entries@.len() == 0 {
            None
        } else {
            match k {
                None => Some(self.entries@[0].0),
                Some(x) => {
                    if !seq_has_key(self.entries@, x) {
                        Some(self.entries@[0].0)
                    } else if spec_key_index(self.entries@, x) == self.entries@.len() - 1 {
                        None
                    } else {
                        Some(self.entries@[spec_key_index(self.entries@, x) + 1].0)
                    }
                },
            }
        }
    }

    /// The key `get_next_key` hands out is carried by some entry of the map.
    pub proof fn lemma_next_key_has_entry(&self, k: Option<u64>)
        requires
            self.wf(),
        ensures
            (match self.get_next_key_spec(k) {
                Some(x) => seq_has_key(self.entries@, x) && self.contents().contains_key(x)
                    && self.contents()[x] == self.entries@[spec_key_index(self.entries@, x)].1,
                None => true,
            }),
    {
        let s = self.entries@;
        match self.get_next_key_spec(k) {
            Some(x) => {
                match k {
                    None => {
                        assert(s[0].0 == x);
                    },
                    Some(y) => {
                        if !seq_has_key(s, y) {
                            assert(s[0].0 == x);
                        } else {
                            lemma_key_index_valid(s, y);
                            let i = spec_key_index(s, y);
                            assert(s[i + 1].0 == x);
                        }
                    },
                }
                lemma_seq_to_map_domain(s, x);
                lemma_key_index_valid(s, x);
                lemma_seq_to_map_value(s, spec_key_index(s, x));
            },
            None => {
            },
        }
    }

    /// Runs the iteration protocol over the whole map, yielding every entry
    /// exactly once, in the map's internal order.
    pub fn items(&self) -> (r: Vec<(u64, u64)>)
        requires
            self.wf(),
        ensures
            r@ =~= self.entries@,
    {
        let mut out: Vec<(u64, u64)> = Vec::new();
        let mut it = self.iter();
        loop
            invariant_except_break
                !it.done,
                it.last == (if out@.len() == 0 {
                    None::<u64>
                } else {
                    Some(self.entries@[out@.len() - 1].0)
                }),
            invariant
                self.wf(),
                out@.len() <= self.entries@.len(),
                out@ =~= self.entries@.take(out@.len() as int),
            ensures
                out@ =~= self.entries@,
            decreases self.entries@.len() - out@.len(),
        {
            proof {
                let n = out@.len() as int;
                if n > 0 {
                    lemma_key_index_of_entry(self.entries@, n - 1);
                }
                if n < self.entries@.len() {
                    lemma_seq_to_map_value(self.entries@, n);
                }
            }
            match self.next_entry(&mut it) {
                None => {
                    proof {
                        assert(out@.len() == self.entries@.len());
                        assert(self.entries@.take(out@.len() as int) =~= self.entries@);
                    }
                    break ;
                },
                Some(p) => {
                    out.push(p);
                    assert(out@ =~= self.entries@.take(out@.len() as int));
                },
            }
        }
        out
    }
}

/// An entry's own index is where a key scan stops, when keys are unique.
proof fn lemma_key_index_of_entry(s: Seq<(u64, u64)>, i: int)
    requires
        keys_unique(s),
        0 <= i < s.len(),
    ensures
        seq_has_key(s, s[i].0),
        spec_key_index(s, s[i].0) == i,
{
    lemma_key_index(s, s[i].0, i);
}

/// A dense kernel map: integer keys `0..max_entries`, every slot always
/// present, zero-filled at creation.
pub struct Array {
    pub max_entries: u32,
    pub values: Vec<u64>,
}

impl Array {
    /// Well-formedness: one value per key.
    pub open spec fn wf(&self) -> bool {
        &&& self.max_entries > 0
        &&& self.values@.len() == self.max_entries
    }

    /// The payload a map-create action for this shape of map carries: array
    /// kind, 4-byte keys, 8-byte values.
    pub fn create_attr(max_entries: u32) -> (r: MapCreateAttr)
        ensures
            r == (MapCreateAttr {
                map_type: 2u32,
                key_size: 4u32,
                value_size: 8u32,
                max_entries: max_entries,
                map_flags: 0u32,
            }),
    {
        MapCreateAttr {
            map_type: crate::data::MapType::Array.code(),
            key_size: 4,
            value_size: 8,
            max_entries,
            map_flags: 0,
        }
    }

    /// Creates an array map with `max_entries` zero-valued slots; a zero
    /// capacity is rejected as the kernel rejects it.
    pub fn new(max_entries: u32) -> (r: Result<Array, RawOsError>)
        ensures
            max_entries == 0 ==> r == Err::<Array, RawOsError>(RawOsError(EINVAL)),
            max_entries > 0 ==> (match r {
                Ok(m) => m.wf() && m.max_entries == max_entries && m.values@ =~= Seq::new(
                    max_entries as nat,
                    |i: int| 0u64,
                ),
                Err(_) => false,
            }),
    {
        if max_entries == 0 {
            return Err(RawOsError::new(EINVAL));
        }
        let mut values: Vec<u64> = Vec::new();
        let mut i: u32 = 0;
        while i < max_entries
            invariant
                i <= max_entries,
                values@ =~= Seq::new(i as nat, |j: int| 0u64),
            decreases max_entries - i,
        {
            values.push(0);
            i = i + 1;
            assert(values@ =~= Seq::new(i as nat, |j: int| 0u64));
        }
        Ok(Array { max_entries, values })
    }

    /// The capacity fixed at creation.
    pub fn max_entries(&self) -> (r: u32)
        ensures
            r == self.max_entries,
    {
        self.max_entries
    }

    /// Releases the map.  The kernel-resident twin would close its
    /// descriptor here; whether closing should also drop a pinned filesystem
    /// path is left to the caller.
    pub fn destroy(self) {
    }

    /// Reads the slot under `k`; a key beyond the capacity reports the
    /// not-found code.
    pub fn get(&self, k: u32) -> (r: Result<u64, RawOsError>)
        requires
            self.wf(),
        ensures
            k < self.max_entries ==> r == Ok::<u64, RawOsError>(self.values@[k as int]),
            k >= self.max_entries ==> r == Err::<u64, RawOsError>(RawOsError(ENOENT)),
    {
        if k < self.max_entries {
            Ok(self.values[k as usize])
        } else {
            Err(RawOsError::new(ENOENT))
        }
    }

    /// Reads the slot under `k`, writing the value into a caller-provided
    /// slot instead of returning it.
    pub fn get_and_write_to_ptr(&self, k: u32, val_ptr: &mut u64) -> (r: Result<(), RawOsError>)
        requires
            self.wf(),
        ensures
            k < self.max_entries ==> r == Ok::<(), RawOsError>(()) && *final(val_ptr)
                == self.values@[k as int],
            k >= self.max_entries ==> r == Err::<(), RawOsError>(RawOsError(ENOENT))
                && *final(val_ptr) == *old(val_ptr),
    {
        match self.get(k) {
            Ok(v) => {
                *val_ptr = v;
                Ok(())
            },
            Err(e) => Err(e),
        }
    }

    /// Writes `v` into the slot under `k`; every slot always exists, so a
    /// key beyond the capacity reports the kernel's out-of-space code.
    pub fn set(&mut self, k: u32, v: u64) -> (r: Result<(), RawOsError>)
        requires
            old(self).wf(),
        ensures
            final(self).wf(),
            final(self).max_entries == old(self).max_entries,
            k < old(self).max_entries ==> r == Ok::<(), RawOsError>(()) && final(self).values@
                =~= old(self).values@.update(k as int, v),
            k >= old(self).max_entries ==> r == Err::<(), RawOsError>(RawOsError(E2BIG))
                && *final(self) == *old(self),
    {
        if k < self.max_entries {
            self.values[k as usize] = v;
            Ok(())
        } else {
            Err(RawOsError::new(E2BIG))
        }
    }

    /// The key after `k`, in the kernel's order for array maps: `None` and
    /// any out-of-range key lead to the first slot, the last slot ends the
    /// key space, any other slot leads to its successor.
    pub fn get_next_key(&self, k: Option<u32>) -> (r: Result<Option<u32>, RawOsError>)
        requires
            self.wf(),
        ensures
            r == Ok::<Option<u32>, RawOsError>(self.get_next_key_spec(k)),
    {
        match k {
            None => Ok(Some(0)),
            Some(x) => {
                if x >= self.max_entries {
                    Ok(Some(0))
                } else if x == self.max_entries - 1 {
                    Ok(None)
                } else {
                    Ok(Some(x + 1))
                }
            },
        }
    }

    /// What `get_next_key` returns on this map for a given cursor key.
    pub open spec fn get_next_key_spec(&self, k: Option<u32>) -> Option<u32> {
        match k {
            None => Some(0u32),
            Some(x) => {
                if x >= self.max_entries {
                    Some(0u32)
                } else if x == self.max_entries - 1 {
                    None
                } else {
                    Some((x + 1) as u32)
                }
            },
        }
    }

    /// A cursor for iterating this map's entries.
    pub fn iter(&self) -> (r: Iter<u32>)
        ensures
            r.last is None,
            !r.done,
    {
        Iter::new()
    }

    /// One round of the iteration protocol: `get_next_key`, then `get`.
    pub fn next_entry(&self, it: &mut Iter<u32>) -> (r: Option<(u32, u64)>)
        requires
            self.wf(),
        ensures
            old(it).done ==> r is None && *final(it) == *old(it),
            !old(it).done ==> (match r {
                None => final(it).done && self.get_next_key_spec(old(it).last) is None,
                Some(p) => {
                    &&& !final(it).done
                    &&& final(it).last == Some(p.0)
                    &&& self.get_next_key_spec(old(it).last) == Some(p.0)
                    &&& p.0 < self.max_entries
                    &&& p.1 == self.values@[p.0 as int]
                },
            }),
    {
        if it.done {
            return None;
        }
        let next = match self.get_next_key(it.last) {
            Ok(n) => n,
            Err(_) => {
                proof {
                    assert(false);
                }
                None
            },
        };
        match next {
            None => {
                it.done = true;
                None
            },
            Some(nk) => {
                match self.get(nk) {
                    Ok(v) => {
                        it.last = Some(nk);
                        Some((nk, v))
                    },
                    Err(_) => {
                        // The slot under a key `get_next_key` hands out always
                        // exists in an array map.
                        proof {
                            assert(false);
                        }
                        None
                    },
                }
            },
        }
    }

    /// Runs the iteration protocol over the whole map, yielding every slot
    /// exactly once, in key order `0..max_entries`.
    pub fn items(&self) -> (r: Vec<(u32, u64)>)
        requires
            self.wf(),
        ensures
            r@.len() == self.max_entries,
            forall|i: int|
                0 <= i < r@.len() ==> #[trigger] r@[i] == (i as u32, self.values@[i]),
    {
        let mut out: Vec<(u32, u64)> = Vec::new();
        let mut it = self.iter();
        loop
            invariant_except_break
                !it.done,
                it.last == (if out@.len() == 0 {
                    None::<u32>
                } else {
                    Some((out@.len() - 1) as u32)
                }),
            invariant
                self.wf(),
                out@.len() <= self.max_entries,
                forall|i: int|
                    0 <= i < out@.len() ==> #[trigger] out@[i] == (i as u32, self.values@[i]),
            ensures
                out@.len() == self.max_entries,
                forall|i: int|
                    0 <= i < out@.len() ==> #[trigger] out@[i] == (i as u32, self.values@[i]),
            decreases self.max_entries - out@.len(),
        {
            match self.next_entry(&mut it) {
                None => {
                    proof {
                        assert(out@.len() == self.max_entries);
                    }
                    break ;
                },
                Some(p) => {
                    out.push(p);
                },
            }
        }
        out
    }
}

/// Reads the raw result of a map-create or program-load action: a positive
/// value is the new descriptor, minus one reports the error code found in
/// `err`.  Any other value breaks the syscall's stated protocol and is left
/// out by precondition, as the caller treats it as unreachable.
pub fn interpret_fd_result(ret: i64, err: RawOsError) -> (r: Result<i32, RawOsError>)
    requires
        ret == -1 || 0 < ret <= i32::MAX,
    ensures
        ret > 0 ==> r == Ok::<i32, RawOsError>(ret as i32),
        ret == -1 ==> r == Err::<i32, RawOsError>(err),
{
    if ret == -1 {
        Err(err)
    } else {
        Ok(ret as i32)
    }
}

/// Reads the raw result of a map-create action as a typed map descriptor.
pub fn interpret_create_map_result(ret: i64, err: RawOsError) -> (r: Result<MapFd, RawOsError>)
    requires
        ret == -1 || 0 < ret <= i32::MAX,
    ensures
        ret > 0 ==> r == Ok::<MapFd, RawOsError>(MapFd(ret as i32)),
        ret == -1 ==> r == Err::<MapFd, RawOsError>(err),
{
    match interpret_fd_result(ret, err) {
        Ok(fd) => Ok(MapFd::new(fd)),
        Err(e) => Err(e),
    }
}

/// Reads the raw result of a map write, lookup or delete action: zero is
/// success, minus one reports the error code found in `err`.
pub fn interpret_status_result(ret: i64, err: RawOsError) -> (r: Result<(), RawOsError>)
    requires
        ret == 0 || ret == -1,
    ensures
        ret == 0 ==> r == Ok::<(), RawOsError>(()),
        ret == -1 ==> r == Err::<(), RawOsError>(err),
{
    if ret == 0 {
        Ok(())
    } else {
        Err(err)
    }
}

/// Reads the raw result of a get-next-key action.  `Ok(true)` says the
/// kernel wrote a following key, `Ok(false)` says the key space is
/// exhausted: the not-found code is expected control flow here, not an
/// error.
pub fn interpret_next_key_result(ret: i64, err: RawOsError) -> (r: Result<bool, RawOsError>)
    requires
        ret == 0 || ret == -1,
    ensures
        ret == 0 ==> r == Ok::<bool, RawOsError>(true),
        ret == -1 && err.0 == ENOENT ==> r == Ok::<bool, RawOsError>(false),
        ret == -1 && err.0 != ENOENT ==> r == Err::<bool, RawOsError>(err),
{
    if ret == 0 {
        Ok(true)
    } else if err.0 == ENOENT {
        Ok(false)
    } else {
        Err(err)
    }
}

/// For every key and value: after a write with `CreateOrUpdate` succeeds
/// (leaving the map in the state `set`'s contract describes), a lookup of
/// the same key finds exactly the value written.
pub proof fn lemma_set_then_get(before: HashMap, after: HashMap, k: u64, v: u64)
    requires
        after.contents() == before.contents().insert(k, v),
    ensures
        after.contents().contains_key(k),
        after.contents()[k] == v,
{
}

/// For every key: after a delete succeeds (leaving the map in the state
/// `delete`'s contract describes), a lookup of the same key reports
/// not-found.
pub proof fn lemma_delete_then_get(before: HashMap, after: HashMap, k: u64)
    requires
        after.contents() == before.contents().remove(k),
    ensures
        !after.contents().contains_key(k),
{
}

/// Builds the payload of a map-lookup action: the kernel reads the key at
/// `key_ptr` and writes the value to `value_ptr`; the flags word is unused
/// and stays zero.
pub fn lookup_attr(fd: MapFd, key_ptr: u64, value_ptr: u64) -> (r: MapElemAttr)
    requires
        fd.0 >= 0,
    ensures
        r == (MapElemAttr {
            map_fd: fd.0 as u32,
            key: key_ptr,
            value_or_next_key: value_ptr,
            flags: 0u64,
        }),
{
    MapElemAttr { map_fd: fd.get_fd() as u32, key: key_ptr, value_or_next_key: value_ptr, flags: 0 }
}

/// Builds the payload of a map-update action: the kernel reads the key and
/// the value from the caller's memory; the flags word carries the write
/// option.
pub fn update_attr(fd: MapFd, key_ptr: u64, value_ptr: u64, opt: WriteOption) -> (r: MapElemAttr)
    requires
        fd.0 >= 0,
    ensures
        r == (MapElemAttr {
            map_fd: fd.0 as u32,
            key: key_ptr,
            value_or_next_key: value_ptr,
            flags: (match opt {
                WriteOption::CreateOrUpdate => 0u64,
                WriteOption::CreateEntry => 1u64,
                WriteOption::UpdateEntry => 2u64,
            }),
        }),
{
    MapElemAttr {
        map_fd: fd.get_fd() as u32,
        key: key_ptr,
        value_or_next_key: value_ptr,
        flags: opt.flag(),
    }
}

/// Builds the payload of a map-delete action: only the key is read; the
/// value and flags words stay zero.
pub fn delete_attr(fd: MapFd, key_ptr: u64) -> (r: MapElemAttr)
    requires
        fd.0 >= 0,
    ensures
        r == (MapElemAttr { map_fd: fd.0 as u32, key: key_ptr, value_or_next_key: 0u64, flags: 0u64 }),
{
    MapElemAttr { map_fd: fd.get_fd() as u32, key: key_ptr, value_or_next_key: 0, flags: 0 }
}

/// Builds the payload of a get-next-key action: the kernel reads the cursor
/// key at `key_ptr` and writes the following key to `next_key_ptr`.
pub fn next_key_attr(fd: MapFd, key_ptr: u64, next_key_ptr: u64) -> (r: MapElemAttr)
    requires
        fd.0 >= 0,
    ensures
        r == (MapElemAttr {
            map_fd: fd.0 as u32,
            key: key_ptr,
            value_or_next_key: next_key_ptr,
            flags: 0u64,
        }),
{
    MapElemAttr { map_fd: fd.get_fd() as u32, key: key_ptr, value_or_next_key: next_key_ptr, flags: 0 }
}

/// Full iteration yields exactly the written pairs: an entry stands in the
/// iteration order exactly when the contents hold its key with its value.
pub proof fn lemma_items_match_contents(m: HashMap, k: u64, v: u64)
    requires
        m.wf(),
    ensures
        m.entries@.contains((k, v)) <==> (m.contents().contains_key(k) && m.contents()[k] == v),
{
    lemma_seq_to_map_domain(m.entries@, k);
    if m.entries@.contains((k, v)) {
        let i = choose|i: int| 0 <= i < m.entries@.len() && m.entries@[i] == (k, v);
        lemma_seq_to_map_value(m.entries@, i);
    }
    if m.contents().contains_key(k) && m.contents()[k] == v {
        let i = choose|i: int| 0 <= i < m.entries@.len() && m.entries@[i].0 == k;
        lemma_seq_to_map_value(m.entries@, i);
        assert(m.entries@[i] == (k, v));
    }
}

} // verus!
