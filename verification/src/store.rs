//! Auxiliary Store Adapter: node-local, non-consensus persistent storage,
//! seen as a map from byte keys to byte values.
//!
//! The store is best-effort on both sides.  `set` may fail (for instance
//! when the node's disk is full); a failed write leaves the contents
//! unchanged and is reported only through the return value, never as an
//! error of the enclosing call.  `get` returns absent both when a key was
//! never written on this node and when a written record is no longer
//! retained, and callers must treat the two cases identically.

use vstd::prelude::*;

verus! {

/// The contents of a sequence of entries, read as a map in which a later
/// entry for a key overrides an earlier one.
pub closed spec fn entries_map(entries: Seq<(Vec<u8>, Vec<u8>)>) -> Map<Seq<u8>, Seq<u8>>
    decreases entries.len(),
{
    if entries.len() == 0 {
        Map::empty()
    } else {
        entries_map(entries.drop_last()).insert(entries.last().0@, entries.last().1@)
    }
}

/// Node-local auxiliary storage.  `available` models whether the node can
/// currently persist writes.
pub struct AuxStore {
    entries: Vec<(Vec<u8>, Vec<u8>)>,
    available: bool,
}

impl View for AuxStore {
    type V = Map<Seq<u8>, Seq<u8>>;

    closed spec fn view(&self) -> Map<Seq<u8>, Seq<u8>> {
        entries_map(self.entries@)
    }
}

/// Compares two byte strings for equality.
fn bytes_eq(a: &Vec<u8>, b: &Vec<u8>) -> (r: bool)
    ensures
        r == (a@ == b@),
{
    if a.len() != b.len() {
        return false;
    }
    let mut i: usize = 0;
    while i < a.len()
        invariant
            i <= a@.len(),
            a@.len() == b@.len(),
            forall|j: int| 0 <= j < i ==> a@[j] == b@[j],
        decreases a@.len() - i,
    {
        if a[i] != b[i] {
            return false;
        }
        i = i + 1;
    }
    proof {
        assert(a@ =~= b@);
    }
    true
}

/// Copies a byte string.
fn bytes_clone(a: &Vec<u8>) -> (r: Vec<u8>)
    ensures
        r@ == a@,
{
    let mut r: Vec<u8> = Vec::new();
    let mut i: usize = 0;
    while i < a.len()
        invariant
            i <= a@.len(),
            r@ == a@.take(i as int),
        decreases a@.len() - i,
    {
        r.push(a[i]);
        i = i + 1;
    }
    proof {
        assert(r@ =~= a@);
    }
    r
}

impl AuxStore {
    /// Whether the node can currently persist writes.
    pub closed spec fn is_available(&self) -> bool {
        self.available
    }

    /// An empty store on a node that can persist writes.
    pub fn new() -> (s: AuxStore)
        ensures
            s@ == Map::<Seq<u8>, Seq<u8>>::empty(),
            s.is_available(),
    {
        AuxStore { entries: Vec::new(), available: true }
    }

    /// Models the node's storage becoming unable, or again able, to
    /// persist writes.
    pub fn set_available(&mut self, available: bool)
        ensures
            final(self)@ == old(self)@,
            final(self).is_available() == available,
    {
        self.available = available;
    }

    /// Best-effort write.  On success the record is added under the key;
    /// on failure the contents are untouched.  The outcome is reported
    /// only through the return value.
    pub fn set(&mut self, key: &Vec<u8>, value: &Vec<u8>) -> (ok: bool)
        ensures
            ok == old(self).is_available(),
            final(self).is_available() == old(self).is_available(),
            ok ==> final(self)@ == old(self)@.insert(key@, value@),
            !ok ==> final(self)@ == old(self)@,
    {
        if self.available {
            let entry = (bytes_clone(key), bytes_clone(value));
            self.entries.push(entry);
            proof {
                assert(self.entries@.drop_last() =~= old(self).entries@);
            }
            true
        } else {
            false
        }
    }

    /// Best-effort read: the value most recently written under the key,
    /// or absent when no record for it is retained.
    pub fn get(&self, key: &Vec<u8>) -> (r: Option<Vec<u8>>)
        ensures
            match r {
                Option::Some(v) => self@.contains_key(key@) && v@ == self@[key@],
                Option::None => !self@.contains_key(key@),
            },
    {
        let mut i: usize = self.entries.len();
        proof {
            assert(self.entries@.take(i as int) =~= self.entries@);
        }
        while i > 0
            invariant
                i <= self.entries@.len(),
                self@.contains_key(key@) == entries_map(
                    self.entries@.take(i as int),
                ).contains_key(key@),
                self@.contains_key(key@) ==> entries_map(self.entries@.take(i as int))[key@]
                    == self@[key@],
            decreases i,
        {
            i = i - 1;
            let entry = &self.entries[i];
            proof {
                assert(self.entries@.take(i + 1 as int).drop_last() =~= self.entries@.take(
                    i as int,
                ));
                assert(self.entries@.take(i + 1 as int).last() == self.entries@[i as int]);
            }
            if bytes_eq(&entry.0, key) {
                return Option::Some(bytes_clone(&entry.1));
            }
        }
        proof {
            assert(self.entries@.take(0) =~= Seq::<(Vec<u8>, Vec<u8>)>::empty());
        }
        Option::None
    }

    /// Models the loss of retained records: everything previously written
    /// on this node is gone.  Read-back must tolerate this.
    pub fn drop_all(&mut self)
        ensures
            final(self)@ == Map::<Seq<u8>, Seq<u8>>::empty(),
            final(self).is_available() == old(self).is_available(),
    {
        self.entries = Vec::new();
    }
}

} // verus!
