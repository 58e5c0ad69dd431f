//! Loaders: user-supplied capabilities mapping a decoded key to a stream.
//!
//! A loader is what an application registers with the engine so that font
//! bytes can come from arbitrary sources. The engine never sees the typed
//! loader; it sees a bridge (see [`bridge`]) that decodes raw key bytes
//! and forwards to the loader.

use crate::error::{Error, STATUS_CALLBACK_FAILED};
use crate::key::FontKey;
use crate::stream::FontStream;
use vstd::prelude::*;

pub mod bridge;
pub mod handle;

verus! {

/// A capability a user implements: given a decoded key, produce a
/// readable stream of font bytes. The stream a loader yields is a
/// function of the key alone, stated by `spec_stream`.
pub trait FontFileLoader: Sized {
    /// The typed key this loader understands.
    type Key: FontKey;

    /// The bytes this loader serves for a key: `Some` exactly on the keys
    /// it can supply data for.
    spec fn spec_stream(&self, key: Self::Key) -> Option<Seq<u8>>;

    /// Produce a stream for a decoded key; fails exactly on the keys this
    /// loader has no data for.
    fn create_stream(&self, key: &Self::Key) -> (r: Result<FontStream, Error>)
        ensures
            (match self.spec_stream(*key) {
                Some(data) => r matches Ok(s) && s@ == data,
                None => r is Err,
            }),
    ;
}

/// A loader over an in-memory table of keyed font buffers.
pub struct MemoryLoader<K: FontKey> {
    entries: Vec<(K, Vec<u8>)>,
}

impl<K: FontKey> MemoryLoader<K> {
    /// Each key appears at most once in the table.
    #[verifier::type_invariant]
    spec fn wf(&self) -> bool {
        forall|i: int, j: int|
            0 <= i < j < self.entries@.len() ==> (#[trigger] self.entries@[i]).0 != (
            #[trigger] self.entries@[j]).0
    }

    /// The bytes stored under a key, if any.
    pub closed spec fn spec_lookup(&self, key: K) -> Option<Seq<u8>> {
        if exists|i: int|
            0 <= i < self.entries@.len() && (#[trigger] self.entries@[i]).0 == key {
            let i = choose|i: int|
                0 <= i < self.entries@.len() && (#[trigger] self.entries@[i]).0 == key;
            Some(self.entries@[i].1@)
        } else {
            None
        }
    }

    /// A position holding `key` decides the lookup: keys are unique.
    proof fn lemma_lookup_at(&self, i: int, key: K)
        requires
            self.wf(),
            0 <= i < self.entries@.len(),
            self.entries@[i].0 == key,
        ensures
            self.spec_lookup(key) == Some(self.entries@[i].1@),
    {
        let j = choose|j: int|
            0 <= j < self.entries@.len() && (#[trigger] self.entries@[j]).0 == key;
        if i < j {
            assert(self.entries@[i].0 != self.entries@[j].0);
        } else if j < i {
            assert(self.entries@[j].0 != self.entries@[i].0);
        }
    }

    /// An empty loader: no key has data.
    pub fn new() -> (r: Self)
        ensures
            forall|k: K| #[trigger] r.spec_lookup(k) is None,
    {
        MemoryLoader { entries: Vec::new() }
    }

    /// Whether the table holds data for a key.
    pub fn contains_key(&self, key: &K) -> (r: bool)
        ensures
            r == (self.spec_lookup(*key) is Some),
    {
        proof {
            use_type_invariant(self);
        }
        let mut i: usize = 0;
        while i < self.entries.len()
            invariant
                i <= self.entries@.len(),
                self.wf(),
                forall|j: int| 0 <= j < i ==> (#[trigger] self.entries@[j]).0 != *key,
            decreases self.entries@.len() - i,
        {
            if self.entries[i].0.key_eq(key) {
                proof {
                    self.lemma_lookup_at(i as int, *key);
                }
                return true;
            }
            i += 1;
        }
        false
    }

    /// Store `data` under `key`. Returns `true` and adds the entry when
    /// the key is new; leaves the table untouched and returns `false` when
    /// the key is already present.
    pub fn add(&mut self, key: K, data: Vec<u8>) -> (r: bool)
        ensures
            r == (old(self).spec_lookup(key) is None),
            !r ==> *final(self) == *old(self),
            r ==> forall|k2: K|
                #[trigger] final(self).spec_lookup(k2) == (if k2 == key {
                    Some(data@)
                } else {
                    old(self).spec_lookup(k2)
                }),
    {
        proof {
            use_type_invariant(&*self);
        }
        if self.contains_key(&key) {
            return false;
        }
        let ghost s_old = self.entries@;
        let mut entries: Vec<(K, Vec<u8>)> = Vec::new();
        std::mem::swap(&mut entries, &mut self.entries);
        entries.push((key, data));
        self.entries = entries;
        proof {
            assert(self.entries@ == s_old.push((key, data)));
            let last = s_old.len() as int;
            assert forall|k2: K|
                #[trigger] self.spec_lookup(k2) == (if k2 == key {
                    Some(data@)
                } else {
                    old(self).spec_lookup(k2)
                }) by {
                if k2 == key {
                    self.lemma_lookup_at(last, k2);
                } else {
                    if exists|i: int|
                        0 <= i < s_old.len() && (#[trigger] s_old[i]).0 == k2 {
                        let i = choose|i: int|
                            0 <= i < s_old.len() && (#[trigger] s_old[i]).0 == k2;
                        old(self).lemma_lookup_at(i, k2);
                        self.lemma_lookup_at(i, k2);
                    } else {
                        assert forall|i: int|
                            0 <= i < self.entries@.len() implies (
                        #[trigger] self.entries@[i]).0 != k2 by {
                            if i < last {
                                assert(s_old[i].0 != k2);
                            }
                        }
                    }
                }
            }
        }
        true
    }
}

impl<K: FontKey> FontFileLoader for MemoryLoader<K> {
    type Key = K;

    /// The stream for a key is the table entry under that key.
    open spec fn spec_stream(&self, key: K) -> Option<Seq<u8>> {
        self.spec_lookup(key)
    }

    fn create_stream(&self, key: &K) -> (r: Result<FontStream, Error>) {
        proof {
            use_type_invariant(self);
        }
        let mut i: usize = 0;
        while i < self.entries.len()
            invariant
                i <= self.entries@.len(),
                self.wf(),
                forall|j: int| 0 <= j < i ==> (#[trigger] self.entries@[j]).0 != *key,
            decreases self.entries@.len() - i,
        {
            if self.entries[i].0.key_eq(key) {
                proof {
                    self.lemma_lookup_at(i as int, *key);
                }
                let data = vstd::slice::slice_to_vec(self.entries[i].1.as_slice());
                return Ok(FontStream::new(data));
            }
            i += 1;
        }
        Err(Error::from_status(STATUS_CALLBACK_FAILED))
    }
}

} // verus!
