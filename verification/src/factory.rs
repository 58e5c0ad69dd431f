//! The engine handle and the in-process engine model.
//!
//! A [`Factory`] owns the engine instance this subsystem supplies font
//! data to. The model keeps the engine's observable state — the table of
//! live loader registrations and a counter handing out fresh identities
//! for registrations and font files — as plain verified data, so every
//! engine call the library makes has an exact contract.

use crate::error::Error;
use vstd::prelude::*;
use vstd::seq_lib::lemma_seq_contains_after_push;

verus! {

/// The engine handle: owns the engine's registration table and its
/// identity counter. Registration and unregistration on one factory must
/// be serialized by the caller, which the exclusive borrows enforce.
pub struct Factory {
    /// Identities of the loader registrations currently alive.
    registered: Vec<u64>,
    /// The next identity the engine will hand out, for registrations and
    /// font files alike; every identity already handed out is smaller.
    next_id: u64,
}

impl Factory {
    /// Every live registration identity was handed out earlier.
    #[verifier::type_invariant]
    spec fn wf(&self) -> bool {
        forall|i: int| 0 <= i < self.registered@.len() ==> self.registered@[i] < self.next_id
    }

    /// The set of loader registration identities currently alive.
    pub closed spec fn spec_registered(&self) -> Set<u64> {
        self.registered@.to_set()
    }

    /// The next identity the engine will hand out.
    pub closed spec fn spec_next_id(&self) -> u64 {
        self.next_id
    }

    /// Create the engine. The in-process engine always comes up, so this
    /// never reports an `InitializationFailure`.
    pub fn new() -> (r: Result<Factory, Error>)
        ensures
            (r matches Ok(f) && f.spec_registered() == Set::<u64>::empty()
                && f.spec_next_id() == 0),
    {
        let f = Factory { registered: Vec::new(), next_id: 0 };
        proof {
            assert(f.spec_registered() =~= Set::<u64>::empty());
        }
        Ok(f)
    }

    /// Whether a loader registration with this identity is alive.
    pub fn is_registered(&self, id: u64) -> (r: bool)
        ensures
            r == self.spec_registered().contains(id),
    {
        let mut i: usize = 0;
        while i < self.registered.len()
            invariant
                i <= self.registered@.len(),
                forall|j: int| 0 <= j < i ==> self.registered@[j] != id,
            decreases self.registered@.len() - i,
        {
            if self.registered[i] == id {
                return true;
            }
            i += 1;
        }
        false
    }

    /// Hand out a fresh identity, for a registration or a font file.
    /// Fails only when the identity space is exhausted, and then with the
    /// error classified from the caller's failure status.
    pub(crate) fn take_id(&mut self, fail_status: i32) -> (r: Result<u64, Error>)
        ensures
            final(self).spec_registered() == old(self).spec_registered(),
            old(self).spec_next_id() < u64::MAX ==> (r matches Ok(id)
                && id == old(self).spec_next_id()
                && !old(self).spec_registered().contains(id)
                && final(self).spec_next_id() == old(self).spec_next_id() + 1),
            old(self).spec_next_id() == u64::MAX ==> (r matches Err(e)
                && e.kind == crate::error::spec_kind_of_status(fail_status)
                && e.status == fail_status
                && *final(self) == *old(self)),
    {
        proof {
            use_type_invariant(&*self);
        }
        if self.next_id == u64::MAX {
            return Err(Error::from_status(fail_status));
        }
        let id = self.next_id;
        self.next_id = id + 1;
        proof {
            if self.registered@.contains(id) {
                let i = choose|i: int|
                    0 <= i < self.registered@.len() && self.registered@[i] == id;
                assert(self.registered@[i] < id);
            }
        }
        Ok(id)
    }

    /// Enter a registration identity into the table of live registrations.
    pub(crate) fn enter_registration(&mut self, id: u64)
        requires
            id < old(self).spec_next_id(),
        ensures
            final(self).spec_registered() == old(self).spec_registered().insert(id),
            final(self).spec_next_id() == old(self).spec_next_id(),
    {
        proof {
            use_type_invariant(&*self);
        }
        let ghost s_old = self.registered@;
        let mut regs: Vec<u64> = Vec::new();
        std::mem::swap(&mut regs, &mut self.registered);
        regs.push(id);
        self.registered = regs;
        proof {
            broadcast use lemma_seq_contains_after_push;

            assert(self.registered@ == s_old.push(id));
            assert(self.spec_registered() =~= old(self).spec_registered().insert(id));
        }
    }

    /// Remove a registration identity from the table of live
    /// registrations. Removing one that is not alive changes nothing.
    pub(crate) fn remove_registration(&mut self, id: u64)
        ensures
            final(self).spec_registered() == old(self).spec_registered().remove(id),
            final(self).spec_next_id() == old(self).spec_next_id(),
    {
        proof {
            use_type_invariant(&*self);
        }
        let ghost s_old = self.registered@;
        let mut regs: Vec<u64> = Vec::new();
        std::mem::swap(&mut regs, &mut self.registered);
        let mut kept: Vec<u64> = Vec::new();
        let mut i: usize = 0;
        while i < regs.len()
            invariant
                i <= regs@.len(),
                regs@ == s_old,
                forall|j: int| 0 <= j < s_old.len() ==> s_old[j] < self.next_id,
                forall|j: int| 0 <= j < kept@.len() ==> kept@[j] < self.next_id,
                forall|x: u64| #[trigger] kept@.contains(x)
                    <==> (exists|j: int| 0 <= j < i && s_old[j] == x && x != id),
            decreases regs@.len() - i,
        {
            let v = regs[i];
            if v != id {
                kept.push(v);
            }
            proof {
                broadcast use lemma_seq_contains_after_push;
            }
            i += 1;
        }
        self.registered = kept;
        proof {
            assert forall|x: u64| #[trigger] self.spec_registered().contains(x)
                implies old(self).spec_registered().remove(id).contains(x) by {
                let j = choose|j: int| 0 <= j < s_old.len() && s_old[j] == x && x != id;
                assert(s_old.contains(x));
            }
            assert forall|x: u64| #[trigger] old(self).spec_registered().remove(id).contains(x)
                implies self.spec_registered().contains(x) by {
                let j = choose|j: int| 0 <= j < s_old.len() && s_old[j] == x;
            }
            assert(self.spec_registered() =~= old(self).spec_registered().remove(id));
        }
    }
}

} // verus!
