//! Registration handles: ownership of a bridge's registration entry.
//!
//! Registering a loader wraps it in a fresh bridge and enters the bridge
//! into the engine's registration table; the handle owns that entry.
//! Unregistering removes the entry — new lookups against the handle then
//! fail — while font files already constructed through it stay valid:
//! they hold their own data, independent of the registration table.

use crate::error::{Error, ErrorKind};
use crate::factory::Factory;
use crate::font_file::loader::FontFileLoader;
use crate::font_file::loader::bridge::{spec_callback_result, spec_opt_stream, LoaderBridge};
use crate::stream::FontStream;
use vstd::prelude::*;

verus! {

/// Owns one loader bridge and its registration entry in the engine.
pub struct FileLoaderHandle<L: FontFileLoader> {
    bridge: LoaderBridge<L>,
    id: u64,
}

impl<L: FontFileLoader> FileLoaderHandle<L> {
    /// The identity of this handle's registration entry.
    pub closed spec fn spec_id(&self) -> u64 {
        self.id
    }

    /// The typed loader behind this handle's bridge.
    pub closed spec fn spec_loader(&self) -> L {
        self.bridge.spec_loader()
    }

    /// Wrap `loader` in a fresh bridge and register it with the engine.
    /// Succeeds exactly while the engine can hand out identities, with a
    /// registration entry fresh to the table; otherwise reports a
    /// `RegistrationFailure` and leaves the engine untouched.
    pub fn register(factory: &mut Factory, loader: L) -> (r: Result<FileLoaderHandle<L>, Error>)
        ensures
            old(factory).spec_next_id() < u64::MAX ==> (r matches Ok(h)
                && h.spec_loader() == loader
                && h.spec_id() == old(factory).spec_next_id()
                && !old(factory).spec_registered().contains(h.spec_id())
                && final(factory).spec_registered()
                    == old(factory).spec_registered().insert(h.spec_id())
                && final(factory).spec_next_id() == old(factory).spec_next_id() + 1),
            old(factory).spec_next_id() == u64::MAX ==> (r matches Err(e)
                && e.kind == ErrorKind::RegistrationFailure
                && *final(factory) == *old(factory)),
    {
        let bridge = LoaderBridge::new(loader);
        let id = match factory.take_id(crate::error::STATUS_REGISTRATION_FAILED) {
            Ok(id) => id,
            Err(e) => {
                return Err(e);
            },
        };
        factory.enter_registration(id);
        Ok(FileLoaderHandle { bridge, id })
    }

    /// Consume the handle and remove its registration entry. New lookups
    /// against this handle's identity fail afterwards; nothing else about
    /// the engine changes, so existing font files are unaffected.
    pub fn unregister(self, factory: &mut Factory)
        ensures
            final(factory).spec_registered()
                == old(factory).spec_registered().remove(self.spec_id()),
            final(factory).spec_next_id() == old(factory).spec_next_id(),
    {
        factory.remove_registration(self.id);
    }

    /// The registration identity, as the engine refers to it.
    pub fn raw_id(&self) -> (r: u64)
        ensures
            r == self.spec_id(),
    {
        self.id
    }

    /// The engine-facing callback of this handle's bridge: raw key bytes
    /// in, status and optional stream out.
    pub fn callback(&self, key_bytes: &[u8]) -> (r: (i32, Option<FontStream>))
        ensures
            spec_callback_result(self.spec_loader(), key_bytes@, r.0, spec_opt_stream(r.1)),
    {
        self.bridge.create_stream_from_key(key_bytes)
    }
}

/// Register-then-unregister leaves no trace: removing a freshly handed
/// out registration identity restores the registration table exactly, so
/// a later registration finds the engine as if the first had never
/// happened.
pub proof fn lemma_register_unregister_restores(s: Set<u64>, id: u64)
    requires
        !s.contains(id),
    ensures
        s.insert(id).remove(id) == s,
{
    assert(s.insert(id).remove(id) =~= s);
}

} // verus!
