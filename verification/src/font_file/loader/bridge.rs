//! The loader bridge: the type-erasing adapter the engine actually calls.
//!
//! A bridge owns one typed loader and exposes the engine's fixed callback
//! shape: raw key bytes in, a status code and an optional stream out. It
//! decodes the bytes into the typed key, invokes the loader, and converts
//! every failure into a plain failure status — no rich error and no
//! unwinding ever crosses the engine boundary (verified code cannot
//! panic, so nothing can unwind past the callback).

use crate::error::{STATUS_CALLBACK_FAILED, STATUS_KEY_DECODE_FAILED, STATUS_OK};
use crate::font_file::loader::FontFileLoader;
use crate::key::FontKey;
use crate::stream::FontStream;
use vstd::prelude::*;

verus! {

/// The byte view of an optional stream.
pub open spec fn spec_opt_stream(s: Option<FontStream>) -> Option<Seq<u8>> {
    match s {
        Some(stream) => Some(stream@),
        None => None,
    }
}

/// What one callback outcome means for one key: the loader's stream for
/// the key with a success status, or a callback-failure status and no
/// stream when the loader has no data for it.
pub open spec fn spec_outcome_for_key<L: FontFileLoader>(
    loader: L,
    key: L::Key,
    status: i32,
    out: Option<Seq<u8>>,
) -> bool {
    match loader.spec_stream(key) {
        Some(data) => status == STATUS_OK && out == Some(data),
        None => status == STATUS_CALLBACK_FAILED && out is None,
    }
}

/// Everything a bridge callback promises, as one predicate over the
/// loader, the raw key bytes, and the outcome:
/// - for every key the bytes are the canonical encoding of (there is at
///   most one), the outcome is that key's own: success status and exactly
///   that key's stream, or a callback-failure status when the loader has
///   no data for it;
/// - when no key encodes to the bytes: decode-failure status, no stream.
pub open spec fn spec_callback_result<L: FontFileLoader>(
    loader: L,
    bytes: Seq<u8>,
    status: i32,
    out: Option<Seq<u8>>,
) -> bool {
    &&& forall|k: L::Key|
        bytes == #[trigger] k.spec_encoding() ==> spec_outcome_for_key(loader, k, status, out)
    &&& !(exists|k: L::Key| bytes == #[trigger] k.spec_encoding()) ==> (status
        == STATUS_KEY_DECODE_FAILED && out is None)
}

/// For canonical key bytes the callback outcome is pinned to that very
/// key: the key decodes uniquely, so the result is the loader's stream
/// for it and for nothing else.
pub proof fn lemma_callback_for_key<L: FontFileLoader>(
    loader: L,
    key: L::Key,
    status: i32,
    out: Option<Seq<u8>>,
)
    requires
        spec_callback_result(loader, key.spec_encoding(), status, out),
    ensures
        spec_outcome_for_key(loader, key, status, out),
{
    // A ground occurrence of the canonical bytes instantiates the
    // callback promise at `key` itself.
    assert(key.spec_encoding() == key.spec_encoding());
}

/// The converse: an outcome correct for one key is the callback promise
/// for that key's canonical bytes, since no other key shares them.
proof fn lemma_result_for_key<L: FontFileLoader>(
    loader: L,
    key: L::Key,
    status: i32,
    out: Option<Seq<u8>>,
)
    requires
        spec_outcome_for_key(loader, key, status, out),
    ensures
        spec_callback_result(loader, key.spec_encoding(), status, out),
{
    // A ground occurrence of the canonical bytes: `key` itself witnesses
    // the existential below.
    let enc = key.spec_encoding();
    assert forall|k2: L::Key|
        key.spec_encoding() == #[trigger] k2.spec_encoding() implies spec_outcome_for_key(
        loader,
        k2,
        status,
        out,
    ) by {
        <L::Key as FontKey>::lemma_encoding_injective(k2, key);
    }
    assert(enc == key.spec_encoding());
    assert(exists|k: L::Key| key.spec_encoding() == #[trigger] k.spec_encoding());
}

/// No cross-talk between invocations: callbacks for two keys each yield
/// exactly their own key's stream, however many such calls are in
/// flight; the outcome for one key neither depends on nor leaks into the
/// outcome for another.
pub proof fn lemma_callback_no_cross_talk<L: FontFileLoader>(
    loader: L,
    k1: L::Key,
    k2: L::Key,
    st1: i32,
    out1: Option<Seq<u8>>,
    st2: i32,
    out2: Option<Seq<u8>>,
    d1: Seq<u8>,
    d2: Seq<u8>,
)
    requires
        loader.spec_stream(k1) == Some(d1),
        loader.spec_stream(k2) == Some(d2),
        spec_callback_result(loader, k1.spec_encoding(), st1, out1),
        spec_callback_result(loader, k2.spec_encoding(), st2, out2),
    ensures
        st1 == STATUS_OK && out1 == Some(d1),
        st2 == STATUS_OK && out2 == Some(d2),
{
    lemma_callback_for_key(loader, k1, st1, out1);
    lemma_callback_for_key(loader, k2, st2, out2);
}

/// The type-erasing adapter registered with the engine: one bridge per
/// registration, owning one typed loader.
pub struct LoaderBridge<L: FontFileLoader> {
    loader: L,
}

impl<L: FontFileLoader> LoaderBridge<L> {
    /// The loader this bridge erases.
    pub closed spec fn spec_loader(&self) -> L {
        self.loader
    }

    /// Wrap a typed loader for registration.
    pub fn new(loader: L) -> (r: Self)
        ensures
            r.spec_loader() == loader,
    {
        LoaderBridge { loader }
    }

    /// The engine's fixed callback shape: decode the raw key bytes,
    /// invoke the loader, and convert any failure into a failure status.
    pub fn create_stream_from_key(&self, key_bytes: &[u8]) -> (r: (i32, Option<FontStream>))
        ensures
            spec_callback_result(self.spec_loader(), key_bytes@, r.0, spec_opt_stream(r.1)),
    {
        match <L::Key as FontKey>::decode(key_bytes) {
            None => (STATUS_KEY_DECODE_FAILED, None),
            Some(key) => {
                match self.loader.create_stream(&key) {
                    Ok(stream) => {
                        proof {
                            lemma_result_for_key(
                                self.spec_loader(),
                                key,
                                STATUS_OK,
                                Some(stream@),
                            );
                        }
                        (STATUS_OK, Some(stream))
                    },
                    Err(_) => {
                        proof {
                            lemma_result_for_key(
                                self.spec_loader(),
                                key,
                                STATUS_CALLBACK_FAILED,
                                None,
                            );
                        }
                        (STATUS_CALLBACK_FAILED, None)
                    },
                }
            },
        }
    }
}

} // verus!
