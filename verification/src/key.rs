//! Font keys: opaque, application-defined identities for loadable font data.
//!
//! A key type must offer stable equality, a deterministic byte encoding,
//! and decoding back to itself. Determinism comes for free here: the
//! encoding is a specification-level function of the key alone, so equal
//! keys always produce equal byte sequences. Injectivity is a stated law
//! of the trait, and together with the exactness of `decode` it yields the
//! round-trip property: decoding the encoding of a key gives back that key.

use vstd::prelude::*;

verus! {

/// What `decode` must return for the given raw bytes: the unique key whose
/// encoding is `bytes`, or `None` when no key encodes to `bytes`.
pub open spec fn decode_result_exact<K: FontKey>(bytes: Seq<u8>, r: Option<K>) -> bool {
    match r {
        Some(k) => bytes == k.spec_encoding(),
        None => forall|k: K| bytes != #[trigger] k.spec_encoding(),
    }
}

/// A capability every loadable identity must satisfy: stable equality,
/// deterministic byte encoding, and decoding back to itself.
pub trait FontKey: Sized {
    /// The canonical byte encoding of this key.
    spec fn spec_encoding(&self) -> Seq<u8>;

    /// Equal encodings come only from equal keys: the encoding is injective,
    /// so the engine may use key bytes for identity and caching.
    proof fn lemma_encoding_injective(k1: Self, k2: Self)
        requires
            k1.spec_encoding() == k2.spec_encoding(),
        ensures
            k1 == k2,
    ;

    /// Encode the key into its canonical byte sequence.
    fn encode(&self) -> (r: Vec<u8>)
        ensures
            r@ == self.spec_encoding(),
    ;

    /// Decode raw bytes back into a key: succeeds exactly on canonical
    /// encodings, and then returns the key that produced them (the same
    /// condition [`decode_result_exact`] states).
    fn decode(bytes: &[u8]) -> (r: Option<Self>)
        ensures
            (match r {
                Some(k) => bytes@ == k.spec_encoding(),
                None => forall|k: Self| bytes@ != #[trigger] k.spec_encoding(),
            }),
    ;

    /// Executable equality, agreeing with mathematical equality.
    fn key_eq(&self, other: &Self) -> (r: bool)
        ensures
            r == (self == other),
    ;
}

/// Round trip: any value satisfying the decode contract for the encoding
/// of `k` is `Some(k)` itself, for every key `k` of every key type.
pub proof fn lemma_key_round_trip<K: FontKey>(k: K, r: Option<K>)
    requires
        decode_result_exact(k.spec_encoding(), r),
    ensures
        r == Some(k),
{
    match r {
        Some(d) => {
            K::lemma_encoding_injective(d, k);
        },
        None => {
            assert(k.spec_encoding() == k.spec_encoding());
        },
    }
}

impl FontKey for u64 {
    /// Eight bytes, least significant first.
    open spec fn spec_encoding(&self) -> Seq<u8> {
        seq![
            (*self & 0xff) as u8,
            ((*self >> 8) & 0xff) as u8,
            ((*self >> 16) & 0xff) as u8,
            ((*self >> 24) & 0xff) as u8,
            ((*self >> 32) & 0xff) as u8,
            ((*self >> 40) & 0xff) as u8,
            ((*self >> 48) & 0xff) as u8,
            ((*self >> 56) & 0xff) as u8,
        ]
    }

    proof fn lemma_encoding_injective(k1: u64, k2: u64) {
        let s1 = k1.spec_encoding();
        let s2 = k2.spec_encoding();
        assert(s1[0] == s2[0] && s1[1] == s2[1] && s1[2] == s2[2] && s1[3] == s2[3]
            && s1[4] == s2[4] && s1[5] == s2[5] && s1[6] == s2[6] && s1[7] == s2[7]);
        assert(k1 == k2) by (bit_vector)
            requires
                (k1 & 0xff) as u8 == (k2 & 0xff) as u8,
                ((k1 >> 8) & 0xff) as u8 == ((k2 >> 8) & 0xff) as u8,
                ((k1 >> 16) & 0xff) as u8 == ((k2 >> 16) & 0xff) as u8,
                ((k1 >> 24) & 0xff) as u8 == ((k2 >> 24) & 0xff) as u8,
                ((k1 >> 32) & 0xff) as u8 == ((k2 >> 32) & 0xff) as u8,
                ((k1 >> 40) & 0xff) as u8 == ((k2 >> 40) & 0xff) as u8,
                ((k1 >> 48) & 0xff) as u8 == ((k2 >> 48) & 0xff) as u8,
                ((k1 >> 56) & 0xff) as u8 == ((k2 >> 56) & 0xff) as u8,
        ;
    }

    fn encode(&self) -> (r: Vec<u8>) {
        let k = *self;
        let mut out: Vec<u8> = Vec::new();
        out.push((k & 0xff) as u8);
        out.push(((k >> 8) & 0xff) as u8);
        out.push(((k >> 16) & 0xff) as u8);
        out.push(((k >> 24) & 0xff) as u8);
        out.push(((k >> 32) & 0xff) as u8);
        out.push(((k >> 40) & 0xff) as u8);
        out.push(((k >> 48) & 0xff) as u8);
        out.push(((k >> 56) & 0xff) as u8);
        proof {
            assert(out@ =~= self.spec_encoding());
        }
        out
    }

    fn decode(bytes: &[u8]) -> (r: Option<u64>) {
        if bytes.len() != 8 {
            proof {
                assert forall|k: u64| bytes@ != #[trigger] k.spec_encoding() by {
                    assert(k.spec_encoding().len() == 8);
                }
            }
            return None;
        }
        let b0 = *vstd::slice::slice_index_get(bytes, 0);
        let b1 = *vstd::slice::slice_index_get(bytes, 1);
        let b2 = *vstd::slice::slice_index_get(bytes, 2);
        let b3 = *vstd::slice::slice_index_get(bytes, 3);
        let b4 = *vstd::slice::slice_index_get(bytes, 4);
        let b5 = *vstd::slice::slice_index_get(bytes, 5);
        let b6 = *vstd::slice::slice_index_get(bytes, 6);
        let b7 = *vstd::slice::slice_index_get(bytes, 7);
        let k: u64 = (b0 as u64) | ((b1 as u64) << 8) | ((b2 as u64) << 16)
            | ((b3 as u64) << 24) | ((b4 as u64) << 32) | ((b5 as u64) << 40)
            | ((b6 as u64) << 48) | ((b7 as u64) << 56);
        proof {
            assert((k & 0xff) as u8 == b0
                && ((k >> 8) & 0xff) as u8 == b1
                && ((k >> 16) & 0xff) as u8 == b2
                && ((k >> 24) & 0xff) as u8 == b3
                && ((k >> 32) & 0xff) as u8 == b4
                && ((k >> 40) & 0xff) as u8 == b5
                && ((k >> 48) & 0xff) as u8 == b6
                && ((k >> 56) & 0xff) as u8 == b7) by (bit_vector)
                requires
                    k == (b0 as u64) | ((b1 as u64) << 8) | ((b2 as u64) << 16)
                        | ((b3 as u64) << 24) | ((b4 as u64) << 32) | ((b5 as u64) << 40)
                        | ((b6 as u64) << 48) | ((b7 as u64) << 56),
            ;
            assert(k.spec_encoding() =~= bytes@);
        }
        Some(k)
    }

    fn key_eq(&self, other: &Self) -> (r: bool) {
        *self == *other
    }
}

impl FontKey for u32 {
    /// Four bytes, least significant first.
    open spec fn spec_encoding(&self) -> Seq<u8> {
        seq![
            (*self & 0xff) as u8,
            ((*self >> 8) & 0xff) as u8,
            ((*self >> 16) & 0xff) as u8,
            ((*self >> 24) & 0xff) as u8,
        ]
    }

    proof fn lemma_encoding_injective(k1: u32, k2: u32) {
        let s1 = k1.spec_encoding();
        let s2 = k2.spec_encoding();
        assert(s1[0] == s2[0] && s1[1] == s2[1] && s1[2] == s2[2] && s1[3] == s2[3]);
        assert(k1 == k2) by (bit_vector)
            requires
                (k1 & 0xff) as u8 == (k2 & 0xff) as u8,
                ((k1 >> 8) & 0xff) as u8 == ((k2 >> 8) & 0xff) as u8,
                ((k1 >> 16) & 0xff) as u8 == ((k2 >> 16) & 0xff) as u8,
                ((k1 >> 24) & 0xff) as u8 == ((k2 >> 24) & 0xff) as u8,
        ;
    }

    fn encode(&self) -> (r: Vec<u8>) {
        let k = *self;
        let mut out: Vec<u8> = Vec::new();
        out.push((k & 0xff) as u8);
        out.push(((k >> 8) & 0xff) as u8);
        out.push(((k >> 16) & 0xff) as u8);
        out.push(((k >> 24) & 0xff) as u8);
        proof {
            assert(out@ =~= self.spec_encoding());
        }
        out
    }

    fn decode(bytes: &[u8]) -> (r: Option<u32>) {
        if bytes.len() != 4 {
            proof {
                assert forall|k: u32| bytes@ != #[trigger] k.spec_encoding() by {
                    assert(k.spec_encoding().len() == 4);
                }
            }
            return None;
        }
        let b0 = *vstd::slice::slice_index_get(bytes, 0);
        let b1 = *vstd::slice::slice_index_get(bytes, 1);
        let b2 = *vstd::slice::slice_index_get(bytes, 2);
        let b3 = *vstd::slice::slice_index_get(bytes, 3);
        let k: u32 = (b0 as u32) | ((b1 as u32) << 8) | ((b2 as u32) << 16) | ((b3 as u32) << 24);
        proof {
            assert((k & 0xff) as u8 == b0
                && ((k >> 8) & 0xff) as u8 == b1
                && ((k >> 16) & 0xff) as u8 == b2
                && ((k >> 24) & 0xff) as u8 == b3) by (bit_vector)
                requires
                    k == (b0 as u32) | ((b1 as u32) << 8) | ((b2 as u32) << 16) | ((b3 as u32)
                        << 24),
            ;
            assert(k.spec_encoding() =~= bytes@);
        }
        Some(k)
    }

    fn key_eq(&self, other: &Self) -> (r: bool) {
        *self == *other
    }
}

} // verus!
