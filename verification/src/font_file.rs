//! Font files and their analysis.
//!
//! A font file is an immutable, identity-equal handle to loaded font
//! data. It is constructed either directly from a buffer of bytes (the
//! engine's default path, bypassing the loader system) or through a
//! registered loader with a typed key. `analyze` classifies the data:
//! whether it is a supported font, its file and face type, and how many
//! faces it holds.

use crate::enums::{
    spec_face_type_code, spec_file_type_code, FontFaceType, FontFileType, UncheckedFaceType,
    UncheckedFileType,
};
use crate::error::{
    Error, ErrorKind, STATUS_IDS_EXHAUSTED, STATUS_KEY_REJECTED, STATUS_LOADER_NOT_FOUND,
    STATUS_UNSUPPORTED_FILE,
};
use crate::factory::Factory;
use crate::font_file::loader::bridge::lemma_callback_for_key;
use crate::font_file::loader::handle::FileLoaderHandle;
use crate::font_file::loader::FontFileLoader;
use crate::key::FontKey;
use vstd::prelude::*;

pub mod loader;

verus! {

/// The engine accepts key encodings up to this many bytes; longer ones
/// it rejects. The real engine leaves its limit unspecified, so the
/// model documents one as a configuration assumption.
pub const MAX_KEY_BYTES: usize = 1024;

/// Whether the bytes begin with the TrueType version tag.
pub open spec fn spec_is_truetype(b: Seq<u8>) -> bool {
    b.len() >= 4 && b[0] == 0x00u8 && b[1] == 0x01u8 && b[2] == 0x00u8 && b[3] == 0x00u8
}

/// Whether the bytes begin with the OpenType CFF tag.
pub open spec fn spec_is_cff(b: Seq<u8>) -> bool {
    b.len() >= 4 && b[0] == 0x4fu8 && b[1] == 0x54u8 && b[2] == 0x54u8 && b[3] == 0x4fu8
}

/// Whether the bytes begin with a whole collection header.
pub open spec fn spec_is_collection(b: Seq<u8>) -> bool {
    b.len() >= 12 && b[0] == 0x74u8 && b[1] == 0x74u8 && b[2] == 0x63u8 && b[3] == 0x66u8
}

/// The face count a collection header declares: a big-endian word just
/// past the tag and version.
pub open spec fn spec_collection_faces(b: Seq<u8>) -> u32 {
    ((b[8] as int) * 0x1000000 + (b[9] as int) * 0x10000 + (b[10] as int) * 0x100 + (
    b[11] as int)) as u32
}

/// Results of analyzing a font file.
#[derive(Clone, Copy, Debug, PartialEq, Eq, Structural)]
pub struct Analysis {
    /// Whether the font type is supported by the font system.
    pub supported: bool,
    /// The identified type of font file. May be a recognized value even
    /// if the font type is not supported.
    pub file_type: UncheckedFileType,
    /// The type of the font faces inside the file.
    pub face_type: UncheckedFaceType,
    /// The number of font faces contained in the font file.
    pub num_faces: u32,
}

/// What analyzing the given bytes reports.
pub open spec fn spec_analysis(b: Seq<u8>) -> Analysis {
    if spec_is_truetype(b) {
        Analysis {
            supported: true,
            file_type: UncheckedFileType { raw: spec_file_type_code(FontFileType::TrueType) },
            face_type: UncheckedFaceType { raw: spec_face_type_code(FontFaceType::TrueType) },
            num_faces: 1,
        }
    } else if spec_is_cff(b) {
        Analysis {
            supported: true,
            file_type: UncheckedFileType { raw: spec_file_type_code(FontFileType::Cff) },
            face_type: UncheckedFaceType { raw: spec_face_type_code(FontFaceType::Cff) },
            num_faces: 1,
        }
    } else if spec_is_collection(b) {
        Analysis {
            supported: true,
            file_type: UncheckedFileType {
                raw: spec_file_type_code(FontFileType::OpenTypeCollection),
            },
            face_type: UncheckedFaceType {
                raw: spec_face_type_code(FontFaceType::OpenTypeCollection),
            },
            num_faces: spec_collection_faces(b),
        }
    } else {
        Analysis {
            supported: false,
            file_type: UncheckedFileType { raw: spec_file_type_code(FontFileType::Unknown) },
            face_type: UncheckedFaceType { raw: spec_face_type_code(FontFaceType::Unknown) },
            num_faces: 0,
        }
    }
}

impl Analysis {
    /// Demand a supported font: fails with `UnsupportedFileFailure`
    /// exactly when the analysis reported the data unsupported.
    pub fn require_supported(&self) -> (r: Result<(), Error>)
        ensures
            self.supported ==> r is Ok,
            !self.supported ==> (r matches Err(e)
                && e.kind == ErrorKind::UnsupportedFileFailure
                && e.status == STATUS_UNSUPPORTED_FILE),
    {
        if self.supported {
            Ok(())
        } else {
            Err(Error::from_status(STATUS_UNSUPPORTED_FILE))
        }
    }
}

/// Represents a font file: an immutable handle to loaded font data,
/// equal to another handle exactly when both refer to the same
/// underlying data, not when the bytes merely coincide.
#[derive(Debug)]
pub struct FontFile {
    id: u64,
    data: Vec<u8>,
}

impl View for FontFile {
    type V = Seq<u8>;

    closed spec fn view(&self) -> Seq<u8> {
        self.data@
    }
}

impl PartialEq for FontFile {
    /// Equality is by underlying identity, not by value.
    fn eq(&self, other: &FontFile) -> (r: bool) {
        self.id == other.id
    }
}

impl vstd::std_specs::cmp::PartialEqSpecImpl for FontFile {
    open spec fn obeys_eq_spec() -> bool {
        true
    }

    open spec fn eq_spec(&self, other: &FontFile) -> bool {
        self.spec_id() == other.spec_id()
    }
}

/// Capability of anything that holds a font file: classification of the
/// data and re-sharing of the underlying handle.
pub trait IFontFile {
    /// The identity of the underlying font data.
    spec fn spec_file_id(&self) -> u64;

    /// The font bytes the handle refers to.
    spec fn spec_file_data(&self) -> Seq<u8>;

    /// Analyze the data: whether it represents a font, and whether the
    /// font type is supported by the font system. Classification itself
    /// always succeeds — unrecognized or non-font data reports
    /// `supported == false` rather than an error.
    fn analyze(&self) -> (r: Result<Analysis, Error>)
        ensures
            r matches Ok(a) && a == spec_analysis(self.spec_file_data()),
    ;

    /// A new owned handle to the same underlying data: same identity,
    /// same bytes, no deep copy of the engine-side resource; the original
    /// and the result are independently releasable.
    fn as_font_file(&self) -> (r: FontFile)
        ensures
            r.spec_id() == self.spec_file_id(),
            r@ == self.spec_file_data(),
    ;
}

impl FontFile {
    /// The identity of this handle's underlying data.
    pub closed spec fn spec_id(&self) -> u64 {
        self.id
    }

    /// The font bytes, for reading.
    pub fn data(&self) -> (r: &Vec<u8>)
        ensures
            r@ == self@,
    {
        &self.data
    }

    /// Construct a font file through a registered loader: encode the key,
    /// hand the bytes to the handle's bridge, and keep the stream the
    /// loader produced. Succeeds exactly when the handle is registered,
    /// the engine accepts the key bytes, the loader serves the key, and
    /// the engine can still hand out an identity; the file then holds
    /// precisely the loader's bytes for this key. The registration table
    /// is never changed.
    pub fn create<L: FontFileLoader>(
        factory: &mut Factory,
        handle: &FileLoaderHandle<L>,
        key: &L::Key,
    ) -> (r: Result<FontFile, Error>)
        ensures
            final(factory).spec_registered() == old(factory).spec_registered(),
            !old(factory).spec_registered().contains(handle.spec_id()) ==> (r matches Err(e)
                && e.kind == ErrorKind::LoaderNotFound
                && *final(factory) == *old(factory)),
            old(factory).spec_registered().contains(handle.spec_id())
                && key.spec_encoding().len() > MAX_KEY_BYTES ==> (r matches Err(e)
                && e.kind == ErrorKind::KeyRejected
                && *final(factory) == *old(factory)),
            old(factory).spec_registered().contains(handle.spec_id())
                && key.spec_encoding().len() <= MAX_KEY_BYTES
                && handle.spec_loader().spec_stream(*key) is None ==> (r matches Err(e)
                && e.kind == ErrorKind::LoaderCallbackFailure
                && *final(factory) == *old(factory)),
            old(factory).spec_registered().contains(handle.spec_id())
                && key.spec_encoding().len() <= MAX_KEY_BYTES
                && handle.spec_loader().spec_stream(*key) is Some
                && old(factory).spec_next_id() == u64::MAX ==> (r matches Err(e)
                && e.kind == ErrorKind::StatusCodeFailure
                && *final(factory) == *old(factory)),
            old(factory).spec_registered().contains(handle.spec_id())
                && key.spec_encoding().len() <= MAX_KEY_BYTES
                && handle.spec_loader().spec_stream(*key) is Some
                && old(factory).spec_next_id() < u64::MAX ==> (r matches Ok(f)
                && f@ == handle.spec_loader().spec_stream(*key).unwrap()
                && f.spec_id() == old(factory).spec_next_id()
                && final(factory).spec_next_id() == old(factory).spec_next_id() + 1),
    {
        if !factory.is_registered(handle.raw_id()) {
            return Err(Error::from_status(STATUS_LOADER_NOT_FOUND));
        }
        let key_bytes = key.encode();
        if key_bytes.len() > MAX_KEY_BYTES {
            return Err(Error::from_status(STATUS_KEY_REJECTED));
        }
        let (status, stream_opt) = handle.callback(key_bytes.as_slice());
        proof {
            lemma_callback_for_key(
                handle.spec_loader(),
                *key,
                status,
                crate::font_file::loader::bridge::spec_opt_stream(stream_opt),
            );
        }
        match stream_opt {
            Some(stream) => {
                let size = stream.size();
                let data = match stream.read_fragment(0, size) {
                    Ok(data) => data,
                    Err(e) => {
                        return Err(e);
                    },
                };
                let id = match factory.take_id(STATUS_IDS_EXHAUSTED) {
                    Ok(id) => id,
                    Err(e) => {
                        return Err(e);
                    },
                };
                proof {
                    assert(data@ =~= stream@);
                }
                Ok(FontFile { id, data })
            },
            None => Err(Error::from_status(status)),
        }
    }

    /// Construct a font file directly from a buffer of font bytes: the
    /// engine's default path, bypassing the loader system. Succeeds
    /// exactly while the engine can hand out an identity; the file then
    /// holds precisely the given bytes.
    pub fn create_from_data(factory: &mut Factory, data: Vec<u8>) -> (r: Result<FontFile, Error>)
        ensures
            final(factory).spec_registered() == old(factory).spec_registered(),
            old(factory).spec_next_id() < u64::MAX ==> (r matches Ok(f)
                && f@ == data@
                && f.spec_id() == old(factory).spec_next_id()
                && final(factory).spec_next_id() == old(factory).spec_next_id() + 1),
            old(factory).spec_next_id() == u64::MAX ==> (r matches Err(e)
                && e.kind == ErrorKind::StatusCodeFailure
                && *final(factory) == *old(factory)),
    {
        let id = match factory.take_id(STATUS_IDS_EXHAUSTED) {
            Ok(id) => id,
            Err(e) => {
                return Err(e);
            },
        };
        Ok(FontFile { id, data })
    }
}

impl IFontFile for FontFile {
    open spec fn spec_file_id(&self) -> u64 {
        self.spec_id()
    }

    open spec fn spec_file_data(&self) -> Seq<u8> {
        self@
    }

    fn analyze(&self) -> (r: Result<Analysis, Error>) {
        let b = &self.data;
        let n = b.len();
        if n >= 4 && b[0] == 0x00u8 && b[1] == 0x01u8 && b[2] == 0x00u8 && b[3] == 0x00u8 {
            Ok(Analysis {
                supported: true,
                file_type: UncheckedFileType::from_raw(2),
                face_type: UncheckedFaceType::from_raw(1),
                num_faces: 1,
            })
        } else if n >= 4 && b[0] == 0x4fu8 && b[1] == 0x54u8 && b[2] == 0x54u8 && b[3] == 0x4fu8 {
            Ok(Analysis {
                supported: true,
                file_type: UncheckedFileType::from_raw(1),
                face_type: UncheckedFaceType::from_raw(0),
                num_faces: 1,
            })
        } else if n >= 12 && b[0] == 0x74u8 && b[1] == 0x74u8 && b[2] == 0x63u8 && b[3] == 0x66u8 {
            let faces: u32 = (b[8] as u32) * 0x1000000 + (b[9] as u32) * 0x10000 + (b[10] as u32)
                * 0x100 + (b[11] as u32);
            Ok(Analysis {
                supported: true,
                file_type: UncheckedFileType::from_raw(3),
                face_type: UncheckedFaceType::from_raw(2),
                num_faces: faces,
            })
        } else {
            Ok(Analysis {
                supported: false,
                file_type: UncheckedFileType::from_raw(0),
                face_type: UncheckedFaceType::from_raw(6),
                num_faces: 0,
            })
        }
    }

    fn as_font_file(&self) -> (r: FontFile) {
        let data = vstd::slice::slice_to_vec(self.data.as_slice());
        FontFile { id: self.id, data }
    }
}

} // verus!
