//! Unknown-safe enumerations for font file and font face classification.
//!
//! The engine reports file and face types as raw numeric codes. Newer
//! engine versions may report codes this library has never heard of, so
//! the codes are kept raw, with an optional decode to a known variant:
//! an unrecognized code never causes a failure or a panic.

use vstd::prelude::*;

verus! {

/// The identified type of a font file.
#[derive(Clone, Copy, Debug, PartialEq, Eq, Structural)]
pub enum FontFileType {
    /// The file type could not be identified.
    Unknown,
    /// An OpenType file with CFF outlines.
    Cff,
    /// An OpenType file with TrueType outlines.
    TrueType,
    /// An OpenType collection holding several faces.
    OpenTypeCollection,
    /// A Type 1 printer font metrics file.
    Type1Pfm,
    /// A Type 1 printer font binary file.
    Type1Pfb,
    /// A vector font resource file.
    Vector,
    /// A bitmap font resource file.
    Bitmap,
}

/// The type of a font face.
#[derive(Clone, Copy, Debug, PartialEq, Eq, Structural)]
pub enum FontFaceType {
    /// A face with CFF outlines.
    Cff,
    /// A face with TrueType outlines.
    TrueType,
    /// A face inside an OpenType collection.
    OpenTypeCollection,
    /// A Type 1 face.
    Type1,
    /// A vector face.
    Vector,
    /// A bitmap face.
    Bitmap,
    /// The face type could not be identified.
    Unknown,
    /// A bare CFF font without an OpenType wrapper.
    RawCff,
}

/// The raw code the engine reports for each known file type.
pub open spec fn spec_file_type_code(t: FontFileType) -> u32 {
    match t {
        FontFileType::Unknown => 0,
        FontFileType::Cff => 1,
        FontFileType::TrueType => 2,
        FontFileType::OpenTypeCollection => 3,
        FontFileType::Type1Pfm => 4,
        FontFileType::Type1Pfb => 5,
        FontFileType::Vector => 6,
        FontFileType::Bitmap => 7,
    }
}

/// The known file type for a raw code, if the code is recognized.
pub open spec fn spec_known_file_type(raw: u32) -> Option<FontFileType> {
    if raw == 0 {
        Some(FontFileType::Unknown)
    } else if raw == 1 {
        Some(FontFileType::Cff)
    } else if raw == 2 {
        Some(FontFileType::TrueType)
    } else if raw == 3 {
        Some(FontFileType::OpenTypeCollection)
    } else if raw == 4 {
        Some(FontFileType::Type1Pfm)
    } else if raw == 5 {
        Some(FontFileType::Type1Pfb)
    } else if raw == 6 {
        Some(FontFileType::Vector)
    } else if raw == 7 {
        Some(FontFileType::Bitmap)
    } else {
        None
    }
}

/// The raw code the engine reports for each known face type.
pub open spec fn spec_face_type_code(t: FontFaceType) -> u32 {
    match t {
        FontFaceType::Cff => 0,
        FontFaceType::TrueType => 1,
        FontFaceType::OpenTypeCollection => 2,
        FontFaceType::Type1 => 3,
        FontFaceType::Vector => 4,
        FontFaceType::Bitmap => 5,
        FontFaceType::Unknown => 6,
        FontFaceType::RawCff => 7,
    }
}

/// The known face type for a raw code, if the code is recognized.
pub open spec fn spec_known_face_type(raw: u32) -> Option<FontFaceType> {
    if raw == 0 {
        Some(FontFaceType::Cff)
    } else if raw == 1 {
        Some(FontFaceType::TrueType)
    } else if raw == 2 {
        Some(FontFaceType::OpenTypeCollection)
    } else if raw == 3 {
        Some(FontFaceType::Type1)
    } else if raw == 4 {
        Some(FontFaceType::Vector)
    } else if raw == 5 {
        Some(FontFaceType::Bitmap)
    } else if raw == 6 {
        Some(FontFaceType::Unknown)
    } else if raw == 7 {
        Some(FontFaceType::RawCff)
    } else {
        None
    }
}

/// A file type as reported by the engine: the raw code, kept even when it
/// is not recognized.
#[derive(Clone, Copy, Debug, PartialEq, Eq, Structural)]
pub struct UncheckedFileType {
    /// The raw code the engine reported.
    pub raw: u32,
}

impl UncheckedFileType {
    /// Wrap a raw code.
    pub fn from_raw(raw: u32) -> (r: UncheckedFileType)
        ensures
            r.raw == raw,
    {
        UncheckedFileType { raw }
    }

    /// Decode to a known variant: `Some` exactly when the code is one the
    /// library recognizes.
    pub fn known(&self) -> (r: Option<FontFileType>)
        ensures
            r == spec_known_file_type(self.raw),
    {
        if self.raw == 0 {
            Some(FontFileType::Unknown)
        } else if self.raw == 1 {
            Some(FontFileType::Cff)
        } else if self.raw == 2 {
            Some(FontFileType::TrueType)
        } else if self.raw == 3 {
            Some(FontFileType::OpenTypeCollection)
        } else if self.raw == 4 {
            Some(FontFileType::Type1Pfm)
        } else if self.raw == 5 {
            Some(FontFileType::Type1Pfb)
        } else if self.raw == 6 {
            Some(FontFileType::Vector)
        } else if self.raw == 7 {
            Some(FontFileType::Bitmap)
        } else {
            None
        }
    }
}

/// A face type as reported by the engine: the raw code, kept even when it
/// is not recognized.
#[derive(Clone, Copy, Debug, PartialEq, Eq, Structural)]
pub struct UncheckedFaceType {
    /// The raw code the engine reported.
    pub raw: u32,
}

impl UncheckedFaceType {
    /// Wrap a raw code.
    pub fn from_raw(raw: u32) -> (r: UncheckedFaceType)
        ensures
            r.raw == raw,
    {
        UncheckedFaceType { raw }
    }

    /// Decode to a known variant: `Some` exactly when the code is one the
    /// library recognizes.
    pub fn known(&self) -> (r: Option<FontFaceType>)
        ensures
            r == spec_known_face_type(self.raw),
    {
        if self.raw == 0 {
            Some(FontFaceType::Cff)
        } else if self.raw == 1 {
            Some(FontFaceType::TrueType)
        } else if self.raw == 2 {
            Some(FontFaceType::OpenTypeCollection)
        } else if self.raw == 3 {
            Some(FontFaceType::Type1)
        } else if self.raw == 4 {
            Some(FontFaceType::Vector)
        } else if self.raw == 5 {
            Some(FontFaceType::Bitmap)
        } else if self.raw == 6 {
            Some(FontFaceType::Unknown)
        } else if self.raw == 7 {
            Some(FontFaceType::RawCff)
        } else {
            None
        }
    }
}

/// Round trip on known codes: the code of a known variant always decodes
/// back to that variant, for file types and face types alike.
pub proof fn lemma_known_code_round_trip(t: FontFileType, f: FontFaceType)
    ensures
        spec_known_file_type(spec_file_type_code(t)) == Some(t),
        spec_known_face_type(spec_face_type_code(f)) == Some(f),
{
}

} // verus!
