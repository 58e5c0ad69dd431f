use font_loader::enums::{FontFaceType, FontFileType, UncheckedFaceType, UncheckedFileType};
use font_loader::error::{
    Error, ErrorKind, STATUS_CALLBACK_FAILED, STATUS_INIT_FAILED, STATUS_IO_FAILED,
    STATUS_KEY_DECODE_FAILED, STATUS_KEY_REJECTED, STATUS_LOADER_NOT_FOUND,
    STATUS_REGISTRATION_FAILED, STATUS_UNSUPPORTED_FILE,
};
use font_loader::key::FontKey;
use font_loader::stream::FontStream;

#[test]
fn key_round_trip() {
    let k: u64 = 0x0123456789abcdef;
    let bytes = k.encode();
    assert_eq!(bytes, vec![0xef, 0xcd, 0xab, 0x89, 0x67, 0x45, 0x23, 0x01]);
    assert_eq!(u64::decode(&bytes), Some(k));
}

#[test]
fn key_round_trip_zero_and_max() {
    for k in [0u64, 1, 0xff, u64::MAX] {
        assert_eq!(u64::decode(&k.encode()), Some(k));
    }
}

#[test]
fn narrow_key_round_trip() {
    let k: u32 = 0xdeadbeef;
    let bytes = k.encode();
    assert_eq!(bytes, vec![0xef, 0xbe, 0xad, 0xde]);
    assert_eq!(u32::decode(&bytes), Some(k));
    // An eight-byte buffer is a valid wide key but no valid narrow key.
    assert_eq!(u32::decode(&0u64.encode()), None);
}

#[test]
fn key_decode_rejects_wrong_length() {
    assert_eq!(u64::decode(&[]), None);
    assert_eq!(u64::decode(&[1, 2, 3]), None);
    assert_eq!(u64::decode(&[0; 9]), None);
}

#[test]
fn key_encoding_deterministic_and_distinct() {
    let a: u64 = 42;
    let b: u64 = 43;
    assert_eq!(a.encode(), a.encode());
    assert_ne!(a.encode(), b.encode());
    assert!(a.key_eq(&a));
    assert!(!a.key_eq(&b));
}

#[test]
fn status_codes_classify() {
    let cases = [
        (STATUS_INIT_FAILED, ErrorKind::InitializationFailure),
        (STATUS_REGISTRATION_FAILED, ErrorKind::RegistrationFailure),
        (STATUS_KEY_DECODE_FAILED, ErrorKind::KeyEncodingFailure),
        (STATUS_CALLBACK_FAILED, ErrorKind::LoaderCallbackFailure),
        (STATUS_UNSUPPORTED_FILE, ErrorKind::UnsupportedFileFailure),
        (STATUS_LOADER_NOT_FOUND, ErrorKind::LoaderNotFound),
        (STATUS_KEY_REJECTED, ErrorKind::KeyRejected),
        (STATUS_IO_FAILED, ErrorKind::IOFailure),
    ];
    for (status, kind) in cases {
        let e = Error::from_status(status);
        assert_eq!(e.kind, kind);
        assert_eq!(e.status, status);
    }
}

#[test]
fn unrecognized_status_passes_through() {
    let e = Error::from_status(-99);
    assert_eq!(e.kind, ErrorKind::StatusCodeFailure);
    assert_eq!(e.status, -99);
    assert!(Error::is_failure(-99));
    assert!(!Error::is_failure(0));
}

#[test]
fn stream_reads_fragments() {
    let s = FontStream::new(vec![10, 20, 30, 40, 50]);
    assert_eq!(s.size(), 5);
    assert_eq!(s.read_fragment(0, 5).unwrap(), vec![10, 20, 30, 40, 50]);
    assert_eq!(s.read_fragment(2, 3).unwrap(), vec![30, 40, 50]);
    assert_eq!(s.read_fragment(5, 0).unwrap(), vec![]);
}

#[test]
fn stream_read_past_end_is_io_failure() {
    let s = FontStream::new(vec![1, 2, 3]);
    let e = s.read_fragment(2, 2).unwrap_err();
    assert_eq!(e.kind, ErrorKind::IOFailure);
    assert_eq!(e.status, STATUS_IO_FAILED);
}

#[test]
fn known_file_type_codes() {
    assert_eq!(UncheckedFileType::from_raw(0).known(), Some(FontFileType::Unknown));
    assert_eq!(UncheckedFileType::from_raw(1).known(), Some(FontFileType::Cff));
    assert_eq!(UncheckedFileType::from_raw(2).known(), Some(FontFileType::TrueType));
    assert_eq!(
        UncheckedFileType::from_raw(3).known(),
        Some(FontFileType::OpenTypeCollection)
    );
    assert_eq!(UncheckedFileType::from_raw(7).known(), Some(FontFileType::Bitmap));
}

#[test]
fn known_face_type_codes() {
    assert_eq!(UncheckedFaceType::from_raw(0).known(), Some(FontFaceType::Cff));
    assert_eq!(UncheckedFaceType::from_raw(1).known(), Some(FontFaceType::TrueType));
    assert_eq!(UncheckedFaceType::from_raw(6).known(), Some(FontFaceType::Unknown));
    assert_eq!(UncheckedFaceType::from_raw(7).known(), Some(FontFaceType::RawCff));
}

#[test]
fn unrecognized_type_codes_stay_raw() {
    let file_type = UncheckedFileType::from_raw(250);
    assert_eq!(file_type.known(), None);
    assert_eq!(file_type.raw, 250);
    let face_type = UncheckedFaceType::from_raw(99);
    assert_eq!(face_type.known(), None);
    assert_eq!(face_type.raw, 99);
}
