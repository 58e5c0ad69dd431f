use font_loader::enums::FontFileType;
use font_loader::error::{ErrorKind, STATUS_CALLBACK_FAILED, STATUS_KEY_DECODE_FAILED, STATUS_OK};
use font_loader::factory::Factory;
use font_loader::font_file::loader::handle::FileLoaderHandle;
use font_loader::font_file::loader::{FontFileLoader, MemoryLoader};
use font_loader::font_file::{FontFile, IFontFile};
use font_loader::key::FontKey;

fn truetype_blob() -> Vec<u8> {
    let mut blob = vec![0x00, 0x01, 0x00, 0x00];
    blob.extend_from_slice(b"glyf data");
    blob
}

fn collection_blob(faces: u32) -> Vec<u8> {
    let mut blob = vec![0x74, 0x74, 0x63, 0x66, 0x00, 0x01, 0x00, 0x00];
    blob.extend_from_slice(&faces.to_be_bytes());
    blob
}

#[test]
fn register_then_unregister_leaves_nothing_behind() {
    let mut factory = Factory::new().unwrap();
    let loader: MemoryLoader<u64> = MemoryLoader::new();
    let handle = FileLoaderHandle::register(&mut factory, loader).unwrap();
    let id = handle.raw_id();
    assert!(factory.is_registered(id));
    handle.unregister(&mut factory);
    assert!(!factory.is_registered(id));

    // A later registration with the same loader type succeeds as before.
    let again: MemoryLoader<u64> = MemoryLoader::new();
    let handle2 = FileLoaderHandle::register(&mut factory, again).unwrap();
    assert!(factory.is_registered(handle2.raw_id()));
}

#[test]
fn create_through_registered_bridge() {
    let mut factory = Factory::new().unwrap();
    let mut loader: MemoryLoader<u64> = MemoryLoader::new();
    assert!(loader.add(7, truetype_blob()));
    let handle = FileLoaderHandle::register(&mut factory, loader).unwrap();

    let file = FontFile::create(&mut factory, &handle, &7).unwrap();
    assert_eq!(file.data().clone(), truetype_blob());

    let analysis = file.analyze().unwrap();
    assert!(analysis.supported);
    assert_eq!(analysis.file_type.known(), Some(FontFileType::TrueType));
    assert!(analysis.num_faces >= 1);
}

#[test]
fn distinct_keys_get_their_own_streams() {
    let mut factory = Factory::new().unwrap();
    let mut loader: MemoryLoader<u64> = MemoryLoader::new();
    assert!(loader.add(1, b"first font".to_vec()));
    assert!(loader.add(2, b"second font".to_vec()));
    assert!(loader.add(3, b"third font".to_vec()));
    let handle = FileLoaderHandle::register(&mut factory, loader).unwrap();

    let f1 = FontFile::create(&mut factory, &handle, &1).unwrap();
    let f2 = FontFile::create(&mut factory, &handle, &2).unwrap();
    let f3 = FontFile::create(&mut factory, &handle, &3).unwrap();
    assert_eq!(f1.data().clone(), b"first font".to_vec());
    assert_eq!(f2.data().clone(), b"second font".to_vec());
    assert_eq!(f3.data().clone(), b"third font".to_vec());
    assert!(f1 != f2 && f2 != f3 && f1 != f3);
}

#[test]
fn bridge_callback_outcomes() {
    let mut factory = Factory::new().unwrap();
    let mut loader: MemoryLoader<u64> = MemoryLoader::new();
    assert!(loader.add(5, b"font bytes".to_vec()));
    let handle = FileLoaderHandle::register(&mut factory, loader).unwrap();

    // Canonical bytes of a served key: success and that key's stream.
    let (status, stream) = handle.callback(&5u64.encode());
    assert_eq!(status, STATUS_OK);
    let stream = stream.unwrap();
    assert_eq!(stream.read_fragment(0, stream.size()).unwrap(), b"font bytes".to_vec());

    // Canonical bytes of a key the loader has no data for.
    let (status, stream) = handle.callback(&6u64.encode());
    assert_eq!(status, STATUS_CALLBACK_FAILED);
    assert!(stream.is_none());

    // Bytes no key encodes to.
    let (status, stream) = handle.callback(&[1, 2, 3]);
    assert_eq!(status, STATUS_KEY_DECODE_FAILED);
    assert!(stream.is_none());
}

#[test]
fn create_fails_after_unregistration() {
    let mut factory = Factory::new().unwrap();
    let mut loader: MemoryLoader<u64> = MemoryLoader::new();
    assert!(loader.add(9, truetype_blob()));
    let handle = FileLoaderHandle::register(&mut factory, loader).unwrap();
    let keep = FontFile::create(&mut factory, &handle, &9).unwrap();

    let id = handle.raw_id();
    handle.unregister(&mut factory);
    assert!(!factory.is_registered(id));
    // The file constructed before unregistration is unaffected.
    assert!(keep.analyze().unwrap().supported);
}

#[test]
fn create_with_stale_bridge_reference_is_loader_not_found() {
    let mut home = Factory::new().unwrap();
    let mut elsewhere = Factory::new().unwrap();
    let mut loader: MemoryLoader<u64> = MemoryLoader::new();
    assert!(loader.add(9, truetype_blob()));
    // The bridge is registered with one engine only.
    let handle = FileLoaderHandle::register(&mut home, loader).unwrap();
    let err = FontFile::create(&mut elsewhere, &handle, &9).unwrap_err();
    assert_eq!(err.kind, ErrorKind::LoaderNotFound);
}

#[test]
fn loader_without_key_is_callback_failure() {
    let mut factory = Factory::new().unwrap();
    let loader: MemoryLoader<u64> = MemoryLoader::new();
    let handle = FileLoaderHandle::register(&mut factory, loader).unwrap();
    let err = FontFile::create(&mut factory, &handle, &1).unwrap_err();
    assert_eq!(err.kind, ErrorKind::LoaderCallbackFailure);
}

#[test]
fn files_survive_unregistration() {
    let mut factory = Factory::new().unwrap();
    let mut loader: MemoryLoader<u64> = MemoryLoader::new();
    assert!(loader.add(11, truetype_blob()));
    let handle = FileLoaderHandle::register(&mut factory, loader).unwrap();
    let file = FontFile::create(&mut factory, &handle, &11).unwrap();
    handle.unregister(&mut factory);

    // The file holds its own reference to the data: analysis still works.
    let analysis = file.analyze().unwrap();
    assert!(analysis.supported);
    assert_eq!(analysis.file_type.known(), Some(FontFileType::TrueType));
}

#[test]
fn analyze_truetype_blob() {
    let mut factory = Factory::new().unwrap();
    let file = FontFile::create_from_data(&mut factory, truetype_blob()).unwrap();
    let analysis = file.analyze().unwrap();
    assert!(analysis.supported);
    assert_eq!(analysis.file_type.known(), Some(FontFileType::TrueType));
    assert_eq!(analysis.num_faces, 1);
    assert!(analysis.require_supported().is_ok());
}

#[test]
fn analyze_cff_blob() {
    let mut factory = Factory::new().unwrap();
    let file = FontFile::create_from_data(&mut factory, b"OTTO rest of font".to_vec()).unwrap();
    let analysis = file.analyze().unwrap();
    assert!(analysis.supported);
    assert_eq!(analysis.file_type.known(), Some(FontFileType::Cff));
    assert_eq!(analysis.num_faces, 1);
}

#[test]
fn analyze_collection_counts_faces() {
    let mut factory = Factory::new().unwrap();
    let file = FontFile::create_from_data(&mut factory, collection_blob(3)).unwrap();
    let analysis = file.analyze().unwrap();
    assert!(analysis.supported);
    assert_eq!(analysis.file_type.known(), Some(FontFileType::OpenTypeCollection));
    assert_eq!(analysis.num_faces, 3);
}

#[test]
fn analyze_non_font_reports_unsupported_without_failing() {
    let mut factory = Factory::new().unwrap();
    let file = FontFile::create_from_data(&mut factory, b"arbitrary non-font bytes".to_vec())
        .unwrap();
    let analysis = file.analyze().unwrap();
    assert!(!analysis.supported);
    assert_eq!(analysis.num_faces, 0);
    let err = analysis.require_supported().unwrap_err();
    assert_eq!(err.kind, ErrorKind::UnsupportedFileFailure);
}

#[test]
fn as_font_file_shares_identity() {
    let mut factory = Factory::new().unwrap();
    let original = FontFile::create_from_data(&mut factory, truetype_blob()).unwrap();
    let clone = original.as_font_file();
    assert!(clone == original);
    assert_eq!(clone.data().clone(), original.data().clone());

    // Dropping the original does not invalidate the clone.
    drop(original);
    assert!(clone.analyze().unwrap().supported);

    // Distinct creations have distinct identities, even with equal bytes.
    let other = FontFile::create_from_data(&mut factory, truetype_blob()).unwrap();
    assert!(other != clone);
}

#[test]
fn memory_loader_add_and_lookup() {
    let mut loader: MemoryLoader<u64> = MemoryLoader::new();
    assert!(!loader.contains_key(&4));
    assert!(loader.add(4, b"abc".to_vec()));
    assert!(loader.contains_key(&4));
    // A second entry under the same key is refused.
    assert!(!loader.add(4, b"xyz".to_vec()));
    let stream = loader.create_stream(&4).unwrap();
    assert_eq!(stream.read_fragment(0, stream.size()).unwrap(), b"abc".to_vec());
    let err = loader.create_stream(&5).unwrap_err();
    assert_eq!(err.kind, ErrorKind::LoaderCallbackFailure);
}
