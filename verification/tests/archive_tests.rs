use savesync::archive::{archive_round_trip, extract, zip_dir, FolderFile};
use savesync::engine::get_last_modified;

fn file(rel_path: &str, data: &[u8], modified: u64) -> FolderFile {
    FolderFile { rel_path: rel_path.to_string(), data: data.to_vec(), modified }
}

#[test]
fn round_trip_reproduces_names_and_contents() {
    let files = vec![
        file("save1.dat", b"hello world", 100),
        file("nested/save2.dat", b"", 250),
        file("nested/deep/save3.dat", &[0u8, 1, 2, 255, 254], 180),
    ];
    let (bytes, _) = zip_dir(&files).expect("packing should succeed");
    let entries = extract(&bytes).expect("unpacking should succeed");
    assert_eq!(entries.len(), 3);
    assert_eq!(entries[0].0, "save1.dat");
    assert_eq!(entries[0].1, b"hello world".to_vec());
    assert_eq!(entries[1].0, "nested/save2.dat");
    assert_eq!(entries[1].1, Vec::<u8>::new());
    assert_eq!(entries[2].0, "nested/deep/save3.dat");
    assert_eq!(entries[2].1, vec![0u8, 1, 2, 255, 254]);
}

#[test]
fn round_trip_helper_agrees() {
    let files = vec![file("a.txt", b"abc", 7)];
    let entries = archive_round_trip(&files).expect("round trip should succeed");
    assert_eq!(entries.len(), 1);
    assert_eq!(entries[0].0, "a.txt");
    assert_eq!(entries[0].1, b"abc".to_vec());
}

#[test]
fn latest_modified_is_the_maximum() {
    let files = vec![
        file("a", b"1", 100),
        file("b", b"2", 250),
        file("c", b"3", 180),
    ];
    let (_, newest) = zip_dir(&files).expect("packing should succeed");
    assert_eq!(newest, 250);
    assert_eq!(get_last_modified(&files), 250);
}

#[test]
fn empty_folder_packs_and_reports_zero() {
    let files: Vec<FolderFile> = Vec::new();
    let (bytes, newest) = zip_dir(&files).expect("packing an empty folder should succeed");
    assert_eq!(newest, 0);
    assert_eq!(get_last_modified(&files), 0);
    let entries = extract(&bytes).expect("unpacking should succeed");
    assert!(entries.is_empty());
}

#[test]
fn extract_rejects_garbage() {
    let garbage = vec![0u8; 64];
    assert!(extract(&garbage).is_err());
}

#[test]
fn packing_is_deterministic() {
    let files = vec![file("a.txt", b"same input", 42)];
    let (b1, _) = zip_dir(&files).unwrap();
    let (b2, _) = zip_dir(&files).unwrap();
    assert_eq!(b1, b2);
}

#[test]
fn large_contents_survive_the_trip() {
    let big: Vec<u8> = (0..100_000u32).map(|i| (i % 251) as u8).collect();
    let files = vec![file("big.bin", &big, 9)];
    let (bytes, _) = zip_dir(&files).unwrap();
    let entries = extract(&bytes).unwrap();
    assert_eq!(entries[0].1, big);
}
