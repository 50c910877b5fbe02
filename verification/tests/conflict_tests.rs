use savesync::conflict::ConflictBuffer;

#[test]
fn store_then_retrieve_returns_the_record() {
    let mut buf = ConflictBuffer::new();
    buf.store_buffer("saves", "slot1", vec![1, 2, 3], 150, 200);
    assert!(buf.contains_key("saves", "slot1"));
    let rec = buf.retrieve_buffer("saves", "slot1").expect("record should be pending");
    assert_eq!(rec.tag, "saves");
    assert_eq!(rec.folder, "slot1");
    assert_eq!(rec.data, vec![1, 2, 3]);
    assert_eq!(rec.local_modified, 150);
    assert_eq!(rec.cloud_modified, 200);
}

#[test]
fn second_retrieval_finds_nothing() {
    let mut buf = ConflictBuffer::new();
    buf.store_buffer("saves", "slot1", vec![9], 150, 200);
    assert!(buf.retrieve_buffer("saves", "slot1").is_some());
    assert!(buf.retrieve_buffer("saves", "slot1").is_none());
    assert!(!buf.contains_key("saves", "slot1"));
}

#[test]
fn retrieval_without_a_store_finds_nothing() {
    let mut buf = ConflictBuffer::new();
    assert!(buf.retrieve_buffer("saves", "slot1").is_none());
}

#[test]
fn storing_twice_replaces_the_record() {
    let mut buf = ConflictBuffer::new();
    buf.store_buffer("saves", "slot1", vec![1], 10, 20);
    buf.store_buffer("saves", "slot1", vec![2], 30, 40);
    assert_eq!(buf.len(), 1);
    let rec = buf.retrieve_buffer("saves", "slot1").unwrap();
    assert_eq!(rec.data, vec![2]);
    assert_eq!(rec.local_modified, 30);
    assert_eq!(rec.cloud_modified, 40);
}

#[test]
fn records_are_kept_per_key() {
    let mut buf = ConflictBuffer::new();
    buf.store_buffer("saves", "slot1", vec![1], 1, 2);
    buf.store_buffer("saves", "slot2", vec![2], 3, 4);
    buf.store_buffer("other", "slot1", vec![3], 5, 6);
    assert_eq!(buf.len(), 3);
    let rec = buf.retrieve_buffer("saves", "slot2").unwrap();
    assert_eq!(rec.data, vec![2]);
    assert_eq!(buf.len(), 2);
    assert!(buf.contains_key("saves", "slot1"));
    assert!(buf.contains_key("other", "slot1"));
    assert!(!buf.contains_key("saves", "slot2"));
}
