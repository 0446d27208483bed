use walls::{content_key, decode_handle, get_remembered_file, handle_from_read, remember_file};

fn temp_db() -> sled::Db {
    sled::Config::new().temporary(true).open().unwrap()
}

#[test]
fn remember_then_lookup_finds_handle() {
    let mut db = temp_db();
    let contents = b"picture bytes".to_vec();
    assert!(remember_file(&mut db, &contents, "H1"));
    assert_eq!(get_remembered_file(&db, &contents), Some("H1".to_string()));
}

#[test]
fn second_remember_overwrites_first() {
    let mut db = temp_db();
    let contents = b"picture bytes".to_vec();
    assert!(remember_file(&mut db, &contents, "H1"));
    assert!(remember_file(&mut db, &contents, "H2"));
    assert_eq!(get_remembered_file(&db, &contents), Some("H2".to_string()));
    assert_eq!(db.len(), 1);
}

#[test]
fn identical_bytes_share_a_handle() {
    let mut db = temp_db();
    let first = vec![1u8, 2, 3, 4, 5];
    let second = vec![1u8, 2, 3, 4, 5];
    assert!(remember_file(&mut db, &first, "HX"));
    assert_eq!(get_remembered_file(&db, &second), Some("HX".to_string()));
}

#[test]
fn unknown_contents_miss() {
    let mut db = temp_db();
    assert_eq!(get_remembered_file(&db, b"never stored"), None);
    assert!(remember_file(&mut db, b"stored", "H"));
    assert_eq!(get_remembered_file(&db, b"stored!"), None);
    assert_eq!(get_remembered_file(&db, b""), None);
}

#[test]
fn handles_keep_non_ascii_text() {
    let mut db = temp_db();
    assert!(remember_file(&mut db, b"x", "AgAD\u{e9}\u{1F600}"));
    assert_eq!(get_remembered_file(&db, b"x"), Some("AgAD\u{e9}\u{1F600}".to_string()));
}

#[test]
fn entry_that_is_not_text_counts_as_miss() {
    let db = temp_db();
    let contents = b"corrupt entry".to_vec();
    db.insert(content_key(&contents), vec![0xFFu8, 0xFE, 0x00]).unwrap();
    assert_eq!(get_remembered_file(&db, &contents), None);
}

#[test]
fn key_is_the_seahash_digest_big_endian() {
    let contents = b"some file".to_vec();
    assert_eq!(content_key(&contents), seahash::hash(&contents).to_be_bytes().to_vec());
    assert_eq!(content_key(&contents).len(), 8);
    assert_ne!(content_key(&contents), content_key(b"other file"));
    assert_ne!(content_key(&[0u8; 8]), vec![0u8; 8]);
}

#[test]
fn handle_is_stored_as_utf8_under_the_key() {
    let mut db = temp_db();
    let contents = b"abc".to_vec();
    assert!(remember_file(&mut db, &contents, "H1"));
    let raw = db.get(content_key(&contents)).unwrap().unwrap();
    assert_eq!(raw.to_vec(), b"H1".to_vec());
}

#[test]
fn decode_handle_cases() {
    assert_eq!(decode_handle(None), None);
    assert_eq!(decode_handle(Some(b"abc".to_vec())), Some("abc".to_string()));
    assert_eq!(decode_handle(Some(vec![0xC3, 0xA9])), Some("\u{e9}".to_string()));
    assert_eq!(decode_handle(Some(vec![0xC3])), None);
    assert_eq!(decode_handle(Some(vec![])), Some(String::new()));
}

#[test]
fn failed_read_counts_as_miss() {
    let failed: Result<Option<Vec<u8>>, sled::Error> = Err(sled::Error::Unsupported("closed".to_string()));
    assert_eq!(handle_from_read(failed), None);
    assert_eq!(handle_from_read(Ok(None)), None);
    assert_eq!(handle_from_read(Ok(Some(b"H7".to_vec()))), Some("H7".to_string()));
    assert_eq!(handle_from_read(Ok(Some(vec![0xFF]))), None);
}
