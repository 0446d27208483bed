use walls::{
    finish_delivery, get_remembered_file, new_handle, prepare_delivery, source_for, FileSource, SendMode,
};

fn temp_db() -> sled::Db {
    sled::Config::new().temporary(true).open().unwrap()
}

fn jpeg_bytes(width: u16, height: u16, total: usize) -> Vec<u8> {
    let mut b = vec![0xFF, 0xD8, 0xFF, 0xC0, 0x00, 0x11, 0x08];
    b.extend_from_slice(&height.to_be_bytes());
    b.extend_from_slice(&width.to_be_bytes());
    b.extend_from_slice(&[0x03, 0x01, 0x22, 0x00, 0x02, 0x11, 0x01, 0x03, 0x11, 0x01]);
    b.resize(total, 0x5A);
    b
}

/// A stand-in for the transport: records which kind of file reference it got
/// and answers with the handle it would issue.
struct StubTransport {
    uploads: usize,
    by_handle: Vec<String>,
}

impl StubTransport {
    fn send(&mut self, source: &FileSource) -> Option<String> {
        match source {
            FileSource::Upload => {
                self.uploads += 1;
                Some(format!("ISSUED{}", self.uploads))
            }
            FileSource::Handle(h) => {
                self.by_handle.push(h.clone());
                Some(h.clone())
            }
        }
    }
}

#[test]
fn second_delivery_reuses_handle_without_upload() {
    let mut db = temp_db();
    let contents = jpeg_bytes(400, 300, 50 * 1024);
    let mut transport = StubTransport { uploads: 0, by_handle: vec![] };

    let first = prepare_delivery(&db, contents.len() as u64, &contents);
    assert_eq!(first.mode, SendMode::AsPicture);
    assert!(first.source.is_upload());
    let issued = transport.send(&first.source);
    assert!(finish_delivery(&mut db, &contents, &first.source, issued));
    assert_eq!(get_remembered_file(&db, &contents), Some("ISSUED1".to_string()));

    let second = prepare_delivery(&db, contents.len() as u64, &contents);
    assert_eq!(second.mode, SendMode::AsPicture);
    assert!(!second.source.is_upload());
    let issued = transport.send(&second.source);
    assert!(!finish_delivery(&mut db, &contents, &second.source, issued));
    assert_eq!(transport.uploads, 1);
    assert_eq!(transport.by_handle, vec!["ISSUED1".to_string()]);
}

#[test]
fn large_file_plans_a_document_upload() {
    let db = temp_db();
    let contents = jpeg_bytes(400, 300, 12 * 1024 * 1024);
    let d = prepare_delivery(&db, contents.len() as u64, &contents);
    assert_eq!(d.mode, SendMode::AsDocument);
    assert!(d.source.is_upload());
}

#[test]
fn wide_image_plans_a_document() {
    let db = temp_db();
    let contents = jpeg_bytes(11000, 200, 8 * 1024);
    let d = prepare_delivery(&db, contents.len() as u64, &contents);
    assert_eq!(d.mode, SendMode::AsDocument);
}

#[test]
fn new_handle_keeps_only_fresh_handles() {
    assert_eq!(new_handle(&FileSource::Upload, Some("A".to_string())), Some("A".to_string()));
    assert_eq!(new_handle(&FileSource::Upload, None), None);
    assert_eq!(new_handle(&FileSource::Handle("A".to_string()), Some("A".to_string())), None);
    assert_eq!(
        new_handle(&FileSource::Handle("A".to_string()), Some("B".to_string())),
        Some("B".to_string())
    );
    assert_eq!(new_handle(&FileSource::Handle("A".to_string()), None), None);
}

#[test]
fn finish_without_issued_handle_writes_nothing() {
    let mut db = temp_db();
    assert!(!finish_delivery(&mut db, b"abc", &FileSource::Upload, None));
    assert_eq!(get_remembered_file(&db, b"abc"), None);
    assert!(db.is_empty());
}

#[test]
fn fresh_handle_replaces_supplied_one() {
    let mut db = temp_db();
    let source = FileSource::Handle("OLD".to_string());
    assert!(finish_delivery(&mut db, b"abc", &source, Some("NEW".to_string())));
    assert_eq!(get_remembered_file(&db, b"abc"), Some("NEW".to_string()));
}

#[test]
fn lookup_answer_decides_the_source() {
    assert!(source_for(None).is_upload());
    match source_for(Some("H9".to_string())) {
        FileSource::Handle(h) => assert_eq!(h, "H9"),
        FileSource::Upload => panic!("a found handle must be used"),
    }
}
