use std::io::Write;

use gateway::config::AppConfig;
use gateway::error::GatewayError;
use gateway::uploads::{
    build_metadata, build_work_items, compose_ingest_key, is_ooxml_upload, is_zip_upload,
    ooxml_extension_in_name, sanitize_filename, FileOrigin, UploadedFile,
};

fn upload(bytes: &[u8], name: Option<&str>, content_type: Option<&str>) -> UploadedFile {
    UploadedFile {
        bytes: bytes.to_vec(),
        name: name.map(|n| n.to_string()),
        content_type: content_type.map(|c| c.to_string()),
    }
}

#[test]
fn filename_sanitized() {
    assert_eq!(sanitize_filename("some weird/name.pdf"), "some_weird_name.pdf");
}

#[test]
fn sanitizing_keeps_safe_characters_and_is_idempotent() {
    let once = sanitize_filename("Raport-Q4_v2.final (1).pdf");
    assert_eq!(once, "Raport-Q4_v2.final__1_.pdf");
    assert_eq!(sanitize_filename(&once), once);
    assert_eq!(sanitize_filename("żółw.txt"), "___w.txt");
}

#[test]
fn detects_regular_zip_upload_by_magic_bytes() {
    let file = upload(b"PK\x03\x04\x14\x00", Some("archive.zip"), Some("application/octet-stream"));
    assert!(is_zip_upload(&file));
}

#[test]
fn rejects_docx_even_when_magic_bytes_match_zip() {
    let file = upload(
        b"PK\x03\x04\x14\x00",
        Some("document.docx"),
        Some("application/vnd.openxmlformats-officedocument.wordprocessingml.document"),
    );
    assert!(!is_zip_upload(&file));
}

#[test]
fn rejects_docx_when_mime_is_zip_but_extension_is_ooxml() {
    let file = upload(b"PK\x03\x04\x14\x00", Some("document.docx"), Some("application/zip"));
    assert!(!is_zip_upload(&file));
}

#[test]
fn rejects_zip_extension_when_mime_is_ooxml() {
    let file = upload(
        b"PK\x03\x04\x14\x00",
        Some("document.zip"),
        Some("application/vnd.openxmlformats-officedocument.wordprocessingml.document"),
    );
    assert!(!is_zip_upload(&file));
}

#[test]
fn rejects_pptx_by_extension_when_mime_missing() {
    let file = upload(b"PK\x03\x04\x14\x00", Some("slides.PPTX"), None);
    assert!(!is_zip_upload(&file));
}

#[test]
fn rejects_docm_by_extension() {
    let file = upload(b"PK\x03\x04\x14\x00", Some("template.docm"), None);
    assert!(!is_zip_upload(&file));
}

#[test]
fn plain_files_and_zip_mime_without_magic() {
    assert!(!is_zip_upload(&upload(b"%PDF-1.7", Some("a.pdf"), Some("application/pdf"))));
    assert!(is_zip_upload(&upload(b"hello", Some("a.bin"), Some("application/zip"))));
    assert!(ooxml_extension_in_name("Report.XLSX"));
    assert!(!ooxml_extension_in_name("report.zip"));
    assert!(is_ooxml_upload(&upload(b"", None, Some("application/vnd.ms-excel.sheet.macroEnabled.12"))));
}

#[test]
fn ooxml_marked_as_zip_stays_single_upload_item() {
    let file = upload(b"PK\x03\x04\x14\x00", Some("document.docx"), Some("application/zip"));
    let work_items = build_work_items(file).expect("work items should be built");
    assert_eq!(work_items.len(), 1);
    assert!(matches!(work_items[0].origin, FileOrigin::Upload));
}

fn zip_bytes(entries: &[(&str, &[u8])]) -> Vec<u8> {
    let mut writer = zip::ZipWriter::new(std::io::Cursor::new(Vec::new()));
    for (name, data) in entries {
        writer
            .start_file(*name, zip::write::SimpleFileOptions::default())
            .expect("zip entry should open");
        writer.write_all(data).expect("zip entry should write payload");
    }
    let cursor = writer.finish().expect("zip should finalize");
    cursor.into_inner()
}

#[test]
fn regular_zip_expands_to_archive_entries() {
    let file = UploadedFile {
        bytes: zip_bytes(&[("a.txt", b"hello")]),
        name: Some("bundle.zip".into()),
        content_type: Some("application/zip".into()),
    };
    let work_items = build_work_items(file).expect("zip should expand");
    assert_eq!(work_items.len(), 1);
    assert!(matches!(work_items[0].origin, FileOrigin::ArchiveEntry));
}

#[test]
fn archive_entries_keep_paths_and_skip_empty_files() {
    let file = UploadedFile {
        bytes: zip_bytes(&[("docs/a.txt", b"hello"), ("empty.txt", b""), ("b.md", b"# b")]),
        name: Some("bundle.zip".into()),
        content_type: Some("application/zip".into()),
    };
    let items = build_work_items(file).expect("zip should expand");
    assert_eq!(items.len(), 2);
    assert_eq!(items[0].file.name.as_deref(), Some("a.txt"));
    assert_eq!(items[0].original_path.as_deref(), Some("docs/a.txt"));
    assert_eq!(items[0].file.bytes, b"hello".to_vec());
    assert_eq!(items[1].file.name.as_deref(), Some("b.md"));
}

#[test]
fn archive_without_files_is_refused() {
    let file = UploadedFile {
        bytes: zip_bytes(&[("empty.txt", b"")]),
        name: Some("bundle.zip".into()),
        content_type: Some("application/zip".into()),
    };
    let err = build_work_items(file).err().expect("no files");
    assert!(matches!(err, GatewayError::InvalidField { field, message }
        if field == "file" && message == "archive contains no files"));
}

#[test]
fn unreadable_archive_is_an_archive_error() {
    let file = upload(b"PK\x03\x04\x14\x00", Some("broken.zip"), Some("application/zip"));
    assert!(matches!(build_work_items(file), Err(GatewayError::Archive(_))));
}

fn config(prefix: &str) -> AppConfig {
    AppConfig {
        input_bucket: "in".to_string(),
        input_prefix: prefix.to_string(),
        output_bucket: "out".to_string(),
        output_prefix: "mir".to_string(),
        progress_topic: "progress".to_string(),
        result_topic: "result".to_string(),
        rdf_progress_topic: "rdf-progress".to_string(),
        rdf_result_topic: "rdf-result".to_string(),
        files_dedup_enabled: true,
    }
}

#[test]
fn ingest_key_is_sharded_by_digest() {
    assert_eq!(compose_ingest_key(&config(""), "abcdef", "a.pdf"), "ingest/ab/abcdef/a.pdf");
    assert_eq!(compose_ingest_key(&config("uploads"), "abcdef", "a.pdf"), "uploads/ingest/ab/abcdef/a.pdf");
}

#[test]
fn different_digest_and_name_pairs_get_different_keys() {
    let c = config("uploads");
    let pairs = [("abcdef", "a.pdf"), ("abcdef", "b.pdf"), ("abcdee", "a.pdf"), ("abcde", "fa.pdf"), ("ab", "cdef/a.pdf")];
    for (i, (sha1, name1)) in pairs.iter().enumerate() {
        for (sha2, name2) in pairs.iter().skip(i + 1) {
            assert_ne!(compose_ingest_key(&c, sha1, name1), compose_ingest_key(&c, sha2, name2));
        }
    }
}

#[test]
fn metadata_digest_is_sha256() {
    let (digest, hex, name) = build_metadata("my file.txt", b"abc");
    assert_eq!(digest.len(), 32);
    assert_eq!(hex, "ba7816bf8f01cfea414140de5dae2223b00361a396177a9cb410ff61f20015ad");
    assert_eq!(name, "my_file.txt");
}

#[test]
fn corrupted_entry_reports_read_error() {
    let mut writer = zip::ZipWriter::new(std::io::Cursor::new(Vec::new()));
    let options = zip::write::SimpleFileOptions::default().compression_method(zip::CompressionMethod::Stored);
    writer.start_file("a.txt", options).expect("zip entry should open");
    writer.write_all(b"hello world").expect("zip entry should write payload");
    let mut bytes = writer.finish().expect("zip should finalize").into_inner();
    let at = bytes.windows(5).position(|w| w == b"hello").expect("payload present");
    bytes[at] = b'j';
    let file = UploadedFile { bytes, name: Some("bundle.zip".into()), content_type: Some("application/zip".into()) };
    assert!(matches!(build_work_items(file), Err(GatewayError::Archive(m)) if m == "Invalid checksum"));
}

#[test]
fn directory_entries_are_skipped() {
    let mut writer = zip::ZipWriter::new(std::io::Cursor::new(Vec::new()));
    writer.add_directory("docs/", zip::write::SimpleFileOptions::default()).expect("directory entry");
    writer.start_file("docs/a.txt", zip::write::SimpleFileOptions::default()).expect("file entry");
    writer.write_all(b"hello").expect("payload");
    let bytes = writer.finish().expect("zip should finalize").into_inner();
    let file = UploadedFile { bytes, name: Some("bundle.zip".into()), content_type: Some("application/zip".into()) };
    let items = build_work_items(file).expect("zip should expand");
    assert_eq!(items.len(), 1);
    assert_eq!(items[0].original_path.as_deref(), Some("docs/a.txt"));
}
