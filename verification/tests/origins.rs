use axum::http::HeaderValue;
use gateway::headers::{attachment_disposition, escape_filename};
use gateway::origins::{is_allowed_origin, is_localhost, origin_allowed};
use gateway::callbacks::{validate_callback_target, CallbackTarget};
use gateway::documents::{download_headers, document_headers};

#[test]
fn local_and_private_hosts() {
    assert!(is_localhost("http://localhost:8080"));
    assert!(is_localhost("https://192.168.1.5"));
    assert!(is_localhost("http://172.16.0.1"));
    assert!(is_localhost("http://172.31.255.1/"));
    assert!(!is_localhost("http://172.32.0.1"));
    assert!(!is_localhost("http://172.1x.0.1"));
    assert!(!is_localhost("https://example.com"));
}

#[test]
fn allowed_origins() {
    assert!(origin_allowed("http://localhost:5173"));
    assert!(origin_allowed("https://nauron.ai"));
    assert!(origin_allowed("https://app.nauron.ai"));
    assert!(origin_allowed("https://preview.lovable.dev"));
    assert!(!origin_allowed("https://nauron.ai.evil.com"));
    assert!(!origin_allowed("https://example.com"));
    assert!(is_allowed_origin(HeaderValue::from_static("https://nauron.ai").to_str().ok()));
    assert!(!is_allowed_origin(HeaderValue::from_bytes(b"https://\xffnauron.ai").unwrap().to_str().ok()));
    assert!(!is_allowed_origin(Some("https://example.com")));
    assert!(!is_allowed_origin(None));
}

#[test]
fn disposition_escapes_quotes_and_drops_line_breaks() {
    assert_eq!(escape_filename("a\"b\\c\r\n.txt"), "a\\\"b\\\\c.txt");
    assert_eq!(
        attachment_disposition("report.pdf").as_deref(),
        Some("attachment; filename=\"report.pdf\"")
    );
    assert_eq!(
        attachment_disposition("a\"b.txt").as_deref(),
        Some("attachment; filename=\"a\\\"b.txt\"")
    );
    assert!(attachment_disposition("\r\n").is_none());
    assert!(attachment_disposition("bad\u{7f}name").is_none());
    let text = attachment_disposition("żółw.pdf").expect("non-ASCII names are valid header bytes");
    assert!(HeaderValue::from_str(&text).is_ok());
}

#[test]
fn download_headers_fall_back_to_octet_stream() {
    let h = download_headers(Some("text/plain"), "a.txt");
    assert_eq!(h.content_type, "text/plain");
    assert_eq!(h.disposition.as_deref(), Some("attachment; filename=\"a.txt\""));
    let h = download_headers(Some("bad\u{7f}type"), "a.txt");
    assert_eq!(h.content_type, "application/octet-stream");
    let h = download_headers(None, "");
    assert_eq!(h.content_type, "application/octet-stream");
    assert!(h.disposition.is_none());
    let h = document_headers("jobs/x/doc.md");
    assert_eq!(h.content_type, "text/markdown; charset=utf-8");
    assert_eq!(h.disposition.as_deref(), Some("attachment; filename=\"doc.md\""));
    let h = document_headers("jobs/x/doc.bin");
    assert_eq!(h.content_type, "application/octet-stream");
    for text in ["text/plain", "attachment; filename=\"doc.md\""] {
        assert!(HeaderValue::from_str(text).is_ok());
    }
}

#[test]
fn callback_urls_must_be_http() {
    assert!(validate_callback_target(None).is_ok());
    let target = |url: &str| CallbackTarget { url: url.to_string(), secret: None };
    assert!(validate_callback_target(Some(&target("https://hooks.example.com/x"))).is_ok());
    assert!(validate_callback_target(Some(&target("ftp://hooks.example.com/x"))).is_err());
    assert!(validate_callback_target(Some(&target("not a url"))).is_err());
}
