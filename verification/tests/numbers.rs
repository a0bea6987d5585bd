use gateway::ids::compute_sha256;
use gateway::responses::CreateIngestJobResponse;
use gateway::uploads::build_metadata;
use gateway::numbers::{i64_text, parse_bool, parse_i32, parse_u8, u64_text};

#[test]
fn parses_like_from_str() {
    for text in ["0", "+7", "-7", "2147483647", "-2147483648", "2147483648", "", "+", "-", "1 ", "12a", "007"] {
        assert_eq!(parse_i32(text), text.parse::<i32>().ok(), "{text:?}");
    }
    for text in ["0", "255", "256", "-0", "+5", "x"] {
        assert_eq!(parse_u8(text), text.parse::<u8>().ok(), "{text:?}");
    }
    for text in ["true", "false", "True", "1", ""] {
        assert_eq!(parse_bool(text), text.parse::<bool>().ok(), "{text:?}");
    }
}

#[test]
fn decimal_text_matches_display() {
    for n in [0i64, 7, -7, 10, 1234567890, i64::MAX, i64::MIN] {
        assert_eq!(i64_text(n), n.to_string());
    }
    assert_eq!(u64_text(u64::MAX), u64::MAX.to_string());
}

#[test]
fn uuid_text_matches_uuid_display() {
    for text in ["aaaaaaaa-bbbb-cccc-dddd-eeeeeeeeeeee", "00000000-0000-0000-0000-000000000000"] {
        let id = uuid::Uuid::parse_str(text).expect("uuid");
        assert_eq!(CreateIngestJobResponse::new(id.as_u128()).job_status_url, format!("/v1/jobs/{text}"));
    }
}

#[test]
fn hex_and_sha256() {
    let digest = compute_sha256(b"");
    assert_eq!(digest.len(), 32);
    assert_eq!(&digest[..3], &[0xe3, 0xb0, 0xc4]);
    let (again, hex, _) = build_metadata("empty.txt", b"");
    assert_eq!(again, digest);
    assert_eq!(hex, "e3b0c44298fc1c149afbf4c8996fb92427ae41e4649b934ca495991b7852b855");
}
