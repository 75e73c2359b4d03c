use rand_esdm::error::EsdmError;
use rand_esdm::status::{
    entropy_level_from_status, esdm_get_entropy_level, esdm_is_fully_seeded,
    fully_seeded_from_status, occurs, status_from_buffer, text_before_nul, STATUS_BUFFER_SIZE,
};

const REPORT: &str = "ESDM library version: 1.2.0\nESDM fully seeded: true\nESDM entropy level: 256\nDRNG name: ChaCha20\n";

fn buffer_with(text: &str) -> Vec<u8> {
    let mut buf = vec![0u8; STATUS_BUFFER_SIZE];
    buf[..text.len()].copy_from_slice(text.as_bytes());
    buf
}

#[test]
fn lib_test_status() {
    for _ in 0..100 {
        let status = status_from_buffer(&buffer_with(REPORT)).unwrap();
        println!("{status}");
        assert_eq!(status, REPORT);
    }
}

#[test]
fn fully_seeded_true() {
    assert_eq!(fully_seeded_from_status(REPORT), Some(true));
    assert_eq!(esdm_is_fully_seeded(&Ok(String::from("ESDM fully seeded: true"))), Some(true));
}

#[test]
fn fully_seeded_false() {
    let text = "header\nESDM fully seeded: false\nESDM entropy level: 12\n";
    assert_eq!(fully_seeded_from_status(text), Some(false));
    assert_eq!(esdm_is_fully_seeded(&Ok(String::from(text))), Some(false));
}

#[test]
fn fully_seeded_absent_or_unreachable() {
    assert_eq!(fully_seeded_from_status("ESDM entropy level: 12\n"), None);
    assert_eq!(fully_seeded_from_status(""), None);
    assert_eq!(fully_seeded_from_status("ESDM fully seeded: maybe"), None);
    assert_eq!(esdm_is_fully_seeded(&Err(EsdmError::Unavailable)), None);
}

#[test]
fn fully_seeded_contradictory_is_unknown() {
    assert_eq!(fully_seeded_from_status("ESDM fully seeded: true\nESDM fully seeded: false\n"), None);
}

#[test]
fn entropy_level_parses() {
    assert_eq!(entropy_level_from_status("ESDM entropy level: 256"), Some(256));
    assert_eq!(entropy_level_from_status(REPORT), Some(256));
    assert_eq!(esdm_get_entropy_level(&Ok(String::from(REPORT))), Some(256));
    assert_eq!(entropy_level_from_status("ESDM entropy level: 0\n"), Some(0));
    assert_eq!(entropy_level_from_status("ESDM entropy level: 4294967295"), Some(u32::MAX));
}

#[test]
fn entropy_level_malformed_is_none() {
    assert_eq!(entropy_level_from_status("ESDM entropy level: abc"), None);
    assert_eq!(entropy_level_from_status("ESDM entropy level: "), None);
    assert_eq!(entropy_level_from_status("ESDM entropy level: 12a"), None);
    assert_eq!(entropy_level_from_status(" ESDM entropy level: 12"), None);
    assert_eq!(entropy_level_from_status("ESDM entropy level: 4294967296"), None);
    assert_eq!(entropy_level_from_status("no level here"), None);
    assert_eq!(esdm_get_entropy_level(&Err(EsdmError::Unavailable)), None);
}

#[test]
fn entropy_level_first_matching_line_wins() {
    let text = "ESDM entropy level: x\nESDM entropy level: 17\nESDM entropy level: 99\n";
    assert_eq!(entropy_level_from_status(text), Some(17));
}

#[test]
fn status_is_cut_at_first_nul() {
    assert_eq!(text_before_nul(&[65, 66, 0, 67, 0]), vec![65, 66]);
    assert_eq!(text_before_nul(&[0, 1]), Vec::<u8>::new());
    assert_eq!(text_before_nul(&[1, 2, 3]), vec![1, 2, 3]);
    assert_eq!(status_from_buffer(&[72, 105, 0, 255]), Ok(String::from("Hi")));
}

#[test]
fn status_must_be_utf8() {
    assert_eq!(status_from_buffer(&[72, 0xFF, 105, 0]), Err(EsdmError::MalformedStatus));
    assert_eq!(status_from_buffer(&[0xC3, 0xA9, 0]), Ok(String::from("\u{e9}")));
}

#[test]
fn occurs_finds_substrings() {
    assert!(occurs(b"hello world", b"o w"));
    assert!(occurs(b"abc", b""));
    assert!(!occurs(b"ab", b"abc"));
    assert!(!occurs(b"hello", b"hex"));
}
