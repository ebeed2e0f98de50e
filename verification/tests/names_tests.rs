//! Filename collision resolution.

use file_transfer::names::resolve_unique_name;

#[test]
fn free_name_is_kept() {
    let r = resolve_unique_name(b"report.pdf", b"127.0.0.1:4000", 1700000000, false);
    assert_eq!(r, b"report.pdf".to_vec());
}

#[test]
fn taken_name_with_extension_is_decorated_before_it() {
    let r = resolve_unique_name(b"report.pdf", b"127.0.0.1:4000", 1700000000, true);
    assert_eq!(r, b"report_127.0.0.1_4000_1700000000.pdf".to_vec());
}

#[test]
fn taken_name_without_extension_is_decorated_at_the_end() {
    let r = resolve_unique_name(b"archive", b"10.0.0.2:99", 42, true);
    assert_eq!(r, b"archive_10.0.0.2_99_42".to_vec());
}

#[test]
fn only_the_last_dot_splits_the_extension() {
    let r = resolve_unique_name(b"a.b.c", b"h:1", 7, true);
    assert_eq!(r, b"a.b_h_1_7.c".to_vec());
}

#[test]
fn decorated_name_differs_from_base() {
    let base = b"data.bin";
    let r = resolve_unique_name(base, b"9.9.9.9:1234", 1, true);
    assert_ne!(r, base.to_vec());
    let s = String::from_utf8(r).unwrap();
    assert!(s.contains("9.9.9.9_1234"));
    assert!(s.contains('1'));
}

#[test]
fn timestamp_zero_renders_one_digit() {
    let r = resolve_unique_name(b"x", b"h:2", 0, true);
    assert_eq!(r, b"x_h_2_0".to_vec());
}
