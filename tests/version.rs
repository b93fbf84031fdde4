use wasmedge_sys::buffer::{full_version_of, VersionError};
use wasmedge_sys::semver::semv_version_of;
use wasmedge_sys::version::{
    full_version, semv_version, WASMEDGE_VERSION, WASMEDGE_VERSION_MAJOR, WASMEDGE_VERSION_MINOR,
    WASMEDGE_VERSION_PATCH,
};

#[test]
fn semv_of_zero_eight_two() {
    assert_eq!(semv_version_of(0, 8, 2), "0.8.2");
}

#[test]
fn semv_of_multi_digit_fields() {
    assert_eq!(semv_version_of(10, 205, 3000), "10.205.3000");
}

#[test]
fn semv_of_largest_fields() {
    assert_eq!(
        semv_version_of(u32::MAX, u32::MAX, u32::MAX),
        "4294967295.4294967295.4294967295"
    );
}

#[test]
fn semv_of_zeros() {
    assert_eq!(semv_version_of(0, 0, 0), "0.0.0");
}

#[test]
fn semv_version_of_the_runtime() {
    assert_eq!(semv_version(), "0.8.2");
    assert_eq!(
        semv_version(),
        format!(
            "{}.{}.{}",
            WASMEDGE_VERSION_MAJOR, WASMEDGE_VERSION_MINOR, WASMEDGE_VERSION_PATCH
        )
    );
}

#[test]
fn semv_version_has_three_decimal_fields() {
    for (a, b, c) in [(0u32, 8u32, 2u32), (1, 0, 0), (12, 34, 56), (u32::MAX, 0, 7)] {
        let s = semv_version_of(a, b, c);
        let fields: Vec<&str> = s.split('.').collect();
        assert_eq!(fields.len(), 3);
        for f in fields {
            assert!(!f.is_empty());
            assert!(f.chars().all(|ch| ch.is_ascii_digit()));
            assert!(f == "0" || !f.starts_with('0'));
        }
    }
}

#[test]
fn semv_version_twice_gives_equal_text() {
    assert_eq!(semv_version(), semv_version());
}

#[test]
fn full_version_of_simple_buffer() {
    assert_eq!(full_version_of(b"1.2.3\0"), Ok("1.2.3"));
}

#[test]
fn full_version_of_terminator_only() {
    assert_eq!(full_version_of(b"\0"), Ok(""));
}

#[test]
fn full_version_of_multibyte_text() {
    assert_eq!(full_version_of("1.0-\u{e9}\u{2603}\0".as_bytes()), Ok("1.0-\u{e9}\u{2603}"));
}

#[test]
fn full_version_of_missing_terminator() {
    assert_eq!(
        full_version_of(b"1.2.3"),
        Err(VersionError::MalformedVersionBuffer)
    );
}

#[test]
fn full_version_of_empty_buffer() {
    assert_eq!(full_version_of(b""), Err(VersionError::MalformedVersionBuffer));
}

#[test]
fn full_version_of_interior_zero() {
    assert_eq!(
        full_version_of(b"1.2\0.3\0"),
        Err(VersionError::MalformedVersionBuffer)
    );
}

#[test]
fn full_version_of_invalid_encoding() {
    assert_eq!(
        full_version_of(b"1.2.\xff\0"),
        Err(VersionError::InvalidEncoding)
    );
}

#[test]
fn full_version_of_truncated_multibyte() {
    assert_eq!(
        full_version_of(b"1.2.\xe2\x98\0"),
        Err(VersionError::InvalidEncoding)
    );
}

#[test]
fn full_version_of_surrogate_encoding() {
    assert_eq!(
        full_version_of(b"\xed\xa0\x80\0"),
        Err(VersionError::InvalidEncoding)
    );
}

#[test]
fn full_version_of_the_runtime() {
    assert_eq!(full_version(), Ok("0.8.2-rc.5-1-g809c746"));
    assert_eq!(WASMEDGE_VERSION.len(), 22);
}

#[test]
fn full_version_strips_exactly_the_terminator() {
    let text = full_version().unwrap();
    assert_eq!(text.as_bytes(), &WASMEDGE_VERSION[..WASMEDGE_VERSION.len() - 1]);
}

#[test]
fn full_version_twice_gives_equal_text() {
    assert_eq!(full_version(), full_version());
    let buf = b"0.9.0\0";
    assert_eq!(full_version_of(buf), full_version_of(buf));
}
