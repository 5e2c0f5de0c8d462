use clap_version_flag::{parse_hex, ColorfulVersion, VersionError};

#[test]
fn hex_round_trip_every_channel_value() {
    for v in 0..=255u8 {
        let (r, g, b) = (v, 255 - v, v.wrapping_mul(7));
        let upper = format!("#{:02X}{:02X}{:02X}", r, g, b);
        let lower = format!("{:02x}{:02x}{:02x}", r, g, b);
        assert_eq!(parse_hex(&upper).unwrap(), (r, g, b));
        assert_eq!(parse_hex(&lower).unwrap(), (r, g, b));
    }
}

#[test]
fn hex_round_trip_example() {
    assert_eq!(parse_hex("#1A2B3C").unwrap(), (26, 43, 60));
}

#[test]
fn three_digit_expansion() {
    assert_eq!(parse_hex("#F00").unwrap(), (255, 0, 0));
    assert_eq!(parse_hex("#f00").unwrap(), (255, 0, 0));
    assert_eq!(parse_hex("FF0000").unwrap(), (255, 0, 0));
    assert_eq!(parse_hex("#1a9").unwrap(), (0x11, 0xAA, 0x99));
}

#[test]
fn hex_case_insensitive() {
    assert_eq!(parse_hex("#AaBbCc").unwrap(), (170, 187, 204));
    assert_eq!(parse_hex("#aabbcc").unwrap(), (170, 187, 204));
}

#[test]
fn hex_rejections() {
    for bad in ["", "#GGG", "#12345", "#1234567", "#", "##FFF", "+F+F+F", "é12345", "#12 456"] {
        assert!(parse_hex(bad).is_err(), "should reject {:?}", bad);
    }
}

#[test]
fn hex_error_holds_digits_after_hash() {
    match parse_hex("#12345") {
        Err(VersionError::InvalidHexColor(s)) => assert_eq!(s, "12345"),
        other => panic!("unexpected {:?}", other),
    }
    match parse_hex("xyz") {
        Err(VersionError::InvalidHexColor(s)) => assert_eq!(s, "xyz"),
        other => panic!("unexpected {:?}", other),
    }
}

#[test]
fn default_colors_of_new_banner() {
    let v = ColorfulVersion::new("a", "b", "c");
    let c = v.colors();
    assert_eq!(c.name_fg, (255, 255, 255));
    assert_eq!(c.name_bg, (170, 0, 255));
    assert_eq!(c.version_color, (255, 255, 0));
    assert_eq!(c.author_color, (0, 255, 255));
}

#[test]
fn plain_string_layout() {
    let v = ColorfulVersion::new("testapp", "1.2.3", "Test Author");
    let plain = v.as_plain_string();
    assert_eq!(plain, "testapp v1.2.3 by Test Author");
    assert!(!plain.contains('\u{1b}'));
}

#[test]
fn failed_override_leaves_earlier_colors() {
    let v = ColorfulVersion::new("app", "1.0", "me")
        .with_hex_colors("#102030", "#405060", "#708090", "#A0B0C0")
        .unwrap();
    let kept = v.clone();
    for bad in [
        ("#GGG", "#000", "#000", "#000"),
        ("#000", "#GGG", "#000", "#000"),
        ("#000", "#000", "#GGG", "#000"),
        ("#000", "#000", "#000", "#GGG"),
    ] {
        assert!(v.clone().with_hex_colors(bad.0, bad.1, bad.2, bad.3).is_err());
    }
    assert_eq!(kept.colors().name_fg, (0x10, 0x20, 0x30));
    assert_eq!(kept.colors().name_bg, (0x40, 0x50, 0x60));
    assert_eq!(kept.colors().version_color, (0x70, 0x80, 0x90));
    assert_eq!(kept.colors().author_color, (0xA0, 0xB0, 0xC0));
}

#[test]
fn override_reports_first_invalid_string() {
    let err = ColorfulVersion::new("app", "1.0", "me")
        .with_hex_colors("#000", "#XYZ", "#12", "#000")
        .unwrap_err();
    match err {
        VersionError::InvalidHexColor(s) => assert_eq!(s, "XYZ"),
        other => panic!("unexpected {:?}", other),
    }
}

#[test]
fn rgb_override_replaces_all_four() {
    let v = ColorfulVersion::new("app", "1.0", "me").with_rgb_colors((1, 2, 3), (4, 5, 6), (7, 8, 9), (10, 11, 12));
    let c = v.colors();
    assert_eq!(c.name_fg, (1, 2, 3));
    assert_eq!(c.name_bg, (4, 5, 6));
    assert_eq!(c.version_color, (7, 8, 9));
    assert_eq!(c.author_color, (10, 11, 12));
    assert_eq!(v.as_plain_string(), "app v1.0 by me");
}

#[test]
fn colored_never_shorter_than_plain() {
    for v in [
        ColorfulVersion::new("testapp", "1.0.0", "Author"),
        ColorfulVersion::new("", "", ""),
        ColorfulVersion::new("x", "", "").with_rgb_colors((0, 0, 0), (0, 0, 0), (0, 0, 0), (0, 0, 0)),
    ] {
        let plain = v.as_plain_string();
        let colored = v.to_colored_string();
        assert!(colored.chars().count() >= plain.chars().count());
        assert!(!colored.is_empty());
    }
}

#[test]
fn invalid_hex_message() {
    let msg = VersionError::invalid_hex("#INVALID").message();
    assert_eq!(msg, "Invalid hex color format: '#INVALID'. Expected format: #RRGGBB or #RGB");
}

#[test]
fn io_error_message() {
    let err = VersionError::IoError(std::io::Error::new(std::io::ErrorKind::Other, "pipe closed"));
    assert_eq!(err.message(), "I/O error: pipe closed");
}
