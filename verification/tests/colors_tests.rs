use xpd_core::colors::{Color, Colors, Error};

#[test]
fn from_hex_parses_plain() {
    let c = Color::from_hex("112233").unwrap();
    assert_eq!(c, Color::new(0x11, 0x22, 0x33));
}

#[test]
fn from_hex_parses_with_hash() {
    let c = Color::from_hex("#8FCA5C").unwrap();
    assert_eq!(c, Color::new(143, 202, 92));
}

#[test]
fn from_hex_parses_lowercase() {
    let c = Color::from_hex("#aabbcc").unwrap();
    assert_eq!(c, Color::new(0xAA, 0xBB, 0xCC));
}

#[test]
fn from_hex_strips_every_leading_hash() {
    let c = Color::from_hex("##112233").unwrap();
    assert_eq!(c, Color::new(0x11, 0x22, 0x33));
}

#[test]
fn from_hex_rejects_short_input() {
    assert_eq!(Color::from_hex("#12345").unwrap_err(), Error::InvalidLength);
}

#[test]
fn from_hex_rejects_long_input() {
    assert_eq!(Color::from_hex("1234567").unwrap_err(), Error::InvalidLength);
}

#[test]
fn from_hex_rejects_empty_input() {
    assert_eq!(Color::from_hex("").unwrap_err(), Error::InvalidLength);
    assert_eq!(Color::from_hex("#").unwrap_err(), Error::InvalidLength);
}

#[test]
fn from_hex_rejects_non_hex_characters() {
    assert_eq!(Color::from_hex("12345G").unwrap_err(), Error::ParseInt);
    assert_eq!(Color::from_hex("#+12345").unwrap_err(), Error::ParseInt);
}

#[test]
fn from_hex_counts_characters_not_bytes() {
    // three two-byte characters are three characters, not six
    assert_eq!(Color::from_hex("ééé").unwrap_err(), Error::InvalidLength);
}

#[test]
fn to_hex_string_is_canonical() {
    assert_eq!(Color::new(255, 255, 255).to_hex_string(), "#FFFFFF");
    assert_eq!(Color::new(0xAA, 0xBB, 0xCC).to_hex_string(), "#AABBCC");
    assert_eq!(Color::new(0, 0, 0).to_hex_string(), "#000000");
}

#[test]
fn color_round_trips_through_text() {
    let samples = [
        Color::new(0, 0, 0),
        Color::new(255, 255, 255),
        Color::new(0x11, 0x22, 0x33),
        Color::new(143, 202, 92),
        Color::new(97, 55, 31),
        Color::new(1, 16, 240),
    ];
    for c in samples {
        assert_eq!(Color::from_hex(&c.to_hex_string()).unwrap(), c);
    }
}

#[test]
fn default_palette_has_documented_values() {
    let d = Colors::default();
    assert_eq!(d.important, Color::new(255, 255, 255));
    assert_eq!(d.secondary, Color::new(204, 204, 204));
    assert_eq!(d.rank, Color::new(255, 255, 255));
    assert_eq!(d.level, Color::new(143, 202, 92));
    assert_eq!(d.border, Color::new(133, 79, 43));
    assert_eq!(d.background, Color::new(97, 55, 31));
    assert_eq!(d.progress_foreground, Color::new(71, 122, 30));
    assert_eq!(d.progress_background, Color::new(143, 202, 92));
}

#[test]
fn error_messages_are_stable() {
    assert_eq!(
        Error::InvalidLength.message(),
        "Invalid length! Hex data length must be exactly 6 characters!"
    );
    assert_eq!(Error::ParseInt.message(), "Integer parsing error!");
}
