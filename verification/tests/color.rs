use palette_core::color::{Color, InvalidHex};

#[test]
fn from_hex_lowercase() {
    let color = Color::from_hex("#1a1b2a").unwrap();
    assert_eq!(color, Color { r: 26, g: 27, b: 42 });
}

#[test]
fn from_hex_uppercase() {
    let color = Color::from_hex("#AABBCC").unwrap();
    assert_eq!(color, Color { r: 170, g: 187, b: 204 });
}

#[test]
fn from_hex_mixed_case() {
    let color = Color::from_hex("#aAbBcC").unwrap();
    assert_eq!(color, Color { r: 170, g: 187, b: 204 });
}

#[test]
fn from_hex_missing_hash() {
    let err = Color::from_hex("1a1b2a").unwrap_err();
    assert!(
        matches!(&err, InvalidHex { value } if value.as_str() == "1a1b2a"),
        "expected InvalidHex, got: {err:?}",
    );
}

#[test]
fn from_hex_invalid_digits() {
    let err = Color::from_hex("#gggggg").unwrap_err();
    assert!(
        matches!(&err, InvalidHex { value } if value.as_str() == "#gggggg"),
        "expected InvalidHex, got: {err:?}",
    );
}

#[test]
fn from_hex_wrong_length() {
    let err = Color::from_hex("#abc").unwrap_err();
    assert!(
        matches!(&err, InvalidHex { value } if value.as_str() == "#abc"),
        "expected InvalidHex, got: {err:?}",
    );
}

#[test]
fn from_hex_empty() {
    let err = Color::from_hex("").unwrap_err();
    assert!(
        matches!(&err, InvalidHex { value } if value.as_str() == ""),
        "expected InvalidHex, got: {err:?}",
    );
}

#[test]
fn to_hex_uppercase_format() {
    let color = Color { r: 26, g: 27, b: 42 };
    assert_eq!(color.to_hex(), "#1A1B2A");
}

#[test]
fn roundtrip() {
    let original = Color { r: 0, g: 128, b: 255 };
    let hex = original.to_hex();
    let parsed = Color::from_hex(&hex).unwrap();
    assert_eq!(parsed, original);
}

#[test]
fn from_hex_non_ascii_returns_error() {
    assert!(Color::from_hex("#caf√©00").is_err());
}

#[test]
fn js_color_invalid_hex_delegates_to_color() {
    assert!(Color::from_hex("not-a-color").is_err());
}

#[test]
fn roundtrip_every_channel_value() {
    for v in 0..=255u8 {
        let a = Color { r: v, g: 255 - v, b: v ^ 0x5a };
        assert_eq!(Color::from_hex(&a.to_hex()).unwrap(), a);
        assert_eq!(a.to_hex().len(), 7);
    }
}

#[test]
fn to_hex_pads_with_zeros() {
    assert_eq!(Color { r: 0, g: 1, b: 15 }.to_hex(), "#00010F");
    assert_eq!(Color { r: 255, g: 16, b: 160 }.to_hex(), "#FF10A0");
}

#[test]
fn from_hex_takes_no_shorthand_alpha_or_space() {
    assert!(Color::from_hex("#fff").is_err());
    assert!(Color::from_hex("#11223344").is_err());
    assert!(Color::from_hex(" #112233").is_err());
    assert!(Color::from_hex("#112233 ").is_err());
    assert!(Color::from_hex("#").is_err());
}

#[test]
fn from_hex_takes_no_sign() {
    assert!(Color::from_hex("#+1+2+3").is_err());
    assert!(Color::from_hex("#-1-2-3").is_err());
}

#[test]
fn from_hex_rejects_neighbours_of_hex_digits() {
    for text in ["#/00000", "#:00000", "#@00000", "#G00000", "#`00000", "#g00000"] {
        let err = Color::from_hex(text).unwrap_err();
        assert_eq!(err.value, text);
    }
    assert_eq!(Color::from_hex("#09afAF").unwrap(), Color { r: 0x09, g: 0xaf, b: 0xaf });
}

#[test]
fn from_hex_rejects_multibyte_text_of_seven_bytes() {
    assert!(Color::from_hex("#\u{e9}00000").is_err());
    assert!(Color::from_hex("\u{ff03}112233").is_err());
}
