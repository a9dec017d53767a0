use color_convert::color::{Color, ColorMode, Error};
use color_convert::convert;
use color_convert::hex::{parse_hex, Channels};

#[test]
fn rgb_to_hex() {
    let _hex = ColorMode::new("rgb(0,0,0)");
    let _to_hex = convert("rgb(0,0,0)", "hex");
    let _to_rgb = convert("#fff", "rgb");
}

#[test]
fn classify_rgba_priority() {
    assert!(matches!(ColorMode::new("rgba(1,2,3,4)"), ColorMode::RGBA(_)));
    assert!(matches!(ColorMode::new("RGBA(1,2,3,4)"), ColorMode::RGBA(_)));
    assert!(matches!(ColorMode::new("xxRgBayy"), ColorMode::RGBA(_)));
    assert!(matches!(ColorMode::new("rgb(1,2,3)"), ColorMode::RGB(_)));
}

#[test]
fn classify_hsla_priority() {
    assert!(matches!(ColorMode::new("hsla(1,2,3,4)"), ColorMode::HSLA(_)));
    assert!(matches!(ColorMode::new("hsl(1,2,3)"), ColorMode::HSL(_)));
    assert!(matches!(ColorMode::new("HsLa"), ColorMode::HSLA(_)));
}

#[test]
fn classify_other_tokens() {
    assert!(matches!(ColorMode::new("cmyk(0,0,0,0)"), ColorMode::CMYK(_)));
    assert!(matches!(ColorMode::new("hsv(0,0,0)"), ColorMode::HSV(_)));
}

#[test]
fn classify_fallback_hex() {
    assert!(matches!(ColorMode::new("#fff"), ColorMode::HEX(_)));
    assert!(matches!(ColorMode::new("not-a-color"), ColorMode::HEX(_)));
    assert!(matches!(ColorMode::new(""), ColorMode::HEX(_)));
}

#[test]
fn classified_equality() {
    assert_eq!(ColorMode::new("#fff"), ColorMode::new("#fff"));
    assert_ne!(ColorMode::new("#fff"), ColorMode::new("#abc"));
    assert_ne!(ColorMode::new("rgb"), ColorMode::new("rgba"));
}

#[test]
fn to_str_passthrough() {
    assert_eq!(Color::init("#AABBCC").to_str(), "#AABBCC");
    assert_eq!(Color::init("rgba(1,2,3,4)").to_str(), "rgba(1,2,3,4)");
}

#[test]
fn hex_roundtrip_six_digits() {
    assert_eq!(Color::init("#AABBCC").to_hex(), Ok("aabbcc".to_string()));
    assert_eq!(Color::init("336699").to_hex(), Ok("336699".to_string()));
}

#[test]
fn hex_shorthand_expansion() {
    assert_eq!(Color::init("#abc").to_hex(), Ok("aabbcc".to_string()));
    assert_eq!(Color::init("#abc").to_rgb(), Ok("rgb(170,187,204)".to_string()));
}

#[test]
fn hex_four_digit_shorthand() {
    assert_eq!(Color::init("#1234").to_hex(), Ok("11223344".to_string()));
    assert_eq!(Color::init("#1234").to_rgb(), Ok("rgba(17,34,51,68)".to_string()));
}

#[test]
fn hex_alpha_synthesis() {
    assert_eq!(
        Color::new("#fff", false, false, true).to_hex(),
        Ok("ffffffff".to_string())
    );
    assert_eq!(
        Color::new("#336699", false, false, true).to_hex(),
        Ok("336699ff".to_string())
    );
}

#[test]
fn hex_upper_flag() {
    assert_eq!(
        Color::new("#abcdef", true, false, false).to_hex(),
        Ok("ABCDEF".to_string())
    );
    assert_eq!(
        Color::new("#abc", true, false, true).to_hex(),
        Ok("AABBCCFF".to_string())
    );
}

#[test]
fn hex_android_ordering() {
    // Eight android digits are read alpha-first and re-emitted alpha-first,
    // so the hex form is reproduced; the channels move, as to_rgb shows.
    assert_eq!(
        Color::new("#11223344", false, true, false).to_hex(),
        Ok("11223344".to_string())
    );
    assert_eq!(
        Color::new("#11223344", false, false, false).to_hex(),
        Ok("11223344".to_string())
    );
    assert_eq!(
        Color::new("#11223344", false, true, false).to_rgb(),
        Ok("rgba(34,51,68,17)".to_string())
    );
    assert_eq!(
        Color::new("#11223344", false, false, false).to_rgb(),
        Ok("rgba(17,34,51,68)".to_string())
    );
    // On a four-digit shorthand the alpha pair swaps ends.
    assert_eq!(
        Color::new("#abcd", false, true, false).to_hex(),
        Ok("ddaabbcc".to_string())
    );
    assert_eq!(
        Color::new("#abcd", false, false, false).to_hex(),
        Ok("aabbccdd".to_string())
    );
    // A synthesized alpha obeys the same ordering.
    assert_eq!(
        Color::new("#abc", false, true, true).to_hex(),
        Ok("ffaabbcc".to_string())
    );
}

#[test]
fn hex_invalid_digit_count() {
    assert_eq!(Color::init("#12345").to_hex(), Err(Error::Format));
    assert_eq!(Color::init("#12345").to_rgb(), Err(Error::Format));
    assert_eq!(Color::init("#").to_hex(), Err(Error::Format));
    assert_eq!(Color::init("").to_hex(), Err(Error::Format));
    assert_eq!(Color::init("#1122334455").to_hex(), Err(Error::Format));
}

#[test]
fn hex_invalid_characters() {
    assert_eq!(Color::init("#zzz").to_hex(), Err(Error::Format));
    assert_eq!(Color::init("#12g4").to_rgb(), Err(Error::Format));
    assert_eq!(Color::init("##ff").to_hex(), Err(Error::Format));
}

#[test]
fn non_hex_source_not_match() {
    assert_eq!(Color::init("rgb(1,2,3)").to_hex(), Err(Error::NotMatch));
    assert_eq!(Color::init("rgb(1,2,3)").to_rgb(), Err(Error::NotMatch));
    assert_eq!(Color::init("hsl(1,2,3)").to_hex(), Err(Error::NotMatch));
    assert_eq!(Color::init("cmyk(0,0,0,0)").to_rgb(), Err(Error::NotMatch));
}

#[test]
fn rgb_output_alpha_flag() {
    assert_eq!(Color::init("#336699").to_rgb(), Ok("rgb(51,102,153)".to_string()));
    assert_eq!(
        Color::new("#336699", false, false, true).to_rgb(),
        Ok("rgba(51,102,153,255)".to_string())
    );
    assert_eq!(Color::init("#fff").to_rgb(), Ok("rgb(255,255,255)".to_string()));
    assert_eq!(Color::init("#000").to_rgb(), Ok("rgb(0,0,0)".to_string()));
}

#[test]
fn fluent_setters() {
    let mut c = Color::init("#fff");
    c.upper(true);
    c.alpha(true);
    assert_eq!(c.to_hex(), Ok("FFFFFFFF".to_string()));
    let mut d = Color::init("#abcd");
    d.android(true);
    assert_eq!(d.to_hex(), Ok("ddaabbcc".to_string()));
}

#[test]
fn convert_dispatch() {
    assert_eq!(convert("#fff", "hex"), Ok("ffffff".to_string()));
    assert_eq!(convert("#fff", "rgb"), Ok("rgb(255,255,255)".to_string()));
    assert_eq!(convert("rgb(0,0,0)", "hex"), Err(Error::NotMatch));
    assert_eq!(convert("#fff", "hsv"), Err(Error::NotMatch));
    assert_eq!(convert("#12345", "hex"), Err(Error::Format));
    assert_eq!(convert("#12345", "rgb"), Err(Error::Format));
}

#[test]
fn parse_channel_values() {
    assert_eq!(
        parse_hex("#abc", false),
        Ok(Channels { r: 0xaa, g: 0xbb, b: 0xcc, a: None })
    );
    assert_eq!(
        parse_hex("11223344", false),
        Ok(Channels { r: 0x11, g: 0x22, b: 0x33, a: Some(0x44) })
    );
    assert_eq!(
        parse_hex("11223344", true),
        Ok(Channels { a: Some(0x11), r: 0x22, g: 0x33, b: 0x44 })
    );
    assert_eq!(parse_hex("#12345", false), Err(Error::Format));
}

#[test]
fn error_texts() {
    assert_eq!(Error::Format.message(), "Format Error");
    assert_eq!(Error::NotMatch.message(), "NotMatch Color");
    assert_eq!(Error::Format.description(), "[color-convert] Color value is illegal.");
    assert_eq!(Error::NotMatch.description(), "[color-convert] No match color value.");
}
