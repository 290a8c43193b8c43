use ahistorics::settings::{hex_to_color, ColorError, RawColors, RawSettings, Rgba, Settings};

fn rgba(r: u8, g: u8, b: u8, a: u8) -> Rgba {
    Rgba { r, g, b, a }
}

#[test]
fn six_digit_colours_are_opaque() {
    assert_eq!(hex_to_color("#ff8000"), Ok(rgba(255, 128, 0, 255)));
    assert_eq!(hex_to_color("#000000"), Ok(rgba(0, 0, 0, 255)));
    assert_eq!(hex_to_color("#1A2b3C"), Ok(rgba(0x1a, 0x2b, 0x3c, 255)));
}

#[test]
fn eight_digit_colours_carry_alpha() {
    assert_eq!(hex_to_color("#11223344"), Ok(rgba(0x11, 0x22, 0x33, 0x44)));
    assert_eq!(hex_to_color("#ffffffff"), Ok(rgba(255, 255, 255, 255)));
    // Just above 0xFFFFFF the first byte is red.
    assert_eq!(hex_to_color("#01000000"), Ok(rgba(1, 0, 0, 0)));
}

#[test]
fn short_numbers_and_sign() {
    assert_eq!(hex_to_color("#ff"), Ok(rgba(0, 0, 255, 255)));
    assert_eq!(hex_to_color("#+ff"), Ok(rgba(0, 0, 255, 255)));
    assert_eq!(hex_to_color("x10"), Ok(rgba(0, 0, 16, 255)));
}

#[test]
fn colour_errors() {
    assert_eq!(hex_to_color(""), Err(ColorError::Empty));
    assert_eq!(hex_to_color("#"), Err(ColorError::Empty));
    assert_eq!(hex_to_color("#+"), Err(ColorError::InvalidDigit));
    assert_eq!(hex_to_color("#-1"), Err(ColorError::InvalidDigit));
    assert_eq!(hex_to_color("#12g4"), Err(ColorError::InvalidDigit));
    assert_eq!(hex_to_color("#1ffffffff"), Err(ColorError::Overflow));
    // Reading stops at the first failure, from the left.
    assert_eq!(hex_to_color("#1ffffffffz"), Err(ColorError::Overflow));
    assert_eq!(hex_to_color("#z1ffffffff"), Err(ColorError::InvalidDigit));
}

fn raw(bg: &str, fg: &str, player: &str, outline: &str) -> RawSettings {
    RawSettings {
        colors: RawColors {
            background_color: bg.to_string(),
            foreground_color: fg.to_string(),
            player_color: player.to_string(),
            player_outline_color: outline.to_string(),
        },
    }
}

#[test]
fn settings_read_all_colours() {
    let s = Settings::unraw(&raw("#000000", "#ffffff", "#ff000080", "#00ff00")).unwrap();
    assert_eq!(s.colors.background_color, rgba(0, 0, 0, 255));
    assert_eq!(s.colors.foreground_color, rgba(255, 255, 255, 255));
    assert_eq!(s.colors.player_color, rgba(255, 0, 0, 128));
    assert_eq!(s.colors.player_outline_color, rgba(0, 255, 0, 255));
}

#[test]
fn settings_report_first_bad_colour() {
    let r = Settings::unraw(&raw("#000000", "#qq", "#", "#ffffff"));
    assert_eq!(r, Err(ColorError::InvalidDigit));
    let r = Settings::unraw(&raw("#000000", "#ffffff", "#", "#zz"));
    assert_eq!(r, Err(ColorError::Empty));
}
