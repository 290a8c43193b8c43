use vstd::prelude::*;
use vstd::string::StrSliceExecFns;

verus! {

/// A colour as four 8-bit channels.
#[derive(Clone, Copy, Debug, PartialEq, Eq, Structural)]
pub struct Rgba {
    pub r: u8,
    pub g: u8,
    pub b: u8,
    pub a: u8,
}

/// Why a colour string was not read, in the terms of integer parsing.
#[derive(Clone, Copy, Debug, PartialEq, Eq, Structural)]
pub enum ColorError {
    /// There were no digits at all.
    Empty,
    /// A character is not a hexadecimal digit (or a lone sign).
    InvalidDigit,
    /// The number does not fit in 32 bits.
    Overflow,
}

/// The value of a hexadecimal digit of either case.
pub open spec fn hex_digit_value(c: char) -> Option<nat> {
    let u = c as u32;
    if 0x30 <= u <= 0x39 {
        Some((u - 0x30) as nat)
    } else if 0x61 <= u <= 0x66 {
        Some((u - 0x61 + 10) as nat)
    } else if 0x41 <= u <= 0x46 {
        Some((u - 0x41 + 10) as nat)
    } else {
        None
    }
}

/// Reads `ds` as hexadecimal digits from left to right, stopping at the
/// first character that is no digit or at the first digit that takes the
/// value past `u32::MAX`.
pub open spec fn scan_hex(ds: Seq<char>) -> Result<nat, ColorError>
    decreases ds.len(),
{
    if ds.len() == 0 {
        Ok(0)
    } else {
        match scan_hex(ds.drop_last()) {
            Err(e) => Err(e),
            Ok(v) => match hex_digit_value(ds.last()) {
                None => Err(ColorError::InvalidDigit),
                Some(d) => if v * 16 + d > u32::MAX {
                    Err(ColorError::Overflow)
                } else {
                    Ok(v * 16 + d)
                },
            },
        }
    }
}

/// An unsigned hexadecimal number with an optional leading `+`.
pub open spec fn parse_hex(s: Seq<char>) -> Result<nat, ColorError> {
    if s.len() == 0 {
        Err(ColorError::Empty)
    } else if s[0] == '+' {
        if s.len() == 1 {
            Err(ColorError::InvalidDigit)
        } else {
            scan_hex(s.drop_first())
        }
    } else {
        scan_hex(s)
    }
}

/// The colour a number stands for: above `0xFFFFFF` it is `RRGGBBAA`,
/// otherwise `RRGGBB` and fully opaque.
pub open spec fn color_of(n: u32) -> Rgba {
    if n > 0xFF_FF_FF {
        Rgba {
            r: ((n >> 24u32) & 0xFFu32) as u8,
            g: ((n >> 16u32) & 0xFFu32) as u8,
            b: ((n >> 8u32) & 0xFFu32) as u8,
            a: (n & 0xFFu32) as u8,
        }
    } else {
        Rgba {
            r: ((n >> 16u32) & 0xFFu32) as u8,
            g: ((n >> 8u32) & 0xFFu32) as u8,
            b: (n & 0xFFu32) as u8,
            a: 255,
        }
    }
}

/// The colour written as `#` (any one character) followed by a
/// hexadecimal number.
pub open spec fn hex_color(s: Seq<char>) -> Result<Rgba, ColorError> {
    if s.len() == 0 {
        Err(ColorError::Empty)
    } else {
        match parse_hex(s.drop_first()) {
            Ok(n) => Ok(color_of(n as u32)),
            Err(e) => Err(e),
        }
    }
}

fn hex_digit(c: char) -> (r: Option<u32>)
    ensures
        match hex_digit_value(c) {
            Some(d) => r == Some(d as u32),
            None => r is None,
        },
{
    let u: u32 = c as u32;
    if 0x30 <= u && u <= 0x39 {
        Some(u - 0x30)
    } else if 0x61 <= u && u <= 0x66 {
        Some(u - 0x61 + 10)
    } else if 0x41 <= u && u <= 0x46 {
        Some(u - 0x41 + 10)
    } else {
        None
    }
}

/// Reads the hexadecimal digits of `s` from position `start` on.
fn scan_hex_from(s: &str, start: usize) -> (r: Result<u32, ColorError>)
    requires
        start <= s@.len(),
    ensures
        match scan_hex(s@.subrange(start as int, s@.len() as int)) {
            Ok(v) => r == Ok::<u32, ColorError>(v as u32),
            Err(e) => r == Err::<u32, ColorError>(e),
        },
{
    let len: usize = s.unicode_len();
    let ghost ds = s@.subrange(start as int, s@.len() as int);
    let mut acc: u32 = 0;
    let mut i: usize = start;
    while i < len
        invariant
            len == s@.len(),
            start <= i <= len,
            ds == s@.subrange(start as int, s@.len() as int),
            scan_hex(ds.subrange(0, i - start)) == Ok::<nat, ColorError>(acc as nat),
        decreases len - i,
    {
        let ghost prefix = ds.subrange(0, i - start + 1);
        assert(prefix.drop_last() =~= ds.subrange(0, i - start));
        assert(prefix.last() == s@[i as int]);
        let c = s.get_char(i);
        match hex_digit(c) {
            None => {
                proof {
                    lemma_scan_error_persists(ds, (i - start + 1) as nat);
                }
                return Err(ColorError::InvalidDigit);
            },
            Some(d) => {
                let next: u64 = acc as u64 * 16 + d as u64;
                if next > 0xFFFF_FFFF {
                    proof {
                        lemma_scan_error_persists(ds, (i - start + 1) as nat);
                    }
                    return Err(ColorError::Overflow);
                }
                acc = next as u32;
            },
        }
        i = i + 1;
    }
    assert(ds.subrange(0, i - start) =~= ds);
    Ok(acc)
}

/// Once a prefix fails to read, every longer prefix fails the same way.
proof fn lemma_scan_error_persists(ds: Seq<char>, k: nat)
    requires
        k <= ds.len(),
        scan_hex(ds.subrange(0, k as int)) is Err,
    ensures
        scan_hex(ds) == scan_hex(ds.subrange(0, k as int)),
    decreases ds.len() - k,
{
    if k < ds.len() {
        let longer = ds.subrange(0, k + 1 as int);
        assert(longer.drop_last() =~= ds.subrange(0, k as int));
        lemma_scan_error_persists(ds, k + 1);
    } else {
        assert(ds.subrange(0, k as int) =~= ds);
    }
}

/// Reads a colour written `#RRGGBB` or `#RRGGBBAA`: the first character is
/// skipped and the rest read as a hexadecimal number, as `u32::from_str_radix`
/// reads it.
pub fn hex_to_color(hex_str: &str) -> (r: Result<Rgba, ColorError>)
    ensures
        r == hex_color(hex_str@),
{
    let len: usize = hex_str.unicode_len();
    if len == 0 {
        return Err(ColorError::Empty);
    }
    let ghost digits = hex_str@.drop_first();
    let mut start: usize = 1;
    if len == 1 {
        return Err(ColorError::Empty);
    }
    if hex_str.get_char(1) == '+' {
        if len == 2 {
            return Err(ColorError::InvalidDigit);
        }
        start = 2;
        assert(hex_str@.subrange(2, len as int) =~= digits.drop_first());
    } else {
        assert(hex_str@.subrange(1, len as int) =~= digits);
    }
    let n: u32 = match scan_hex_from(hex_str, start) {
        Ok(n) => n,
        Err(e) => return Err(e),
    };
    if n > 0xFF_FF_FF {
        Ok(Rgba {
            r: (n >> 24u32 & 0xFFu32) as u8,
            g: (n >> 16u32 & 0xFFu32) as u8,
            b: (n >> 8u32 & 0xFFu32) as u8,
            a: (n & 0xFFu32) as u8,
        })
    } else {
        Ok(Rgba {
            r: (n >> 16u32 & 0xFFu32) as u8,
            g: (n >> 8u32 & 0xFFu32) as u8,
            b: (n & 0xFFu32) as u8,
            a: 255,
        })
    }
}

/// The colour settings as written: four colour strings.
#[derive(Clone, Debug)]
pub struct RawColors {
    pub background_color: String,
    pub foreground_color: String,
    pub player_color: String,
    pub player_outline_color: String,
}

/// The settings as written.
#[derive(Clone, Debug)]
pub struct RawSettings {
    pub colors: RawColors,
}

/// The colours the game draws with.
#[derive(Clone, Copy, Debug, PartialEq, Eq, Structural)]
pub struct Colors {
    pub background_color: Rgba,
    pub foreground_color: Rgba,
    pub player_color: Rgba,
    pub player_outline_color: Rgba,
}

/// The game's settings, read and checked.
#[derive(Clone, Copy, Debug, PartialEq, Eq, Structural)]
pub struct Settings {
    pub colors: Colors,
}

/// The settings that `raw` describes: each colour read in turn (background,
/// foreground, player, player outline), the first error ending the reading.
pub open spec fn settings_of(raw: RawSettings) -> Result<Settings, ColorError> {
    match hex_color(raw.colors.background_color@) {
        Err(e) => Err(e),
        Ok(background_color) => match hex_color(raw.colors.foreground_color@) {
            Err(e) => Err(e),
            Ok(foreground_color) => match hex_color(raw.colors.player_color@) {
                Err(e) => Err(e),
                Ok(player_color) => match hex_color(raw.colors.player_outline_color@) {
                    Err(e) => Err(e),
                    Ok(player_outline_color) => Ok(
                        Settings {
                            colors: Colors {
                                background_color,
                                foreground_color,
                                player_color,
                                player_outline_color,
                            },
                        },
                    ),
                },
            },
        },
    }
}

impl Settings {
    /// Reads the colours of `raw`.
    pub fn unraw(raw: &RawSettings) -> (r: Result<Settings, ColorError>)
        ensures
            r == settings_of(*raw),
    {
        let background_color = match hex_to_color(raw.colors.background_color.as_str()) {
            Ok(c) => c,
            Err(e) => return Err(e),
        };
        let foreground_color = match hex_to_color(raw.colors.foreground_color.as_str()) {
            Ok(c) => c,
            Err(e) => return Err(e),
        };
        let player_color = match hex_to_color(raw.colors.player_color.as_str()) {
            Ok(c) => c,
            Err(e) => return Err(e),
        };
        let player_outline_color = match hex_to_color(raw.colors.player_outline_color.as_str()) {
            Ok(c) => c,
            Err(e) => return Err(e),
        };
        Ok(Settings {
            colors: Colors {
                background_color,
                foreground_color,
                player_color,
                player_outline_color,
            },
        })
    }
}

} // verus!
