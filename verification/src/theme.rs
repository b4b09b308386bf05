use crate::config::ThemeCfg;
use crate::text::chars_of;
use vstd::prelude::*;

verus! {

/// A 24-bit color.
#[derive(Clone, Copy, Debug, PartialEq, Eq, Structural)]
pub struct Rgb {
    pub r: u8,
    pub g: u8,
    pub b: u8,
}

/// The palette every panel is drawn with (Catppuccin Mocha by default). There is no
/// background color: cells are left to the terminal's own background.
#[derive(Clone, Copy, Debug, PartialEq, Eq, Structural)]
pub struct Theme {
    pub surface: Rgb,
    pub text: Rgb,
    pub muted: Rgb,
    pub accent: Rgb,
    pub green: Rgb,
    pub red: Rgb,
    pub yellow: Rgb,
    pub blue: Rgb,
    pub peach: Rgb,
    /// Habit heatmap intensity ramp, from none to most.
    pub heat0: Rgb,
    pub heat1: Rgb,
    pub heat2: Rgb,
    pub heat3: Rgb,
}

pub open spec fn rgb(r: u8, g: u8, b: u8) -> Rgb {
    Rgb { r, g, b }
}

/// The default palette.
pub open spec fn mocha() -> Theme {
    Theme {
        surface: rgb(49, 50, 68),
        text: rgb(205, 214, 244),
        muted: rgb(127, 132, 156),
        accent: rgb(203, 166, 247),
        green: rgb(166, 227, 161),
        red: rgb(243, 139, 168),
        yellow: rgb(249, 226, 175),
        blue: rgb(137, 180, 250),
        peach: rgb(250, 179, 135),
        heat0: rgb(49, 50, 68),
        heat1: rgb(87, 116, 84),
        heat2: rgb(126, 171, 120),
        heat3: rgb(166, 227, 161),
    }
}

impl Default for Theme {
    fn default() -> (r: Self)
        ensures
            r == mocha(),
    {
        Theme {
            surface: Rgb { r: 49, g: 50, b: 68 },
            text: Rgb { r: 205, g: 214, b: 244 },
            muted: Rgb { r: 127, g: 132, b: 156 },
            accent: Rgb { r: 203, g: 166, b: 247 },
            green: Rgb { r: 166, g: 227, b: 161 },
            red: Rgb { r: 243, g: 139, b: 168 },
            yellow: Rgb { r: 249, g: 226, b: 175 },
            blue: Rgb { r: 137, g: 180, b: 250 },
            peach: Rgb { r: 250, g: 179, b: 135 },
            heat0: Rgb { r: 49, g: 50, b: 68 },
            heat1: Rgb { r: 87, g: 116, b: 84 },
            heat2: Rgb { r: 126, g: 171, b: 120 },
            heat3: Rgb { r: 166, g: 227, b: 161 },
        }
    }
}

/// Value of a hexadecimal digit (either case).
pub open spec fn hex_digit(c: char) -> Option<nat> {
    if '0' <= c && c <= '9' {
        Some((c as int - '0' as int) as nat)
    } else if 'a' <= c && c <= 'f' {
        Some((c as int - 'a' as int + 10) as nat)
    } else if 'A' <= c && c <= 'F' {
        Some((c as int - 'A' as int + 10) as nat)
    } else {
        None
    }
}

/// The byte that two hexadecimal digits write; none unless both are hex digits.
pub open spec fn hex_pair(a: char, b: char) -> Option<nat> {
    match (hex_digit(a), hex_digit(b)) {
        (Some(x), Some(y)) => Some(x * 16 + y),
        _ => None,
    }
}

/// The color that `#rrggbb` writes.
pub open spec fn hex_spec(s: Seq<char>) -> Option<Rgb> {
    if s.len() == 7 && s[0] == '#' {
        match (hex_pair(s[1], s[2]), hex_pair(s[3], s[4]), hex_pair(s[5], s[6])) {
            (Some(r), Some(g), Some(b)) => Some(rgb(r as u8, g as u8, b as u8)),
            _ => None,
        }
    } else {
        None
    }
}

fn hex_digit_of(c: char) -> (r: Option<u8>)
    ensures
        match hex_digit(c) {
            Some(v) => r == Some(v as u8) && v < 16,
            None => r is None,
        },
{
    if '0' <= c && c <= '9' {
        Some((c as u32 - '0' as u32) as u8)
    } else if 'a' <= c && c <= 'f' {
        Some((c as u32 - 'a' as u32 + 10) as u8)
    } else if 'A' <= c && c <= 'F' {
        Some((c as u32 - 'A' as u32 + 10) as u8)
    } else {
        None
    }
}

fn hex_pair_of(a: char, b: char) -> (r: Option<u8>)
    ensures
        match hex_pair(a, b) {
            Some(v) => r == Some(v as u8) && v < 256,
            None => r is None,
        },
{
    match (hex_digit_of(a), hex_digit_of(b)) {
        (Some(x), Some(y)) => Some(x * 16 + y),
        _ => None,
    }
}

/// Reads a `#rrggbb` color.
pub fn hex(s: &str) -> (r: Option<Rgb>)
    ensures
        r == hex_spec(s@),
{
    let v = chars_of(s);
    if v.len() != 7 || v[0] != '#' {
        return None;
    }
    match (hex_pair_of(v[1], v[2]), hex_pair_of(v[3], v[4]), hex_pair_of(v[5], v[6])) {
        (Some(r), Some(g), Some(b)) => Some(Rgb { r, g, b }),
        _ => None,
    }
}

/// The color an optional override gives, or none where it is absent or unreadable.
pub open spec fn override_of(o: Option<String>) -> Option<Rgb> {
    match o {
        Some(s) => hex_spec(s@),
        None => None,
    }
}

pub open spec fn pick(o: Option<String>, fallback: Rgb) -> Rgb {
    match override_of(o) {
        Some(c) => c,
        None => fallback,
    }
}

fn override_color(o: &Option<String>, fallback: Rgb) -> (r: Rgb)
    ensures
        r == pick(*o, fallback),
{
    match o {
        Some(s) => match hex(s.as_str()) {
            Some(c) => c,
            None => fallback,
        },
        None => fallback,
    }
}

/// The default palette with the readable overrides of `cfg` applied.
pub open spec fn theme_of(cfg: ThemeCfg) -> Theme {
    Theme {
        accent: pick(cfg.accent, mocha().accent),
        green: pick(cfg.green, mocha().green),
        red: pick(cfg.red, mocha().red),
        yellow: pick(cfg.yellow, mocha().yellow),
        blue: pick(cfg.blue, mocha().blue),
        peach: pick(cfg.peach, mocha().peach),
        ..mocha()
    }
}

impl Theme {
    /// The default palette with the readable overrides of `cfg` applied.
    pub fn from_cfg(cfg: &ThemeCfg) -> (r: Theme)
        ensures
            r == theme_of(*cfg),
            r == (Theme {
                accent: pick(cfg.accent, mocha().accent),
                green: pick(cfg.green, mocha().green),
                red: pick(cfg.red, mocha().red),
                yellow: pick(cfg.yellow, mocha().yellow),
                blue: pick(cfg.blue, mocha().blue),
                peach: pick(cfg.peach, mocha().peach),
                ..mocha()
            }),
    {
        let mut t = Theme::default();
        t.accent = override_color(&cfg.accent, t.accent);
        t.green = override_color(&cfg.green, t.green);
        t.red = override_color(&cfg.red, t.red);
        t.yellow = override_color(&cfg.yellow, t.yellow);
        t.blue = override_color(&cfg.blue, t.blue);
        t.peach = override_color(&cfg.peach, t.peach);
        t
    }
}

/// A configuration without overrides gives the default palette.
pub proof fn lemma_no_overrides_is_default(cfg: ThemeCfg)
    requires
        cfg.is_empty(),
    ensures
        (Theme {
            accent: pick(cfg.accent, mocha().accent),
            green: pick(cfg.green, mocha().green),
            red: pick(cfg.red, mocha().red),
            yellow: pick(cfg.yellow, mocha().yellow),
            blue: pick(cfg.blue, mocha().blue),
            peach: pick(cfg.peach, mocha().peach),
            ..mocha()
        }) == mocha(),
{
}

} // verus!
