//! Colour themes.

use crate::text::{same_ascii_lower, same_text};
use vstd::prelude::*;

verus! {

/// A colour.
#[derive(Clone, Copy, Debug, PartialEq, Eq, Structural)]
pub struct Rgb {
    pub r: u8,
    pub g: u8,
    pub b: u8,
}

/// The themes of the chart window.
#[derive(Clone, Copy, Debug, PartialEq, Eq, Structural)]
pub enum ThemeKind {
    Dark,
    Light,
    Ocean,
    Fire,
    Matrix,
}

/// The themes of the panel window.
#[derive(Clone, Copy, Debug, PartialEq, Eq, Structural)]
pub enum ThemeId {
    Dark,
    Light,
    Ocean,
    Fire,
    Matrix,
}

/// The themes that a script can choose.
#[derive(Clone, Copy, Debug, PartialEq, Eq, Structural)]
pub enum ThemeChoice {
    Dark,
    Light,
    Ocean,
    Matrix,
    Pastel,
}

/// The themes of the script-driven window.
#[derive(Clone, Copy, Debug, PartialEq, Eq, Structural)]
pub enum UiTheme {
    Classic,
    Dark,
    Neon,
    HighContrast,
    Pastel,
}

/// The colours of the chart window.
#[derive(Clone, Copy, Debug, PartialEq, Eq, Structural)]
pub struct Theme {
    pub bg: Rgb,
    pub text: Rgb,
    pub candle_up: Rgb,
    pub candle_down: Rgb,
    pub volume: Rgb,
    pub bid_line: Rgb,
    pub ask_line: Rgb,
}

/// The colours of the panel window.
#[derive(Clone, Copy, Debug, PartialEq, Eq, Structural)]
pub struct PanelTheme {
    pub bg: Rgb,
    pub panel_bg: Rgb,
    pub text: Rgb,
    pub bull: Rgb,
    pub bear: Rgb,
    pub volume: Rgb,
    pub depth_bid: Rgb,
    pub depth_ask: Rgb,
}

/// The colours of rising and falling candles and of volume.
#[derive(Clone, Copy, Debug, PartialEq, Eq, Structural)]
pub struct AppearanceSettings {
    pub bull_color: Rgb,
    pub bear_color: Rgb,
    pub volume_color: Rgb,
}

impl Default for AppearanceSettings {
    fn default() -> (r: Self)
        ensures
            r.bull_color == (Rgb { r: 0, g: 200, b: 0 }),
            r.bear_color == (Rgb { r: 220, g: 50, b: 50 }),
            r.volume_color == (Rgb { r: 120, g: 170, b: 240 }),
    {
        AppearanceSettings {
            bull_color: Rgb { r: 0, g: 200, b: 0 },
            bear_color: Rgb { r: 220, g: 50, b: 50 },
            volume_color: Rgb { r: 120, g: 170, b: 240 },
        }
    }
}

impl ThemeKind {
    pub open spec fn label_text(self) -> Seq<char> {
        match self {
            ThemeKind::Dark => "Dark"@,
            ThemeKind::Light => "Light"@,
            ThemeKind::Ocean => "Ocean"@,
            ThemeKind::Fire => "Fire"@,
            ThemeKind::Matrix => "Matrix"@,
        }
    }

    pub fn label(self) -> (r: &'static str)
        ensures
            r@ == self.label_text(),
    {
        match self {
            ThemeKind::Dark => "Dark",
            ThemeKind::Light => "Light",
            ThemeKind::Ocean => "Ocean",
            ThemeKind::Fire => "Fire",
            ThemeKind::Matrix => "Matrix",
        }
    }
}

impl ThemeChoice {
    pub open spec fn label_text(self) -> Seq<char> {
        match self {
            ThemeChoice::Dark => "Dark"@,
            ThemeChoice::Light => "Light"@,
            ThemeChoice::Ocean => "Ocean"@,
            ThemeChoice::Matrix => "Matrix"@,
            ThemeChoice::Pastel => "Pastel"@,
        }
    }

    pub fn label(self) -> (r: &'static str)
        ensures
            r@ == self.label_text(),
    {
        match self {
            ThemeChoice::Dark => "Dark",
            ThemeChoice::Light => "Light",
            ThemeChoice::Ocean => "Ocean",
            ThemeChoice::Matrix => "Matrix",
            ThemeChoice::Pastel => "Pastel",
        }
    }

    /// The theme of this name, whatever the case of its ASCII letters.
    pub open spec fn named(s: Seq<char>) -> Option<ThemeChoice> {
        let l = s.map_values(|c: char| crate::text::ascii_lower(c));
        if l == "dark"@ {
            Some(ThemeChoice::Dark)
        } else if l == "light"@ {
            Some(ThemeChoice::Light)
        } else if l == "ocean"@ {
            Some(ThemeChoice::Ocean)
        } else if l == "matrix"@ {
            Some(ThemeChoice::Matrix)
        } else if l == "pastel"@ {
            Some(ThemeChoice::Pastel)
        } else {
            None
        }
    }

    pub fn from_str(s: &str) -> (r: Result<Self, ()>)
        ensures
            r == (match ThemeChoice::named(s@) {
                Some(t) => Ok::<ThemeChoice, ()>(t),
                None => Err(()),
            }),
    {
        if same_ascii_lower(s, "dark") {
            Ok(ThemeChoice::Dark)
        } else if same_ascii_lower(s, "light") {
            Ok(ThemeChoice::Light)
        } else if same_ascii_lower(s, "ocean") {
            Ok(ThemeChoice::Ocean)
        } else if same_ascii_lower(s, "matrix") {
            Ok(ThemeChoice::Matrix)
        } else if same_ascii_lower(s, "pastel") {
            Ok(ThemeChoice::Pastel)
        } else {
            Err(())
        }
    }
}

impl UiTheme {
    pub open spec fn name_text(self) -> Seq<char> {
        match self {
            UiTheme::Classic => "classic"@,
            UiTheme::Dark => "dark"@,
            UiTheme::Neon => "neon"@,
            UiTheme::HighContrast => "high_contrast"@,
            UiTheme::Pastel => "pastel"@,
        }
    }

    pub fn name(&self) -> (r: &'static str)
        ensures
            r@ == self.name_text(),
    {
        match self {
            UiTheme::Classic => "classic",
            UiTheme::Dark => "dark",
            UiTheme::Neon => "neon",
            UiTheme::HighContrast => "high_contrast",
            UiTheme::Pastel => "pastel",
        }
    }

    /// The theme of this name; every other name is the classic theme.
    pub open spec fn named(s: Seq<char>) -> UiTheme {
        if s == "dark"@ {
            UiTheme::Dark
        } else if s == "neon"@ {
            UiTheme::Neon
        } else if s == "high_contrast"@ {
            UiTheme::HighContrast
        } else if s == "pastel"@ {
            UiTheme::Pastel
        } else {
            UiTheme::Classic
        }
    }

    pub fn from_name(name: &str) -> (r: Self)
        ensures
            r == UiTheme::named(name@),
    {
        if same_text(name, "dark") {
            UiTheme::Dark
        } else if same_text(name, "neon") {
            UiTheme::Neon
        } else if same_text(name, "high_contrast") {
            UiTheme::HighContrast
        } else if same_text(name, "pastel") {
            UiTheme::Pastel
        } else {
            UiTheme::Classic
        }
    }
}

impl Theme {
    pub open spec fn of_kind(kind: ThemeKind) -> Theme {
        match kind {
            ThemeKind::Dark => Theme {
                bg: Rgb { r: 15, g: 15, b: 20 },
                text: Rgb { r: 230, g: 230, b: 240 },
                candle_up: Rgb { r: 80, g: 200, b: 120 },
                candle_down: Rgb { r: 240, g: 80, b: 80 },
                volume: Rgb { r: 120, g: 170, b: 240 },
                bid_line: Rgb { r: 80, g: 200, b: 120 },
                ask_line: Rgb { r: 240, g: 120, b: 80 },
            },
            ThemeKind::Light => Theme {
                bg: Rgb { r: 245, g: 245, b: 250 },
                text: Rgb { r: 20, g: 20, b: 40 },
                candle_up: Rgb { r: 0, g: 150, b: 0 },
                candle_down: Rgb { r: 200, g: 40, b: 40 },
                volume: Rgb { r: 60, g: 110, b: 200 },
                bid_line: Rgb { r: 0, g: 140, b: 0 },
                ask_line: Rgb { r: 180, g: 70, b: 40 },
            },
            ThemeKind::Ocean => Theme {
                bg: Rgb { r: 5, g: 18, b: 30 },
                text: Rgb { r: 210, g: 230, b: 250 },
                candle_up: Rgb { r: 60, g: 200, b: 200 },
                candle_down: Rgb { r: 250, g: 120, b: 100 },
                volume: Rgb { r: 90, g: 150, b: 240 },
                bid_line: Rgb { r: 70, g: 200, b: 170 },
                ask_line: Rgb { r: 240, g: 110, b: 150 },
            },
            ThemeKind::Fire => Theme {
                bg: Rgb { r: 20, g: 6, b: 6 },
                text: Rgb { r: 255, g: 230, b: 210 },
                candle_up: Rgb { r: 240, g: 200, b: 40 },
                candle_down: Rgb { r: 255, g: 80, b: 60 },
                volume: Rgb { r: 220, g: 120, b: 60 },
                bid_line: Rgb { r: 255, g: 200, b: 80 },
                ask_line: Rgb { r: 255, g: 120, b: 90 },
            },
            ThemeKind::Matrix => Theme {
                bg: Rgb { r: 2, g: 8, b: 2 },
                text: Rgb { r: 150, g: 255, b: 150 },
                candle_up: Rgb { r: 0, g: 255, b: 120 },
                candle_down: Rgb { r: 0, g: 180, b: 80 },
                volume: Rgb { r: 0, g: 200, b: 200 },
                bid_line: Rgb { r: 0, g: 255, b: 0 },
                ask_line: Rgb { r: 0, g: 200, b: 200 },
            },
        }
    }

    pub fn from_kind(kind: ThemeKind) -> (r: Self)
        ensures
            r == Theme::of_kind(kind),
    {
        match kind {
            ThemeKind::Dark => Theme {
                bg: Rgb { r: 15, g: 15, b: 20 },
                text: Rgb { r: 230, g: 230, b: 240 },
                candle_up: Rgb { r: 80, g: 200, b: 120 },
                candle_down: Rgb { r: 240, g: 80, b: 80 },
                volume: Rgb { r: 120, g: 170, b: 240 },
                bid_line: Rgb { r: 80, g: 200, b: 120 },
                ask_line: Rgb { r: 240, g: 120, b: 80 },
            },
            ThemeKind::Light => Theme {
                bg: Rgb { r: 245, g: 245, b: 250 },
                text: Rgb { r: 20, g: 20, b: 40 },
                candle_up: Rgb { r: 0, g: 150, b: 0 },
                candle_down: Rgb { r: 200, g: 40, b: 40 },
                volume: Rgb { r: 60, g: 110, b: 200 },
                bid_line: Rgb { r: 0, g: 140, b: 0 },
                ask_line: Rgb { r: 180, g: 70, b: 40 },
            },
            ThemeKind::Ocean => Theme {
                bg: Rgb { r: 5, g: 18, b: 30 },
                text: Rgb { r: 210, g: 230, b: 250 },
                candle_up: Rgb { r: 60, g: 200, b: 200 },
                candle_down: Rgb { r: 250, g: 120, b: 100 },
                volume: Rgb { r: 90, g: 150, b: 240 },
                bid_line: Rgb { r: 70, g: 200, b: 170 },
                ask_line: Rgb { r: 240, g: 110, b: 150 },
            },
            ThemeKind::Fire => Theme {
                bg: Rgb { r: 20, g: 6, b: 6 },
                text: Rgb { r: 255, g: 230, b: 210 },
                candle_up: Rgb { r: 240, g: 200, b: 40 },
                candle_down: Rgb { r: 255, g: 80, b: 60 },
                volume: Rgb { r: 220, g: 120, b: 60 },
                bid_line: Rgb { r: 255, g: 200, b: 80 },
                ask_line: Rgb { r: 255, g: 120, b: 90 },
            },
            ThemeKind::Matrix => Theme {
                bg: Rgb { r: 2, g: 8, b: 2 },
                text: Rgb { r: 150, g: 255, b: 150 },
                candle_up: Rgb { r: 0, g: 255, b: 120 },
                candle_down: Rgb { r: 0, g: 180, b: 80 },
                volume: Rgb { r: 0, g: 200, b: 200 },
                bid_line: Rgb { r: 0, g: 255, b: 0 },
                ask_line: Rgb { r: 0, g: 200, b: 200 },
            },
        }
    }
}

pub open spec fn theme_of_id(id: ThemeId) -> PanelTheme {
    match id {
        ThemeId::Dark => PanelTheme {
            bg: Rgb { r: 10, g: 10, b: 10 },
            panel_bg: Rgb { r: 18, g: 18, b: 18 },
            text: Rgb { r: 230, g: 230, b: 230 },
            bull: Rgb { r: 80, g: 200, b: 120 },
            bear: Rgb { r: 240, g: 80, b: 80 },
            volume: Rgb { r: 120, g: 170, b: 240 },
            depth_bid: Rgb { r: 100, g: 220, b: 150 },
            depth_ask: Rgb { r: 250, g: 120, b: 140 },
        },
        ThemeId::Light => PanelTheme {
            bg: Rgb { r: 250, g: 250, b: 250 },
            panel_bg: Rgb { r: 240, g: 240, b: 240 },
            text: Rgb { r: 20, g: 20, b: 20 },
            bull: Rgb { r: 20, g: 150, b: 70 },
            bear: Rgb { r: 180, g: 40, b: 40 },
            volume: Rgb { r: 70, g: 120, b: 200 },
            depth_bid: Rgb { r: 40, g: 170, b: 90 },
            depth_ask: Rgb { r: 200, g: 60, b: 80 },
        },
        ThemeId::Ocean => PanelTheme {
            bg: Rgb { r: 5, g: 18, b: 30 },
            panel_bg: Rgb { r: 8, g: 25, b: 45 },
            text: Rgb { r: 210, g: 230, b: 255 },
            bull: Rgb { r: 80, g: 210, b: 200 },
            bear: Rgb { r: 255, g: 140, b: 130 },
            volume: Rgb { r: 80, g: 180, b: 255 },
            depth_bid: Rgb { r: 70, g: 220, b: 190 },
            depth_ask: Rgb { r: 250, g: 130, b: 180 },
        },
        ThemeId::Fire => PanelTheme {
            bg: Rgb { r: 20, g: 8, b: 8 },
            panel_bg: Rgb { r: 30, g: 10, b: 10 },
            text: Rgb { r: 255, g: 230, b: 210 },
            bull: Rgb { r: 250, g: 180, b: 90 },
            bear: Rgb { r: 255, g: 80, b: 80 },
            volume: Rgb { r: 230, g: 120, b: 80 },
            depth_bid: Rgb { r: 240, g: 170, b: 70 },
            depth_ask: Rgb { r: 255, g: 90, b: 110 },
        },
        ThemeId::Matrix => PanelTheme {
            bg: Rgb { r: 0, g: 5, b: 0 },
            panel_bg: Rgb { r: 3, g: 15, b: 3 },
            text: Rgb { r: 140, g: 255, b: 140 },
            bull: Rgb { r: 120, g: 255, b: 120 },
            bear: Rgb { r: 255, g: 120, b: 120 },
            volume: Rgb { r: 120, g: 255, b: 180 },
            depth_bid: Rgb { r: 80, g: 255, b: 120 },
            depth_ask: Rgb { r: 255, g: 160, b: 160 },
        },
    }
}

/// The colours of a panel theme.
pub fn theme_from_id(id: ThemeId) -> (r: PanelTheme)
    ensures
        r == theme_of_id(id),
{
    match id {
        ThemeId::Dark => PanelTheme {
            bg: Rgb { r: 10, g: 10, b: 10 },
            panel_bg: Rgb { r: 18, g: 18, b: 18 },
            text: Rgb { r: 230, g: 230, b: 230 },
            bull: Rgb { r: 80, g: 200, b: 120 },
            bear: Rgb { r: 240, g: 80, b: 80 },
            volume: Rgb { r: 120, g: 170, b: 240 },
            depth_bid: Rgb { r: 100, g: 220, b: 150 },
            depth_ask: Rgb { r: 250, g: 120, b: 140 },
        },
        ThemeId::Light => PanelTheme {
            bg: Rgb { r: 250, g: 250, b: 250 },
            panel_bg: Rgb { r: 240, g: 240, b: 240 },
            text: Rgb { r: 20, g: 20, b: 20 },
            bull: Rgb { r: 20, g: 150, b: 70 },
            bear: Rgb { r: 180, g: 40, b: 40 },
            volume: Rgb { r: 70, g: 120, b: 200 },
            depth_bid: Rgb { r: 40, g: 170, b: 90 },
            depth_ask: Rgb { r: 200, g: 60, b: 80 },
        },
        ThemeId::Ocean => PanelTheme {
            bg: Rgb { r: 5, g: 18, b: 30 },
            panel_bg: Rgb { r: 8, g: 25, b: 45 },
            text: Rgb { r: 210, g: 230, b: 255 },
            bull: Rgb { r: 80, g: 210, b: 200 },
            bear: Rgb { r: 255, g: 140, b: 130 },
            volume: Rgb { r: 80, g: 180, b: 255 },
            depth_bid: Rgb { r: 70, g: 220, b: 190 },
            depth_ask: Rgb { r: 250, g: 130, b: 180 },
        },
        ThemeId::Fire => PanelTheme {
            bg: Rgb { r: 20, g: 8, b: 8 },
            panel_bg: Rgb { r: 30, g: 10, b: 10 },
            text: Rgb { r: 255, g: 230, b: 210 },
            bull: Rgb { r: 250, g: 180, b: 90 },
            bear: Rgb { r: 255, g: 80, b: 80 },
            volume: Rgb { r: 230, g: 120, b: 80 },
            depth_bid: Rgb { r: 240, g: 170, b: 70 },
            depth_ask: Rgb { r: 255, g: 90, b: 110 },
        },
        ThemeId::Matrix => PanelTheme {
            bg: Rgb { r: 0, g: 5, b: 0 },
            panel_bg: Rgb { r: 3, g: 15, b: 3 },
            text: Rgb { r: 140, g: 255, b: 140 },
            bull: Rgb { r: 120, g: 255, b: 120 },
            bear: Rgb { r: 255, g: 120, b: 120 },
            volume: Rgb { r: 120, g: 255, b: 180 },
            depth_bid: Rgb { r: 80, g: 255, b: 120 },
            depth_ask: Rgb { r: 255, g: 160, b: 160 },
        },
    }
}

pub open spec fn choice_colors(theme: ThemeChoice) -> (Rgb, Rgb, Rgb) {
    match theme {
        ThemeChoice::Dark => (
            Rgb { r: 150, g: 220, b: 150 },
            Rgb { r: 220, g: 120, b: 120 },
            Rgb { r: 120, g: 170, b: 240 },
        ),
        ThemeChoice::Light => (
            Rgb { r: 0, g: 140, b: 0 },
            Rgb { r: 180, g: 0, b: 0 },
            Rgb { r: 50, g: 90, b: 180 },
        ),
        ThemeChoice::Ocean => (
            Rgb { r: 80, g: 200, b: 180 },
            Rgb { r: 40, g: 100, b: 180 },
            Rgb { r: 40, g: 160, b: 220 },
        ),
        ThemeChoice::Matrix => (
            Rgb { r: 0, g: 255, b: 0 },
            Rgb { r: 0, g: 120, b: 0 },
            Rgb { r: 0, g: 200, b: 120 },
        ),
        ThemeChoice::Pastel => (
            Rgb { r: 200, g: 160, b: 220 },
            Rgb { r: 240, g: 140, b: 160 },
            Rgb { r: 200, g: 200, b: 120 },
        ),
    }
}

/// The colours of rising candles, falling candles and volume.
pub fn theme_colors(theme: ThemeChoice) -> (r: (Rgb, Rgb, Rgb))
    ensures
        r == choice_colors(theme),
{
    match theme {
        ThemeChoice::Dark => (
            Rgb { r: 150, g: 220, b: 150 },
            Rgb { r: 220, g: 120, b: 120 },
            Rgb { r: 120, g: 170, b: 240 },
        ),
        ThemeChoice::Light => (
            Rgb { r: 0, g: 140, b: 0 },
            Rgb { r: 180, g: 0, b: 0 },
            Rgb { r: 50, g: 90, b: 180 },
        ),
        ThemeChoice::Ocean => (
            Rgb { r: 80, g: 200, b: 180 },
            Rgb { r: 40, g: 100, b: 180 },
            Rgb { r: 40, g: 160, b: 220 },
        ),
        ThemeChoice::Matrix => (
            Rgb { r: 0, g: 255, b: 0 },
            Rgb { r: 0, g: 120, b: 0 },
            Rgb { r: 0, g: 200, b: 120 },
        ),
        ThemeChoice::Pastel => (
            Rgb { r: 200, g: 160, b: 220 },
            Rgb { r: 240, g: 140, b: 160 },
            Rgb { r: 200, g: 200, b: 120 },
        ),
    }
}

// ---------------------------------------------------------------------------
// Laws

/// A theme reads back from its own name.
pub proof fn law_ui_theme_reads_back(t: UiTheme)
    ensures
        UiTheme::named(t.name_text()) == t,
{
    reveal_strlit("classic");
    reveal_strlit("dark");
    reveal_strlit("neon");
    reveal_strlit("high_contrast");
    reveal_strlit("pastel");
    assert("dark"@[0] != "neon"@[0]);
    assert("classic"@.len() == 7 && "dark"@.len() == 4 && "neon"@.len() == 4);
    assert("high_contrast"@.len() == 13 && "pastel"@.len() == 6);
}

/// A theme that a script can choose reads back from its label.
pub proof fn law_theme_choice_reads_back(t: ThemeChoice)
    ensures
        ThemeChoice::named(t.label_text()) == Some(t),
{
    reveal_strlit("Dark");
    reveal_strlit("dark");
    reveal_strlit("Light");
    reveal_strlit("light");
    reveal_strlit("Ocean");
    reveal_strlit("ocean");
    reveal_strlit("Matrix");
    reveal_strlit("matrix");
    reveal_strlit("Pastel");
    reveal_strlit("pastel");
    let l = t.label_text().map_values(|c: char| crate::text::ascii_lower(c));
    match t {
        ThemeChoice::Dark => {
            assert(l =~= "dark"@);
        },
        ThemeChoice::Light => {
            assert(l =~= "light"@);
        },
        ThemeChoice::Ocean => {
            assert(l =~= "ocean"@);
        },
        ThemeChoice::Matrix => {
            assert(l =~= "matrix"@);
        },
        ThemeChoice::Pastel => {
            assert(l =~= "pastel"@);
        },
    }
    assert("light"@[0] != "ocean"@[0]);
    assert("matrix"@[0] != "pastel"@[0]);
}

/// In every theme rising candles are greener than falling ones, bids greener than asks, and
/// text stands out from its background.
pub proof fn law_rising_is_greener(kind: ThemeKind, id: ThemeId, choice: ThemeChoice)
    ensures
        Theme::of_kind(kind).candle_up.g > Theme::of_kind(kind).candle_down.g,
        Theme::of_kind(kind).bid_line.g > Theme::of_kind(kind).ask_line.g,
        Theme::of_kind(kind).text != Theme::of_kind(kind).bg,
        theme_of_id(id).bull.g > theme_of_id(id).bear.g,
        theme_of_id(id).depth_bid.g > theme_of_id(id).depth_ask.g,
        theme_of_id(id).text != theme_of_id(id).bg,
        theme_of_id(id).text != theme_of_id(id).panel_bg,
        choice_colors(choice).0.g > choice_colors(choice).1.g,
{
}

} // verus!
