//! From the theme section of the configuration to the palette to show.
//!
//! The palette is a plan, not the toolkit's own structure: it names the base
//! palette and the colours that override it. The host starts from the base
//! palette and applies each override that is present.

use crate::color::{parse_color, spells, Color};
use crate::config::{ThemeConfig, ThemeConfigView};
use crate::text::{lowercase, to_lowercase};
use vstd::prelude::*;

verus! {

/// The palette to show. A colour that is `None` stays as the base palette has
/// it.
#[derive(Clone, Copy, Debug, PartialEq, Eq)]
pub struct Visuals {
    /// Whether the base palette is the dark one.
    pub dark_mode: bool,
    pub window_fill: Option<Color>,
    pub panel_fill: Option<Color>,
    pub extreme_bg_color: Option<Color>,
    pub override_text_color: Option<Color>,
    pub selection_bg_fill: Option<Color>,
    pub active_bg_fill: Option<Color>,
    pub hovered_bg_fill: Option<Color>,
    pub hyperlink_color: Option<Color>,
}

/// `first` if it is there, else `second`.
pub open spec fn or_else(first: Option<Color>, second: Option<Color>) -> Option<Color> {
    if first is Some {
        first
    } else {
        second
    }
}

/// The palette for a base and five optional colours.
///
/// The background fills windows, panels and the extreme background; the panel
/// colour then overrides the panels. The accent colours the selection, active
/// and hovered widgets and links; the link colour then overrides the links.
pub open spec fn compose_spec(
    light: bool,
    background: Option<Color>,
    panel: Option<Color>,
    text: Option<Color>,
    accent: Option<Color>,
    hyperlink: Option<Color>,
) -> Visuals {
    Visuals {
        dark_mode: !light,
        window_fill: background,
        panel_fill: or_else(panel, background),
        extreme_bg_color: background,
        override_text_color: text,
        selection_bg_fill: accent,
        active_bg_fill: accent,
        hovered_bg_fill: accent,
        hyperlink_color: or_else(hyperlink, accent),
    }
}

/// Whether a base names the light palette: it does when its lower-case form
/// is `light`. Every other base means the dark palette.
pub open spec fn is_light_base(base: Seq<char>) -> bool {
    lowercase(base) == "light"@
}

/// Whether `color` is what reading an optional colour string gives.
pub open spec fn spells_optional(text: Option<Seq<char>>, color: Option<Color>) -> bool {
    match text {
        Some(text) => spells(text, color),
        None => color is None,
    }
}

/// Whether `visuals` is a palette for `theme`: composed, for the theme's
/// base, of colours that the theme's five strings spell.
pub open spec fn realises(theme: ThemeConfigView, visuals: Visuals) -> bool {
    exists|
        background: Option<Color>,
        panel: Option<Color>,
        text: Option<Color>,
        accent: Option<Color>,
        hyperlink: Option<Color>,
    |
        {
            &&& spells_optional(theme.background, background)
            &&& spells_optional(theme.panel, panel)
            &&& spells_optional(theme.text, text)
            &&& spells_optional(theme.accent, accent)
            &&& spells_optional(theme.hyperlink, hyperlink)
            &&& visuals == #[trigger] compose_spec(
                is_light_base(theme.base),
                background,
                panel,
                text,
                accent,
                hyperlink,
            )
        }
}

/// Composes the palette for a base and five optional colours.
pub fn compose(
    light: bool,
    background: Option<Color>,
    panel: Option<Color>,
    text: Option<Color>,
    accent: Option<Color>,
    hyperlink: Option<Color>,
) -> (visuals: Visuals)
    ensures
        visuals == compose_spec(light, background, panel, text, accent, hyperlink),
{
    let panel_fill = match panel {
        Some(color) => Some(color),
        None => background,
    };
    let hyperlink_color = match hyperlink {
        Some(color) => Some(color),
        None => accent,
    };
    Visuals {
        dark_mode: !light,
        window_fill: background,
        panel_fill,
        extreme_bg_color: background,
        override_text_color: text,
        selection_bg_fill: accent,
        active_bg_fill: accent,
        hovered_bg_fill: accent,
        hyperlink_color,
    }
}

/// Whether a lower-cased base is `light`.
pub fn names_light(lowered: &str) -> (light: bool)
    ensures
        light == (lowered@ == "light"@),
{
    String::from_str(lowered) == String::from_str("light")
}

/// Whether a base names the light palette.
pub fn is_light(base: &str) -> (light: bool)
    ensures
        light == is_light_base(base@),
{
    let lowered = to_lowercase(base);
    names_light(lowered.as_str())
}

fn parse_optional(text: &Option<String>) -> (color: Option<Color>)
    ensures
        spells_optional(crate::config::option_text(*text), color),
{
    match text {
        Some(text) => parse_color(text.as_str()),
        None => None,
    }
}

impl ThemeConfig {
    /// The palette for this theme. A colour string that spells no colour is
    /// passed over as if it were not there.
    pub fn to_visuals(&self) -> (visuals: Visuals)
        ensures
            realises(self@, visuals),
    {
        let light = is_light(self.base.as_str());
        let background = parse_optional(&self.background);
        let panel = parse_optional(&self.panel);
        let text = parse_optional(&self.text);
        let accent = parse_optional(&self.accent);
        let hyperlink = parse_optional(&self.hyperlink);
        compose(light, background, panel, text, accent, hyperlink)
    }
}

} // verus!
