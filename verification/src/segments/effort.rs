use vstd::prelude::*;

use crate::config::theme::ResolvedTheme;
use crate::engine::input::InputData;
use crate::engine::renderer::{paint_bold, paint_bold_text};
use crate::engine::segment::{text_of, SegmentOutput};

verus! {

/// The effort level from the user's settings, with its icon.
pub struct EffortSegment;

/// The string that the JSON document `text` holds under the top-level key
/// `key`: none when `text` is no JSON, the key is missing, or its value is not
/// a string.
pub uninterp spec fn json_string_member(text: Seq<char>, key: Seq<char>) -> Option<Seq<char>>;

/// Parses `text` with `serde_json::from_str::<serde_json::Value>`, then takes
/// `Value::get(key)` and `Value::as_str`. The contract claims only that the
/// result is a function of `text` and `key`, named `json_string_member`.
#[verifier::external_body]
fn string_member(text: &str, key: &str) -> (r: Option<String>)
    ensures
        r matches Some(v) ==> json_string_member(text@, key@) == Some(v@),
        r is None ==> json_string_member(text@, key@) is None,
{
    let value: serde_json::Value = match serde_json::from_str(text) {
        Ok(v) => v,
        Err(_) => return None,
    };
    match value.get(key) {
        Some(member) => match member.as_str() {
            Some(s) => Some(s.to_string()),
            None => None,
        },
        None => None,
    }
}

/// The `effortLevel` string of the settings file's text.
pub open spec fn effort_level_of(settings: Option<String>) -> Option<Seq<char>> {
    match settings {
        Some(text) => json_string_member(text@, "effortLevel"@),
        None => None,
    }
}

/// Reads `effortLevel` from the text of the settings file.
pub fn effort_level_from_settings(settings: &str) -> (r: Option<String>)
    ensures
        r matches Some(v) ==> json_string_member(settings@, "effortLevel"@) == Some(v@),
        r is None ==> json_string_member(settings@, "effortLevel"@) is None,
{
    string_member(settings, "effortLevel")
}

/// The level shown: the configured one, else `default`.
pub open spec fn shown_level(level: Option<Seq<char>>) -> Seq<char> {
    match level {
        Some(l) => l,
        None => "default"@,
    }
}

/// The icon of an effort level: `◔` low, `◑` otherwise (`high` is told
/// apart by its colour).
pub open spec fn effort_icon(level: Seq<char>) -> Seq<char> {
    if level == "low"@ {
        "◔"@
    } else {
        "◑"@
    }
}

/// The palette entry of an effort level: the high colour for `high`, else the dim one.
pub open spec fn effort_color(level: Seq<char>, theme: ResolvedTheme) -> u8 {
    if level == "high"@ {
        theme.effort_high_ansi
    } else {
        theme.effort_dim_ansi
    }
}

/// The colour override of an effort level: `effort_high` for `high`, else `effort_dim`.
pub open spec fn effort_custom(level: Seq<char>, theme: ResolvedTheme) -> Option<String> {
    if level == "high"@ {
        theme.custom.effort_high
    } else {
        theme.custom.effort_dim
    }
}

/// The segment's text for an effort level (`None`: not configured).
pub open spec fn effort_text(level: Option<Seq<char>>, theme: ResolvedTheme) -> Seq<char> {
    let e = shown_level(level);
    paint_bold_text(effort_icon(e) + " "@ + e, effort_custom(e, theme), effort_color(e, theme))
}

/// The view of an optional string.
pub open spec fn opt_view(o: Option<String>) -> Option<Seq<char>> {
    match o {
        Some(s) => Some(s@),
        None => None,
    }
}

impl EffortSegment {
    /// Renders an effort level already read (`None`: not configured).
    pub fn render_level(&self, level: Option<String>, theme: &ResolvedTheme) -> (r: SegmentOutput)
        ensures
            r.text@ == effort_text(opt_view(level), *theme),
    {
        let effort = match level {
            Some(l) => l,
            None => String::from_str("default"),
        };
        let high = effort == String::from_str("high");
        let medium = effort == String::from_str("medium");
        let low = effort == String::from_str("low");
        let (icon, ansi, custom) = if high {
            ("◑", theme.effort_high_ansi, &theme.custom.effort_high)
        } else if medium {
            ("◑", theme.effort_dim_ansi, &theme.custom.effort_dim)
        } else if low {
            ("◔", theme.effort_dim_ansi, &theme.custom.effort_dim)
        } else {
            ("◑", theme.effort_dim_ansi, &theme.custom.effort_dim)
        };
        let mut label = String::from_str(icon);
        label.append(" ");
        label.append(effort.as_str());
        proof {
            reveal_strlit("high");
            reveal_strlit("medium");
            reveal_strlit("low");
            assert(icon@ == effort_icon(effort@));
            assert(ansi == effort_color(effort@, *theme));
            assert(*custom == effort_custom(effort@, *theme));
            assert(label@ =~= effort_icon(effort@) + " "@ + effort@);
        }
        let text = paint_bold(label.as_str(), custom, ansi);
        SegmentOutput { text }
    }

    /// Renders the effort level that the settings file's text (`None`: no
    /// readable settings file) configures.
    pub fn render(&self, _input: &InputData, theme: &ResolvedTheme, settings: &Option<String>) -> (r: Option<
        SegmentOutput,
    >)
        ensures
            text_of(r) == Some(effort_text(effort_level_of(*settings), *theme)),
    {
        let level = match settings {
            Some(text) => effort_level_from_settings(text.as_str()),
            None => None,
        };
        Some(self.render_level(level, theme))
    }
}

/// With no effort level configured the segment shows the level `default`,
/// exactly as if `default` were configured; every level but `high` and `low`
/// shares the dim half-circle.
pub proof fn law_missing_level_is_default(theme: ResolvedTheme, level: Seq<char>)
    ensures
        effort_text(None, theme) == effort_text(Some("default"@), theme),
        level != "high"@ && level != "low"@ ==> effort_text(Some(level), theme) == paint_bold_text(
            "◑"@ + " "@ + level,
            theme.custom.effort_dim,
            theme.effort_dim_ansi,
        ),
{
}

} // verus!
