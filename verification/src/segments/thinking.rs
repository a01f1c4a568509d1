use vstd::prelude::*;

use crate::config::theme::ResolvedTheme;
use crate::engine::input::InputData;
use crate::engine::renderer::{paint_bold, paint_bold_text};
use crate::engine::segment::SegmentOutput;

verus! {

/// `● thinking`, bright when extended thinking is on.
pub struct ThinkingSegment;

/// The colour override of the thinking indicator: on only when the input says `true`.
pub open spec fn thinking_custom(input: InputData, theme: ResolvedTheme) -> Option<String> {
    if input.thinking == Some(true) {
        theme.custom.thinking_on
    } else {
        theme.custom.thinking_off
    }
}

/// The palette entry of the thinking indicator: on only when the input says `true`.
pub open spec fn thinking_color(input: InputData, theme: ResolvedTheme) -> u8 {
    if input.thinking == Some(true) {
        theme.thinking_on_ansi
    } else {
        theme.thinking_off_ansi
    }
}

impl ThinkingSegment {
    /// Always renders `● thinking`, in the "on" or "off" colour (or its override).
    pub fn render(&self, input: &InputData, theme: &ResolvedTheme) -> (r: Option<SegmentOutput>)
        ensures
            r matches Some(o) && o.text@ == paint_bold_text(
                "● thinking"@,
                thinking_custom(*input, *theme),
                thinking_color(*input, *theme),
            ),
    {
        let thinking_on = match input.thinking {
            Some(b) => b,
            None => false,
        };
        let (custom, ansi) = if thinking_on {
            (&theme.custom.thinking_on, theme.thinking_on_ansi)
        } else {
            (&theme.custom.thinking_off, theme.thinking_off_ansi)
        };
        let text = paint_bold("● thinking", custom, ansi);
        Some(SegmentOutput { text })
    }
}

} // verus!
