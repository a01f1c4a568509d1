use vstd::prelude::*;

use crate::config::theme::ResolvedTheme;
use crate::engine::input::InputData;
use crate::engine::renderer::{ansi_bold, ansi_bold_text, paint_bold, paint_bold_text, paint_fg, paint_fg_text, rgb_bold_text, usable_color};
use crate::engine::segment::{text_of, SegmentOutput};
use crate::text::{decimal, join_strings, join_texts, push_decimal, texts_of};

verus! {

/// The model's name, with the output style and the context percentage when known.
pub struct ModelSegment;

/// The model's display name, else its id.
pub open spec fn model_name(input: InputData) -> Option<Seq<char>> {
    match input.model {
        Some(m) => match m.display_name {
            Some(n) => Some(n@),
            None => match m.id {
                Some(i) => Some(i@),
                None => None,
            },
        },
        None => None,
    }
}

/// `(style)` in the dim colour (or its override), when the input names an output style.
pub open spec fn style_part(input: InputData, theme: ResolvedTheme) -> Seq<Seq<char>> {
    match input.output_style {
        Some(st) => match st.name {
            Some(e) => seq![paint_fg_text("("@ + e@ + ")"@, theme.custom.effort_dim, theme.effort_dim_ansi)],
            None => Seq::empty(),
        },
        None => Seq::empty(),
    }
}

/// `NN%` in the context colour, when the input gives the used percentage.
pub open spec fn percent_part(input: InputData, theme: ResolvedTheme) -> Seq<Seq<char>> {
    match input.context_window {
        Some(ctx) => match ctx.used_percentage {
            Some(p) => seq![ansi_bold_text(decimal(p as nat) + "%"@, theme.ctx_ansi)],
            None => Seq::empty(),
        },
        None => Seq::empty(),
    }
}

/// What the segment shows: the parts joined by spaces; nothing without a
/// model name. The name is drawn in the `model` colour override when one is set.
pub open spec fn model_text(input: InputData, theme: ResolvedTheme) -> Option<Seq<char>> {
    match model_name(input) {
        Some(name) => Some(
            join_texts(
                seq![paint_bold_text(name, theme.custom.model, theme.model_ansi)] + style_part(input, theme)
                    + percent_part(input, theme),
                " "@,
            ),
        ),
        None => None,
    }
}

impl ModelSegment {
    /// Renders the model name, output style and context percentage.
    pub fn render(&self, input: &InputData, theme: &ResolvedTheme) -> (r: Option<SegmentOutput>)
        ensures
            text_of(r) == model_text(*input, *theme),
    {
        let model = match &input.model {
            Some(m) => m,
            None => return None,
        };
        let name = match &model.display_name {
            Some(n) => n,
            None => match &model.id {
                Some(i) => i,
                None => return None,
            },
        };
        let mut parts: Vec<String> = Vec::new();
        parts.push(paint_bold(name.as_str(), &theme.custom.model, theme.model_ansi));
        let ghost first = parts@;
        if let Some(style) = &input.output_style {
            if let Some(effort) = &style.name {
                let mut label = String::from_str("(");
                label.append(effort.as_str());
                label.append(")");
                parts.push(paint_fg(label.as_str(), &theme.custom.effort_dim, theme.effort_dim_ansi));
            }
        }
        let ghost second = parts@;
        if let Some(ctx) = &input.context_window {
            if let Some(pct) = ctx.used_percentage {
                let mut label = String::new();
                push_decimal(&mut label, pct as u128);
                label.append("%");
                parts.push(ansi_bold(label.as_str(), theme.ctx_ansi));
            }
        }
        assert(texts_of(parts@) =~= seq![paint_bold_text(name@, theme.custom.model, theme.model_ansi)] + style_part(*input, *theme)
            + percent_part(*input, *theme));
        let text = join_strings(&parts, " ");
        Some(SegmentOutput { text })
    }
}

/// With a usable `model` colour override, the model's name is drawn bold in that colour.
pub proof fn law_model_override_shows(input: InputData, theme: ResolvedTheme, r: u8, g: u8, b: u8)
    requires
        model_name(input) is Some,
        usable_color(theme.custom.model) == Some((r, g, b)),
    ensures
        model_text(input, theme) == Some(
            join_texts(
                seq![rgb_bold_text(model_name(input)->0, r, g, b)] + style_part(input, theme) + percent_part(input, theme),
                " "@,
            ),
        ),
{
}

} // verus!
