use vstd::prelude::*;

use crate::config::theme::ResolvedTheme;
use crate::engine::input::{CurrentUsage, InputData};
use crate::engine::renderer::{ansi_bold, ansi_bold_text};
use crate::engine::segment::{text_of, SegmentOutput};
use crate::text::{decimal, push_decimal};

verus! {

/// `✍️ NN%`: how full the context window is.
pub struct ContextWindowSegment;

/// A token count, zero when absent.
pub open spec fn count_or_zero(n: Option<u64>) -> int {
    match n {
        Some(v) => v as int,
        None => 0,
    }
}

/// Tokens in the context: input, cache creation and cache reads.
pub open spec fn tokens_used(u: CurrentUsage) -> int {
    count_or_zero(u.input_tokens) + count_or_zero(u.cache_creation_input_tokens)
        + count_or_zero(u.cache_read_input_tokens)
}

/// The context window size, 200 000 tokens when absent.
pub open spec fn window_size(size: Option<u64>) -> int {
    match size {
        Some(v) => v as int,
        None => 200_000,
    }
}

/// The percentage shown: used tokens times 100 over the window size, rounded
/// down (above 100 when the usage exceeds the window); 0 for an empty window.
pub open spec fn context_percent(used: int, size: int) -> int {
    if size > 0 {
        used * 100 / size
    } else {
        0
    }
}

/// What the segment shows: nothing without a context window or a current usage.
pub open spec fn context_text(input: InputData, theme: ResolvedTheme) -> Option<Seq<char>> {
    match input.context_window {
        Some(ctx) => match ctx.current_usage {
            Some(u) => Some(
                ansi_bold_text(
                    "✍️ "@ + decimal(context_percent(tokens_used(u), window_size(ctx.context_window_size)) as nat)
                        + "%"@,
                    theme.ctx_ansi,
                ),
            ),
            None => None,
        },
        None => None,
    }
}

fn or_zero(n: Option<u64>) -> (r: u64)
    ensures
        r == count_or_zero(n),
{
    match n {
        Some(v) => v,
        None => 0,
    }
}

impl ContextWindowSegment {
    /// Renders the share of the context window in use, exactly (the token
    /// counts are added up in 128 bits, so no input overflows).
    pub fn render(&self, input: &InputData, theme: &ResolvedTheme) -> (r: Option<SegmentOutput>)
        ensures
            text_of(r) == context_text(*input, *theme),
    {
        let ctx = match &input.context_window {
            Some(c) => c,
            None => return None,
        };
        let size: u64 = match ctx.context_window_size {
            Some(s) => s,
            None => 200_000,
        };
        let usage = match &ctx.current_usage {
            Some(u) => u,
            None => return None,
        };
        let used: u128 = or_zero(usage.input_tokens) as u128 + or_zero(usage.cache_creation_input_tokens) as u128
            + or_zero(usage.cache_read_input_tokens) as u128;
        let pct: u128 = if size > 0 {
            used * 100 / (size as u128)
        } else {
            0
        };
        let mut label = String::from_str("✍️ ");
        push_decimal(&mut label, pct);
        label.append("%");
        let text = ansi_bold(label.as_str(), theme.ctx_ansi);
        Some(SegmentOutput { text })
    }
}

/// While the tokens used do not exceed the window, the percentage shown is the
/// exact share rounded down, between 0 and 100.
pub proof fn law_percent_within_window(used: int, size: int)
    requires
        0 <= used <= size,
        size > 0,
    ensures
        context_percent(used, size) == used * 100 / size,
        0 <= context_percent(used, size) <= 100,
{
    assert(used * 100 <= size * 100) by (nonlinear_arith)
        requires
            used <= size,
            size > 0,
    ;
    assert(used * 100 / size <= 100) by (nonlinear_arith)
        requires
            used * 100 <= size * 100,
            size > 0,
            used >= 0,
    ;
    assert(used * 100 / size >= 0) by (nonlinear_arith)
        requires
            used >= 0,
            size > 0,
    ;
}

/// All three token counts fill the window: with a window of `size > 0`
/// tokens and counts `i`, `c` and `r` (input, cache creation, cache reads;
/// absent ones zero), the segment shows `(i + c + r) * 100 / size` percent.
pub proof fn law_percent_of_all_tokens(input: InputData, theme: ResolvedTheme, i: int, c: int, r: int, size: int)
    requires
        input.context_window matches Some(ctx) && window_size(ctx.context_window_size) == size && (
        ctx.current_usage matches Some(u) && count_or_zero(u.input_tokens) == i && count_or_zero(
            u.cache_creation_input_tokens,
        ) == c && count_or_zero(u.cache_read_input_tokens) == r),
        size > 0,
    ensures
        context_text(input, theme) == Some(
            ansi_bold_text("✍️ "@ + decimal(((i + c + r) * 100 / size) as nat) + "%"@, theme.ctx_ansi),
        ),
{
}

/// A token counts the same whichever of the three counts holds it: moving
/// `k` tokens from the input count to the cache-creation count, or to the
/// cache-read count, leaves the segment unchanged.
pub proof fn law_tokens_count_alike(a: InputData, b: InputData, theme: ResolvedTheme, k: int)
    requires
        a.context_window matches Some(ca) && ca.current_usage matches Some(ua) && b.context_window matches Some(
            cb,
        ) && cb.current_usage matches Some(ub) && window_size(ca.context_window_size) == window_size(
            cb.context_window_size,
        ) && count_or_zero(ua.input_tokens) == count_or_zero(ub.input_tokens) + k && ((count_or_zero(
            ub.cache_creation_input_tokens,
        ) == count_or_zero(ua.cache_creation_input_tokens) + k && count_or_zero(ub.cache_read_input_tokens)
            == count_or_zero(ua.cache_read_input_tokens)) || (count_or_zero(ub.cache_read_input_tokens)
            == count_or_zero(ua.cache_read_input_tokens) + k && count_or_zero(ub.cache_creation_input_tokens)
            == count_or_zero(ua.cache_creation_input_tokens))),
    ensures
        context_text(a, theme) == context_text(b, theme),
{
}

} // verus!
