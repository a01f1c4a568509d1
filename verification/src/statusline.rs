use vstd::prelude::*;

use crate::config::Config;
use crate::config::theme::ResolvedTheme;
use crate::engine::input::InputData;
use crate::engine::renderer::{drop_empty, join_nonempty, paint_bold_text, paint_fg, paint_fg_text, RESET};
use crate::engine::segment::SegmentOutput;
use crate::segments::directory::{directory_text, DirectorySegment};
use crate::segments::git::{git_text, GitProbe, GitSegment};
use crate::segments::model::{model_text, ModelSegment};
use crate::segments::thinking::{thinking_color, thinking_custom, ThinkingSegment};
use crate::segments::usage::{
    current_line, display_fits, weekly_line, UsageFigures, UsageSegment,
};
use crate::text::{join_texts, texts_of};

verus! {

/// Whether the configuration enables the segment `name`.
pub open spec fn is_enabled(config: Config, name: Seq<char>) -> bool {
    texts_of(config.segments.enabled@).contains(name)
}

/// `text` as a one-element list when the segment is enabled and drawn, else nothing.
pub open spec fn part_if(on: bool, text: Option<Seq<char>>) -> Seq<Seq<char>> {
    if on && text is Some {
        seq![text->0]
    } else {
        Seq::empty()
    }
}

/// The drawn segments of line 1, in order: directory, git, model, thinking.
pub open spec fn line1_parts(input: InputData, theme: ResolvedTheme, config: Config, probe: GitProbe) -> Seq<Seq<char>> {
    part_if(is_enabled(config, "directory"@), directory_text(input, theme)) + part_if(
        is_enabled(config, "git"@),
        git_text(input, theme, config.git, probe),
    ) + part_if(is_enabled(config, "model"@), model_text(input, theme)) + part_if(
        is_enabled(config, "thinking"@),
        Some(paint_bold_text("● thinking"@, thinking_custom(input, theme), thinking_color(input, theme))),
    )
}

/// Line 1: the drawn segments joined by the separator in its colour
/// (the `separator` override when one is set, else its palette entry).
pub open spec fn line1_text(input: InputData, theme: ResolvedTheme, config: Config, probe: GitProbe) -> Seq<char> {
    join_texts(
        drop_empty(line1_parts(input, theme, config, probe)),
        paint_fg_text(config.general.separator@, theme.custom.separator, theme.separator_ansi),
    )
}

fn enabled(config: &Config, name: &str) -> (r: bool)
    ensures
        r == is_enabled(*config, name@),
{
    let target = String::from_str(name);
    let list = &config.segments.enabled;
    let n = list.len();
    for i in 0..n
        invariant
            n == list@.len(),
            target@ == name@,
            list == config.segments.enabled,
            forall|k: int| 0 <= k < i ==> list@[k]@ != name@,
    {
        if list[i] == target {
            assert(texts_of(list@)[i as int] == name@);
            return true;
        }
    }
    assert forall|k: int| 0 <= k < texts_of(list@).len() implies texts_of(list@)[k] != name@ by {
        assert(texts_of(list@)[k] == list@[k]@);
    }
    false
}

fn push_part(parts: &mut Vec<String>, out: Option<SegmentOutput>)
    ensures
        final(parts)@.len() == old(parts)@.len() + (if out is Some { 1int } else { 0int }),
        forall|i: int| 0 <= i < old(parts)@.len() ==> final(parts)@[i] == old(parts)@[i],
        out matches Some(o) ==> final(parts)@.last() == o.text,
{
    if let Some(o) = out {
        parts.push(o.text);
    }
}

/// The lines to print, each ending in a reset: line 1, then, when the usage
/// segment is enabled, the two usage lines (none without usage figures).
pub fn render_statusline(
    input: &InputData,
    theme: &ResolvedTheme,
    config: &Config,
    probe: &GitProbe,
    usage: &Option<UsageFigures>,
) -> (r: Vec<String>)
    ensures
        r.len() >= 1,
        r[0]@ == line1_text(*input, *theme, *config, *probe) + "\x1b[0m"@,
        !is_enabled(*config, "usage"@) || *usage is None ==> r.len() == 1,
        is_enabled(*config, "usage"@) ==> (*usage matches Some(u) ==> r.len() == 3 && exists|
            c: Option<Seq<char>>,
            w: Option<Seq<char>>,
        |
            #![trigger display_fits(c, u.five_hour.resets_at, false), display_fits(w, u.seven_day.resets_at, true)]
            {
                &&& display_fits(c, u.five_hour.resets_at, false)
                &&& display_fits(w, u.seven_day.resets_at, true)
                &&& r[1]@ == current_line(u, *theme, c) + "\x1b[0m"@
                &&& r[2]@ == weekly_line(u, *theme, w) + "\x1b[0m"@
            }),
{
    let mut parts: Vec<String> = Vec::new();
    if enabled(config, "directory") {
        push_part(&mut parts, DirectorySegment.render(input, theme));
    }
    assert(texts_of(parts@) =~= part_if(is_enabled(*config, "directory"@), directory_text(*input, *theme)));
    let ghost p1 = parts@;
    if enabled(config, "git") {
        push_part(&mut parts, GitSegment.render(input, theme, &config.git, probe));
    }
    assert(texts_of(parts@) =~= texts_of(p1) + part_if(
        is_enabled(*config, "git"@),
        git_text(*input, *theme, config.git, *probe),
    ));
    let ghost p2 = parts@;
    if enabled(config, "model") {
        push_part(&mut parts, ModelSegment.render(input, theme));
    }
    assert(texts_of(parts@) =~= texts_of(p2) + part_if(is_enabled(*config, "model"@), model_text(*input, *theme)));
    let ghost p3 = parts@;
    if enabled(config, "thinking") {
        push_part(&mut parts, ThinkingSegment.render(input, theme));
    }
    assert(texts_of(parts@) =~= texts_of(p3) + part_if(
        is_enabled(*config, "thinking"@),
        Some(paint_bold_text("● thinking"@, thinking_custom(*input, *theme), thinking_color(*input, *theme))),
    ));
    assert(texts_of(parts@) =~= line1_parts(*input, *theme, *config, *probe));
    let separator = paint_fg(config.general.separator.as_str(), &theme.custom.separator, theme.separator_ansi);
    let mut line1 = join_nonempty(parts.as_slice(), separator.as_str());
    line1.append(RESET);
    let mut lines: Vec<String> = Vec::new();
    lines.push(line1);
    if enabled(config, "usage") && usage.is_some() {
        let seg = UsageSegment { cache_ttl_secs: config.usage.cache_ttl_secs };
        let outs = seg.render(input, theme, usage);
        for i in 0..outs.len()
            invariant
                lines@.len() == 1 + i,
                lines[0]@ == line1_text(*input, *theme, *config, *probe) + "\x1b[0m"@,
                forall|k: int| 0 <= k < i ==> #[trigger] lines@[k + 1]@ == outs@[k].text@ + "\x1b[0m"@,
        {
            let mut line = outs[i].text.clone();
            line.append(RESET);
            lines.push(line);
        }
    }
    lines
}

/// When `git` is enabled and the git segment draws `g`, line 1 holds `g`
/// right after the directory segment (when that is drawn) and before the
/// model and thinking segments.
pub proof fn law_git_after_directory(
    input: InputData,
    theme: ResolvedTheme,
    config: Config,
    probe: GitProbe,
    g: Seq<char>,
)
    requires
        is_enabled(config, "git"@),
        git_text(input, theme, config.git, probe) == Some(g),
    ensures
        ({
            let parts = line1_parts(input, theme, config, probe);
            let before = part_if(is_enabled(config, "directory"@), directory_text(input, theme));
            &&& parts.contains(g)
            &&& parts[before.len() as int] == g
            &&& parts.take(before.len() as int) == before
            &&& (is_enabled(config, "directory"@) && directory_text(input, theme) is Some) ==> (parts[0]
                == directory_text(input, theme)->0 && parts[1] == g)
            &&& (is_enabled(config, "model"@) && model_text(input, theme) is Some) ==> parts[before.len() + 1int]
                == model_text(input, theme)->0
        }),
{
    let parts = line1_parts(input, theme, config, probe);
    let before = part_if(is_enabled(config, "directory"@), directory_text(input, theme));
    assert(parts[before.len() as int] == g);
    assert(parts.take(before.len() as int) =~= before);
}

} // verus!
