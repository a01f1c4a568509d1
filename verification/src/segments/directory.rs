use vstd::prelude::*;

use crate::config::theme::ResolvedTheme;
use crate::engine::input::InputData;
use crate::engine::renderer::{paint_bold, paint_bold_text, paint_fg, paint_fg_text, rgb_bold_text, rgb_escape, usable_color};
use crate::engine::segment::{text_of, SegmentOutput};
use crate::text::{chars_of, string_of};

verus! {

/// The folder icon and the name of the working directory.
pub struct DirectorySegment;

/// A path separator, Unix or Windows.
pub open spec fn is_sep(c: char) -> bool {
    c == '/' || c == '\\'
}

/// `s` without its trailing separators.
pub open spec fn trim_trailing_seps(s: Seq<char>) -> Seq<char>
    decreases s.len(),
{
    if s.len() > 0 && is_sep(s.last()) {
        trim_trailing_seps(s.drop_last())
    } else {
        s
    }
}

/// The text after the last separator of `s` (all of `s` when it has none).
pub open spec fn last_component(s: Seq<char>) -> Seq<char>
    decreases s.len(),
{
    if s.len() == 0 || is_sep(s.last()) {
        Seq::empty()
    } else {
        last_component(s.drop_last()).push(s.last())
    }
}

/// The last non-empty component of the path `cwd`; `cwd` itself when every
/// component is empty (a path made of separators only, or the empty path).
pub open spec fn folder_name(cwd: Seq<char>) -> Seq<char> {
    let t = trim_trailing_seps(cwd);
    if t.len() == 0 {
        cwd
    } else {
        last_component(t)
    }
}

/// What the segment shows: nothing without a working directory. Icon and
/// folder are drawn in the `directory` colour override when one is set.
pub open spec fn directory_text(input: InputData, theme: ResolvedTheme) -> Option<Seq<char>> {
    match input.cwd {
        Some(cwd) => Some(
            paint_fg_text("\u{f07b}"@, theme.custom.directory, theme.directory_icon_ansi) + " "@
                + paint_bold_text(folder_name(cwd@), theme.custom.directory, theme.directory_text_ansi),
        ),
        None => None,
    }
}

proof fn lemma_trim_trailing_seps_at(s: Seq<char>, j: int)
    requires
        0 <= j <= s.len(),
        forall|k: int| j <= k < s.len() ==> is_sep(#[trigger] s[k]),
        j == 0 || !is_sep(s[j - 1]),
    ensures
        trim_trailing_seps(s) == s.take(j),
    decreases s.len() - j,
{
    if j == s.len() {
        assert(s.take(j) =~= s);
    } else {
        let t = s.drop_last();
        assert forall|k: int| j <= k < t.len() implies is_sep(#[trigger] t[k]) by {
            assert(t[k] == s[k]);
        }
        if j > 0 {
            assert(t[j - 1] == s[j - 1]);
        }
        lemma_trim_trailing_seps_at(t, j);
        assert(t.take(j) =~= s.take(j));
    }
}

proof fn lemma_last_component_at(s: Seq<char>, i: int)
    requires
        0 <= i <= s.len(),
        forall|k: int| i <= k < s.len() ==> !is_sep(#[trigger] s[k]),
        i == 0 || is_sep(s[i - 1]),
    ensures
        last_component(s) == s.subrange(i, s.len() as int),
    decreases s.len() - i,
{
    if i == s.len() {
        assert(s.subrange(i, s.len() as int) =~= Seq::<char>::empty());
        if s.len() > 0 {
            assert(is_sep(s.last()));
        }
    } else {
        let t = s.drop_last();
        assert forall|k: int| i <= k < t.len() implies !is_sep(#[trigger] t[k]) by {
            assert(t[k] == s[k]);
        }
        if i > 0 {
            assert(t[i - 1] == s[i - 1]);
        }
        lemma_last_component_at(t, i);
        assert(t.subrange(i, t.len() as int).push(s.last()) =~= s.subrange(i, s.len() as int));
    }
}

fn folder_chars(cwd: &Vec<char>) -> (r: Vec<char>)
    ensures
        r@ == folder_name(cwd@),
{
    let n = cwd.len();
    let mut j: usize = n;
    while j > 0 && (cwd[j - 1] == '/' || cwd[j - 1] == '\\')
        invariant
            j <= n,
            n == cwd.len(),
            forall|k: int| j <= k < n ==> is_sep(#[trigger] cwd@[k]),
        decreases j,
    {
        j = j - 1;
    }
    proof {
        lemma_trim_trailing_seps_at(cwd@, j as int);
    }
    if j == 0 {
        assert(cwd@.take(0) =~= Seq::<char>::empty());
        return cwd.clone();
    }
    let ghost t = cwd@.take(j as int);
    let mut i: usize = j;
    while i > 0 && !(cwd[i - 1] == '/' || cwd[i - 1] == '\\')
        invariant
            i <= j <= n,
            n == cwd.len(),
            t == cwd@.take(j as int),
            forall|k: int| i <= k < j ==> !is_sep(#[trigger] cwd@[k]),
        decreases i,
    {
        i = i - 1;
    }
    proof {
        assert forall|k: int| i <= k < t.len() implies !is_sep(#[trigger] t[k]) by {
            assert(t[k] == cwd@[k]);
        }
        if i > 0 {
            assert(t[i - 1] == cwd@[i - 1]);
        }
        lemma_last_component_at(t, i as int);
    }
    let mut r: Vec<char> = Vec::new();
    let mut k: usize = i;
    while k < j
        invariant
            i <= k <= j <= n,
            n == cwd.len(),
            r@ == cwd@.subrange(i as int, k as int),
        decreases j - k,
    {
        r.push(cwd[k]);
        assert(cwd@.subrange(i as int, k as int).push(cwd@[k as int]) =~= cwd@.subrange(i as int, k + 1));
        k = k + 1;
    }
    assert(t.subrange(i as int, t.len() as int) =~= cwd@.subrange(i as int, j as int));
    r
}

impl DirectorySegment {
    /// Renders the folder icon and the last component of the working directory.
    pub fn render(&self, input: &InputData, theme: &ResolvedTheme) -> (r: Option<SegmentOutput>)
        ensures
            text_of(r) == directory_text(*input, *theme),
    {
        let cwd = match &input.cwd {
            Some(c) => c,
            None => return None,
        };
        let chars = chars_of(cwd.as_str());
        let folder = string_of(&folder_chars(&chars));
        let icon = paint_fg("\u{f07b}", &theme.custom.directory, theme.directory_icon_ansi);
        let name = paint_bold(folder.as_str(), &theme.custom.directory, theme.directory_text_ansi);
        let mut text = icon;
        text.append(" ");
        text.append(name.as_str());
        Some(SegmentOutput { text })
    }
}

proof fn lemma_last_component_plain(parent: Seq<char>, name: Seq<char>)
    requires
        forall|i: int| 0 <= i < name.len() ==> !is_sep(#[trigger] name[i]),
        parent.len() > 0,
        is_sep(parent.last()),
    ensures
        last_component(parent + name) == name,
    decreases name.len(),
{
    if name.len() == 0 {
        assert(parent + name =~= parent);
    } else {
        let init = name.drop_last();
        assert forall|i: int| 0 <= i < init.len() implies !is_sep(#[trigger] init[i]) by {
            assert(init[i] == name[i]);
        }
        lemma_last_component_plain(parent, init);
        assert((parent + name).drop_last() =~= parent + init);
        assert((parent + name).last() == name.last());
        assert(init.push(name.last()) =~= name);
    }
}

/// The folder shown for a path ending in `/<name>` (or `\<name>`), with or
/// without one trailing separator, is `<name>` when the name holds no separator.
pub proof fn law_folder_of_child(parent: Seq<char>, sep: char, name: Seq<char>, trailing: bool)
    requires
        is_sep(sep),
        name.len() > 0,
        forall|i: int| 0 <= i < name.len() ==> !is_sep(#[trigger] name[i]),
    ensures
        folder_name(parent + seq![sep] + name + (if trailing { seq![sep] } else { Seq::empty() })) == name,
{
    let path = parent + seq![sep] + name;
    let full = path + (if trailing { seq![sep] } else { Seq::empty() });
    assert(path.last() == name.last());
    assert(!is_sep(path.last()));
    if trailing {
        assert(full.drop_last() =~= path);
        assert(trim_trailing_seps(path) == path);
    } else {
        assert(full =~= path);
    }
    assert(trim_trailing_seps(full) == path);
    lemma_last_component_plain(parent + seq![sep], name);
}

proof fn lemma_last_component_clean(s: Seq<char>)
    ensures
        forall|i: int| 0 <= i < last_component(s).len() ==> !is_sep(#[trigger] last_component(s)[i]),
        s.len() > 0 && !is_sep(s.last()) ==> last_component(s).len() > 0,
    decreases s.len(),
{
    if s.len() > 0 && !is_sep(s.last()) {
        lemma_last_component_clean(s.drop_last());
        let prev = last_component(s.drop_last());
        assert forall|i: int| 0 <= i < prev.push(s.last()).len() implies !is_sep(#[trigger] prev.push(s.last())[i]) by {
            if i < prev.len() {
                assert(prev.push(s.last())[i] == prev[i]);
            }
        }
    }
}

proof fn lemma_trim_trailing_seps_shape(s: Seq<char>)
    ensures
        trim_trailing_seps(s).len() > 0 ==> !is_sep(trim_trailing_seps(s).last()),
    decreases s.len(),
{
    if s.len() > 0 && is_sep(s.last()) {
        lemma_trim_trailing_seps_shape(s.drop_last());
    }
}

/// Unless the path is made of separators only, the folder shown is a
/// non-empty name without any separator in it.
pub proof fn law_folder_has_no_separator(cwd: Seq<char>)
    requires
        exists|i: int| 0 <= i < cwd.len() && !is_sep(#[trigger] cwd[i]),
    ensures
        folder_name(cwd).len() > 0,
        forall|i: int| 0 <= i < folder_name(cwd).len() ==> !is_sep(#[trigger] folder_name(cwd)[i]),
{
    let k = choose|i: int| 0 <= i < cwd.len() && !is_sep(#[trigger] cwd[i]);
    lemma_trim_trailing_seps_nonempty(cwd, k);
    lemma_trim_trailing_seps_shape(cwd);
    lemma_last_component_clean(trim_trailing_seps(cwd));
}

proof fn lemma_trim_trailing_seps_nonempty(s: Seq<char>, k: int)
    requires
        0 <= k < s.len(),
        !is_sep(s[k]),
    ensures
        trim_trailing_seps(s).len() > 0,
    decreases s.len(),
{
    if is_sep(s.last()) {
        assert(k < s.len() - 1);
        assert(s.drop_last()[k] == s[k]);
        lemma_trim_trailing_seps_nonempty(s.drop_last(), k);
    }
}

/// With a usable `directory` colour override, the segment starts with that
/// colour's escape and draws the folder name in it, bold.
pub proof fn law_directory_override_shows(input: InputData, theme: ResolvedTheme, r: u8, g: u8, b: u8)
    requires
        input.cwd is Some,
        usable_color(theme.custom.directory) == Some((r, g, b)),
    ensures
        directory_text(input, theme) == Some(
            rgb_escape(r, g, b) + "\u{f07b}"@ + "\x1b[0m"@ + " "@ + rgb_bold_text(folder_name(input.cwd->0@), r, g, b),
        ),
        directory_text(input, theme)->0.take(rgb_escape(r, g, b).len() as int) == rgb_escape(r, g, b),
{
    let t = rgb_escape(r, g, b) + "\u{f07b}"@ + "\x1b[0m"@ + " "@ + rgb_bold_text(folder_name(input.cwd->0@), r, g, b);
    assert(t.take(rgb_escape(r, g, b).len() as int) =~= rgb_escape(r, g, b));
}

} // verus!
