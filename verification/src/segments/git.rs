use vstd::prelude::*;
use vstd::utf8::{decode_utf8, valid_utf8};

use crate::config::GitConfig;
use crate::config::theme::ResolvedTheme;
use crate::engine::input::InputData;
use crate::engine::renderer::{paint_bold, paint_bold_text};
use crate::engine::segment::{text_of, SegmentOutput};
use crate::text::{chars_of, is_ws, lemma_trim_end_at, lemma_trim_start_at, string_of, trim, trim_chars};

verus! {

/// Branch name, dirty mark, linked worktree and dev-server port.
pub struct GitSegment;

/// What the `git` commands printed for the working directory.
pub struct GitProbe {
    /// Standard output of `git branch --show-current`, when it ran and succeeded.
    pub branch_stdout: Option<Vec<u8>>,
    /// Standard output of `git status --porcelain`, when it ran (whatever its exit status).
    pub status_stdout: Option<Vec<u8>>,
    /// Standard output of `git rev-parse --git-dir`, when it ran and succeeded.
    pub git_dir_stdout: Option<Vec<u8>>,
    /// Text of the port file at the repository root, when the root was found and the file read.
    pub port_file_content: Option<String>,
}

/// `String::from_utf8` on a copy of `bytes`. Claims what its documentation
/// says: it succeeds exactly when the bytes are valid UTF-8, and the string
/// then holds the characters they encode.
#[verifier::external_body]
fn utf8_string(bytes: &[u8]) -> (r: Option<String>)
    ensures
        r is Some <==> valid_utf8(bytes@),
        r matches Some(s) ==> s@ == decode_utf8(bytes@),
{
    String::from_utf8(bytes.to_vec()).ok()
}

/// The trimmed text of a command's output; none when it is not UTF-8.
pub open spec fn output_text(stdout: Seq<u8>) -> Option<Seq<char>> {
    if valid_utf8(stdout) {
        Some(trim(decode_utf8(stdout)))
    } else {
        None
    }
}

/// The trimmed text of a command's output (the repository root, for one),
/// or `None` when the output is not UTF-8.
pub fn trimmed_output(stdout: &[u8]) -> (r: Option<String>)
    ensures
        r matches Some(s) ==> output_text(stdout@) == Some(s@),
        r is None ==> output_text(stdout@) is None,
{
    match utf8_string(stdout) {
        Some(s) => {
            let t = trim_chars(&chars_of(s.as_str()));
            Some(string_of(&t))
        },
        None => None,
    }
}

/// The current branch: the trimmed output, when it is UTF-8 and not empty.
pub open spec fn branch_of(stdout: Option<Vec<u8>>) -> Option<Seq<char>> {
    match stdout {
        Some(out) => match output_text(out@) {
            Some(t) => if t.len() > 0 {
                Some(t)
            } else {
                None
            },
            None => None,
        },
        None => None,
    }
}

/// Uncommitted changes: `git status --porcelain` printed anything.
pub open spec fn is_dirty(stdout: Option<Vec<u8>>) -> bool {
    match stdout {
        Some(out) => out@.len() > 0,
        None => false,
    }
}

/// `s` with every `\` turned into `/`.
pub open spec fn forward_slashes(s: Seq<char>) -> Seq<char> {
    s.map_values(|c: char| if c == '\\' { '/' } else { c })
}

/// Whether `pat` occurs in `s` at position `i`.
pub open spec fn occurs_at(s: Seq<char>, pat: Seq<char>, i: int) -> bool {
    0 <= i && i + pat.len() <= s.len() && s.subrange(i, i + pat.len()) == pat
}

/// The last position below `k` at which `pat` occurs in `s`.
pub open spec fn last_occurrence_below(s: Seq<char>, pat: Seq<char>, k: nat) -> Option<int>
    decreases k,
{
    if k == 0 {
        None
    } else if occurs_at(s, pat, k - 1) {
        Some(k - 1)
    } else {
        last_occurrence_below(s, pat, (k - 1) as nat)
    }
}

/// The text of `s` before the first `c` (all of `s` when there is none).
pub open spec fn before_char(s: Seq<char>, c: char) -> Seq<char>
    decreases s.len(),
{
    if s.len() == 0 || s[0] == c {
        Seq::empty()
    } else {
        seq![s[0]] + before_char(s.drop_first(), c)
    }
}

/// The name of a linked worktree from the trimmed output of `git rev-parse
/// --git-dir`: in `…/worktrees/<name>/…` the trimmed `<name>` after the last
/// `/worktrees/`, with `\` read as `/`; none for the main worktree.
pub open spec fn worktree_name_of(text: Seq<char>) -> Option<Seq<char>> {
    let g = forward_slashes(text);
    match last_occurrence_below(g, "/worktrees/"@, (g.len() + 1) as nat) {
        Some(i) => {
            let name = trim(before_char(g.subrange(i + "/worktrees/"@.len(), g.len() as int), '/'));
            if name.len() > 0 {
                Some(name)
            } else {
                None
            }
        },
        None => None,
    }
}

/// The linked worktree's name, from the probe.
pub open spec fn worktree_of(stdout: Option<Vec<u8>>) -> Option<Seq<char>> {
    match stdout {
        Some(out) => match output_text(out@) {
            Some(t) => worktree_name_of(t),
            None => None,
        },
        None => None,
    }
}

/// `str::lines().next()`: the text before the first `\n` (without a `\r`
/// right before that `\n`); none for the empty text.
pub open spec fn first_line(s: Seq<char>) -> Option<Seq<char>> {
    if s.len() == 0 {
        None
    } else {
        let l = before_char(s, '\n');
        if l.len() < s.len() && l.len() > 0 && l.last() == '\r' {
            Some(l.drop_last())
        } else {
            Some(l)
        }
    }
}

/// Whether every character of `s` is an ASCII digit.
pub open spec fn all_ascii_digits(s: Seq<char>) -> bool {
    forall|i: int| 0 <= i < s.len() ==> '0' <= #[trigger] s[i] && s[i] <= '9'
}

/// The dev-server port from the port file: its trimmed first line, accepted
/// only when it is non-empty and all digits (so the file cannot inject escapes).
pub open spec fn port_of_text(content: Seq<char>) -> Option<Seq<char>> {
    match first_line(content) {
        Some(l) => {
            let p = trim(l);
            if p.len() > 0 && all_ascii_digits(p) {
                Some(p)
            } else {
                None
            }
        },
        None => None,
    }
}

/// The dev-server port, from the probe.
pub open spec fn port_of(content: Option<String>) -> Option<Seq<char>> {
    match content {
        Some(c) => port_of_text(c@),
        None => None,
    }
}

/// The segment's label: icon, branch, `*` when dirty, the worktree (when
/// shown) and the port (when a port file is configured).
pub open spec fn git_label(branch: Seq<char>, cfg: GitConfig, probe: GitProbe) -> Seq<char> {
    let base = "\u{e725} "@ + branch + (if is_dirty(probe.status_stdout) {
        "*"@
    } else {
        Seq::empty()
    });
    let with_tree = if cfg.show_worktree && worktree_of(probe.git_dir_stdout) is Some {
        base + " \u{2387}"@ + worktree_of(probe.git_dir_stdout)->0
    } else {
        base
    };
    if cfg.port_file@.len() > 0 && port_of(probe.port_file_content) is Some {
        with_tree + " :"@ + port_of(probe.port_file_content)->0
    } else {
        with_tree
    }
}

/// What the segment shows: nothing without a working directory or a branch.
/// The label is drawn in the `git` colour override when one is set.
pub open spec fn git_text(input: InputData, theme: ResolvedTheme, cfg: GitConfig, probe: GitProbe) -> Option<Seq<char>> {
    match input.cwd {
        Some(_) => match branch_of(probe.branch_stdout) {
            Some(b) => Some(paint_bold_text(git_label(b, cfg, probe), theme.custom.git, theme.git_ansi)),
            None => None,
        },
        None => None,
    }
}

/// The current branch from the probe.
pub fn branch_name(stdout: &Option<Vec<u8>>) -> (r: Option<String>)
    ensures
        r matches Some(s) ==> branch_of(*stdout) == Some(s@),
        r is None ==> branch_of(*stdout) is None,
{
    match stdout {
        Some(out) => match trimmed_output(out.as_slice()) {
            Some(t) => if t.as_str().is_empty() {
                None
            } else {
                Some(t)
            },
            None => None,
        },
        None => None,
    }
}

fn forward_slash_chars(s: &Vec<char>) -> (r: Vec<char>)
    ensures
        r@ == forward_slashes(s@),
{
    let mut r: Vec<char> = Vec::new();
    for i in 0..s.len()
        invariant
            r@ == forward_slashes(s@.take(i as int)),
    {
        let c = s[i];
        r.push(if c == '\\' { '/' } else { c });
        assert(forward_slashes(s@.take(i + 1)) =~= forward_slashes(s@.take(i as int)).push(
            if c == '\\' { '/' } else { c },
        ));
    }
    assert(s@.take(s.len() as int) =~= s@);
    r
}

fn occurs_at_exec(s: &Vec<char>, pat: &Vec<char>, i: usize) -> (r: bool)
    ensures
        r == occurs_at(s@, pat@, i as int),
{
    if i > s.len() || pat.len() > s.len() - i {
        return false;
    }
    let mut k: usize = 0;
    while k < pat.len()
        invariant
            k <= pat.len(),
            i + pat.len() <= s.len(),
            forall|m: int| 0 <= m < k ==> s@[i + m] == pat@[m],
        decreases pat.len() - k,
    {
        if s[i + k] != pat[k] {
            assert(s@.subrange(i as int, i + pat.len())[k as int] != pat@[k as int]);
            return false;
        }
        k = k + 1;
    }
    assert(s@.subrange(i as int, i + pat.len()) =~= pat@);
    true
}

fn last_occurrence(s: &Vec<char>, pat: &Vec<char>) -> (r: Option<usize>)
    ensures
        r matches Some(i) ==> last_occurrence_below(s@, pat@, (s@.len() + 1) as nat) == Some(i as int),
        r is None ==> last_occurrence_below(s@, pat@, (s@.len() + 1) as nat) is None,
{
    let mut k: usize = s.len();
    loop
        invariant
            k <= s.len(),
            last_occurrence_below(s@, pat@, (s@.len() + 1) as nat) == last_occurrence_below(
                s@,
                pat@,
                (k + 1) as nat,
            ),
        decreases k,
    {
        if occurs_at_exec(s, pat, k) {
            return Some(k);
        }
        if k == 0 {
            assert(last_occurrence_below(s@, pat@, 0) is None);
            return None;
        }
        k = k - 1;
    }
}

proof fn lemma_before_char_at(s: Seq<char>, c: char, i: int)
    requires
        0 <= i <= s.len(),
        forall|k: int| 0 <= k < i ==> #[trigger] s[k] != c,
        i == s.len() || s[i] == c,
    ensures
        before_char(s, c) == s.take(i),
    decreases i,
{
    if i == 0 {
        assert(s.take(0) =~= Seq::<char>::empty());
    } else {
        let t = s.drop_first();
        assert forall|k: int| 0 <= k < i - 1 implies #[trigger] t[k] != c by {
            assert(t[k] == s[k + 1]);
        }
        if i - 1 < t.len() {
            assert(t[i - 1] == s[i]);
        }
        lemma_before_char_at(t, c, i - 1);
        assert(seq![s[0]] + t.take(i - 1) =~= s.take(i));
    }
}

/// The characters of `s` from `from` up to the first `c`.
fn before_char_from(s: &Vec<char>, from: usize, c: char) -> (r: Vec<char>)
    requires
        from <= s.len(),
    ensures
        r@ == before_char(s@.subrange(from as int, s@.len() as int), c),
{
    let ghost t = s@.subrange(from as int, s@.len() as int);
    let mut r: Vec<char> = Vec::new();
    let mut k: usize = from;
    while k < s.len() && s[k] != c
        invariant
            from <= k <= s.len(),
            t == s@.subrange(from as int, s@.len() as int),
            r@ == s@.subrange(from as int, k as int),
            forall|m: int| from <= m < k ==> #[trigger] s@[m] != c,
        decreases s.len() - k,
    {
        r.push(s[k]);
        assert(s@.subrange(from as int, k as int).push(s@[k as int]) =~= s@.subrange(from as int, k + 1));
        k = k + 1;
    }
    proof {
        assert forall|m: int| 0 <= m < k - from implies #[trigger] t[m] != c by {
            assert(t[m] == s@[m + from]);
        }
        if k < s.len() {
            assert(t[k - from] == s@[k as int]);
        }
        lemma_before_char_at(t, c, k - from);
        assert(t.take(k - from) =~= s@.subrange(from as int, k as int));
    }
    r
}

/// The linked worktree's name from the trimmed `git rev-parse --git-dir` text.
pub fn worktree_name(text: &str) -> (r: Option<String>)
    ensures
        r matches Some(s) ==> worktree_name_of(text@) == Some(s@),
        r is None ==> worktree_name_of(text@) is None,
{
    let g = forward_slash_chars(&chars_of(text));
    let pat = chars_of("/worktrees/");
    match last_occurrence(&g, &pat) {
        Some(i) => {
            assert(occurs_at(g@, pat@, i as int)) by {
                let k = (g@.len() + 1) as nat;
                assert(last_occurrence_below(g@, pat@, k) == Some(i as int));
                lemma_last_occurrence_occurs(g@, pat@, k);
            }
            let head = before_char_from(&g, i + pat.len(), '/');
            let name = trim_chars(&head);
            if name.len() > 0 {
                Some(string_of(&name))
            } else {
                None
            }
        },
        None => None,
    }
}

proof fn lemma_last_occurrence_occurs(s: Seq<char>, pat: Seq<char>, k: nat)
    ensures
        last_occurrence_below(s, pat, k) matches Some(i) ==> occurs_at(s, pat, i) && i < k,
    decreases k,
{
    if k > 0 && !occurs_at(s, pat, k - 1) {
        lemma_last_occurrence_occurs(s, pat, (k - 1) as nat);
    }
}

/// The linked worktree's name, from the probe.
pub fn worktree_from(stdout: &Option<Vec<u8>>) -> (r: Option<String>)
    ensures
        r matches Some(s) ==> worktree_of(*stdout) == Some(s@),
        r is None ==> worktree_of(*stdout) is None,
{
    match stdout {
        Some(out) => match trimmed_output(out.as_slice()) {
            Some(t) => worktree_name(t.as_str()),
            None => None,
        },
        None => None,
    }
}

/// The dev-server port from the text of the port file.
pub fn port_from_text(content: &str) -> (r: Option<String>)
    ensures
        r matches Some(s) ==> port_of_text(content@) == Some(s@),
        r is None ==> port_of_text(content@) is None,
{
    let s = chars_of(content);
    if s.len() == 0 {
        return None;
    }
    let mut line = before_char_from(&s, 0, '\n');
    assert(s@.subrange(0, s@.len() as int) =~= s@);
    proof {
        lemma_before_char_len(s@, '\n');
    }
    if line.len() < s.len() && line.len() > 0 && line[line.len() - 1] == '\r' {
        line.pop();
    }
    assert(first_line(s@) == Some(line@));
    let p = trim_chars(&line);
    if p.len() == 0 {
        return None;
    }
    let mut k: usize = 0;
    while k < p.len()
        invariant
            k <= p.len(),
            p@.len() > 0,
            first_line(content@) == Some(line@),
            p@ == trim(line@),
            forall|m: int| 0 <= m < k ==> '0' <= #[trigger] p@[m] && p@[m] <= '9',
        decreases p.len() - k,
    {
        if !('0' <= p[k] && p[k] <= '9') {
            assert(!all_ascii_digits(p@));
            return None;
        }
        k = k + 1;
    }
    Some(string_of(&p))
}

proof fn lemma_before_char_len(s: Seq<char>, c: char)
    ensures
        before_char(s, c).len() <= s.len(),
    decreases s.len(),
{
    if s.len() > 0 && s[0] != c {
        lemma_before_char_len(s.drop_first(), c);
    }
}

impl GitSegment {
    /// Renders the branch (with `*` when dirty), the linked worktree and the
    /// dev-server port, from what `probe` holds.
    pub fn render(&self, input: &InputData, theme: &ResolvedTheme, git_cfg: &GitConfig, probe: &GitProbe) -> (r: Option<
        SegmentOutput,
    >)
        ensures
            text_of(r) == git_text(*input, *theme, *git_cfg, *probe),
    {
        if input.cwd.is_none() {
            return None;
        }
        let branch = match branch_name(&probe.branch_stdout) {
            Some(b) => b,
            None => return None,
        };
        let dirty = match &probe.status_stdout {
            Some(out) => out.len() > 0,
            None => false,
        };
        let mut label = String::from_str("\u{e725} ");
        label.append(branch.as_str());
        if dirty {
            label.append("*");
        }
        if git_cfg.show_worktree {
            if let Some(wt) = worktree_from(&probe.git_dir_stdout) {
                label.append(" \u{2387}");
                label.append(wt.as_str());
            }
        }
        if !git_cfg.port_file.as_str().is_empty() {
            let port = match &probe.port_file_content {
                Some(c) => port_from_text(c.as_str()),
                None => None,
            };
            if let Some(p) = port {
                label.append(" :");
                label.append(p.as_str());
            }
        }
        let text = paint_bold(label.as_str(), &theme.custom.git, theme.git_ansi);
        Some(SegmentOutput { text })
    }
}

proof fn lemma_last_occurrence_is(s: Seq<char>, pat: Seq<char>, p: int, k: nat)
    requires
        occurs_at(s, pat, p),
        p < k,
        forall|i: int| p < i < k ==> !occurs_at(s, pat, i),
    ensures
        last_occurrence_below(s, pat, k) == Some(p),
    decreases k,
{
    if k - 1 != p {
        lemma_last_occurrence_is(s, pat, p, (k - 1) as nat);
    }
}

proof fn lemma_no_occurrence(s: Seq<char>, pat: Seq<char>, k: nat)
    requires
        forall|i: int| 0 <= i < k ==> !occurs_at(s, pat, i),
    ensures
        last_occurrence_below(s, pat, k) is None,
    decreases k,
{
    if k > 0 {
        lemma_no_occurrence(s, pat, (k - 1) as nat);
    }
}

/// The main worktree has no name: when the git directory contains no
/// `/worktrees/` (with `\` read as `/`), there is no worktree to show.
pub proof fn law_main_worktree_unnamed(text: Seq<char>)
    requires
        forall|i: int| !occurs_at(forward_slashes(text), "/worktrees/"@, i),
    ensures
        worktree_name_of(text) is None,
{
    let g = forward_slashes(text);
    lemma_no_occurrence(g, "/worktrees/"@, (g.len() + 1) as nat);
}

proof fn lemma_marker_chars()
    ensures
        "/worktrees/"@.len() == 11,
        "/worktrees/"@[0] == '/',
        "/worktrees/"@[10] == '/',
        forall|k: int| 0 < k < 10 ==> #[trigger] "/worktrees/"@[k] != '/',
{
    reveal_strlit("/worktrees/");
}

proof fn lemma_no_later_marker(a: Seq<char>, name: Seq<char>, i: int)
    requires
        forall|k: int| 0 <= k < name.len() ==> #[trigger] name[k] != '/',
        a.len() < i,
    ensures
        !occurs_at(a + "/worktrees/"@ + name, "/worktrees/"@, i),
{
    lemma_marker_chars();
    let w = "/worktrees/"@;
    let g = a + w + name;
    let p = a.len() as int;
    if occurs_at(g, w, i) {
        let sub = g.subrange(i, i + 11);
        assert(sub == w);
        assert(sub[0] == g[i]);
        if i < p + 10 {
            assert(g[i] == w[i - p]);
        } else if i == p + 10 {
            assert(sub[10] == g[p + 20]);
            assert(g[p + 20] == name[9]);
        } else {
            assert(g[i] == name[i - p - 11]);
        }
    }
}

proof fn lemma_clean_name(name: Seq<char>)
    requires
        name.len() > 0,
        forall|i: int| 0 <= i < name.len() ==> #[trigger] name[i] != '/',
        !is_ws(name[0]),
        !is_ws(name.last()),
    ensures
        trim(before_char(name, '/')) == name,
{
    lemma_before_char_at(name, '/', name.len() as int);
    assert(name.take(name.len() as int) =~= name);
    lemma_trim_start_at(name, 0);
    assert(name.subrange(0, name.len() as int) =~= name);
    lemma_trim_end_at(name, name.len() as int);
}

/// A linked worktree's git directory `…/worktrees/<name>` gives `<name>`,
/// whatever comes before it, when the name is non-empty, holds no separator
/// and neither starts nor ends with whitespace.
pub proof fn law_linked_worktree_named(prefix: Seq<char>, name: Seq<char>)
    requires
        name.len() > 0,
        forall|i: int| 0 <= i < name.len() ==> #[trigger] name[i] != '/' && name[i] != '\\',
        !is_ws(name[0]),
        !is_ws(name.last()),
    ensures
        worktree_name_of(prefix + "/worktrees/"@ + name) == Some(name),
{
    lemma_marker_chars();
    let w = "/worktrees/"@;
    let fp = forward_slashes(prefix);
    let g = forward_slashes(prefix + w + name);
    let p = prefix.len() as int;
    assert(forward_slashes(w) =~= w) by {
        reveal_strlit("/worktrees/");
    }
    assert(forward_slashes(name) =~= name);
    assert(g =~= fp + w + name);
    assert(g.subrange(p, p + 11) =~= w);
    assert(occurs_at(g, w, p));
    assert forall|i: int| p < i < g.len() + 1 implies !occurs_at(g, w, i) by {
        lemma_no_later_marker(fp, name, i);
    }
    lemma_last_occurrence_is(g, w, p, (g.len() + 1) as nat);
    assert(g.subrange(p + 11, g.len() as int) =~= name);
    lemma_clean_name(name);
}

/// Only digits reach the label: a port is non-empty, all ASCII digits, and so
/// can never carry an escape character from a stray file.
pub proof fn law_port_is_digits(content: Seq<char>)
    ensures
        port_of_text(content) matches Some(p) ==> p.len() > 0 && all_ascii_digits(p) && !p.contains('\x1b'),
{
    if let Some(p) = port_of_text(content) {
        if p.contains('\x1b') {
            let i = choose|i: int| 0 <= i < p.len() && p[i] == '\x1b';
            assert('0' <= p[i] && p[i] <= '9');
        }
    }
}

/// A port found in a configured port file always ends the label as ` :port`,
/// whether or not the directory is a linked worktree and whether or not the
/// worktree is shown.
pub proof fn law_port_ends_label(branch: Seq<char>, cfg: GitConfig, probe: GitProbe, p: Seq<char>)
    requires
        cfg.port_file@.len() > 0,
        port_of(probe.port_file_content) == Some(p),
    ensures
        git_label(branch, cfg, probe).len() >= p.len() + 2,
        git_label(branch, cfg, probe).skip(git_label(branch, cfg, probe).len() - p.len() - 2) == " :"@ + p,
        git_label(branch, cfg, probe).take(branch.len() + 2int) == "\u{e725} "@ + branch,
{
    reveal_strlit("\u{e725} ");
    reveal_strlit(" :");
    let l = git_label(branch, cfg, probe);
    let base = "\u{e725} "@ + branch + (if is_dirty(probe.status_stdout) {
        "*"@
    } else {
        Seq::empty()
    });
    let with_tree = if cfg.show_worktree && worktree_of(probe.git_dir_stdout) is Some {
        base + " \u{2387}"@ + worktree_of(probe.git_dir_stdout)->0
    } else {
        base
    };
    assert(l == with_tree + (" :"@ + p));
    let n = l.len() - p.len() - 2;
    assert(n == with_tree.len());
    assert(l.skip(n) =~= " :"@ + p);
    assert(l.take(branch.len() + 2int) =~= "\u{e725} "@ + branch);
}

} // verus!
