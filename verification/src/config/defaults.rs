use vstd::prelude::*;

use crate::text::texts_of;

verus! {

/// The segments that are on when the configuration names none.
pub open spec fn default_segment_names() -> Seq<Seq<char>> {
    seq![
        "directory"@,
        "git"@,
        "model"@,
        "context_window"@,
        "thinking"@,
        "effort"@,
        "usage"@,
        "tasks"@,
    ]
}

/// The default separator between line-1 segments.
pub fn separator() -> (s: String)
    ensures
        s@ == " │ "@,
{
    String::from_str(" │ ")
}

/// The default list of enabled segments.
pub fn enabled_segments() -> (v: Vec<String>)
    ensures
        texts_of(v@) == default_segment_names(),
{
    let mut v: Vec<String> = Vec::new();
    v.push(String::from_str("directory"));
    v.push(String::from_str("git"));
    v.push(String::from_str("model"));
    v.push(String::from_str("context_window"));
    v.push(String::from_str("thinking"));
    v.push(String::from_str("effort"));
    v.push(String::from_str("usage"));
    v.push(String::from_str("tasks"));
    assert(texts_of(v@) =~= default_segment_names());
    v
}

/// Whether the git segment shows the linked worktree's name, by default.
pub fn git_show_worktree() -> (b: bool)
    ensures
        b,
{
    true
}

/// The default name of the file at the repository root that holds the dev-server port.
pub fn git_port_file() -> (s: String)
    ensures
        s@ == ".dev-port"@,
{
    String::from_str(".dev-port")
}

/// The default theme name.
pub fn theme_name() -> (s: String)
    ensures
        s@ == "morandi"@,
{
    String::from_str("morandi")
}

/// The default lifetime of the cached usage data, in seconds.
pub fn cache_ttl() -> (t: u64)
    ensures
        t == 60,
{
    60
}

} // verus!
