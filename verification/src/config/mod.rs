pub mod defaults;
pub mod theme;

use vstd::prelude::*;

use self::defaults::default_segment_names;
use crate::text::texts_of;
use self::theme::ThemeColors;

verus! {

/// The whole configuration, as read from `config.toml`.
pub struct Config {
    pub general: GeneralConfig,
    pub segments: SegmentsConfig,
    pub theme: ThemeConfig,
    pub usage: UsageConfig,
    pub git: GitConfig,
}

/// `[general]`: layout of line 1.
pub struct GeneralConfig {
    pub separator: String,
}

/// `[segments]`: which segments are drawn.
pub struct SegmentsConfig {
    pub enabled: Vec<String>,
}

/// `[theme]`: the theme's name and colour overrides.
pub struct ThemeConfig {
    pub name: String,
    pub colors: Option<ThemeColors>,
}

/// `[usage]`: the rate-limit bars.
pub struct UsageConfig {
    pub cache_ttl_secs: u64,
}

/// `[git]`: extras of the git segment.
pub struct GitConfig {
    pub show_worktree: bool,
    pub port_file: String,
}

impl Default for GeneralConfig {
    fn default() -> (r: Self)
        ensures
            r.separator@ == " │ "@,
    {
        GeneralConfig { separator: defaults::separator() }
    }
}

impl Default for SegmentsConfig {
    fn default() -> (r: Self)
        ensures
            texts_of(r.enabled@) == default_segment_names(),
    {
        SegmentsConfig { enabled: defaults::enabled_segments() }
    }
}

impl Default for ThemeConfig {
    fn default() -> (r: Self)
        ensures
            r.name@ == "morandi"@,
            r.colors is None,
    {
        ThemeConfig { name: defaults::theme_name(), colors: None }
    }
}

impl Default for UsageConfig {
    fn default() -> (r: Self)
        ensures
            r.cache_ttl_secs == 60,
    {
        UsageConfig { cache_ttl_secs: defaults::cache_ttl() }
    }
}

impl Default for GitConfig {
    fn default() -> (r: Self)
        ensures
            r.show_worktree,
            r.port_file@ == ".dev-port"@,
    {
        GitConfig { show_worktree: defaults::git_show_worktree(), port_file: defaults::git_port_file() }
    }
}

/// Whether `c` is the configuration used when no file sets anything.
pub open spec fn is_default_config(c: Config) -> bool {
    &&& c.general.separator@ == " │ "@
    &&& texts_of(c.segments.enabled@) == default_segment_names()
    &&& c.theme.name@ == "morandi"@
    &&& c.theme.colors is None
    &&& c.usage.cache_ttl_secs == 60
    &&& c.git.show_worktree
    &&& c.git.port_file@ == ".dev-port"@
}

impl Default for Config {
    fn default() -> (r: Self)
        ensures
            is_default_config(r),
    {
        Config {
            general: GeneralConfig::default(),
            segments: SegmentsConfig::default(),
            theme: ThemeConfig::default(),
            usage: UsageConfig::default(),
            git: GitConfig::default(),
        }
    }
}

} // verus!
