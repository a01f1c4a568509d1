use statusline::config::defaults::{
    cache_ttl, enabled_segments, git_port_file, git_show_worktree, separator, theme_name,
};
use statusline::config::theme::{ResolvedTheme, ThemeColors};
use statusline::config::Config;

fn no_colors() -> ThemeColors {
    ThemeColors {
        directory: None,
        git: None,
        model: None,
        ctx_green: None,
        ctx_yellow: None,
        ctx_orange: None,
        ctx_red: None,
        thinking_on: None,
        thinking_off: None,
        effort_high: None,
        effort_dim: None,
        usage_current_fill: None,
        usage_weekly_fill: None,
        usage_empty: None,
        reset_time: None,
        tasks: None,
        separator: None,
    }
}

#[test]
fn test_default_config() {
    let cfg = Config::default();
    assert_eq!(cfg.general.separator, " │ ");
    assert_eq!(cfg.segments.enabled.len(), 8);
    assert_eq!(cfg.theme.name, "morandi");
    assert_eq!(cfg.usage.cache_ttl_secs, 60);
}

#[test]
fn default_config_git_section() {
    let cfg = Config::default();
    assert!(cfg.git.show_worktree);
    assert_eq!(cfg.git.port_file, ".dev-port");
    assert!(cfg.theme.colors.is_none());
}

#[test]
fn defaults_values() {
    assert_eq!(separator(), " │ ");
    assert_eq!(
        enabled_segments(),
        vec!["directory", "git", "model", "context_window", "thinking", "effort", "usage", "tasks"]
    );
    assert!(git_show_worktree());
    assert_eq!(git_port_file(), ".dev-port");
    assert_eq!(theme_name(), "morandi");
    assert_eq!(cache_ttl(), 60);
}

#[test]
fn morandi_palette_values() {
    let t = ResolvedTheme::morandi();
    assert_eq!(t.directory_icon_ansi, 11);
    assert_eq!(t.directory_text_ansi, 10);
    assert_eq!(t.git_ansi, 12);
    assert_eq!(t.model_ansi, 14);
    assert_eq!(t.ctx_ansi, 13);
    assert_eq!(t.thinking_on_ansi, 10);
    assert_eq!(t.thinking_off_ansi, 7);
    assert_eq!(t.effort_dim_ansi, 7);
    assert_eq!(t.separator_ansi, 7);
    assert_eq!(t.usage_current_fill, "#7BA58A");
    assert_eq!(t.usage_weekly_fill, "#D4B896");
    assert_eq!(t.usage_empty, "#4A4A4A");
    assert_eq!(t.reset_time, "#8B8B8B");
    assert_eq!(t.directory, "#A0B9C6");
    assert_eq!(t.ctx_red, "#C17C74");
    assert_eq!(t.separator, "#6B6B6B");
}

#[test]
fn from_config_without_overrides_is_morandi() {
    let t = ResolvedTheme::from_config("anything", &None);
    let m = ResolvedTheme::morandi();
    assert_eq!(t.directory, m.directory);
    assert_eq!(t.usage_empty, m.usage_empty);
    assert_eq!(t.git_ansi, m.git_ansi);
    let t2 = ResolvedTheme::from_config("morandi", &Some(no_colors()));
    assert_eq!(t2.model, m.model);
    assert_eq!(t2.reset_time, m.reset_time);
}

#[test]
fn from_config_applies_overrides() {
    let mut o = no_colors();
    o.directory = Some("#FF6B6B".to_string());
    o.model = Some("#4ECDC4".to_string());
    let t = ResolvedTheme::from_config("morandi", &Some(o));
    assert_eq!(t.directory, "#FF6B6B");
    assert_eq!(t.model, "#4ECDC4");
    // untouched colours and palette entries keep their Morandi values
    assert_eq!(t.git, "#A0B9C6");
    assert_eq!(t.separator, "#6B6B6B");
    assert_eq!(t.model_ansi, 14);
}
