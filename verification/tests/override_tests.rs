use statusline::config::theme::{ResolvedTheme, ThemeColors};
use statusline::config::{Config, GitConfig};
use statusline::engine::input::{InputData, Model};
use statusline::segments::directory::DirectorySegment;
use statusline::segments::effort::EffortSegment;
use statusline::segments::git::{GitProbe, GitSegment};
use statusline::segments::model::ModelSegment;
use statusline::segments::thinking::ThinkingSegment;
use statusline::statusline::render_statusline;

fn colors() -> ThemeColors {
    ThemeColors {
        directory: None,
        git: None,
        model: None,
        ctx_green: None,
        ctx_yellow: None,
        ctx_orange: None,
        ctx_red: None,
        thinking_on: None,
        thinking_off: None,
        effort_high: None,
        effort_dim: None,
        usage_current_fill: None,
        usage_weekly_fill: None,
        usage_empty: None,
        reset_time: None,
        tasks: None,
        separator: None,
    }
}

fn input() -> InputData {
    InputData {
        model: Some(Model { id: None, display_name: Some("Opus 4.6".to_string()) }),
        context_window: None,
        cwd: Some("/home/user/my-project".to_string()),
        session: None,
        thinking: Some(true),
        output_style: None,
    }
}

#[test]
fn directory_override_shows() {
    let mut o = colors();
    o.directory = Some("#FF6B6B".to_string());
    let theme = ResolvedTheme::from_config("morandi", &Some(o));
    let out = DirectorySegment.render(&input(), &theme).unwrap();
    assert!(out.text.contains("\x1b[38;2;255;107;107m"));
    assert_eq!(
        out.text,
        "\x1b[38;2;255;107;107m\u{f07b}\x1b[0m \x1b[1;38;2;255;107;107mmy-project\x1b[0m"
    );
}

#[test]
fn model_override_shows() {
    let mut o = colors();
    o.model = Some("#4ECDC4".to_string());
    let theme = ResolvedTheme::from_config("morandi", &Some(o));
    let out = ModelSegment.render(&input(), &theme).unwrap();
    assert_eq!(out.text, "\x1b[1;38;2;78;205;196mOpus 4.6\x1b[0m");
}

#[test]
fn git_thinking_effort_separator_overrides_show() {
    let mut o = colors();
    o.git = Some("#010203".to_string());
    o.thinking_on = Some("#0A0B0C".to_string());
    o.effort_dim = Some("#101010".to_string());
    o.separator = Some("#202020".to_string());
    let theme = ResolvedTheme::from_config("morandi", &Some(o));
    let probe = GitProbe {
        branch_stdout: Some(b"main\n".to_vec()),
        status_stdout: Some(vec![]),
        git_dir_stdout: None,
        port_file_content: None,
    };
    let cfg = GitConfig { show_worktree: true, port_file: String::new() };
    let git = GitSegment.render(&input(), &theme, &cfg, &probe).unwrap();
    assert_eq!(git.text, "\x1b[1;38;2;1;2;3m\u{e725} main\x1b[0m");
    let thinking = ThinkingSegment.render(&input(), &theme).unwrap();
    assert_eq!(thinking.text, "\x1b[1;38;2;10;11;12m● thinking\x1b[0m");
    let effort = EffortSegment.render(&input(), &theme, &None).unwrap();
    assert_eq!(effort.text, "\x1b[1;38;2;16;16;16m◑ default\x1b[0m");
    let mut config = Config::default();
    config.segments.enabled = vec!["model".to_string(), "thinking".to_string()];
    let lines = render_statusline(&input(), &theme, &config, &probe, &None);
    assert!(lines[0].contains("\x1b[38;2;32;32;32m │ \x1b[0m"));
}

#[test]
fn unusable_override_falls_back_to_palette() {
    let mut o = colors();
    o.directory = Some("not a colour".to_string());
    o.model = Some("#aé123".to_string());
    let theme = ResolvedTheme::from_config("morandi", &Some(o));
    let out = DirectorySegment.render(&input(), &theme).unwrap();
    assert_eq!(out.text, "\x1b[93m\u{f07b}\x1b[0m \x1b[1;92mmy-project\x1b[0m");
    let out = ModelSegment.render(&input(), &theme).unwrap();
    assert_eq!(out.text, "\x1b[1;96mOpus 4.6\x1b[0m");
}
