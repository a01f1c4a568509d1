use statusline::config::theme::ResolvedTheme;
use statusline::config::GitConfig;
use statusline::engine::input::{ContextWindow, CurrentUsage, InputData, Model, OutputStyle};
use statusline::segments::context_window::ContextWindowSegment;
use statusline::segments::directory::DirectorySegment;
use statusline::segments::effort::{effort_level_from_settings, EffortSegment};
use statusline::segments::git::{
    branch_name, port_from_text, trimmed_output, worktree_from, worktree_name, GitProbe,
    GitSegment,
};
use statusline::segments::model::ModelSegment;
use statusline::segments::tasks::{count_tasks, task_dir_is_recent, TasksSegment, HOUR_NANOS};
use statusline::segments::thinking::ThinkingSegment;

fn empty_input() -> InputData {
    InputData {
        model: None,
        context_window: None,
        cwd: None,
        session: None,
        thinking: None,
        output_style: None,
    }
}

fn with_cwd(cwd: &str) -> InputData {
    InputData { cwd: Some(cwd.to_string()), ..empty_input() }
}

fn with_usage(size: u64, input_tokens: u64) -> InputData {
    InputData {
        context_window: Some(ContextWindow {
            context_window_size: Some(size),
            used_percentage: None,
            current_usage: Some(CurrentUsage {
                input_tokens: Some(input_tokens),
                cache_creation_input_tokens: Some(0),
                cache_read_input_tokens: Some(0),
            }),
        }),
        ..empty_input()
    }
}

fn opus() -> Option<Model> {
    Some(Model { id: Some("opus-4-6".to_string()), display_name: Some("Opus 4.6".to_string()) })
}

#[test]
fn test_low_usage() {
    let input = with_usage(200000, 20000);
    let theme = ResolvedTheme::morandi();
    let output = ContextWindowSegment.render(&input, &theme).unwrap();
    assert!(output.text.contains("10%"));
    // Uses ANSI bright magenta (95m) with bold
    assert!(output.text.contains("\x1b[1;95m"));
}

#[test]
fn test_high_usage() {
    let input = with_usage(200000, 190000);
    let theme = ResolvedTheme::morandi();
    let output = ContextWindowSegment.render(&input, &theme).unwrap();
    assert!(output.text.contains("95%"));
    assert!(output.text.contains("\x1b[1;95m"));
}

#[test]
fn context_window_edges() {
    let theme = ResolvedTheme::morandi();
    assert!(ContextWindowSegment.render(&empty_input(), &theme).is_none());
    // no current usage: nothing drawn
    let no_usage = InputData {
        context_window: Some(ContextWindow { context_window_size: Some(100), used_percentage: None, current_usage: None }),
        ..empty_input()
    };
    assert!(ContextWindowSegment.render(&no_usage, &theme).is_none());
    // empty window shows 0%
    let out = ContextWindowSegment.render(&with_usage(0, 5), &theme).unwrap();
    assert_eq!(out.text, "\x1b[1;95m✍️ 0%\x1b[0m");
    // the share is shown exactly, past a full window too
    let out = ContextWindowSegment.render(&with_usage(100, 300), &theme).unwrap();
    assert!(out.text.contains("✍️ 300%"));
    // the three counts add up; missing ones count as zero; default window 200000
    let mixed = InputData {
        context_window: Some(ContextWindow {
            context_window_size: None,
            used_percentage: None,
            current_usage: Some(CurrentUsage {
                input_tokens: Some(50000),
                cache_creation_input_tokens: None,
                cache_read_input_tokens: Some(15000),
            }),
        }),
        ..empty_input()
    };
    let out = ContextWindowSegment.render(&mixed, &theme).unwrap();
    assert!(out.text.contains("✍️ 32%"));
}

#[test]
fn test_directory_unix() {
    let input = with_cwd("/home/user/my-project");
    let theme = ResolvedTheme::morandi();
    let output = DirectorySegment.render(&input, &theme).unwrap();
    assert!(output.text.contains("my-project"));
}

#[test]
fn test_directory_windows() {
    let input = with_cwd("C:\\Users\\test\\project");
    let theme = ResolvedTheme::morandi();
    let output = DirectorySegment.render(&input, &theme).unwrap();
    assert!(output.text.contains("project"));
}

#[test]
fn directory_exact_text_and_edges() {
    let theme = ResolvedTheme::morandi();
    let out = DirectorySegment.render(&with_cwd("/home/user/my-project"), &theme).unwrap();
    assert_eq!(out.text, "\x1b[93m\u{f07b}\x1b[0m \x1b[1;92mmy-project\x1b[0m");
    // trailing separators are skipped
    let out = DirectorySegment.render(&with_cwd("/home/user/proj//"), &theme).unwrap();
    assert!(out.text.ends_with("\x1b[1;92mproj\x1b[0m"));
    // a path of separators only is shown whole
    let out = DirectorySegment.render(&with_cwd("/"), &theme).unwrap();
    assert!(out.text.ends_with("\x1b[1;92m/\x1b[0m"));
    let out = DirectorySegment.render(&with_cwd("plain"), &theme).unwrap();
    assert!(out.text.ends_with("\x1b[1;92mplain\x1b[0m"));
    assert!(DirectorySegment.render(&empty_input(), &theme).is_none());
}

#[test]
fn test_model_display_name() {
    let input = InputData { model: opus(), ..empty_input() };
    let theme = ResolvedTheme::morandi();
    let output = ModelSegment.render(&input, &theme).unwrap();
    assert!(output.text.contains("Opus 4.6"));
}

#[test]
fn test_model_with_effort_and_usage() {
    let input = InputData {
        model: opus(),
        output_style: Some(OutputStyle { name: Some("max".to_string()) }),
        context_window: Some(ContextWindow {
            context_window_size: None,
            used_percentage: Some(64),
            current_usage: None,
        }),
        ..empty_input()
    };
    let theme = ResolvedTheme::morandi();
    let output = ModelSegment.render(&input, &theme).unwrap();
    assert!(output.text.contains("Opus 4.6"));
    assert!(output.text.contains("max"));
    assert!(output.text.contains("64%"));
}

#[test]
fn model_exact_text_and_fallbacks() {
    let theme = ResolvedTheme::morandi();
    let input = InputData {
        model: opus(),
        output_style: Some(OutputStyle { name: Some("max".to_string()) }),
        context_window: Some(ContextWindow { context_window_size: None, used_percentage: Some(64), current_usage: None }),
        ..empty_input()
    };
    let out = ModelSegment.render(&input, &theme).unwrap();
    assert_eq!(out.text, "\x1b[1;96mOpus 4.6\x1b[0m \x1b[37m(max)\x1b[0m \x1b[1;95m64%\x1b[0m");
    // the id stands in for a missing display name
    let by_id = InputData { model: Some(Model { id: Some("m-1".to_string()), display_name: None }), ..empty_input() };
    assert_eq!(ModelSegment.render(&by_id, &theme).unwrap().text, "\x1b[1;96mm-1\x1b[0m");
    let nameless = InputData { model: Some(Model { id: None, display_name: None }), ..empty_input() };
    assert!(ModelSegment.render(&nameless, &theme).is_none());
    assert!(ModelSegment.render(&empty_input(), &theme).is_none());
}

#[test]
fn test_thinking_on() {
    let input = InputData { thinking: Some(true), ..empty_input() };
    let theme = ResolvedTheme::morandi();
    let output = ThinkingSegment.render(&input, &theme).unwrap();
    assert!(output.text.contains("● thinking"));
    // bright green (ANSI 10 = code 92)
    assert!(output.text.contains("\x1b[1;92m"));
}

#[test]
fn thinking_test_thinking_off() {
    let input = InputData { thinking: Some(false), ..empty_input() };
    let theme = ResolvedTheme::morandi();
    let output = ThinkingSegment.render(&input, &theme).unwrap();
    assert!(output.text.contains("● thinking"));
    // white (ANSI 7 = code 37)
    assert!(output.text.contains("\x1b[1;37m"));
}

#[test]
fn thinking_absent_is_off() {
    let theme = ResolvedTheme::morandi();
    let out = ThinkingSegment.render(&empty_input(), &theme).unwrap();
    assert_eq!(out.text, "\x1b[1;37m● thinking\x1b[0m");
}

#[test]
fn effort_levels() {
    let theme = ResolvedTheme::morandi();
    let seg = EffortSegment;
    let high = seg.render(&empty_input(), &theme, &Some(r#"{"effortLevel": "high"}"#.to_string())).unwrap();
    assert_eq!(high.text, "\x1b[1;95m◑ high\x1b[0m");
    let low = seg.render(&empty_input(), &theme, &Some(r#"{"effortLevel": "low"}"#.to_string())).unwrap();
    assert_eq!(low.text, "\x1b[1;37m◔ low\x1b[0m");
    let medium = seg.render(&empty_input(), &theme, &Some(r#"{"effortLevel": "medium"}"#.to_string())).unwrap();
    assert_eq!(medium.text, "\x1b[1;37m◑ medium\x1b[0m");
    let none = seg.render(&empty_input(), &theme, &None).unwrap();
    assert_eq!(none.text, "\x1b[1;37m◑ default\x1b[0m");
    let not_json = seg.render(&empty_input(), &theme, &Some("not json".to_string())).unwrap();
    assert_eq!(not_json.text, "\x1b[1;37m◑ default\x1b[0m");
}

#[test]
fn effort_setting_parse() {
    assert_eq!(effort_level_from_settings(r#"{"effortLevel":"high","x":1}"#), Some("high".to_string()));
    assert_eq!(effort_level_from_settings(r#"{"effortLevel": 3}"#), None);
    assert_eq!(effort_level_from_settings(r#"{"other": "high"}"#), None);
    assert_eq!(effort_level_from_settings("["), None);
}

fn probe(branch: &str, status: &str, git_dir: Option<&str>, port: Option<&str>) -> GitProbe {
    GitProbe {
        branch_stdout: Some(branch.as_bytes().to_vec()),
        status_stdout: Some(status.as_bytes().to_vec()),
        git_dir_stdout: git_dir.map(|d| d.as_bytes().to_vec()),
        port_file_content: port.map(|p| p.to_string()),
    }
}

#[test]
fn git_segment_label() {
    let theme = ResolvedTheme::morandi();
    let cfg = GitConfig { show_worktree: true, port_file: ".dev-port".to_string() };
    let input = with_cwd("/repo");
    let p = probe("main\n", " M a.rs\n", Some("/repo/.git/worktrees/feature-x\n"), Some("3000\n"));
    let out = GitSegment.render(&input, &theme, &cfg, &p).unwrap();
    assert_eq!(out.text, "\x1b[1;94m\u{e725} main* \u{2387}feature-x :3000\x1b[0m");
    // clean main worktree, no port file
    let p = probe("main\n", "", Some(".git\n"), None);
    let out = GitSegment.render(&input, &theme, &cfg, &p).unwrap();
    assert_eq!(out.text, "\x1b[1;94m\u{e725} main\x1b[0m");
    // worktree and port switched off by configuration
    let off = GitConfig { show_worktree: false, port_file: String::new() };
    let p = probe("dev", "x", Some("/r/.git/worktrees/wt"), Some("8080"));
    let out = GitSegment.render(&input, &theme, &off, &p).unwrap();
    assert_eq!(out.text, "\x1b[1;94m\u{e725} dev*\x1b[0m");
    // detached head (empty branch), no cwd
    assert!(GitSegment.render(&input, &theme, &cfg, &probe("\n", "", None, None)).is_none());
    assert!(GitSegment.render(&empty_input(), &theme, &cfg, &probe("main", "", None, None)).is_none());
}

#[test]
fn git_output_decoding() {
    assert_eq!(branch_name(&Some(b"  feature/x \r\n".to_vec())), Some("feature/x".to_string()));
    assert_eq!(branch_name(&Some(vec![0xff, 0xfe])), None);
    assert_eq!(branch_name(&None), None);
    assert_eq!(trimmed_output("\t/home/u/repo\n".as_bytes()), Some("/home/u/repo".to_string()));
    assert_eq!(trimmed_output(&[0x80]), None);
}

#[test]
fn worktree_names() {
    assert_eq!(worktree_name("/repo/.git/worktrees/wt1"), Some("wt1".to_string()));
    assert_eq!(worktree_name("C:\\repo\\.git\\worktrees\\wt2"), Some("wt2".to_string()));
    assert_eq!(worktree_name("/a/worktrees/b/.git/worktrees/last/x"), Some("last".to_string()));
    assert_eq!(worktree_name(".git"), None);
    assert_eq!(worktree_name("/repo/.git/worktrees/"), None);
    assert_eq!(worktree_name("/repo/.git/worktrees/ /x"), None);
    assert_eq!(worktree_from(&Some(b"/r/.git/worktrees/w \n".to_vec())), Some("w".to_string()));
}

#[test]
fn port_file_parsing() {
    assert_eq!(port_from_text("3000\n"), Some("3000".to_string()));
    assert_eq!(port_from_text("  8080  \r\nrest"), Some("8080".to_string()));
    assert_eq!(port_from_text(""), None);
    assert_eq!(port_from_text("\n3000"), None);
    assert_eq!(port_from_text("30a0"), None);
    assert_eq!(port_from_text("\x1b[31m"), None);
    assert_eq!(port_from_text("１２"), None);
}

#[test]
fn task_counting() {
    let s = |x: &str| Some(x.to_string());
    let statuses = vec![s("pending"), s("in_progress"), s("completed"), None, s("pending"), s("weird")];
    assert_eq!(count_tasks(&statuses), (2, 1, 1));
    assert_eq!(TasksSegment.active_count(&Some(statuses)), Some(3));
    assert_eq!(TasksSegment.active_count(&Some(vec![])), Some(0));
    assert_eq!(TasksSegment.active_count(&None), None);
}

#[test]
fn task_dir_recency() {
    let now = 10 * HOUR_NANOS;
    assert!(task_dir_is_recent(None, now));
    assert!(task_dir_is_recent(Some(now), now));
    assert!(task_dir_is_recent(Some(now - HOUR_NANOS), now));
    assert!(!task_dir_is_recent(Some(now - HOUR_NANOS - 1), now));
    assert!(task_dir_is_recent(Some(0), HOUR_NANOS / 2));
}
