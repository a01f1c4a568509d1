use statusline::config::theme::ResolvedTheme;
use statusline::config::Config;
use statusline::engine::input::{ContextWindow, CurrentUsage, InputData, Model};
use statusline::segments::git::GitProbe;
use statusline::segments::usage::{
    display_from, format_reset_time, reset_display, reset_display_at, to_ascii_lower, reset_part, UsageFigures, UsageSegment, UsageWindow,
};
use statusline::statusline::render_statusline;
use statusline::utils::cache::{is_cache_fresh, next_usage_step, UsageEvent, UsageStep};
use statusline::utils::credentials::resolve_oauth_token;

/// Strip ANSI escape sequences for easier assertion
fn strip_ansi(s: &str) -> String {
    let mut result = String::new();
    let mut in_escape = false;
    for c in s.chars() {
        if c == '\x1b' {
            in_escape = true;
        } else if in_escape {
            if c == 'm' {
                in_escape = false;
            }
        } else {
            result.push(c);
        }
    }
    result
}

fn empty_input() -> InputData {
    InputData { model: None, context_window: None, cwd: None, session: None, thinking: None, output_style: None }
}

fn no_probe() -> GitProbe {
    GitProbe { branch_stdout: None, status_stdout: None, git_dir_stdout: None, port_file_content: None }
}

fn run(input: &InputData) -> String {
    let config = Config::default();
    let theme = ResolvedTheme::from_config(&config.theme.name, &config.theme.colors);
    render_statusline(input, &theme, &config, &no_probe(), &None).join("\n")
}

#[test]
fn test_full_statusline_output() {
    let input = InputData {
        model: Some(Model { id: Some("opus-4-6".to_string()), display_name: Some("Opus 4.6".to_string()) }),
        cwd: Some("/home/user/my-project".to_string()),
        context_window: Some(ContextWindow {
            context_window_size: Some(200000),
            used_percentage: Some(32),
            current_usage: Some(CurrentUsage {
                input_tokens: Some(50000),
                cache_creation_input_tokens: Some(10000),
                cache_read_input_tokens: Some(5000),
            }),
        }),
        thinking: Some(true),
        ..empty_input()
    };
    let plain = strip_ansi(&run(&input));
    assert!(plain.contains("my-project"), "Missing directory: {}", plain);
    assert!(plain.contains("Opus 4.6"), "Missing model: {}", plain);
    assert!(plain.contains("32%"), "Missing context %: {}", plain);
    assert!(plain.contains("thinking"), "Missing thinking indicator: {}", plain);
}

#[test]
fn test_minimal_input() {
    let input = InputData { cwd: Some("/tmp/test-dir".to_string()), ..empty_input() };
    let plain = strip_ansi(&run(&input));
    assert!(plain.contains("test-dir"), "Missing directory for minimal input: {}", plain);
}

#[test]
fn integration_test_thinking_off() {
    let input = InputData { cwd: Some("/tmp".to_string()), thinking: Some(false), ..empty_input() };
    let plain = strip_ansi(&run(&input));
    assert!(plain.contains("thinking"), "Missing thinking indicator: {}", plain);
}

#[test]
fn statusline_line_layout() {
    let mut config = Config::default();
    config.general.separator = " | ".to_string();
    let theme = ResolvedTheme::morandi();
    let input = InputData { cwd: Some("/x/proj".to_string()), thinking: Some(true), ..empty_input() };
    let lines = render_statusline(&input, &theme, &config, &no_probe(), &None);
    assert_eq!(lines.len(), 1);
    assert_eq!(strip_ansi(&lines[0]), "\u{f07b} proj | ● thinking");
    assert!(lines[0].ends_with("\x1b[0m\x1b[0m"));
    // a disabled segment is not drawn
    config.segments.enabled = vec!["thinking".to_string()];
    let lines = render_statusline(&input, &theme, &config, &no_probe(), &None);
    assert_eq!(strip_ansi(&lines[0]), "● thinking");
    config.segments.enabled = vec![];
    let lines = render_statusline(&input, &theme, &config, &no_probe(), &None);
    assert_eq!(lines[0], "\x1b[0m");
}

fn figures() -> UsageFigures {
    UsageFigures {
        five_hour: UsageWindow { percent: 28, filled_dots: 3, resets_at: Some("soon".to_string()) },
        seven_day: UsageWindow { percent: 79, filled_dots: 8, resets_at: None },
    }
}

#[test]
fn usage_lines() {
    let theme = ResolvedTheme::morandi();
    let seg = UsageSegment { cache_ttl_secs: 60 };
    let out = seg.render(&empty_input(), &theme, &Some(figures()));
    assert_eq!(out.len(), 2);
    assert_eq!(strip_ansi(&out[0].text), "current  ●●●○○○○○○○  28%  ↻ soon");
    assert_eq!(strip_ansi(&out[1].text), "weekly   ●●●●●●●●○○  79%  ");
    assert!(seg.render(&empty_input(), &theme, &None).is_empty());
    let config = Config::default();
    let lines = render_statusline(&empty_input(), &theme, &config, &no_probe(), &Some(figures()));
    assert_eq!(lines.len(), 3);
    assert!(lines[1].ends_with("\x1b[0m"));
}

#[test]
fn reset_time_display() {
    assert_eq!(reset_display(&None, false), None);
    assert_eq!(reset_display(&Some("not a time".to_string()), true), Some("not a time".to_string()));
    let ts = "2026-03-10T19:00:00+00:00".to_string();
    let shown = reset_display(&Some(ts.clone()), false).unwrap();
    assert_ne!(shown, ts);
    assert!(shown.ends_with("am") || shown.ends_with("pm"));
    let dated = reset_display(&Some(ts.clone()), true).unwrap();
    assert!(dated.contains(", "));
    let theme = ResolvedTheme::morandi();
    assert_eq!(reset_part(&Some("x".to_string()), &theme), "\x1b[38;2;139;139;139m↻ x\x1b[0m");
    assert_eq!(reset_part(&None, &theme), "");
}

#[test]
fn cache_freshness() {
    assert!(is_cache_fresh(100, 100, 0));
    assert!(is_cache_fresh(160, 100, 60));
    assert!(!is_cache_fresh(161, 100, 60));
    // an entry written after now (the clock went back) is stale
    assert!(!is_cache_fresh(100, 200, 60));
    assert!(!is_cache_fresh(0, u64::MAX, u64::MAX));
}

#[test]
fn reset_time_at_fixed_offsets() {
    let ts = Some("2026-03-10T19:00:00Z".to_string());
    assert_eq!(reset_display_at(&ts, 0, false), Some("7:00pm".to_string()));
    assert_eq!(reset_display_at(&ts, 3600, false), Some("8:00pm".to_string()));
    assert_eq!(reset_display_at(&ts, -5 * 3600, true), Some("mar 10, 2:00pm".to_string()));
    let weekly = Some("2026-03-10T10:00:00Z".to_string());
    assert_eq!(reset_display_at(&weekly, 0, true), Some("mar 10, 10:00am".to_string()));
    // past midnight the date moves on
    assert_eq!(reset_display_at(&ts, 6 * 3600, true), Some("mar 11, 1:00am".to_string()));
    // the same instant written with another offset shows the same local time
    let shifted = Some("2026-03-10T21:00:00+02:00".to_string());
    assert_eq!(reset_display_at(&shifted, 0, false), Some("7:00pm".to_string()));
    assert_eq!(reset_display_at(&Some("soon".to_string()), 0, true), Some("soon".to_string()));
    assert_eq!(reset_display_at(&None, 0, true), None);
    let theme = ResolvedTheme::morandi();
    let shown = reset_part(&reset_display_at(&ts, 0, false), &theme);
    assert_eq!(strip_ansi(&shown), "↻ 7:00pm");
}

#[test]
fn shown_reset_text_from_local_time() {
    let ts = Some("2026-03-10T10:00:00Z".to_string());
    assert_eq!(display_from(&ts, Some("Mar 10, 10:00am".to_string())), Some("mar 10, 10:00am".to_string()));
    assert_eq!(display_from(&ts, Some("7:00pm".to_string())), Some("7:00pm".to_string()));
    assert_eq!(display_from(&Some("later".to_string()), None), Some("later".to_string()));
    assert_eq!(display_from(&None, Some("7:00pm".to_string())), None);
    assert_eq!(to_ascii_lower("Dec 1, 12:05PM É"), "dec 1, 12:05pm É");
}

#[test]
fn oauth_token_precedence() {
    let s = |x: &str| Some(x.to_string());
    assert_eq!(resolve_oauth_token(s("env"), s("file"), s("key")), s("env"));
    assert_eq!(resolve_oauth_token(s(""), s("file"), s("key")), s("file"));
    assert_eq!(resolve_oauth_token(None, s(""), s("key")), s(""));
    assert_eq!(resolve_oauth_token(None, None, s("key")), s("key"));
    assert_eq!(resolve_oauth_token(s(""), None, None), None);
}

fn is_clock(s: &str) -> bool {
    let Some(body) = s.strip_suffix("am").or_else(|| s.strip_suffix("pm")) else {
        return false;
    };
    let Some((h, m)) = body.split_once(':') else {
        return false;
    };
    let hour_ok = !h.starts_with('0') && h.parse::<u32>().map(|v| (1..=12).contains(&v)).unwrap_or(false);
    let minute_ok = m.len() == 2 && m.parse::<u32>().map(|v| v < 60).unwrap_or(false);
    hour_ok && minute_ok
}

#[test]
fn reset_time_shapes() {
    let ts = Some("2026-03-10T19:00:00+00:00".to_string());
    let time_only = reset_display(&ts, false).unwrap();
    assert!(is_clock(&time_only), "{}", time_only);
    let dated = reset_display(&ts, true).unwrap();
    let (date, clock) = dated.split_once(", ").unwrap();
    assert!(is_clock(clock), "{}", dated);
    let (month, day) = date.split_once(' ').unwrap();
    assert!(["jan", "feb", "mar", "apr", "may", "jun", "jul", "aug", "sep", "oct", "nov", "dec"].contains(&month));
    assert!(!day.starts_with('0') && day.parse::<u32>().map(|d| (1..=31).contains(&d)).unwrap_or(false));
    assert_eq!(clock, time_only);
}

#[test]
fn format_reset_time_parts() {
    let theme = ResolvedTheme::morandi();
    assert_eq!(format_reset_time(&None, true, &theme), "");
    assert_eq!(
        format_reset_time(&Some("later".to_string()), false, &theme),
        "\x1b[38;2;139;139;139m↻ later\x1b[0m"
    );
    let ts = Some("2026-03-10T19:00:00Z".to_string());
    let shown = format_reset_time(&ts, false, &theme);
    let display = reset_display(&ts, false).unwrap();
    assert_eq!(shown, format!("\x1b[38;2;139;139;139m↻ {}\x1b[0m", display));
}

#[test]
fn usage_steps() {
    assert!(matches!(next_usage_step(UsageEvent::FreshCache(true)), UsageStep::UseCache));
    assert!(matches!(next_usage_step(UsageEvent::FreshCache(false)), UsageStep::FindToken));
    assert!(matches!(next_usage_step(UsageEvent::Token(false)), UsageStep::NoUsage));
    assert!(matches!(next_usage_step(UsageEvent::Token(true)), UsageStep::Fetch));
    assert!(matches!(next_usage_step(UsageEvent::Fetched(true)), UsageStep::UseFetchedAndCache));
    assert!(matches!(next_usage_step(UsageEvent::Fetched(false)), UsageStep::UseStaleCache));
}
