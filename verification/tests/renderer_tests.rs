use statusline::engine::renderer::{
    ansi_bold, ansi_fg, hex_to_rgb, join_segments, render_dot_bar, rgb_fg,
    rgb_fg_code, RESET,
};

#[test]
fn test_hex_to_rgb() {
    assert_eq!(hex_to_rgb("#A0B9C6"), Some((160, 185, 198)));
    assert_eq!(hex_to_rgb("#000000"), Some((0, 0, 0)));
    assert_eq!(hex_to_rgb("#FFFFFF"), Some((255, 255, 255)));
    assert_eq!(hex_to_rgb("invalid"), None);
}

#[test]
fn test_rgb_fg() {
    let result = rgb_fg("hello", "#FF0000");
    assert!(result.contains("\x1b[38;2;255;0;0m"));
    assert!(result.contains("hello"));
    assert!(result.ends_with("\x1b[0m"));
}

#[test]
fn hex_to_rgb_edge_cases() {
    // every leading '#' is dropped, none is required
    assert_eq!(hex_to_rgb("##a0b9c6"), Some((160, 185, 198)));
    assert_eq!(hex_to_rgb("a0b9c6"), Some((160, 185, 198)));
    // only six hex digits are read: no sign
    assert_eq!(hex_to_rgb("#+F+F+F"), None);
    assert_eq!(hex_to_rgb("#+1+2+3"), None);
    assert_eq!(hex_to_rgb("#12345"), None);
    assert_eq!(hex_to_rgb("#1234567"), None);
    assert_eq!(hex_to_rgb("#GG0000"), None);
    assert_eq!(hex_to_rgb(""), None);
    assert_eq!(hex_to_rgb("#-10000"), None);
    // six characters but more than six bytes
    assert_eq!(hex_to_rgb("#é12345"), None);
}

#[test]
fn non_ascii_colours_read_as_none() {
    assert_eq!(hex_to_rgb("#aé123"), None);
    assert_eq!(hex_to_rgb("é1234"), None);
    assert_eq!(hex_to_rgb("#12aé1"), None);
    assert_eq!(hex_to_rgb("#zzaé1"), None);
    assert_eq!(hex_to_rgb("#a€bc"), None);
    assert_eq!(rgb_fg("x", "#aé123"), "x");
    assert_eq!(rgb_fg_code("#12aé1"), "");
}

#[test]
fn rgb_fg_invalid_color_leaves_text() {
    assert_eq!(rgb_fg("hello", "nope"), "hello");
    assert_eq!(rgb_fg_code("nope"), "");
    assert_eq!(rgb_fg_code("#010203"), "\x1b[38;2;1;2;3m");
    assert_eq!(rgb_fg("x", "#7BA58A"), "\x1b[38;2;123;165;138mx\x1b[0m");
}

#[test]
fn ansi_codes() {
    assert_eq!(ansi_bold("hi", 13), "\x1b[1;95mhi\x1b[0m");
    assert_eq!(ansi_bold("hi", 7), "\x1b[1;37mhi\x1b[0m");
    assert_eq!(ansi_fg("hi", 0), "\x1b[30mhi\x1b[0m");
    assert_eq!(ansi_fg("hi", 8), "\x1b[90mhi\x1b[0m");
    assert_eq!(ansi_fg("hi", 255), "\x1b[337mhi\x1b[0m");
    assert_eq!(RESET, "\x1b[0m");
}

#[test]
fn join_skips_empty_segments() {
    let segs = vec!["a".to_string(), String::new(), "b".to_string(), String::new()];
    let sep = ansi_fg(" | ", 7);
    assert_eq!(join_segments(&segs, " | ", 7), format!("a{}b", sep));
    assert_eq!(join_segments(&[String::new()], " | ", 7), "");
    assert_eq!(join_segments(&["only".to_string()], " | ", 7), "only");
    let without = vec!["a".to_string(), "b".to_string()];
    assert_eq!(join_segments(&segs, " | ", 7), join_segments(&without, " | ", 7));
}

#[test]
fn dot_bar_counts() {
    let bar = render_dot_bar(3, 10, "#7BA58A", "#4A4A4A");
    assert!(bar.contains("●●●"));
    assert!(bar.contains("○○○○○○○"));
    assert_eq!(bar.matches('●').count(), 3);
    assert_eq!(bar.matches('○').count(), 7);
    let over = render_dot_bar(15, 10, "#7BA58A", "#4A4A4A");
    assert_eq!(over.matches('●').count(), 10);
    assert_eq!(over.matches('○').count(), 0);
    assert_eq!(
        render_dot_bar(1, 2, "bad", "#000000"),
        "●\x1b[38;2;0;0;0m○"
    );
}

#[test]
fn hex_round_trip_values() {
    for v in (0u16..=255).step_by(17).chain([1, 128, 254]) {
        let v = v as u8;
        let (r, g, b) = (v, 255 - v, v / 2);
        let upper = format!("#{:02X}{:02X}{:02X}", r, g, b);
        assert_eq!(hex_to_rgb(&upper), Some((r, g, b)));
    }
}
