use vstd::prelude::*;

use crate::config::theme::ResolvedTheme;
use crate::engine::input::InputData;
use crate::engine::renderer::{
    dot_bar_text, render_dot_bar, rgb_fg, rgb_fg_text, RESET,
};
use crate::engine::segment::SegmentOutput;
use crate::segments::effort::opt_view;
use crate::text::{chars_of, decimal, push_char, push_decimal};

verus! {

/// The five-hour and seven-day rate-limit bars (lines 2 and 3).
pub struct UsageSegment {
    pub cache_ttl_secs: u64,
}

/// One rate-limit window as it is drawn: the utilisation rounded to a whole
/// percent, the number of filled dots out of ten, and when the window resets.
pub struct UsageWindow {
    pub percent: u32,
    pub filled_dots: usize,
    pub resets_at: Option<String>,
}

/// Both rate-limit windows.
pub struct UsageFigures {
    pub five_hour: UsageWindow,
    pub seven_day: UsageWindow,
}

/// Whether `ts` is an RFC 3339 timestamp: `chrono::DateTime::parse_from_rfc3339` accepts it.
pub uninterp spec fn is_rfc3339(ts: Seq<char>) -> bool;

/// Whether `c` is an ASCII digit.
pub open spec fn is_digit(c: char) -> bool {
    '0' <= c && c <= '9'
}

/// An hour on a 12-hour clock without padding: `1` to `12`.
pub open spec fn is_hour12(s: Seq<char>) -> bool {
    ||| (s.len() == 1 && '1' <= s[0] && s[0] <= '9')
    ||| (s.len() == 2 && s[0] == '1' && '0' <= s[1] && s[1] <= '2')
}

/// Minutes in two digits: `00` to `59`.
pub open spec fn is_minute(s: Seq<char>) -> bool {
    s.len() == 2 && '0' <= s[0] && s[0] <= '5' && is_digit(s[1])
}

/// The shape of `%-I:%M%P`: `h:mmam` or `h:mmpm`, as `7:00pm` or `12:05am`.
pub open spec fn is_clock_text(s: Seq<char>) -> bool {
    let n = s.len() as int;
    &&& n >= 6
    &&& is_hour12(s.take(n - 5))
    &&& s[n - 5] == ':'
    &&& is_minute(s.subrange(n - 4, n - 2))
    &&& (s.skip(n - 2) == "am"@ || s.skip(n - 2) == "pm"@)
}

/// The English abbreviated month names of `%b`, as chrono writes them (`Mar`).
pub open spec fn is_month_abbr(s: Seq<char>) -> bool {
    ||| s == "Jan"@
    ||| s == "Feb"@
    ||| s == "Mar"@
    ||| s == "Apr"@
    ||| s == "May"@
    ||| s == "Jun"@
    ||| s == "Jul"@
    ||| s == "Aug"@
    ||| s == "Sep"@
    ||| s == "Oct"@
    ||| s == "Nov"@
    ||| s == "Dec"@
}

/// The same month names in small letters, as the status line shows them (`mar`).
pub open spec fn is_small_month_abbr(s: Seq<char>) -> bool {
    ||| s == "jan"@
    ||| s == "feb"@
    ||| s == "mar"@
    ||| s == "apr"@
    ||| s == "may"@
    ||| s == "jun"@
    ||| s == "jul"@
    ||| s == "aug"@
    ||| s == "sep"@
    ||| s == "oct"@
    ||| s == "nov"@
    ||| s == "dec"@
}

/// A day of the month without padding: `1` to `31`.
pub open spec fn is_day(s: Seq<char>) -> bool {
    ||| (s.len() == 1 && '1' <= s[0] && s[0] <= '9')
    ||| (s.len() == 2 && '1' <= s[0] && s[0] <= '3' && is_digit(s[1]) && (s[0] != '3' || s[1] <= '1'))
}

/// Day, comma and clock after the month and its space: `10, 10:00am`.
pub open spec fn is_day_and_clock(s: Seq<char>) -> bool {
    ||| (s.len() >= 3 && is_day(s.take(1)) && s.subrange(1, 3) == ", "@ && is_clock_text(s.skip(3)))
    ||| (s.len() >= 4 && is_day(s.take(2)) && s.subrange(2, 4) == ", "@ && is_clock_text(s.skip(4)))
}

/// The shape of `%b %-d, %-I:%M%P`: month, day, comma, then the clock, as `Mar 10, 10:00am`.
pub open spec fn is_dated_clock_text(s: Seq<char>) -> bool {
    &&& s.len() >= 4
    &&& is_month_abbr(s.take(3))
    &&& s[3] == ' '
    &&& is_day_and_clock(s.skip(4))
}

/// The dated reset time as the status line shows it: the month in small
/// letters, as `mar 10, 10:00am`.
pub open spec fn is_shown_dated_clock_text(s: Seq<char>) -> bool {
    &&& s.len() >= 4
    &&& is_small_month_abbr(s.take(3))
    &&& s[3] == ' '
    &&& is_day_and_clock(s.skip(4))
}

/// The shape of a shown reset time: with the date when `include_date`, else the time alone.
#[verifier::opaque]
pub open spec fn has_reset_shape(s: Seq<char>, include_date: bool) -> bool {
    if include_date {
        is_shown_dated_clock_text(s)
    } else {
        is_clock_text(s)
    }
}

/// `c` with an ASCII capital letter turned into its small letter.
pub open spec fn ascii_lower(c: char) -> char {
    if 'A' <= c && c <= 'Z' {
        ((c as int) + 32) as char
    } else {
        c
    }
}

/// `s` with every ASCII capital letter in small letters.
pub open spec fn lower_text(s: Seq<char>) -> Seq<char> {
    s.map_values(|c: char| ascii_lower(c))
}

/// `s` with every ASCII capital letter in small letters; all else is kept.
pub fn to_ascii_lower(s: &str) -> (r: String)
    ensures
        r@ == lower_text(s@),
{
    let cs = chars_of(s);
    let mut r = String::new();
    for i in 0..cs.len()
        invariant
            cs@ == s@,
            r@ == lower_text(s@).take(i as int),
    {
        let c = cs[i];
        let l = if 'A' <= c && c <= 'Z' {
            ((c as u8) + 32) as char
        } else {
            c
        };
        push_char(&mut r, l);
        assert(lower_text(s@).take(i as int).push(l) =~= lower_text(s@).take(i + 1));
    }
    assert(lower_text(s@).take(cs.len() as int) =~= lower_text(s@));
    r
}

/// The text chrono writes for the instant `ts` seen at `offset_secs` seconds
/// east of UTC: `chrono::DateTime::parse_from_rfc3339(ts)`, then
/// `with_timezone(&chrono::FixedOffset::east_opt(offset_secs))`, then
/// `format(fmt)`.
pub uninterp spec fn rfc3339_text_at(ts: Seq<char>, offset_secs: int, fmt: Seq<char>) -> Seq<char>;

/// An offset from UTC that chrono's `FixedOffset` can hold: under a day either way.
pub open spec fn offset_ok(offset_secs: int) -> bool {
    -86_400 < offset_secs && offset_secs < 86_400
}

/// The offset of the machine's local time zone from UTC at the instant `ts`:
/// `chrono::DateTime::parse_from_rfc3339(ts)`, then
/// `with_timezone(&chrono::Local).offset().local_minus_utc()` (chrono falls
/// back to UTC when it can read no zone). The contract claims that an offset
/// comes back exactly when `ts` parses, and that it is under a day either
/// way, as every `FixedOffset` is. Which offset it is depends on the
/// machine's time zone and is not stated.
#[verifier::external_body]
fn local_offset_secs(ts: &str) -> (r: Option<i32>)
    ensures
        r is Some <==> is_rfc3339(ts@),
        r matches Some(o) ==> offset_ok(o as int),
{
    match chrono::DateTime::parse_from_rfc3339(ts) {
        Ok(dt) => Some(dt.with_timezone(&chrono::Local).offset().local_minus_utc()),
        Err(_) => None,
    }
}

/// `chrono::DateTime::parse_from_rfc3339(ts)` seen at the fixed offset
/// `offset_secs` and written with `format(fmt)`. The contract claims that a
/// text comes back exactly when `ts` parses, that it is the named
/// `rfc3339_text_at(ts, offset_secs, fmt)`, and that it has the shape chrono
/// documents for `fmt`: `%-I` the hour 1–12 without padding, `%M` two-digit
/// minutes, `%P` `am`/`pm`, `%b` the English abbreviated month, `%-d` the
/// day without padding.
#[verifier::external_body]
fn text_at_offset(ts: &str, offset_secs: i32, fmt: &str) -> (r: Option<String>)
    requires
        offset_ok(offset_secs as int),
        fmt@ == "%-I:%M%P"@ || fmt@ == "%b %-d, %-I:%M%P"@,
    ensures
        r is Some <==> is_rfc3339(ts@),
        r matches Some(t) ==> t@ == rfc3339_text_at(ts@, offset_secs as int, fmt@),
        r matches Some(t) ==> (fmt@ == "%-I:%M%P"@ ==> is_clock_text(t@)),
        r matches Some(t) ==> (fmt@ == "%b %-d, %-I:%M%P"@ ==> is_dated_clock_text(t@)),
{
    let offset = chrono::FixedOffset::east_opt(offset_secs)?;
    match chrono::DateTime::parse_from_rfc3339(ts) {
        Ok(dt) => Some(dt.with_timezone(&offset).format(fmt).to_string()),
        Err(_) => None,
    }
}

/// The format of a reset time: with the date when `include_date`, else the time alone.
pub open spec fn reset_format(include_date: bool) -> Seq<char> {
    if include_date {
        "%b %-d, %-I:%M%P"@
    } else {
        "%-I:%M%P"@
    }
}

/// What is shown for `resets_at` in a zone `offset_secs` east of UTC: none
/// without a time; the timestamp as it is when it is not RFC 3339; else the
/// instant as chrono writes it there, its capital letters made small.
pub open spec fn shown_reset(resets_at: Option<String>, offset_secs: int, include_date: bool) -> Option<Seq<char>> {
    match resets_at {
        None => None,
        Some(ts) => if is_rfc3339(ts@) {
            Some(lower_text(rfc3339_text_at(ts@, offset_secs, reset_format(include_date))))
        } else {
            Some(ts@)
        },
    }
}

/// What is shown for `resets_at`, given what chrono made of it (`local`):
/// none without a time; chrono's local time with its capital letters made
/// small; the timestamp as it is when chrono could not read it.
pub open spec fn shown_display(resets_at: Option<String>, local: Option<Seq<char>>) -> Option<Seq<char>> {
    match resets_at {
        None => None,
        Some(ts) => match local {
            Some(t) => Some(lower_text(t)),
            None => Some(ts@),
        },
    }
}

/// The text to show for a reset time, from the timestamp and what chrono
/// made of it.
pub fn display_from(resets_at: &Option<String>, local: Option<String>) -> (r: Option<String>)
    ensures
        opt_view(r) == shown_display(*resets_at, opt_view(local)),
{
    match resets_at {
        None => None,
        Some(ts) => match local {
            Some(t) => Some(to_ascii_lower(t.as_str())),
            None => Some(ts.clone()),
        },
    }
}

/// Whether `display` can be what is shown for `resets_at`: what
/// `shown_reset` gives at some offset chrono can hold, which for an RFC 3339
/// timestamp has the shape of a reset time.
pub open spec fn display_fits(display: Option<Seq<char>>, resets_at: Option<String>, include_date: bool) -> bool {
    &&& exists|off: int| #[trigger] offset_ok(off) && display == shown_reset(resets_at, off, include_date)
    &&& (resets_at matches Some(ts) && is_rfc3339(ts@)) ==> (display matches Some(d) && has_reset_shape(
        d,
        include_date,
    ))
}

/// A character that is no ASCII capital letter.
pub open spec fn not_capital(c: char) -> bool {
    !('A' <= c && c <= 'Z')
}

/// A text without ASCII capital letters is its own small-letter form.
proof fn lemma_lower_keeps(s: Seq<char>)
    requires
        forall|i: int| 0 <= i < s.len() ==> not_capital(#[trigger] s[i]),
    ensures
        lower_text(s) == s,
{
    assert(lower_text(s) =~= s);
}

/// The clock text holds no capital letter, so making letters small keeps it.
proof fn lemma_clock_lower(s: Seq<char>)
    requires
        is_clock_text(s),
    ensures
        lower_text(s) == s,
{
    let n = s.len() as int;
    assert forall|i: int| 0 <= i < s.len() implies not_capital(#[trigger] s[i]) by {
        if i < n - 5 {
            assert(s.take(n - 5)[i] == s[i]);
        } else if i == n - 5 {
        } else if i < n - 2 {
            assert(s.subrange(n - 4, n - 2)[i - (n - 4)] == s[i]);
        } else {
            assert(s.skip(n - 2)[i - (n - 2)] == s[i]);
            reveal_strlit("am");
            reveal_strlit("pm");
        }
    }
    lemma_lower_keeps(s);
}

/// Day, comma and clock hold no capital letter either.
proof fn lemma_day_and_clock_lower(s: Seq<char>)
    requires
        is_day_and_clock(s),
    ensures
        lower_text(s) == s,
{
    reveal_strlit(", ");
    let k: int = if s.len() >= 3 && is_day(s.take(1)) && s.subrange(1, 3) == ", "@ && is_clock_text(s.skip(3)) {
        3
    } else {
        4
    };
    lemma_clock_lower(s.skip(k));
    assert forall|i: int| 0 <= i < s.len() implies not_capital(#[trigger] s[i]) by {
        if i < k - 2 {
            assert(s.take(k - 2)[i] == s[i]);
        } else if i < k {
            assert(s.subrange(k - 2, k)[i - (k - 2)] == s[i]);
        } else {
            assert(s.skip(k)[i - k] == s[i]);
            assert(lower_text(s.skip(k))[i - k] == ascii_lower(s[i]));
        }
    }
    lemma_lower_keeps(s);
}

/// Making chrono's month name small gives the shown month name.
proof fn lemma_month_lower(m: Seq<char>)
    requires
        is_month_abbr(m),
    ensures
        is_small_month_abbr(lower_text(m)),
{
    reveal_strlit("Jan"); reveal_strlit("Feb"); reveal_strlit("Mar"); reveal_strlit("Apr");
    reveal_strlit("May"); reveal_strlit("Jun"); reveal_strlit("Jul"); reveal_strlit("Aug");
    reveal_strlit("Sep"); reveal_strlit("Oct"); reveal_strlit("Nov"); reveal_strlit("Dec");
    reveal_strlit("jan"); reveal_strlit("feb"); reveal_strlit("mar"); reveal_strlit("apr");
    reveal_strlit("may"); reveal_strlit("jun"); reveal_strlit("jul"); reveal_strlit("aug");
    reveal_strlit("sep"); reveal_strlit("oct"); reveal_strlit("nov"); reveal_strlit("dec");
    assert(lower_text(m).len() == 3);
    assert(lower_text(m)[0] == ascii_lower(m[0]));
    assert(lower_text(m)[1] == ascii_lower(m[1]));
    assert(lower_text(m)[2] == ascii_lower(m[2]));
    if m == "Jan"@ { assert(lower_text(m) =~= "jan"@); }
    else if m == "Feb"@ { assert(lower_text(m) =~= "feb"@); }
    else if m == "Mar"@ { assert(lower_text(m) =~= "mar"@); }
    else if m == "Apr"@ { assert(lower_text(m) =~= "apr"@); }
    else if m == "May"@ { assert(lower_text(m) =~= "may"@); }
    else if m == "Jun"@ { assert(lower_text(m) =~= "jun"@); }
    else if m == "Jul"@ { assert(lower_text(m) =~= "jul"@); }
    else if m == "Aug"@ { assert(lower_text(m) =~= "aug"@); }
    else if m == "Sep"@ { assert(lower_text(m) =~= "sep"@); }
    else if m == "Oct"@ { assert(lower_text(m) =~= "oct"@); }
    else if m == "Nov"@ { assert(lower_text(m) =~= "nov"@); }
    else { assert(lower_text(m) =~= "dec"@); }
}

/// What chrono writes for a reset time, once its capital letters are made
/// small, has the shown shape.
proof fn lemma_lower_shape(t: Seq<char>, include_date: bool)
    requires
        if include_date { is_dated_clock_text(t) } else { is_clock_text(t) },
    ensures
        has_reset_shape(lower_text(t), include_date),
{
    reveal(has_reset_shape);
    if include_date {
        let m = t.take(3);
        let rest = t.skip(4);
        lemma_month_lower(m);
        lemma_day_and_clock_lower(rest);
        let l = lower_text(t);
        assert(l.take(3) =~= lower_text(m));
        assert(l[3] == ascii_lower(t[3]));
        assert(l.skip(4) =~= lower_text(rest));
    } else {
        lemma_clock_lower(t);
    }
}

/// The text to show for a reset time in a zone `offset_secs` east of UTC:
/// the time (`h:mmpm`, with the date `mon d, ` before it when
/// `include_date`) in small letters, or the timestamp as given when it is not
/// RFC 3339.
pub fn reset_display_at(resets_at: &Option<String>, offset_secs: i32, include_date: bool) -> (r: Option<String>)
    requires
        offset_ok(offset_secs as int),
    ensures
        opt_view(r) == shown_reset(*resets_at, offset_secs as int, include_date),
        (*resets_at matches Some(ts) && is_rfc3339(ts@)) ==> (r matches Some(d) && has_reset_shape(
            d@,
            include_date,
        )),
{
    match resets_at {
        Some(ts) => {
            let fmt = if include_date {
                "%b %-d, %-I:%M%P"
            } else {
                "%-I:%M%P"
            };
            proof {
                reveal_strlit("%b %-d, %-I:%M%P");
                reveal_strlit("%-I:%M%P");
            }
            let local = text_at_offset(ts.as_str(), offset_secs, fmt);
            proof {
                if local is Some {
                    lemma_lower_shape(local->0@, include_date);
                }
            }
            display_from(resets_at, local)
        },
        None => None,
    }
}

/// The text to show for a reset time in the machine's local time zone at
/// that instant, as `reset_display_at` shows it.
pub fn reset_display(resets_at: &Option<String>, include_date: bool) -> (r: Option<String>)
    ensures
        display_fits(opt_view(r), *resets_at, include_date),
{
    match resets_at {
        Some(ts) => match local_offset_secs(ts.as_str()) {
            Some(off) => {
                let r = reset_display_at(resets_at, off, include_date);
                assert(offset_ok(off as int) && opt_view(r) == shown_reset(*resets_at, off as int, include_date));
                r
            },
            None => {
                let r = Some(ts.clone());
                assert(offset_ok(0) && opt_view(r) == shown_reset(*resets_at, 0, include_date));
                r
            },
        },
        None => {
            assert(offset_ok(0) && None::<Seq<char>> == shown_reset(*resets_at, 0, include_date));
            None
        },
    }
}

/// `↻ <display>` in the reset-time colour; nothing without a display.
pub open spec fn reset_part_text(display: Option<Seq<char>>, theme: ResolvedTheme) -> Seq<char> {
    match display {
        Some(d) => rgb_fg_text("↻ "@ + d, theme.reset_time@),
        None => Seq::empty(),
    }
}

/// One usage line: label, gap, the ten-dot bar, a reset, the percentage and the reset time.
pub open spec fn usage_line_text(
    label: Seq<char>,
    gap: Seq<char>,
    w: UsageWindow,
    fill: Seq<char>,
    theme: ResolvedTheme,
    display: Option<Seq<char>>,
) -> Seq<char> {
    rgb_fg_text(label, theme.reset_time@) + gap + dot_bar_text(w.filled_dots as nat, 10, fill, theme.usage_empty@)
        + "\x1b[0m"@ + "  "@ + rgb_fg_text(decimal(w.percent as nat) + "%"@, fill) + "  "@ + reset_part_text(
        display,
        theme,
    )
}

/// The current (five-hour) line.
pub open spec fn current_line(u: UsageFigures, theme: ResolvedTheme, display: Option<Seq<char>>) -> Seq<char> {
    usage_line_text("current"@, "  "@, u.five_hour, theme.usage_current_fill@, theme, display)
}

/// The weekly (seven-day) line.
pub open spec fn weekly_line(u: UsageFigures, theme: ResolvedTheme, display: Option<Seq<char>>) -> Seq<char> {
    usage_line_text("weekly"@, "   "@, u.seven_day, theme.usage_weekly_fill@, theme, display)
}

/// Draws `↻ <display>` in the reset-time colour; nothing without a display.
pub fn reset_part(display: &Option<String>, theme: &ResolvedTheme) -> (r: String)
    ensures
        r@ == reset_part_text(opt_view(*display), *theme),
{
    match display {
        Some(d) => {
            let mut label = String::from_str("↻ ");
            label.append(d.as_str());
            rgb_fg(label.as_str(), theme.reset_time.as_str())
        },
        None => String::new(),
    }
}

/// `↻ <reset time>` in the reset-time colour, the time shown as
/// `reset_display` shows it; nothing without a reset time.
pub fn format_reset_time(resets_at: &Option<String>, include_date: bool, theme: &ResolvedTheme) -> (r: String)
    ensures
        exists|d: Option<Seq<char>>|
            #![trigger display_fits(d, *resets_at, include_date)]
            display_fits(d, *resets_at, include_date) && r@ == reset_part_text(d, *theme),
{
    let display = reset_display(resets_at, include_date);
    let r = reset_part(&display, theme);
    assert(display_fits(opt_view(display), *resets_at, include_date));
    r
}

fn usage_line(
    label: &str,
    gap: &str,
    w: &UsageWindow,
    fill: &str,
    theme: &ResolvedTheme,
    display: &Option<String>,
) -> (r: String)
    ensures
        r@ == usage_line_text(label@, gap@, *w, fill@, *theme, opt_view(*display)),
{
    let mut line = rgb_fg(label, theme.reset_time.as_str());
    line.append(gap);
    let bar = render_dot_bar(w.filled_dots, 10, fill, theme.usage_empty.as_str());
    line.append(bar.as_str());
    line.append(RESET);
    line.append("  ");
    let mut pct = String::new();
    push_decimal(&mut pct, w.percent as u128);
    pct.append("%");
    let pct_text = rgb_fg(pct.as_str(), fill);
    line.append(pct_text.as_str());
    line.append("  ");
    let reset = reset_part(display, theme);
    line.append(reset.as_str());
    proof {
        reveal_strlit("\x1b[0m");
    }
    assert(line@ =~= usage_line_text(label@, gap@, *w, fill@, *theme, opt_view(*display)));
    line
}

impl UsageSegment {
    /// Draws both lines from the figures and the reset times to show.
    pub fn render_with_displays(
        &self,
        theme: &ResolvedTheme,
        usage: &UsageFigures,
        current_display: &Option<String>,
        weekly_display: &Option<String>,
    ) -> (r: Vec<SegmentOutput>)
        ensures
            r.len() == 2,
            r[0].text@ == current_line(*usage, *theme, opt_view(*current_display)),
            r[1].text@ == weekly_line(*usage, *theme, opt_view(*weekly_display)),
    {
        let current = usage_line(
            "current",
            "  ",
            &usage.five_hour,
            theme.usage_current_fill.as_str(),
            theme,
            current_display,
        );
        let weekly = usage_line(
            "weekly",
            "   ",
            &usage.seven_day,
            theme.usage_weekly_fill.as_str(),
            theme,
            weekly_display,
        );
        let mut out: Vec<SegmentOutput> = Vec::new();
        out.push(SegmentOutput { text: current });
        out.push(SegmentOutput { text: weekly });
        out
    }

    /// Draws the two usage lines; nothing when no usage figures could be had.
    /// The current line shows its reset as a time, the weekly one with the date.
    pub fn render(&self, _input: &InputData, theme: &ResolvedTheme, usage: &Option<UsageFigures>) -> (r: Vec<
        SegmentOutput,
    >)
        ensures
            *usage is None ==> r.len() == 0,
            *usage matches Some(u) ==> r.len() == 2 && exists|c: Option<Seq<char>>, w: Option<Seq<char>>|
                #![trigger display_fits(c, u.five_hour.resets_at, false), display_fits(w, u.seven_day.resets_at, true)]
                {
                    &&& display_fits(c, u.five_hour.resets_at, false)
                    &&& display_fits(w, u.seven_day.resets_at, true)
                    &&& r[0].text@ == current_line(u, *theme, c)
                    &&& r[1].text@ == weekly_line(u, *theme, w)
                },
    {
        match usage {
            Some(u) => {
                let current = reset_display(&u.five_hour.resets_at, false);
                let weekly = reset_display(&u.seven_day.resets_at, true);
                let r = self.render_with_displays(theme, u, &current, &weekly);
                assert(display_fits(opt_view(current), u.five_hour.resets_at, false) && display_fits(
                    opt_view(weekly),
                    u.seven_day.resets_at,
                    true,
                ));
                r
            },
            None => Vec::new(),
        }
    }
}

} // verus!
