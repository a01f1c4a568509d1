use vstd::prelude::*;

use crate::text::{chars_of, decimal, join_texts, push_char, push_decimal, texts_of};

verus! {

broadcast use vstd::string::group_string_axioms;

/// The escape sequence that resets all terminal attributes.
pub const RESET: &'static str = "\x1b[0m";

/// `str::trim_start_matches('#')`: drops every leading `#`.
pub open spec fn strip_hashes(s: Seq<char>) -> Seq<char>
    decreases s.len(),
{
    if s.len() > 0 && s[0] == '#' {
        strip_hashes(s.drop_first())
    } else {
        s
    }
}

/// The value of one hexadecimal digit, either case.
pub open spec fn hex_digit_value(c: char) -> Option<u8> {
    if '0' <= c && c <= '9' {
        Some((c as int - 48) as u8)
    } else if 'a' <= c && c <= 'f' {
        Some((c as int - 87) as u8)
    } else if 'A' <= c && c <= 'F' {
        Some((c as int - 55) as u8)
    } else {
        None
    }
}

/// The byte written as two hexadecimal digits.
pub open spec fn hex_pair_value(a: char, b: char) -> Option<u8> {
    match (hex_digit_value(a), hex_digit_value(b)) {
        (Some(x), Some(y)) => Some((16 * x + y) as u8),
        _ => None,
    }
}

/// The colour that a `#RRGGBB` string denotes: after the leading `#`s exactly
/// six ASCII hexadecimal digits (either case), read in pairs as red, green
/// and blue; anything else is no colour.
pub open spec fn parse_hex_color(hex: Seq<char>) -> Option<(u8, u8, u8)> {
    let h = strip_hashes(hex);
    if h.len() != 6 {
        None
    } else {
        match (hex_pair_value(h[0], h[1]), hex_pair_value(h[2], h[3]), hex_pair_value(h[4], h[5])) {
            (Some(r), Some(g), Some(b)) => Some((r, g, b)),
            _ => None,
        }
    }
}

proof fn lemma_strip_hashes_at(s: Seq<char>, i: int)
    requires
        0 <= i <= s.len(),
        forall|k: int| 0 <= k < i ==> #[trigger] s[k] == '#',
        i == s.len() || s[i] != '#',
    ensures
        strip_hashes(s) == s.subrange(i, s.len() as int),
    decreases i,
{
    if i == 0 {
        assert(s.subrange(0, s.len() as int) =~= s);
    } else {
        let t = s.drop_first();
        assert forall|k: int| 0 <= k < i - 1 implies #[trigger] t[k] == '#' by {
            assert(t[k] == s[k + 1]);
        }
        if i - 1 < t.len() {
            assert(t[i - 1] == s[i]);
        }
        lemma_strip_hashes_at(t, i - 1);
        assert(t.subrange(i - 1, t.len() as int) =~= s.subrange(i, s.len() as int));
    }
}

/// The characters of `hex` after its leading `#`s.
fn strip_hashes_chars(hex: &str) -> (r: Vec<char>)
    ensures
        r@ == strip_hashes(hex@),
{
    let s = chars_of(hex);
    let n = s.len();
    let mut i: usize = 0;
    while i < n && s[i] == '#'
        invariant
            i <= n,
            n == s.len(),
            forall|k: int| 0 <= k < i ==> #[trigger] s@[k] == '#',
        decreases n - i,
    {
        i = i + 1;
    }
    proof {
        lemma_strip_hashes_at(s@, i as int);
    }
    let mut r: Vec<char> = Vec::new();
    let mut k: usize = i;
    while k < n
        invariant
            i <= k <= n,
            n == s.len(),
            r@ == s@.subrange(i as int, k as int),
        decreases n - k,
    {
        r.push(s[k]);
        assert(s@.subrange(i as int, k as int).push(s@[k as int]) =~= s@.subrange(i as int, k + 1));
        k = k + 1;
    }
    r
}

fn hex_digit(c: char) -> (r: Option<u8>)
    ensures
        r == hex_digit_value(c),
{
    if '0' <= c && c <= '9' {
        Some(((c as u32) - 48) as u8)
    } else if 'a' <= c && c <= 'f' {
        Some(((c as u32) - 87) as u8)
    } else if 'A' <= c && c <= 'F' {
        Some(((c as u32) - 55) as u8)
    } else {
        None
    }
}

fn hex_pair(a: char, b: char) -> (r: Option<u8>)
    ensures
        r == hex_pair_value(a, b),
{
    match (hex_digit(a), hex_digit(b)) {
        (Some(x), Some(y)) => Some(16 * x + y),
        _ => None,
    }
}

/// Parses a `#RRGGBB` colour into its red, green and blue components.
pub fn hex_to_rgb(hex: &str) -> (r: Option<(u8, u8, u8)>)
    ensures
        r == parse_hex_color(hex@),
{
    let h = strip_hashes_chars(hex);
    if h.len() != 6 {
        return None;
    }
    let r = hex_pair(h[0], h[1]);
    let g = hex_pair(h[2], h[3]);
    let b = hex_pair(h[4], h[5]);
    match (r, g, b) {
        (Some(r), Some(g), Some(b)) => Some((r, g, b)),
        _ => None,
    }
}


/// The escape sequence that selects the 24-bit foreground colour `(r, g, b)`.
pub open spec fn rgb_escape(r: u8, g: u8, b: u8) -> Seq<char> {
    "\x1b[38;2;"@ + decimal(r as nat) + ";"@ + decimal(g as nat) + ";"@ + decimal(b as nat) + "m"@
}

/// The foreground escape for the colour `hex`, or nothing when `hex` is no colour.
pub open spec fn rgb_fg_code_text(hex: Seq<char>) -> Seq<char> {
    match parse_hex_color(hex) {
        Some((r, g, b)) => rgb_escape(r, g, b),
        None => Seq::empty(),
    }
}

/// `text` in the colour `hex` followed by a reset, or `text` alone when `hex` is no colour.
pub open spec fn rgb_fg_text(text: Seq<char>, hex: Seq<char>) -> Seq<char> {
    match parse_hex_color(hex) {
        Some((r, g, b)) => rgb_escape(r, g, b) + text + "\x1b[0m"@,
        None => text,
    }
}

fn push_rgb_escape(s: &mut String, r: u8, g: u8, b: u8)
    ensures
        final(s)@ == old(s)@ + rgb_escape(r, g, b),
{
    s.append("\x1b[38;2;");
    push_decimal(s, r as u128);
    s.append(";");
    push_decimal(s, g as u128);
    s.append(";");
    push_decimal(s, b as u128);
    s.append("m");
    assert(final(s)@ =~= old(s)@ + rgb_escape(r, g, b));
}

/// Wraps `text` in the 24-bit foreground colour `hex`, ending with a reset.
pub fn rgb_fg(text: &str, hex: &str) -> (r: String)
    ensures
        r@ == rgb_fg_text(text@, hex@),
{
    match hex_to_rgb(hex) {
        Some((r, g, b)) => {
            let mut s = String::new();
            push_rgb_escape(&mut s, r, g, b);
            s.append(text);
            s.append("\x1b[0m");
            assert(s@ =~= rgb_escape(r, g, b) + text@ + "\x1b[0m"@);
            s
        },
        None => String::from_str(text),
    }
}

/// The foreground escape for the colour `hex`, without a reset.
pub fn rgb_fg_code(hex: &str) -> (r: String)
    ensures
        r@ == rgb_fg_code_text(hex@),
{
    match hex_to_rgb(hex) {
        Some((r, g, b)) => {
            let mut s = String::new();
            push_rgb_escape(&mut s, r, g, b);
            assert(s@ =~= rgb_escape(r, g, b));
            s
        },
        None => String::new(),
    }
}

/// The SGR parameter of the 16-colour palette entry `c16`: 30–37 for the
/// first eight colours, 90 and up for the bright ones.
pub open spec fn ansi16_code(c16: u8) -> nat {
    if c16 < 8 {
        (30 + c16) as nat
    } else {
        (90 + (c16 - 8)) as nat
    }
}

/// `text` in bold and palette colour `c16`, followed by a reset.
pub open spec fn ansi_bold_text(text: Seq<char>, c16: u8) -> Seq<char> {
    "\x1b[1;"@ + decimal(ansi16_code(c16)) + "m"@ + text + "\x1b[0m"@
}

/// `text` in palette colour `c16`, followed by a reset.
pub open spec fn ansi_fg_text(text: Seq<char>, c16: u8) -> Seq<char> {
    "\x1b["@ + decimal(ansi16_code(c16)) + "m"@ + text + "\x1b[0m"@
}

fn ansi16(c16: u8) -> (code: u32)
    ensures
        code == ansi16_code(c16),
{
    if c16 < 8 {
        30 + c16 as u32
    } else {
        90 + (c16 - 8) as u32
    }
}

/// Wraps `text` in bold and 16-colour foreground `c16`.
pub fn ansi_bold(text: &str, c16: u8) -> (r: String)
    ensures
        r@ == ansi_bold_text(text@, c16),
{
    let code = ansi16(c16);
    let mut s = String::from_str("\x1b[1;");
    push_decimal(&mut s, code as u128);
    s.append("m");
    s.append(text);
    s.append("\x1b[0m");
    assert(s@ =~= ansi_bold_text(text@, c16));
    s
}

/// Wraps `text` in 16-colour foreground `c16` (no bold).
pub fn ansi_fg(text: &str, c16: u8) -> (r: String)
    ensures
        r@ == ansi_fg_text(text@, c16),
{
    let code = ansi16(c16);
    let mut s = String::from_str("\x1b[");
    push_decimal(&mut s, code as u128);
    s.append("m");
    s.append(text);
    s.append("\x1b[0m");
    assert(s@ =~= ansi_fg_text(text@, c16));
    s
}

/// `parts` without its empty entries, in order.
pub open spec fn drop_empty(parts: Seq<Seq<char>>) -> Seq<Seq<char>>
    decreases parts.len(),
{
    if parts.len() == 0 {
        Seq::empty()
    } else {
        let rest = drop_empty(parts.drop_last());
        if parts.last().len() > 0 {
            rest.push(parts.last())
        } else {
            rest
        }
    }
}

/// Joins the non-empty `segments` with `separator` drawn in palette colour `sep_ansi`.
pub fn join_segments(segments: &[String], separator: &str, sep_ansi: u8) -> (r: String)
    ensures
        r@ == join_texts(drop_empty(texts_of(segments@)), ansi_fg_text(separator@, sep_ansi)),
{
    let colored_sep = ansi_fg(separator, sep_ansi);
    join_nonempty(segments, colored_sep.as_str())
}

/// Joins the non-empty `segments` with the already drawn separator `colored_sep`.
pub fn join_nonempty(segments: &[String], colored_sep: &str) -> (r: String)
    ensures
        r@ == join_texts(drop_empty(texts_of(segments@)), colored_sep@),
{
    let mut out = String::new();
    let mut any = false;
    let n = segments.len();
    for i in 0..n
        invariant
            n == segments@.len(),
            any == (drop_empty(texts_of(segments@.take(i as int))).len() > 0),
            out@ == join_texts(drop_empty(texts_of(segments@.take(i as int))), colored_sep@),
    {
        let seg = &segments[i];
        let ghost before = drop_empty(texts_of(segments@.take(i as int)));
        assert(texts_of(segments@.take(i + 1)).drop_last() =~= texts_of(segments@.take(i as int)));
        assert(texts_of(segments@.take(i + 1)).last() == segments@[i as int]@);
        if !seg.as_str().is_empty() {
            let ghost after = before.push(seg@);
            assert(after.drop_last() =~= before);
            if any {
                out.append(colored_sep);
            }
            out.append(seg.as_str());
            proof {
                if before.len() == 0 {
                    assert(out@ =~= after[0]);
                } else {
                    assert(out@ =~= join_texts(before, colored_sep@) + colored_sep@ + after.last());
                }
            }
            any = true;
        }
    }
    assert(segments@.take(n as int) =~= segments@);
    out
}

/// The colour a configured override stands for: none when nothing is
/// configured or the text is no `#RRGGBB` colour.
pub open spec fn usable_color(custom: Option<String>) -> Option<(u8, u8, u8)> {
    match custom {
        Some(hex) => parse_hex_color(hex@),
        None => None,
    }
}

/// `text` in bold and the 24-bit colour `(r, g, b)`, followed by a reset.
pub open spec fn rgb_bold_text(text: Seq<char>, r: u8, g: u8, b: u8) -> Seq<char> {
    "\x1b[1;38;2;"@ + decimal(r as nat) + ";"@ + decimal(g as nat) + ";"@ + decimal(b as nat) + "m"@ + text
        + "\x1b[0m"@
}

/// `text` in bold: in the configured colour when one is usable, else in
/// palette colour `c16`.
pub open spec fn paint_bold_text(text: Seq<char>, custom: Option<String>, c16: u8) -> Seq<char> {
    match usable_color(custom) {
        Some((r, g, b)) => rgb_bold_text(text, r, g, b),
        None => ansi_bold_text(text, c16),
    }
}

/// `text` in the configured colour when one is usable, else in palette colour `c16`.
pub open spec fn paint_fg_text(text: Seq<char>, custom: Option<String>, c16: u8) -> Seq<char> {
    match usable_color(custom) {
        Some((r, g, b)) => rgb_escape(r, g, b) + text + "\x1b[0m"@,
        None => ansi_fg_text(text, c16),
    }
}

/// The colour that an override stands for, if it is usable.
pub fn usable_rgb(custom: &Option<String>) -> (r: Option<(u8, u8, u8)>)
    ensures
        r == usable_color(*custom),
{
    match custom {
        Some(hex) => hex_to_rgb(hex.as_str()),
        None => None,
    }
}

/// Draws `text` in bold, in the configured colour when usable, else in palette colour `c16`.
pub fn paint_bold(text: &str, custom: &Option<String>, c16: u8) -> (r: String)
    ensures
        r@ == paint_bold_text(text@, *custom, c16),
{
    match usable_rgb(custom) {
        Some((r, g, b)) => {
            let mut s = String::from_str("\x1b[1;38;2;");
            push_decimal(&mut s, r as u128);
            s.append(";");
            push_decimal(&mut s, g as u128);
            s.append(";");
            push_decimal(&mut s, b as u128);
            s.append("m");
            s.append(text);
            s.append("\x1b[0m");
            assert(s@ =~= rgb_bold_text(text@, r, g, b));
            s
        },
        None => ansi_bold(text, c16),
    }
}

/// Draws `text` in the configured colour when usable, else in palette colour `c16`.
pub fn paint_fg(text: &str, custom: &Option<String>, c16: u8) -> (r: String)
    ensures
        r@ == paint_fg_text(text@, *custom, c16),
{
    match usable_rgb(custom) {
        Some((r, g, b)) => {
            let mut s = String::new();
            push_rgb_escape(&mut s, r, g, b);
            s.append(text);
            s.append("\x1b[0m");
            assert(s@ =~= rgb_escape(r, g, b) + text@ + "\x1b[0m"@);
            s
        },
        None => ansi_fg(text, c16),
    }
}

/// `n` copies of `c`.
pub open spec fn repeat_char(c: char, n: nat) -> Seq<char> {
    Seq::new(n, |_i: int| c)
}

fn push_repeat(s: &mut String, c: char, n: usize)
    ensures
        final(s)@ == old(s)@ + repeat_char(c, n as nat),
{
    for i in 0..n
        invariant
            s@ == old(s)@ + repeat_char(c, i as nat),
    {
        push_char(s, c);
        assert(old(s)@ + repeat_char(c, (i + 1) as nat) =~= (old(s)@ + repeat_char(c, i as nat)).push(c));
    }
}

/// A bar of `total_dots` dots: `filled` (at most `total_dots`) filled ones in
/// colour `fill_color`, then the rest hollow in colour `empty_color`.
pub open spec fn dot_bar_text(filled: nat, total_dots: nat, fill_color: Seq<char>, empty_color: Seq<char>) -> Seq<char> {
    let f = if filled < total_dots { filled } else { total_dots };
    rgb_fg_code_text(fill_color) + repeat_char('●', f) + rgb_fg_code_text(empty_color) + repeat_char('○', (total_dots - f) as nat)
}

/// Draws a usage bar `●●●○○○` with `filled` filled dots out of `total_dots`.
pub fn render_dot_bar(filled: usize, total_dots: usize, fill_color: &str, empty_color: &str) -> (r: String)
    ensures
        r@ == dot_bar_text(filled as nat, total_dots as nat, fill_color@, empty_color@),
{
    let f = if filled < total_dots { filled } else { total_dots };
    let empty = total_dots - f;
    let mut s = rgb_fg_code(fill_color);
    push_repeat(&mut s, '●', f);
    let code = rgb_fg_code(empty_color);
    s.append(code.as_str());
    push_repeat(&mut s, '○', empty);
    s
}

/// The upper-case hexadecimal digit for `d < 16`.
pub open spec fn hex_upper(d: nat) -> char {
    if d < 10 {
        (48 + d) as char
    } else {
        (55 + d) as char
    }
}

/// Two upper-case hexadecimal digits for a byte.
pub open spec fn hex_byte(v: u8) -> Seq<char> {
    seq![hex_upper((v / 16) as nat), hex_upper((v % 16) as nat)]
}

/// Reading a colour gives back the components it was written from: `#RRGGBB`
/// in upper-case hexadecimal parses to `(r, g, b)`.
pub proof fn law_hex_round_trip(r: u8, g: u8, b: u8)
    ensures
        parse_hex_color(seq!['#'] + hex_byte(r) + hex_byte(g) + hex_byte(b)) == Some((r, g, b)),
{
    let h = hex_byte(r) + hex_byte(g) + hex_byte(b);
    let s = seq!['#'] + h;
    assert(s =~= seq!['#'] + hex_byte(r) + hex_byte(g) + hex_byte(b));
    assert(s.drop_first() =~= h);
    assert(h.len() == 6);
    assert(h[0] != '#');
    assert(strip_hashes(h) == h);
    assert(strip_hashes(s) == h);
    assert(hex_pair_value(h[0], h[1]) == Some(r)) by {
        assert(hex_digit_value(h[0]) == Some((r / 16) as u8));
        assert(hex_digit_value(h[1]) == Some((r % 16) as u8));
    }
    assert(hex_pair_value(h[2], h[3]) == Some(g)) by {
        assert(hex_digit_value(h[2]) == Some((g / 16) as u8));
        assert(hex_digit_value(h[3]) == Some((g % 16) as u8));
    }
    assert(hex_pair_value(h[4], h[5]) == Some(b)) by {
        assert(hex_digit_value(h[4]) == Some((b / 16) as u8));
        assert(hex_digit_value(h[5]) == Some((b % 16) as u8));
    }
}

/// The lower-case hexadecimal digit for `d < 16`.
pub open spec fn hex_lower(d: nat) -> char {
    if d < 10 {
        (48 + d) as char
    } else {
        (87 + d) as char
    }
}

/// Two lower-case hexadecimal digits for a byte.
pub open spec fn hex_byte_lower(v: u8) -> Seq<char> {
    seq![hex_lower((v / 16) as nat), hex_lower((v % 16) as nat)]
}

/// Lower-case hexadecimal reads as well: `#rrggbb` parses to `(r, g, b)`.
pub proof fn law_hex_round_trip_lower(r: u8, g: u8, b: u8)
    ensures
        parse_hex_color(seq!['#'] + hex_byte_lower(r) + hex_byte_lower(g) + hex_byte_lower(b)) == Some((r, g, b)),
{
    let h = hex_byte_lower(r) + hex_byte_lower(g) + hex_byte_lower(b);
    let s = seq!['#'] + h;
    assert(s =~= seq!['#'] + hex_byte_lower(r) + hex_byte_lower(g) + hex_byte_lower(b));
    assert(s.drop_first() =~= h);
    assert(h.len() == 6);
    assert(h[0] != '#');
    assert(strip_hashes(h) == h);
    assert(strip_hashes(s) == h);
    assert(hex_pair_value(h[0], h[1]) == Some(r)) by {
        assert(hex_digit_value(h[0]) == Some((r / 16) as u8));
        assert(hex_digit_value(h[1]) == Some((r % 16) as u8));
    }
    assert(hex_pair_value(h[2], h[3]) == Some(g)) by {
        assert(hex_digit_value(h[2]) == Some((g / 16) as u8));
        assert(hex_digit_value(h[3]) == Some((g % 16) as u8));
    }
    assert(hex_pair_value(h[4], h[5]) == Some(b)) by {
        assert(hex_digit_value(h[4]) == Some((b / 16) as u8));
        assert(hex_digit_value(h[5]) == Some((b % 16) as u8));
    }
}

/// `c` with an ASCII small letter turned into its capital.
pub open spec fn ascii_upper(c: char) -> char {
    if 'a' <= c && c <= 'z' {
        ((c as int) - 32) as char
    } else {
        c
    }
}

/// The case of a hexadecimal digit does not matter: a character and its
/// capital read as the same digit, or both as none.
pub proof fn law_hex_digit_case(c: char)
    ensures
        hex_digit_value(c) == hex_digit_value(ascii_upper(c)),
{
}

/// Colouring with a valid colour is its escape, the text and a reset; with
/// anything else the text is left as it is and the escape is empty.
pub proof fn law_rgb_fg_parts(text: Seq<char>, hex: Seq<char>)
    ensures
        parse_hex_color(hex) is Some ==> rgb_fg_text(text, hex) == rgb_fg_code_text(hex) + text + "\x1b[0m"@,
        parse_hex_color(hex) is None ==> rgb_fg_text(text, hex) == text && rgb_fg_code_text(hex).len() == 0,
{
}

proof fn lemma_drop_empty_append(a: Seq<Seq<char>>, b: Seq<Seq<char>>)
    ensures
        drop_empty(a + b) == drop_empty(a) + drop_empty(b),
    decreases b.len(),
{
    if b.len() == 0 {
        assert(a + b =~= a);
        assert(drop_empty(a) + drop_empty(b) =~= drop_empty(a));
    } else {
        lemma_drop_empty_append(a, b.drop_last());
        assert((a + b).drop_last() =~= a + b.drop_last());
        assert((a + b).last() == b.last());
        if b.last().len() > 0 {
            assert(drop_empty(a) + drop_empty(b.drop_last()).push(b.last()) =~= (drop_empty(a) + drop_empty(
                b.drop_last(),
            )).push(b.last()));
        }
    }
}

/// Empty segments never show: inserting one anywhere leaves the joined line unchanged.
pub proof fn law_join_ignores_empty(segments: Seq<String>, i: int, empty: String)
    requires
        0 <= i <= segments.len(),
        empty@.len() == 0,
    ensures
        drop_empty(texts_of(segments.insert(i, empty))) == drop_empty(texts_of(segments)),
{
    let a = texts_of(segments.take(i));
    let b = texts_of(segments.skip(i));
    assert(texts_of(segments.insert(i, empty)) =~= a + seq![empty@] + b);
    assert(texts_of(segments) =~= a + b);
    lemma_drop_empty_append(a + seq![empty@], b);
    lemma_drop_empty_append(a, seq![empty@]);
    lemma_drop_empty_append(a, b);
    assert(seq![empty@].drop_last() =~= Seq::<Seq<char>>::empty());
    assert(drop_empty(Seq::<Seq<char>>::empty()) =~= Seq::<Seq<char>>::empty());
    assert(seq![empty@].last() == empty@);
    assert(drop_empty(seq![empty@]) =~= Seq::<Seq<char>>::empty());
    assert(drop_empty(a) + drop_empty(seq![empty@]) =~= drop_empty(a));
}

/// A bar always holds exactly `total_dots` dots, never more filled ones than that.
pub proof fn law_dot_bar_size(filled: nat, total_dots: nat)
    ensures
        ({
            let f = if filled < total_dots { filled } else { total_dots };
            &&& repeat_char('●', f).len() + repeat_char('○', (total_dots - f) as nat).len() == total_dots
            &&& f <= total_dots
            &&& (filled <= total_dots ==> f == filled)
        }),
{
}

/// An override that is a usable colour is what a segment is drawn in;
/// without one the palette entry is used.
pub proof fn law_override_paints(text: Seq<char>, custom: Option<String>, c16: u8)
    ensures
        usable_color(custom) matches Some((r, g, b)) ==> paint_bold_text(text, custom, c16) == rgb_bold_text(
            text,
            r,
            g,
            b,
        ) && paint_fg_text(text, custom, c16) == rgb_escape(r, g, b) + text + "\x1b[0m"@,
        usable_color(custom) is None ==> paint_bold_text(text, custom, c16) == ansi_bold_text(text, c16)
            && paint_fg_text(text, custom, c16) == ansi_fg_text(text, c16),
{
}

} // verus!
