use vstd::prelude::*;

verus! {

/// Colour overrides from `[theme.colors]`; each is a `#RRGGBB` string.
pub struct ThemeColors {
    pub directory: Option<String>,
    pub git: Option<String>,
    pub model: Option<String>,
    pub ctx_green: Option<String>,
    pub ctx_yellow: Option<String>,
    pub ctx_orange: Option<String>,
    pub ctx_red: Option<String>,
    pub thinking_on: Option<String>,
    pub thinking_off: Option<String>,
    pub effort_high: Option<String>,
    pub effort_dim: Option<String>,
    pub usage_current_fill: Option<String>,
    pub usage_weekly_fill: Option<String>,
    pub usage_empty: Option<String>,
    pub reset_time: Option<String>,
    pub tasks: Option<String>,
    pub separator: Option<String>,
}

/// The colours every segment is drawn with.
pub struct ResolvedTheme {
    // Line 1: 16-colour palette entries.
    pub directory_icon_ansi: u8,
    pub directory_text_ansi: u8,
    pub git_ansi: u8,
    pub model_ansi: u8,
    pub ctx_ansi: u8,
    pub thinking_on_ansi: u8,
    pub thinking_off_ansi: u8,
    pub effort_high_ansi: u8,
    pub effort_dim_ansi: u8,
    pub separator_ansi: u8,
    // Lines 2-3: 24-bit colours of the usage bars.
    pub usage_current_fill: String,
    pub usage_weekly_fill: String,
    pub usage_empty: String,
    pub reset_time: String,
    pub tasks: String,
    // 24-bit colours of the line-1 segments.
    pub directory: String,
    pub git: String,
    pub model: String,
    pub ctx_green: String,
    pub ctx_yellow: String,
    pub ctx_orange: String,
    pub ctx_red: String,
    pub thinking_on: String,
    pub thinking_off: String,
    pub effort_high: String,
    pub effort_dim: String,
    pub separator: String,
    // The colours the configuration overrides: a line-1 segment whose colour
    // is overridden is drawn in that 24-bit colour instead of its palette entry.
    pub custom: ThemeColors,
}

/// The palette entries of the Morandi theme, which no override changes.
pub open spec fn has_morandi_palette(t: ResolvedTheme) -> bool {
    &&& t.directory_icon_ansi == 11
    &&& t.directory_text_ansi == 10
    &&& t.git_ansi == 12
    &&& t.model_ansi == 14
    &&& t.ctx_ansi == 13
    &&& t.thinking_on_ansi == 10
    &&& t.thinking_off_ansi == 7
    &&& t.effort_high_ansi == 13
    &&& t.effort_dim_ansi == 7
    &&& t.separator_ansi == 7
}

/// `o`'s colour when it sets one, else `default`.
pub open spec fn chosen(o: Option<String>, default: Seq<char>) -> Seq<char> {
    match o {
        Some(c) => c@,
        None => default,
    }
}

/// The 24-bit colours of the Morandi theme with the overrides of `o` applied.
pub open spec fn has_colors(t: ResolvedTheme, o: ThemeColors) -> bool {
    &&& t.usage_current_fill@ == chosen(o.usage_current_fill, "#7BA58A"@)
    &&& t.usage_weekly_fill@ == chosen(o.usage_weekly_fill, "#D4B896"@)
    &&& t.usage_empty@ == chosen(o.usage_empty, "#4A4A4A"@)
    &&& t.reset_time@ == chosen(o.reset_time, "#8B8B8B"@)
    &&& t.tasks@ == chosen(o.tasks, "#A0B9C6"@)
    &&& t.directory@ == chosen(o.directory, "#A0B9C6"@)
    &&& t.git@ == chosen(o.git, "#A0B9C6"@)
    &&& t.model@ == chosen(o.model, "#B5C4B1"@)
    &&& t.ctx_green@ == chosen(o.ctx_green, "#B5C4B1"@)
    &&& t.ctx_yellow@ == chosen(o.ctx_yellow, "#D4B896"@)
    &&& t.ctx_orange@ == chosen(o.ctx_orange, "#C9A96E"@)
    &&& t.ctx_red@ == chosen(o.ctx_red, "#C17C74"@)
    &&& t.thinking_on@ == chosen(o.thinking_on, "#B5C4B1"@)
    &&& t.thinking_off@ == chosen(o.thinking_off, "#8B8B8B"@)
    &&& t.effort_high@ == chosen(o.effort_high, "#C4A4B0"@)
    &&& t.effort_dim@ == chosen(o.effort_dim, "#8B8B8B"@)
    &&& t.separator@ == chosen(o.separator, "#6B6B6B"@)
}

/// The override set that overrides nothing.
pub open spec fn no_overrides() -> ThemeColors {
    ThemeColors {
        directory: None,
        git: None,
        model: None,
        ctx_green: None,
        ctx_yellow: None,
        ctx_orange: None,
        ctx_red: None,
        thinking_on: None,
        thinking_off: None,
        effort_high: None,
        effort_dim: None,
        usage_current_fill: None,
        usage_weekly_fill: None,
        usage_empty: None,
        reset_time: None,
        tasks: None,
        separator: None,
    }
}

/// Whether `t` is the Morandi theme.
pub open spec fn is_morandi(t: ResolvedTheme) -> bool {
    has_morandi_palette(t) && has_colors(t, no_overrides()) && t.custom == no_overrides()
}

/// Whether `t` is the theme that `overrides` asks for.
pub open spec fn resolves(t: ResolvedTheme, overrides: Option<ThemeColors>) -> bool {
    has_morandi_palette(t) && match overrides {
        Some(o) => has_colors(t, o) && t.custom == o,
        None => has_colors(t, no_overrides()) && t.custom == no_overrides(),
    }
}

fn copy_color(o: &Option<String>) -> (r: Option<String>)
    ensures
        r == *o,
{
    match o {
        Some(c) => Some(c.clone()),
        None => None,
    }
}

fn copy_colors(o: &ThemeColors) -> (r: ThemeColors)
    ensures
        r == *o,
{
    ThemeColors {
        directory: copy_color(&o.directory),
        git: copy_color(&o.git),
        model: copy_color(&o.model),
        ctx_green: copy_color(&o.ctx_green),
        ctx_yellow: copy_color(&o.ctx_yellow),
        ctx_orange: copy_color(&o.ctx_orange),
        ctx_red: copy_color(&o.ctx_red),
        thinking_on: copy_color(&o.thinking_on),
        thinking_off: copy_color(&o.thinking_off),
        effort_high: copy_color(&o.effort_high),
        effort_dim: copy_color(&o.effort_dim),
        usage_current_fill: copy_color(&o.usage_current_fill),
        usage_weekly_fill: copy_color(&o.usage_weekly_fill),
        usage_empty: copy_color(&o.usage_empty),
        reset_time: copy_color(&o.reset_time),
        tasks: copy_color(&o.tasks),
        separator: copy_color(&o.separator),
    }
}

fn none_overridden() -> (r: ThemeColors)
    ensures
        r == no_overrides(),
{
    ThemeColors {
        directory: None,
        git: None,
        model: None,
        ctx_green: None,
        ctx_yellow: None,
        ctx_orange: None,
        ctx_red: None,
        thinking_on: None,
        thinking_off: None,
        effort_high: None,
        effort_dim: None,
        usage_current_fill: None,
        usage_weekly_fill: None,
        usage_empty: None,
        reset_time: None,
        tasks: None,
        separator: None,
    }
}

fn apply(field: &mut String, o: &Option<String>)
    ensures
        final(field)@ == chosen(*o, old(field)@),
{
    if let Some(c) = o {
        *field = c.clone();
    }
}

impl ResolvedTheme {
    /// The Morandi palette: muted dusty blue, sage, sand, amber, rose and mauve.
    pub fn morandi() -> (t: Self)
        ensures
            is_morandi(t),
    {
        ResolvedTheme {
            directory_icon_ansi: 11,
            directory_text_ansi: 10,
            git_ansi: 12,
            model_ansi: 14,
            ctx_ansi: 13,
            thinking_on_ansi: 10,
            thinking_off_ansi: 7,
            effort_high_ansi: 13,
            effort_dim_ansi: 7,
            separator_ansi: 7,
            usage_current_fill: String::from_str("#7BA58A"),
            usage_weekly_fill: String::from_str("#D4B896"),
            usage_empty: String::from_str("#4A4A4A"),
            reset_time: String::from_str("#8B8B8B"),
            tasks: String::from_str("#A0B9C6"),
            directory: String::from_str("#A0B9C6"),
            git: String::from_str("#A0B9C6"),
            model: String::from_str("#B5C4B1"),
            ctx_green: String::from_str("#B5C4B1"),
            ctx_yellow: String::from_str("#D4B896"),
            ctx_orange: String::from_str("#C9A96E"),
            ctx_red: String::from_str("#C17C74"),
            thinking_on: String::from_str("#B5C4B1"),
            thinking_off: String::from_str("#8B8B8B"),
            effort_high: String::from_str("#C4A4B0"),
            effort_dim: String::from_str("#8B8B8B"),
            separator: String::from_str("#6B6B6B"),
            custom: none_overridden(),
        }
    }

    /// The Morandi theme with every colour that `overrides` sets replaced, and
    /// the overrides kept so that the segments draw in them. Every theme name
    /// gives the Morandi base.
    pub fn from_config(_name: &str, overrides: &Option<ThemeColors>) -> (t: Self)
        ensures
            resolves(t, *overrides),
    {
        let mut theme = Self::morandi();
        if let Some(o) = overrides {
            apply(&mut theme.directory, &o.directory);
            apply(&mut theme.git, &o.git);
            apply(&mut theme.model, &o.model);
            apply(&mut theme.ctx_green, &o.ctx_green);
            apply(&mut theme.ctx_yellow, &o.ctx_yellow);
            apply(&mut theme.ctx_orange, &o.ctx_orange);
            apply(&mut theme.ctx_red, &o.ctx_red);
            apply(&mut theme.thinking_on, &o.thinking_on);
            apply(&mut theme.thinking_off, &o.thinking_off);
            apply(&mut theme.effort_high, &o.effort_high);
            apply(&mut theme.effort_dim, &o.effort_dim);
            apply(&mut theme.usage_current_fill, &o.usage_current_fill);
            apply(&mut theme.usage_weekly_fill, &o.usage_weekly_fill);
            apply(&mut theme.usage_empty, &o.usage_empty);
            apply(&mut theme.reset_time, &o.reset_time);
            apply(&mut theme.tasks, &o.tasks);
            apply(&mut theme.separator, &o.separator);
            theme.custom = copy_colors(o);
        }
        theme
    }
}

/// Without overrides, and with overrides that set nothing, the resolved theme
/// is exactly the Morandi theme.
pub proof fn law_no_override_is_morandi(t: ResolvedTheme)
    ensures
        resolves(t, None) <==> is_morandi(t),
        resolves(t, Some(no_overrides())) <==> is_morandi(t),
{
}

/// An override replaces its own colour and leaves every other colour, and all
/// palette entries, as the Morandi theme has them.
pub proof fn law_single_override(t: ResolvedTheme, color: String)
    requires
        resolves(t, Some(ThemeColors { model: Some(color), ..no_overrides() })),
    ensures
        t.model@ == color@,
        t.directory@ == "#A0B9C6"@,
        t.git@ == "#A0B9C6"@,
        t.separator@ == "#6B6B6B"@,
        has_morandi_palette(t),
{
}

} // verus!
