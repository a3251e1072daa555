use vstd::prelude::*;

verus! {

/// The color mode. Defaults to dark mode.
#[derive(Debug, Clone, Copy, PartialEq, Eq, Default, Structural)]
pub enum ColorMode {
    /// Dark mode.
    #[default]
    Dark,
    /// Light mode.
    Light,
}

impl ColorMode {
    /// Is this dark mode?
    pub fn is_dark(&self) -> (r: bool)
        ensures
            r == (*self is Dark),
    {
        match self {
            ColorMode::Dark => true,
            ColorMode::Light => false,
        }
    }

    /// Is this light mode?
    pub fn is_light(&self) -> (r: bool)
        ensures
            r == (*self is Light),
    {
        match self {
            ColorMode::Dark => false,
            ColorMode::Light => true,
        }
    }
}

/// A styling theme; `C` is the type of its colors.
#[derive(Debug, Clone, PartialEq)]
pub struct Theme<C> {
    /// The theme's color mode.
    pub color_mode: ColorMode,
    /// The primary color.
    pub primary_color: C,
    /// The secondary color.
    pub secondary_color: C,
    /// The danger color.
    pub danger_color: C,
    /// The error text color.
    pub error_color: C,
    /// The fonts to be applied to all elements.
    pub fonts: Vec<String>,
}

/// The font list holds exactly the given fonts, in order.
pub open spec fn fonts_are(v: Seq<String>, fonts: Seq<&str>) -> bool {
    &&& v.len() == fonts.len()
    &&& forall|k: int| 0 <= k < v.len() ==> #[trigger] v[k]@ == fonts[k]@
}

/// The font list is `before` with one more font at the end.
pub open spec fn fonts_pushed(v: Seq<String>, before: Seq<String>, font: Seq<char>) -> bool {
    &&& v.len() == before.len() + 1
    &&& forall|k: int| 0 <= k < before.len() ==> #[trigger] v[k]@ == before[k]@
    &&& v[before.len() as int]@ == font
}

impl<C> Theme<C> {
    /// A theme in dark mode with the given colors and no fonts.
    pub fn with_colors(primary_color: C, secondary_color: C, danger_color: C, error_color: C) -> (r: Self)
        ensures
            r.color_mode == ColorMode::Dark,
            r.primary_color == primary_color,
            r.secondary_color == secondary_color,
            r.danger_color == danger_color,
            r.error_color == error_color,
            r.fonts@.len() == 0,
    {
        Theme {
            color_mode: ColorMode::Dark,
            primary_color,
            secondary_color,
            danger_color,
            error_color,
            fonts: Vec::new(),
        }
    }

    /// Sets the color mode.
    pub fn set_color_mode(&mut self, color_mode: ColorMode)
        ensures
            *final(self) == (Theme { color_mode, ..*old(self) }),
    {
        self.color_mode = color_mode;
    }

    /// Sets the color mode to dark mode.
    pub fn set_dark_mode(&mut self)
        ensures
            *final(self) == (Theme { color_mode: ColorMode::Dark, ..*old(self) }),
    {
        self.color_mode = ColorMode::Dark;
    }

    /// Sets the color mode to light mode.
    pub fn set_light_mode(&mut self)
        ensures
            *final(self) == (Theme { color_mode: ColorMode::Light, ..*old(self) }),
    {
        self.color_mode = ColorMode::Light;
    }

    /// Sets the primary color.
    pub fn set_primary_color(&mut self, primary_color: C)
        ensures
            *final(self) == (Theme { primary_color, ..*old(self) }),
    {
        self.primary_color = primary_color;
    }

    /// Sets the secondary color.
    pub fn set_secondary_color(&mut self, secondary_color: C)
        ensures
            *final(self) == (Theme { secondary_color, ..*old(self) }),
    {
        self.secondary_color = secondary_color;
    }

    /// Sets the danger color.
    pub fn set_danger_color(&mut self, danger_color: C)
        ensures
            *final(self) == (Theme { danger_color, ..*old(self) }),
    {
        self.danger_color = danger_color;
    }

    /// Sets the error text color.
    pub fn set_error_color(&mut self, error_color: C)
        ensures
            *final(self) == (Theme { error_color, ..*old(self) }),
    {
        self.error_color = error_color;
    }

    /// Sets the list of fonts.
    pub fn set_fonts(&mut self, fonts: &[&str])
        ensures
            fonts_are(final(self).fonts@, fonts@),
            final(self).color_mode == old(self).color_mode,
            final(self).primary_color == old(self).primary_color,
            final(self).secondary_color == old(self).secondary_color,
            final(self).danger_color == old(self).danger_color,
            final(self).error_color == old(self).error_color,
    {
        let mut v: Vec<String> = Vec::new();
        let mut i: usize = 0;
        while i < fonts.len()
            invariant
                i <= fonts@.len(),
                v@.len() == i,
                forall|k: int| 0 <= k < i ==> #[trigger] v@[k]@ == fonts@[k]@,
            decreases fonts.len() - i,
        {
            let f: &str = fonts[i];
            let owned: String = f.to_owned();
            v.push(owned);
            i = i + 1;
        }
        self.fonts = v;
    }

    /// Adds a new font to the the font list.
    pub fn add_font(&mut self, font: &str)
        ensures
            fonts_pushed(final(self).fonts@, old(self).fonts@, font@),
            final(self).color_mode == old(self).color_mode,
            final(self).primary_color == old(self).primary_color,
            final(self).secondary_color == old(self).secondary_color,
            final(self).danger_color == old(self).danger_color,
            final(self).error_color == old(self).error_color,
    {
        self.fonts.push(font.to_owned());
    }

    /// Sets the color mode.
    pub fn color_mode(self, color_mode: ColorMode) -> (r: Self)
        ensures
            r == (Theme { color_mode, ..self }),
    {
        let mut s = self;
        s.set_color_mode(color_mode);
        s
    }

    /// Sets the color mode to dark mode.
    pub fn dark_mode(self) -> (r: Self)
        ensures
            r == (Theme { color_mode: ColorMode::Dark, ..self }),
    {
        let mut s = self;
        s.set_dark_mode();
        s
    }

    /// Sets the color mode to light mode.
    pub fn light_mode(self) -> (r: Self)
        ensures
            r == (Theme { color_mode: ColorMode::Light, ..self }),
    {
        let mut s = self;
        s.set_light_mode();
        s
    }

    /// Sets the primary color.
    pub fn primary_color(self, primary_color: C) -> (r: Self)
        ensures
            r == (Theme { primary_color, ..self }),
    {
        let mut s = self;
        s.set_primary_color(primary_color);
        s
    }

    /// Sets the secondary color.
    pub fn secondary_color(self, secondary_color: C) -> (r: Self)
        ensures
            r == (Theme { secondary_color, ..self }),
    {
        let mut s = self;
        s.set_secondary_color(secondary_color);
        s
    }

    /// Sets the danger color.
    pub fn danger_color(self, danger_color: C) -> (r: Self)
        ensures
            r == (Theme { danger_color, ..self }),
    {
        let mut s = self;
        s.set_danger_color(danger_color);
        s
    }

    /// Sets the error text color.
    pub fn error_color(self, error_color: C) -> (r: Self)
        ensures
            r == (Theme { error_color, ..self }),
    {
        let mut s = self;
        s.set_error_color(error_color);
        s
    }

    /// Sets the list of fonts.
    pub fn fonts(self, fonts: &[&str]) -> (r: Self)
        ensures
            fonts_are(r.fonts@, fonts@),
            r.color_mode == self.color_mode,
            r.primary_color == self.primary_color,
            r.secondary_color == self.secondary_color,
            r.danger_color == self.danger_color,
            r.error_color == self.error_color,
    {
        let mut s = self;
        s.set_fonts(fonts);
        s
    }

    /// Adds a new font to the font list.
    pub fn font(self, font: &str) -> (r: Self)
        ensures
            fonts_pushed(r.fonts@, self.fonts@, font@),
            r.color_mode == self.color_mode,
            r.primary_color == self.primary_color,
            r.secondary_color == self.secondary_color,
            r.danger_color == self.danger_color,
            r.error_color == self.error_color,
    {
        let mut s = self;
        s.add_font(font);
        s
    }
}

/// The texts joined with `sep` between neighbours.
pub open spec fn join_texts(parts: Seq<Seq<char>>, sep: Seq<char>) -> Seq<char>
    decreases parts.len(),
{
    if parts.len() == 0 {
        Seq::<char>::empty()
    } else if parts.len() == 1 {
        parts[0]
    } else {
        join_texts(parts.drop_last(), sep) + sep + parts.last()
    }
}

/// A font name in double quotes.
pub open spec fn quoted(font: Seq<char>) -> Seq<char> {
    seq!['"'] + font + seq!['"']
}

/// Fonts to fall back to if no other fonts are available.
pub open spec fn fallback_fonts() -> Seq<Seq<char>> {
    seq![
        "system-ui"@,
        "-apple-system"@,
        "BlinkMacSystemFont"@,
        "\"Segoe UI\""@,
        "Roboto"@,
        "Oxygen"@,
        "Ubuntu"@,
        "Cantarell"@,
        "\"Open Sans\""@,
        "\"Helvetica Neue\""@,
        "sans-serif"@,
    ]
}

/// The CSS font list of a theme: its fonts, each quoted, then the fallback
/// fonts, separated by commas.
pub open spec fn font_family_text(fonts: Seq<String>) -> Seq<char> {
    join_texts(fonts.map_values(|f: String| quoted(f@)) + fallback_fonts(), ", "@)
}

fn fallback_font_list() -> (r: Vec<&'static str>)
    ensures
        r@.len() == fallback_fonts().len(),
        forall|k: int| 0 <= k < r@.len() ==> #[trigger] r@[k]@ == fallback_fonts()[k],
{
    let r = vec![
        "system-ui",
        "-apple-system",
        "BlinkMacSystemFont",
        "\"Segoe UI\"",
        "Roboto",
        "Oxygen",
        "Ubuntu",
        "Cantarell",
        "\"Open Sans\"",
        "\"Helvetica Neue\"",
        "sans-serif",
    ];
    assert(r@.len() == fallback_fonts().len());
    r
}

fn join_with(parts: &Vec<String>, sep: &str) -> (r: String)
    ensures
        r@ == join_texts(parts@.map_values(|p: String| p@), sep@),
{
    let ghost texts = parts@.map_values(|p: String| p@);
    let mut r = String::new();
    let mut i: usize = 0;
    while i < parts.len()
        invariant
            i <= parts@.len(),
            texts == parts@.map_values(|p: String| p@),
            r@ == join_texts(texts.take(i as int), sep@),
        decreases parts.len() - i,
    {
        assert(texts.take(i + 1).drop_last() =~= texts.take(i as int));
        assert(texts.take(i + 1).last() == parts@[i as int]@);
        if i == 0 {
            assert(join_texts(texts.take(0), sep@) =~= Seq::<char>::empty());
            r.append(parts[i].as_str());
            assert(r@ =~= join_texts(texts.take(1), sep@));
        } else {
            r.append(sep);
            r.append(parts[i].as_str());
        }
        i = i + 1;
    }
    assert(texts.take(parts@.len() as int) =~= texts);
    r
}

/// The CSS font list of a theme's fonts: each quoted, followed by the
/// fallback fonts, separated by commas.
pub fn font_family(fonts: &Vec<String>) -> (r: String)
    ensures
        r@ == font_family_text(fonts@),
{
    let mut parts: Vec<String> = Vec::new();
    let mut i: usize = 0;
    while i < fonts.len()
        invariant
            i <= fonts@.len(),
            parts@.len() == i,
            forall|k: int| 0 <= k < i ==> #[trigger] parts@[k]@ == quoted(fonts@[k]@),
        decreases fonts.len() - i,
    {
        let mut q = String::new();
        q.append("\"");
        q.append(fonts[i].as_str());
        q.append("\"");
        proof {
            reveal_strlit("\"");
        }
        assert(q@ =~= quoted(fonts@[i as int]@));
        parts.push(q);
        i = i + 1;
    }
    let fallback = fallback_font_list();
    let mut j: usize = 0;
    while j < fallback.len()
        invariant
            j <= fallback@.len(),
            fallback@.len() == fallback_fonts().len(),
            forall|k: int| 0 <= k < fallback@.len() ==> #[trigger] fallback@[k]@ == fallback_fonts()[k],
            parts@.len() == fonts@.len() + j,
            forall|k: int| 0 <= k < fonts@.len() ==> #[trigger] parts@[k]@ == quoted(fonts@[k]@),
            forall|k: int| fonts@.len() <= k < parts@.len() ==> #[trigger] parts@[k]@ == fallback_fonts()[k - fonts@.len()],
        decreases fallback.len() - j,
    {
        parts.push(fallback[j].to_owned());
        j = j + 1;
    }
    let r = join_with(&parts, ", ");
    assert(parts@.map_values(|p: String| p@) =~= fonts@.map_values(|f: String| quoted(f@)) + fallback_fonts());
    r
}

/// The share of light in the theme's color mode, as a CSS percentage.
pub fn color_mode_percentage(mode: ColorMode) -> (r: &'static str)
    ensures
        r@ == match mode {
            ColorMode::Dark => "0%"@,
            ColorMode::Light => "100%"@,
        },
{
    match mode {
        ColorMode::Dark => "0%",
        ColorMode::Light => "100%",
    }
}

/// The filter that makes SVG icons match the text color of the mode.
pub fn svg_filter(mode: ColorMode) -> (r: &'static str)
    ensures
        r@ == match mode {
            ColorMode::Dark => "invert(100%) sepia(100%) saturate(0%) hue-rotate(288deg) brightness(102%) contrast(102%)"@,
            ColorMode::Light => "invert(0%) sepia(0%) saturate(0%) hue-rotate(320deg) brightness(96%) contrast(104%)"@,
        },
{
    match mode {
        ColorMode::Dark => "invert(100%) sepia(100%) saturate(0%) hue-rotate(288deg) brightness(102%) contrast(102%)",
        ColorMode::Light => "invert(0%) sepia(0%) saturate(0%) hue-rotate(320deg) brightness(96%) contrast(104%)",
    }
}

/// The filter that makes disabled SVG icons match the dimmed text color of
/// the mode.
pub fn svg_filter_disabled(mode: ColorMode) -> (r: &'static str)
    ensures
        r@ == match mode {
            ColorMode::Dark => "invert(91%) sepia(9%) saturate(0%) hue-rotate(170deg) brightness(90%) contrast(89%)"@,
            ColorMode::Light => "invert(18%) sepia(5%) saturate(0%) hue-rotate(253deg) brightness(96%) contrast(92%)"@,
        },
{
    match mode {
        ColorMode::Dark => "invert(91%) sepia(9%) saturate(0%) hue-rotate(170deg) brightness(90%) contrast(89%)",
        ColorMode::Light => "invert(18%) sepia(5%) saturate(0%) hue-rotate(253deg) brightness(96%) contrast(92%)",
    }
}

/// The CSS texts of a theme's colors, and of the text colors drawn on them.
#[derive(Debug, Clone, PartialEq)]
pub struct ThemeColorTexts {
    /// The primary color.
    pub primary: String,
    /// The text color on the primary color.
    pub primary_text: String,
    /// The secondary color.
    pub secondary: String,
    /// The text color on the secondary color.
    pub secondary_text: String,
    /// The danger color.
    pub danger: String,
    /// The text color on the danger color.
    pub danger_text: String,
    /// The error text color.
    pub error: String,
}

/// The CSS variables a theme sets, in the order it sets them, as (name,
/// value) texts.
pub open spec fn theme_variables_spec(mode: ColorMode, fonts: Seq<String>, colors: ThemeColorTexts) -> Seq<(Seq<char>, Seq<char>)> {
    seq![
        ("--base-fonts"@, font_family_text(fonts)),
        ("--base-color-mode-percentage"@, match mode {
            ColorMode::Dark => "0%"@,
            ColorMode::Light => "100%"@,
        }),
        ("--base-primary-svg-filter"@, match mode {
            ColorMode::Dark => "invert(100%) sepia(100%) saturate(0%) hue-rotate(288deg) brightness(102%) contrast(102%)"@,
            ColorMode::Light => "invert(0%) sepia(0%) saturate(0%) hue-rotate(320deg) brightness(96%) contrast(104%)"@,
        }),
        ("--base-primary-svg-filter-disabled"@, match mode {
            ColorMode::Dark => "invert(91%) sepia(9%) saturate(0%) hue-rotate(170deg) brightness(90%) contrast(89%)"@,
            ColorMode::Light => "invert(18%) sepia(5%) saturate(0%) hue-rotate(253deg) brightness(96%) contrast(92%)"@,
        }),
        ("--base-primary-color"@, colors.primary@),
        ("--base-primary-text-color"@, colors.primary_text@),
        ("--base-secondary-color"@, colors.secondary@),
        ("--base-secondary-text-color"@, colors.secondary_text@),
        ("--base-danger-color"@, colors.danger@),
        ("--base-danger-text-color"@, colors.danger_text@),
        ("--base-error-color"@, colors.error@),
    ]
}

/// Among CSS variables given as (name, value) texts, the variable `name` is
/// set, and every setting of it gives it `value`.
pub open spec fn sets_variable(vars: Seq<(Seq<char>, Seq<char>)>, name: Seq<char>, value: Seq<char>) -> bool {
    &&& exists|k: int| 0 <= k < vars.len() && #[trigger] vars[k] == (name, value)
    &&& forall|k: int| 0 <= k < vars.len() && (#[trigger] vars[k]).0 == name ==> vars[k].1 == value
}

/// Each CSS variable of a theme carries the theme field it is named for:
/// the fonts, and each color with its text color.
pub proof fn lemma_variables_carry_fields(mode: ColorMode, fonts: Seq<String>, colors: ThemeColorTexts)
    ensures
        sets_variable(theme_variables_spec(mode, fonts, colors), "--base-fonts"@, font_family_text(fonts)),
        sets_variable(theme_variables_spec(mode, fonts, colors), "--base-primary-color"@, colors.primary@),
        sets_variable(theme_variables_spec(mode, fonts, colors), "--base-primary-text-color"@, colors.primary_text@),
        sets_variable(theme_variables_spec(mode, fonts, colors), "--base-secondary-color"@, colors.secondary@),
        sets_variable(theme_variables_spec(mode, fonts, colors), "--base-secondary-text-color"@, colors.secondary_text@),
        sets_variable(theme_variables_spec(mode, fonts, colors), "--base-danger-color"@, colors.danger@),
        sets_variable(theme_variables_spec(mode, fonts, colors), "--base-danger-text-color"@, colors.danger_text@),
        sets_variable(theme_variables_spec(mode, fonts, colors), "--base-error-color"@, colors.error@),
{
    reveal_strlit("--base-fonts");
    reveal_strlit("--base-color-mode-percentage");
    reveal_strlit("--base-primary-svg-filter");
    reveal_strlit("--base-primary-svg-filter-disabled");
    reveal_strlit("--base-primary-color");
    reveal_strlit("--base-primary-text-color");
    reveal_strlit("--base-secondary-color");
    reveal_strlit("--base-secondary-text-color");
    reveal_strlit("--base-danger-color");
    reveal_strlit("--base-danger-text-color");
    reveal_strlit("--base-error-color");
    let vars = theme_variables_spec(mode, fonts, colors);
    assert("--base-fonts"@.len() == 12);
    assert("--base-color-mode-percentage"@.len() == 28);
    assert("--base-primary-svg-filter"@.len() == 25);
    assert("--base-primary-svg-filter-disabled"@.len() == 34);
    assert("--base-primary-color"@.len() == 20);
    assert("--base-primary-text-color"@.len() == 25);
    assert("--base-secondary-color"@.len() == 22);
    assert("--base-secondary-text-color"@.len() == 27);
    assert("--base-danger-color"@.len() == 19);
    assert("--base-danger-text-color"@.len() == 24);
    assert("--base-error-color"@.len() == 18);
    assert("--base-primary-svg-filter"@[15] == 's');
    assert("--base-primary-text-color"@[15] == 't');
    assert(vars[0] == ("--base-fonts"@, font_family_text(fonts)));
    assert forall|k: int| 0 <= k < vars.len() && (#[trigger] vars[k]).0 == "--base-fonts"@ implies vars[k].1 == font_family_text(fonts) by {
                if k == 0 {
                } else if k == 1 {
                    assert(vars[k].0.len() != "--base-fonts"@.len());
                } else if k == 2 {
                    assert(vars[k].0.len() != "--base-fonts"@.len());
                } else if k == 3 {
                    assert(vars[k].0.len() != "--base-fonts"@.len());
                } else if k == 4 {
                    assert(vars[k].0.len() != "--base-fonts"@.len());
                } else if k == 5 {
                    assert(vars[k].0.len() != "--base-fonts"@.len());
                } else if k == 6 {
                    assert(vars[k].0.len() != "--base-fonts"@.len());
                } else if k == 7 {
                    assert(vars[k].0.len() != "--base-fonts"@.len());
                } else if k == 8 {
                    assert(vars[k].0.len() != "--base-fonts"@.len());
                } else if k == 9 {
                    assert(vars[k].0.len() != "--base-fonts"@.len());
                } else if k == 10 {
                    assert(vars[k].0.len() != "--base-fonts"@.len());
                }
    }
    assert(vars[4] == ("--base-primary-color"@, colors.primary@));
    assert forall|k: int| 0 <= k < vars.len() && (#[trigger] vars[k]).0 == "--base-primary-color"@ implies vars[k].1 == colors.primary@ by {
                if k == 0 {
                    assert(vars[k].0.len() != "--base-primary-color"@.len());
                } else if k == 1 {
                    assert(vars[k].0.len() != "--base-primary-color"@.len());
                } else if k == 2 {
                    assert(vars[k].0.len() != "--base-primary-color"@.len());
                } else if k == 3 {
                    assert(vars[k].0.len() != "--base-primary-color"@.len());
                } else if k == 4 {
                } else if k == 5 {
                    assert(vars[k].0.len() != "--base-primary-color"@.len());
                } else if k == 6 {
                    assert(vars[k].0.len() != "--base-primary-color"@.len());
                } else if k == 7 {
                    assert(vars[k].0.len() != "--base-primary-color"@.len());
                } else if k == 8 {
                    assert(vars[k].0.len() != "--base-primary-color"@.len());
                } else if k == 9 {
                    assert(vars[k].0.len() != "--base-primary-color"@.len());
                } else if k == 10 {
                    assert(vars[k].0.len() != "--base-primary-color"@.len());
                }
    }
    assert(vars[5] == ("--base-primary-text-color"@, colors.primary_text@));
    assert forall|k: int| 0 <= k < vars.len() && (#[trigger] vars[k]).0 == "--base-primary-text-color"@ implies vars[k].1 == colors.primary_text@ by {
                if k == 0 {
                    assert(vars[k].0.len() != "--base-primary-text-color"@.len());
                } else if k == 1 {
                    assert(vars[k].0.len() != "--base-primary-text-color"@.len());
                } else if k == 2 {
                    assert(vars[k].0[15] != "--base-primary-text-color"@[15]);
                } else if k == 3 {
                    assert(vars[k].0.len() != "--base-primary-text-color"@.len());
                } else if k == 4 {
                    assert(vars[k].0.len() != "--base-primary-text-color"@.len());
                } else if k == 5 {
                } else if k == 6 {
                    assert(vars[k].0.len() != "--base-primary-text-color"@.len());
                } else if k == 7 {
                    assert(vars[k].0.len() != "--base-primary-text-color"@.len());
                } else if k == 8 {
                    assert(vars[k].0.len() != "--base-primary-text-color"@.len());
                } else if k == 9 {
                    assert(vars[k].0.len() != "--base-primary-text-color"@.len());
                } else if k == 10 {
                    assert(vars[k].0.len() != "--base-primary-text-color"@.len());
                }
    }
    assert(vars[6] == ("--base-secondary-color"@, colors.secondary@));
    assert forall|k: int| 0 <= k < vars.len() && (#[trigger] vars[k]).0 == "--base-secondary-color"@ implies vars[k].1 == colors.secondary@ by {
                if k == 0 {
                    assert(vars[k].0.len() != "--base-secondary-color"@.len());
                } else if k == 1 {
                    assert(vars[k].0.len() != "--base-secondary-color"@.len());
                } else if k == 2 {
                    assert(vars[k].0.len() != "--base-secondary-color"@.len());
                } else if k == 3 {
                    assert(vars[k].0.len() != "--base-secondary-color"@.len());
                } else if k == 4 {
                    assert(vars[k].0.len() != "--base-secondary-color"@.len());
                } else if k == 5 {
                    assert(vars[k].0.len() != "--base-secondary-color"@.len());
                } else if k == 6 {
                } else if k == 7 {
                    assert(vars[k].0.len() != "--base-secondary-color"@.len());
                } else if k == 8 {
                    assert(vars[k].0.len() != "--base-secondary-color"@.len());
                } else if k == 9 {
                    assert(vars[k].0.len() != "--base-secondary-color"@.len());
                } else if k == 10 {
                    assert(vars[k].0.len() != "--base-secondary-color"@.len());
                }
    }
    assert(vars[7] == ("--base-secondary-text-color"@, colors.secondary_text@));
    assert forall|k: int| 0 <= k < vars.len() && (#[trigger] vars[k]).0 == "--base-secondary-text-color"@ implies vars[k].1 == colors.secondary_text@ by {
                if k == 0 {
                    assert(vars[k].0.len() != "--base-secondary-text-color"@.len());
                } else if k == 1 {
                    assert(vars[k].0.len() != "--base-secondary-text-color"@.len());
                } else if k == 2 {
                    assert(vars[k].0.len() != "--base-secondary-text-color"@.len());
                } else if k == 3 {
                    assert(vars[k].0.len() != "--base-secondary-text-color"@.len());
                } else if k == 4 {
                    assert(vars[k].0.len() != "--base-secondary-text-color"@.len());
                } else if k == 5 {
                    assert(vars[k].0.len() != "--base-secondary-text-color"@.len());
                } else if k == 6 {
                    assert(vars[k].0.len() != "--base-secondary-text-color"@.len());
                } else if k == 7 {
                } else if k == 8 {
                    assert(vars[k].0.len() != "--base-secondary-text-color"@.len());
                } else if k == 9 {
                    assert(vars[k].0.len() != "--base-secondary-text-color"@.len());
                } else if k == 10 {
                    assert(vars[k].0.len() != "--base-secondary-text-color"@.len());
                }
    }
    assert(vars[8] == ("--base-danger-color"@, colors.danger@));
    assert forall|k: int| 0 <= k < vars.len() && (#[trigger] vars[k]).0 == "--base-danger-color"@ implies vars[k].1 == colors.danger@ by {
                if k == 0 {
                    assert(vars[k].0.len() != "--base-danger-color"@.len());
                } else if k == 1 {
                    assert(vars[k].0.len() != "--base-danger-color"@.len());
                } else if k == 2 {
                    assert(vars[k].0.len() != "--base-danger-color"@.len());
                } else if k == 3 {
                    assert(vars[k].0.len() != "--base-danger-color"@.len());
                } else if k == 4 {
                    assert(vars[k].0.len() != "--base-danger-color"@.len());
                } else if k == 5 {
                    assert(vars[k].0.len() != "--base-danger-color"@.len());
                } else if k == 6 {
                    assert(vars[k].0.len() != "--base-danger-color"@.len());
                } else if k == 7 {
                    assert(vars[k].0.len() != "--base-danger-color"@.len());
                } else if k == 8 {
                } else if k == 9 {
                    assert(vars[k].0.len() != "--base-danger-color"@.len());
                } else if k == 10 {
                    assert(vars[k].0.len() != "--base-danger-color"@.len());
                }
    }
    assert(vars[9] == ("--base-danger-text-color"@, colors.danger_text@));
    assert forall|k: int| 0 <= k < vars.len() && (#[trigger] vars[k]).0 == "--base-danger-text-color"@ implies vars[k].1 == colors.danger_text@ by {
                if k == 0 {
                    assert(vars[k].0.len() != "--base-danger-text-color"@.len());
                } else if k == 1 {
                    assert(vars[k].0.len() != "--base-danger-text-color"@.len());
                } else if k == 2 {
                    assert(vars[k].0.len() != "--base-danger-text-color"@.len());
                } else if k == 3 {
                    assert(vars[k].0.len() != "--base-danger-text-color"@.len());
                } else if k == 4 {
                    assert(vars[k].0.len() != "--base-danger-text-color"@.len());
                } else if k == 5 {
                    assert(vars[k].0.len() != "--base-danger-text-color"@.len());
                } else if k == 6 {
                    assert(vars[k].0.len() != "--base-danger-text-color"@.len());
                } else if k == 7 {
                    assert(vars[k].0.len() != "--base-danger-text-color"@.len());
                } else if k == 8 {
                    assert(vars[k].0.len() != "--base-danger-text-color"@.len());
                } else if k == 9 {
                } else if k == 10 {
                    assert(vars[k].0.len() != "--base-danger-text-color"@.len());
                }
    }
    assert(vars[10] == ("--base-error-color"@, colors.error@));
    assert forall|k: int| 0 <= k < vars.len() && (#[trigger] vars[k]).0 == "--base-error-color"@ implies vars[k].1 == colors.error@ by {
                if k == 0 {
                    assert(vars[k].0.len() != "--base-error-color"@.len());
                } else if k == 1 {
                    assert(vars[k].0.len() != "--base-error-color"@.len());
                } else if k == 2 {
                    assert(vars[k].0.len() != "--base-error-color"@.len());
                } else if k == 3 {
                    assert(vars[k].0.len() != "--base-error-color"@.len());
                } else if k == 4 {
                    assert(vars[k].0.len() != "--base-error-color"@.len());
                } else if k == 5 {
                    assert(vars[k].0.len() != "--base-error-color"@.len());
                } else if k == 6 {
                    assert(vars[k].0.len() != "--base-error-color"@.len());
                } else if k == 7 {
                    assert(vars[k].0.len() != "--base-error-color"@.len());
                } else if k == 8 {
                    assert(vars[k].0.len() != "--base-error-color"@.len());
                } else if k == 9 {
                    assert(vars[k].0.len() != "--base-error-color"@.len());
                } else if k == 10 {
                }
    }
}

/// The texts of a list of (name, value) string pairs.
pub open spec fn pair_texts(v: Seq<(String, String)>) -> Seq<(Seq<char>, Seq<char>)> {
    v.map_values(|p: (String, String)| (p.0@, p.1@))
}

/// The CSS variables that apply a theme with the given color mode, fonts
/// and color texts, in order.
pub fn theme_variables(mode: ColorMode, fonts: &Vec<String>, colors: ThemeColorTexts) -> (r: Vec<(String, String)>)
    ensures
        pair_texts(r@) == theme_variables_spec(mode, fonts@, colors),
        sets_variable(pair_texts(r@), "--base-fonts"@, font_family_text(fonts@)),
        sets_variable(pair_texts(r@), "--base-primary-color"@, colors.primary@),
        sets_variable(pair_texts(r@), "--base-primary-text-color"@, colors.primary_text@),
        sets_variable(pair_texts(r@), "--base-secondary-color"@, colors.secondary@),
        sets_variable(pair_texts(r@), "--base-secondary-text-color"@, colors.secondary_text@),
        sets_variable(pair_texts(r@), "--base-danger-color"@, colors.danger@),
        sets_variable(pair_texts(r@), "--base-danger-text-color"@, colors.danger_text@),
        sets_variable(pair_texts(r@), "--base-error-color"@, colors.error@),
{
    proof {
        lemma_variables_carry_fields(mode, fonts@, colors);
    }
    let ghost c = colors;
    let mut r: Vec<(String, String)> = Vec::new();
    r.push(("--base-fonts".to_owned(), font_family(fonts)));
    r.push(("--base-color-mode-percentage".to_owned(), color_mode_percentage(mode).to_owned()));
    r.push(("--base-primary-svg-filter".to_owned(), svg_filter(mode).to_owned()));
    r.push(("--base-primary-svg-filter-disabled".to_owned(), svg_filter_disabled(mode).to_owned()));
    r.push(("--base-primary-color".to_owned(), colors.primary));
    r.push(("--base-primary-text-color".to_owned(), colors.primary_text));
    r.push(("--base-secondary-color".to_owned(), colors.secondary));
    r.push(("--base-secondary-text-color".to_owned(), colors.secondary_text));
    r.push(("--base-danger-color".to_owned(), colors.danger));
    r.push(("--base-danger-text-color".to_owned(), colors.danger_text));
    r.push(("--base-error-color".to_owned(), colors.error));
    assert(pair_texts(r@) =~= theme_variables_spec(mode, fonts@, c));
    r
}

} // verus!
