//! The palette a theme file defines, its defaults, and the preview of it.
use vstd::prelude::*;

verus! {

/// The colour that every missing colour field takes.
pub open spec fn default_hex() -> Seq<char> {
    "#000000"@
}

/// The text shown for a missing name, author or cursor colour.
pub open spec fn empty_label() -> Seq<char> {
    "Empty"@
}

fn black_hex() -> (r: String)
    ensures
        r@ == default_hex(),
{
    proof { reveal_strlit("#000000"); }
    String::from_str("#000000")
}

#[derive(Clone, Debug)]
pub struct YmlPrimary {
    pub background: String,
    pub foreground: String,
}

#[derive(Clone, Debug)]
pub struct YmlCursor {
    pub text: String,
    pub cursor: String,
}

#[derive(Clone, Debug)]
pub struct YmlNormal {
    pub black: String,
    pub red: String,
    pub green: String,
    pub yellow: String,
    pub blue: String,
    pub magenta: String,
    pub cyan: String,
    pub white: String,
}

#[derive(Clone, Debug)]
pub struct YmlBright {
    pub black: String,
    pub red: String,
    pub green: String,
    pub yellow: String,
    pub blue: String,
    pub magenta: String,
    pub cyan: String,
    pub white: String,
}

/// The `colors` section of a theme file.
#[derive(Clone, Debug)]
pub struct YmlColors {
    pub name: Option<String>,
    pub author: Option<String>,
    pub primary: YmlPrimary,
    pub cursor: Option<YmlCursor>,
    pub normal: YmlNormal,
    pub bright: YmlBright,
}

/// A whole theme file: its `colors` section.
#[derive(Clone, Debug)]
pub struct YmlColor {
    pub colors: YmlColors,
}

pub open spec fn primary_is_default(p: YmlPrimary) -> bool {
    p.background@ == default_hex() && p.foreground@ == default_hex()
}

pub open spec fn cursor_is_default(c: YmlCursor) -> bool {
    c.text@ == default_hex() && c.cursor@ == default_hex()
}

pub open spec fn normal_is_default(n: YmlNormal) -> bool {
    &&& n.black@ == default_hex()
    &&& n.red@ == default_hex()
    &&& n.green@ == default_hex()
    &&& n.yellow@ == default_hex()
    &&& n.blue@ == default_hex()
    &&& n.magenta@ == default_hex()
    &&& n.cyan@ == default_hex()
    &&& n.white@ == default_hex()
}

pub open spec fn bright_is_default(n: YmlBright) -> bool {
    &&& n.black@ == default_hex()
    &&& n.red@ == default_hex()
    &&& n.green@ == default_hex()
    &&& n.yellow@ == default_hex()
    &&& n.blue@ == default_hex()
    &&& n.magenta@ == default_hex()
    &&& n.cyan@ == default_hex()
    &&& n.white@ == default_hex()
}

/// No name, no author, no cursor section, and every colour black.
pub open spec fn colors_are_default(c: YmlColors) -> bool {
    &&& c.name.is_none()
    &&& c.author.is_none()
    &&& c.cursor.is_none()
    &&& primary_is_default(c.primary)
    &&& normal_is_default(c.normal)
    &&& bright_is_default(c.bright)
}

impl Default for YmlPrimary {
    fn default() -> (r: Self)
        ensures
            primary_is_default(r),
    {
        YmlPrimary { background: black_hex(), foreground: black_hex() }
    }
}

impl Default for YmlCursor {
    fn default() -> (r: Self)
        ensures
            cursor_is_default(r),
    {
        YmlCursor { text: black_hex(), cursor: black_hex() }
    }
}

impl Default for YmlNormal {
    fn default() -> (r: Self)
        ensures
            normal_is_default(r),
    {
        YmlNormal {
            black: black_hex(),
            red: black_hex(),
            green: black_hex(),
            yellow: black_hex(),
            blue: black_hex(),
            magenta: black_hex(),
            cyan: black_hex(),
            white: black_hex(),
        }
    }
}

impl Default for YmlBright {
    fn default() -> (r: Self)
        ensures
            bright_is_default(r),
    {
        YmlBright {
            black: black_hex(),
            red: black_hex(),
            green: black_hex(),
            yellow: black_hex(),
            blue: black_hex(),
            magenta: black_hex(),
            cyan: black_hex(),
            white: black_hex(),
        }
    }
}

impl Default for YmlColors {
    fn default() -> (r: Self)
        ensures
            colors_are_default(r),
    {
        YmlColors {
            name: None,
            author: None,
            primary: YmlPrimary::default(),
            cursor: None,
            normal: YmlNormal::default(),
            bright: YmlBright::default(),
        }
    }
}

impl Default for YmlColor {
    fn default() -> (r: Self)
        ensures
            colors_are_default(r.colors),
    {
        YmlColor { colors: YmlColors::default() }
    }
}

impl YmlColor {
    /// The theme to preview: what was read, or the all-black default where the
    /// file could not be read.
    pub fn or_default(parsed: Option<YmlColor>) -> (r: YmlColor)
        ensures
            parsed.is_some() ==> r == parsed.unwrap(),
            parsed.is_none() ==> colors_are_default(r.colors),
    {
        match parsed {
            Some(t) => t,
            None => YmlColor::default(),
        }
    }
}

impl YmlColors {
    /// The cursor colours, black where the section is missing.
    pub fn cursor_or_default(&self) -> (r: YmlCursor)
        ensures
            self.cursor.is_some() ==> r.text@ == self.cursor.unwrap().text@
                && r.cursor@ == self.cursor.unwrap().cursor@,
            self.cursor.is_none() ==> cursor_is_default(r),
    {
        match &self.cursor {
            Some(c) => YmlCursor { text: c.text.clone(), cursor: c.cursor.clone() },
            None => YmlCursor::default(),
        }
    }
}

/// What the configuration's `colors` section names itself.
pub open spec fn current_name_of(file: YmlColor) -> Seq<char> {
    match file.colors.name {
        Some(n) => n@,
        None => "ERROR: name not found"@,
    }
}

/// The name of the theme a configuration holds, or a message saying it has
/// none.
pub fn current_theme_name(file: &YmlColor) -> (r: String)
    ensures
        r@ == current_name_of(*file),
{
    match &file.colors.name {
        Some(n) => n.clone(),
        None => String::from_str("ERROR: name not found"),
    }
}

} // verus!
