//! Colour themes: a palette of three opaque style tokens and the theme
//! metadata loaded from a theme file or chosen from the built-in set.

use vstd::prelude::*;

verus! {

/// Ghost model of a palette: the three style tokens as character sequences.
pub struct PaletteModel {
    pub accent: Seq<char>,
    pub dim: Seq<char>,
    pub glow: Seq<char>,
}

/// Three opaque style tokens used when a segment is rendered.  The
/// library treats them as atomic formatting codes with no further
/// meaning.
#[derive(Debug, Clone)]
pub struct ThemePalette {
    accent: String,
    dim: String,
    glow: String,
}

impl View for ThemePalette {
    type V = PaletteModel;

    closed spec fn view(&self) -> PaletteModel {
        PaletteModel { accent: self.accent@, dim: self.dim@, glow: self.glow@ }
    }
}

impl ThemePalette {
    pub fn new(accent: String, dim: String, glow: String) -> (p: ThemePalette)
        ensures
            p@.accent == accent@,
            p@.dim == dim@,
            p@.glow == glow@,
    {
        ThemePalette { accent, dim, glow }
    }

    pub fn accent(&self) -> (r: &str)
        ensures
            r@ == self@.accent,
    {
        self.accent.as_str()
    }

    pub fn dim(&self) -> (r: &str)
        ensures
            r@ == self@.dim,
    {
        self.dim.as_str()
    }

    pub fn glow(&self) -> (r: &str)
        ensures
            r@ == self@.glow,
    {
        self.glow.as_str()
    }
}

/// Ghost model of a theme specification.
pub struct ThemeSpecModel {
    pub label: Seq<char>,
    pub palette: PaletteModel,
}

/// A named palette, as described by a theme file.
#[derive(Debug, Clone)]
pub struct ThemeSpec {
    label: String,
    palette: ThemePalette,
}

impl View for ThemeSpec {
    type V = ThemeSpecModel;

    closed spec fn view(&self) -> ThemeSpecModel {
        ThemeSpecModel { label: self.label@, palette: self.palette@ }
    }
}

impl ThemeSpec {
    /// Builds a theme specification from the plain values read out of a
    /// theme file: the optional `name` entry, the file-stem fallback for
    /// the label, and the palette.  Returns `None` exactly when neither
    /// a name nor a file stem is available.
    pub fn from_parts(name: Option<String>, stem: Option<String>, palette: ThemePalette) -> (r:
        Option<ThemeSpec>)
        ensures
            r is Some <==> (name is Some || stem is Some),
            name matches Some(n) ==> r matches Some(spec) && spec@.label == n@ && spec@.palette
                == palette@,
            name is None ==> (stem matches Some(s) ==> r matches Some(spec) && spec@.label == s@
                && spec@.palette == palette@),
    {
        match name {
            Some(label) => Some(ThemeSpec { label, palette }),
            None => match stem {
                Some(label) => Some(ThemeSpec { label, palette }),
                None => None,
            },
        }
    }

    pub fn label(&self) -> (r: &str)
        ensures
            r@ == self@.label,
    {
        self.label.as_str()
    }

    pub fn palette(&self) -> (r: &ThemePalette)
        ensures
            r@ == self@.palette,
    {
        &self.palette
    }
}

/// The built-in colour themes.
#[derive(Copy, Clone, Debug, PartialEq, Eq, Structural)]
pub enum ThemeName {
    Neon,
    Amber,
    Arctic,
}

impl ThemeName {
    /// The default palette of each built-in theme.
    pub fn defaults(self) -> (p: ThemePalette)
        ensures
            self == ThemeName::Neon ==> p@.accent == "\x1b[38;5;214m"@ && p@.dim
                == "\x1b[38;5;238m"@ && p@.glow == "\x1b[38;5;51m"@,
            self == ThemeName::Amber ==> p@.accent == "\x1b[38;5;178m"@ && p@.dim
                == "\x1b[38;5;94m"@ && p@.glow == "\x1b[38;5;221m"@,
            self == ThemeName::Arctic ==> p@.accent == "\x1b[38;5;195m"@ && p@.dim
                == "\x1b[38;5;250m"@ && p@.glow == "\x1b[38;5;117m"@,
    {
        match self {
            ThemeName::Neon => ThemePalette::new(
                String::from_str("\x1b[38;5;214m"),
                String::from_str("\x1b[38;5;238m"),
                String::from_str("\x1b[38;5;51m"),
            ),
            ThemeName::Amber => ThemePalette::new(
                String::from_str("\x1b[38;5;178m"),
                String::from_str("\x1b[38;5;94m"),
                String::from_str("\x1b[38;5;221m"),
            ),
            ThemeName::Arctic => ThemePalette::new(
                String::from_str("\x1b[38;5;195m"),
                String::from_str("\x1b[38;5;250m"),
                String::from_str("\x1b[38;5;117m"),
            ),
        }
    }

    /// The display form of the theme's name, in upper case.
    pub fn display_name(self) -> (r: String)
        ensures
            self == ThemeName::Neon ==> r@ == "NEON"@,
            self == ThemeName::Amber ==> r@ == "AMBER"@,
            self == ThemeName::Arctic ==> r@ == "ARCTIC"@,
    {
        match self {
            ThemeName::Neon => String::from_str("NEON"),
            ThemeName::Amber => String::from_str("AMBER"),
            ThemeName::Arctic => String::from_str("ARCTIC"),
        }
    }
}

} // verus!
