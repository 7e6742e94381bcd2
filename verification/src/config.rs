//! The rendering configuration consumed by the core: frame width, the
//! style palette, and the animation flag, plus the title and theme label
//! used only by the surrounding display.

use vstd::prelude::*;
use crate::MIN_FRAME_WIDTH;
use crate::theme::{PaletteModel, ThemePalette};

verus! {

/// Ghost model of a configuration.
pub struct ConfigModel {
    pub frame_width: nat,
    pub palette: PaletteModel,
    pub banner_path: Option<Seq<char>>,
    pub presentation_title: Seq<char>,
    pub theme_label: Seq<char>,
    pub animations_enabled: bool,
}

/// The ghost contents of an optional string.
pub open spec fn opt_view(o: Option<String>) -> Option<Seq<char>> {
    match o {
        Some(s) => Some(s@),
        None => None,
    }
}

/// What a frame width of `w` becomes after a requested change by
/// `delta`: the sum, saturated at `usize::MAX`, and never below the
/// minimum frame width.
pub open spec fn adjusted_width(w: int, delta: int) -> int {
    let sum = w + delta;
    let sat = if sum > usize::MAX as int {
        usize::MAX as int
    } else {
        sum
    };
    if sat < MIN_FRAME_WIDTH as int {
        MIN_FRAME_WIDTH as int
    } else {
        sat
    }
}

/// The rendering configuration.  Only the frame width is mutable after
/// construction; it never drops below the minimum frame width.
#[derive(Debug, Clone)]
pub struct Config {
    frame_width: usize,
    palette: ThemePalette,
    banner_path: Option<String>,
    presentation_title: String,
    theme_label: String,
    animations_enabled: bool,
}

impl View for Config {
    type V = ConfigModel;

    closed spec fn view(&self) -> ConfigModel {
        ConfigModel {
            frame_width: self.frame_width as nat,
            palette: self.palette@,
            banner_path: match self.banner_path {
                Some(p) => Some(p@),
                None => None,
            },
            presentation_title: self.presentation_title@,
            theme_label: self.theme_label@,
            animations_enabled: self.animations_enabled,
        }
    }
}

impl Config {
    /// The configuration invariant: the frame width respects the minimum.
    pub open spec fn wf(&self) -> bool {
        self@.frame_width >= MIN_FRAME_WIDTH as nat
    }

    /// Assembles a configuration from plain values.  A requested frame
    /// width below the minimum is clamped up to it; everything else is
    /// stored unchanged.
    pub fn new(
        frame_width: usize,
        palette: ThemePalette,
        banner_path: Option<String>,
        presentation_title: String,
        theme_label: String,
        animations_enabled: bool,
    ) -> (c: Config)
        ensures
            c.wf(),
            c@.frame_width == if frame_width < MIN_FRAME_WIDTH {
                MIN_FRAME_WIDTH as nat
            } else {
                frame_width as nat
            },
            c@.palette == palette@,
            c@.banner_path == opt_view(banner_path),
            c@.presentation_title == presentation_title@,
            c@.theme_label == theme_label@,
            c@.animations_enabled == animations_enabled,
    {
        let width = if frame_width < MIN_FRAME_WIDTH {
            MIN_FRAME_WIDTH
        } else {
            frame_width
        };
        Config {
            frame_width: width,
            palette,
            banner_path,
            presentation_title,
            theme_label,
            animations_enabled,
        }
    }

    pub fn frame_width(&self) -> (w: usize)
        ensures
            w as nat == self@.frame_width,
    {
        self.frame_width
    }

    pub fn color_accent(&self) -> (r: &str)
        ensures
            r@ == self@.palette.accent,
    {
        self.palette.accent()
    }

    pub fn color_dim(&self) -> (r: &str)
        ensures
            r@ == self@.palette.dim,
    {
        self.palette.dim()
    }

    pub fn color_glow(&self) -> (r: &str)
        ensures
            r@ == self@.palette.glow,
    {
        self.palette.glow()
    }

    pub fn banner_path(&self) -> (r: Option<&String>)
        ensures
            r is Some <==> self@.banner_path is Some,
            r matches Some(p) ==> self@.banner_path == Some(p@),
    {
        self.banner_path.as_ref()
    }

    pub fn presentation_title(&self) -> (r: &str)
        ensures
            r@ == self@.presentation_title,
    {
        self.presentation_title.as_str()
    }

    pub fn theme_label(&self) -> (r: &str)
        ensures
            r@ == self@.theme_label,
    {
        self.theme_label.as_str()
    }

    pub fn animations_enabled(&self) -> (r: bool)
        ensures
            r == self@.animations_enabled,
    {
        self.animations_enabled
    }

    /// Changes the frame width by `delta` columns, clamping at the
    /// minimum frame width, and reports whether the effective width
    /// changed.  No other field is touched.
    pub fn adjust_frame_width(&mut self, delta: isize) -> (changed: bool)
        ensures
            final(self)@.frame_width == adjusted_width(old(self)@.frame_width as int, delta as int),
            changed == (final(self)@.frame_width != old(self)@.frame_width),
            final(self).wf(),
            final(self)@.palette == old(self)@.palette,
            final(self)@.banner_path == old(self)@.banner_path,
            final(self)@.presentation_title == old(self)@.presentation_title,
            final(self)@.theme_label == old(self)@.theme_label,
            final(self)@.animations_enabled == old(self)@.animations_enabled,
    {
        let updated = match self.frame_width.checked_add_signed(delta) {
            Some(sum) => {
                if sum < MIN_FRAME_WIDTH {
                    MIN_FRAME_WIDTH
                } else {
                    sum
                }
            },
            None => {
                if delta >= 0 {
                    usize::MAX
                } else {
                    MIN_FRAME_WIDTH
                }
            },
        };
        if updated != self.frame_width {
            self.frame_width = updated;
            true
        } else {
            false
        }
    }
}

} // verus!
