//! Colours: the colour maps on offer, and what a terminal shows for a colour.

use vstd::prelude::*;

verus! {

/// What the terminal can show.
#[derive(Debug, Clone, Copy, PartialEq, Eq, Structural)]
pub enum ColorMode {
    /// 24-bit colour.
    TrueColor,
    /// The palette of 256 colours.
    Ansi256,
}

/// A colour by its red, green and blue parts.
#[derive(Debug, Clone, Copy, PartialEq, Eq, Structural)]
pub struct HjColor {
    pub r: u8,
    pub g: u8,
    pub b: u8,
}

/// A colour in the form in which a terminal cell takes it.
#[derive(Debug, Clone, Copy, PartialEq, Eq, Structural)]
pub enum TermColor {
    Rgb(u8, u8, u8),
    /// An entry of the palette of 256 colours.
    Indexed(u8),
    White,
    Black,
}

/// The colour maps on offer.
#[derive(Debug, Clone, Copy, PartialEq, Eq, Structural)]
pub enum ColorMap {
    Greys,
    Inferno,
    Turbo,
    Magma,
    Viridis,
    Cubehelix,
    Rainbow,
}

/// A colour map together with the direction in which it is read.
#[derive(Debug, Clone, Copy, PartialEq, Eq, Structural)]
pub struct ColorMapper {
    pub gradient: ColorMap,
    /// Whether position 0 of the map shows its last colour.
    pub invert: bool,
}

/// The palette entry that `ansi_colours::ansi256_from_rgb` picks for a colour.
pub uninterp spec fn ansi256_index(r: u8, g: u8, b: u8) -> u8;

/// `ansi_colours::ansi256_from_rgb` on the triple of the three parts: the
/// index of the palette entry that comes closest to the colour.
#[verifier::external_body]
fn ansi256_from_rgb(r: u8, g: u8, b: u8) -> (index: u8)
    ensures
        index == ansi256_index(r, g, b),
{
    ansi_colours::ansi256_from_rgb((r, g, b))
}

/// `colorous::Gradient::eval_rational` on the gradient of `colorous` that
/// `map` names: the gradient's colour at step `i` of `n`. The call panics
/// for `n == 0`. Some gradients are computed with functions whose last digit
/// may differ from one machine to the next, so nothing is claimed of the
/// colour.
#[verifier::external_body]
fn eval_rational(map: ColorMap, i: usize, n: usize) -> (color: HjColor)
    requires
        n > 0,
{
    let gradient = match map {
        ColorMap::Greys => colorous::GREYS,
        ColorMap::Inferno => colorous::INFERNO,
        ColorMap::Turbo => colorous::TURBO,
        ColorMap::Magma => colorous::MAGMA,
        ColorMap::Viridis => colorous::VIRIDIS,
        ColorMap::Cubehelix => colorous::CUBEHELIX,
        ColorMap::Rainbow => colorous::SINEBOW,
    };
    let c = gradient.eval_rational(i, n);
    HjColor { r: c.r, g: c.g, b: c.b }
}

/// The brightness of a colour in ten-thousandths: 0.2126 of the red, 0.7152
/// of the green and 0.0722 of the blue part.
pub open spec fn spec_luma(color: HjColor) -> int {
    2126 * color.r + 7152 * color.g + 722 * color.b
}

/// What a terminal of the given mode shows for a colour.
pub open spec fn spec_term_color(color: HjColor, mode: ColorMode) -> TermColor {
    match mode {
        ColorMode::TrueColor => TermColor::Rgb(color.r, color.g, color.b),
        ColorMode::Ansi256 => TermColor::Indexed(ansi256_index(color.r, color.g, color.b)),
    }
}

/// White on a colour whose brightness is below 128, black on any other.
pub open spec fn spec_max_contrast(color: HjColor) -> TermColor {
    if spec_luma(color) < 1_280_000 {
        TermColor::White
    } else {
        TermColor::Black
    }
}

/// The colour with each part taken from 255.
pub open spec fn spec_invert(color: HjColor) -> HjColor {
    HjColor { r: (255 - color.r) as u8, g: (255 - color.g) as u8, b: (255 - color.b) as u8 }
}

impl HjColor {
    /// The colour with each part taken from 255.
    pub fn invert(&self) -> (inverted: Self)
        ensures
            inverted == spec_invert(*self),
    {
        Self { r: 255 - self.r, g: 255 - self.g, b: 255 - self.b }
    }

    /// The brightness in ten-thousandths, between 0 and 2,550,000.
    pub fn luma(&self) -> (luma: u32)
        ensures
            luma == spec_luma(*self),
            luma <= 2_550_000,
    {
        2126 * (self.r as u32) + 7152 * (self.g as u32) + 722 * (self.b as u32)
    }

    /// What a terminal of the given mode shows for the colour: the colour
    /// itself in true colour, else the nearest entry of the palette.
    pub fn term_color(&self, mode: ColorMode) -> (shown: TermColor)
        ensures
            shown == spec_term_color(*self, mode),
    {
        match mode {
            ColorMode::TrueColor => TermColor::Rgb(self.r, self.g, self.b),
            ColorMode::Ansi256 => TermColor::Indexed(ansi256_from_rgb(self.r, self.g, self.b)),
        }
    }

    /// The colour in which a glyph stays legible on this one.
    pub fn max_contrast(&self) -> (shown: TermColor)
        ensures
            shown == spec_max_contrast(*self),
    {
        if self.luma() < 1_280_000 {
            TermColor::White
        } else {
            TermColor::Black
        }
    }
}

/// What a terminal of the given mode shows for step `val` of `val_max` of a
/// colour map: the gradient's colour is looked up, and `HjColor::term_color`
/// tells what is shown for it.
pub fn calc_termcolor_rational(mode: ColorMode, map: ColorMap, val: usize, val_max: usize) -> (shown:
    TermColor)
    requires
        val_max > 0,
    ensures
        exists|color: HjColor| shown == #[trigger] spec_term_color(color, mode),
{
    let rgb = eval_rational(map, val, val_max);
    rgb.term_color(mode)
}

/// What a terminal of the given mode shows for the inverse of the colour at
/// step `val` of `val_max` of a colour map: the gradient's colour is looked
/// up and inverted, and `HjColor::term_color` tells what is shown for it.
pub fn calc_termcolor_inverted_rational(
    mode: ColorMode,
    map: ColorMap,
    val: usize,
    val_max: usize,
) -> (shown: TermColor)
    requires
        val_max > 0,
    ensures
        exists|color: HjColor| shown == #[trigger] spec_term_color(spec_invert(color), mode),
{
    let rgb = eval_rational(map, val, val_max).invert();
    rgb.term_color(mode)
}

/// The colour as a true-colour terminal takes it.
pub fn colorous2tui(value: HjColor) -> (shown: TermColor)
    ensures
        shown == TermColor::Rgb(value.r, value.g, value.b),
{
    TermColor::Rgb(value.r, value.g, value.b)
}

/// The colour with each part taken from 255.
pub fn invert_color(value: HjColor) -> (inverted: HjColor)
    ensures
        inverted == spec_invert(value),
{
    HjColor { r: 255 - value.r, g: 255 - value.g, b: 255 - value.b }
}

impl ColorMapper {
    /// What a terminal of the given mode shows for `sample`, the colour of
    /// the map at the position of a value.
    pub fn color(&self, sample: HjColor, mode: ColorMode) -> (shown: TermColor)
        ensures
            shown == spec_term_color(sample, mode),
    {
        sample.term_color(mode)
    }

    /// Black or white, whichever stays legible on `sample`, the colour of the
    /// map at the position of a value. The mode makes no difference.
    pub fn color_max_contrast(&self, sample: HjColor, _mode: ColorMode) -> (shown: TermColor)
        ensures
            shown == spec_max_contrast(sample),
    {
        sample.max_contrast()
    }
}

impl ColorMap {
    /// Whether the map is read backwards, so that low values show light.
    pub open spec fn spec_inverted(self) -> bool {
        self == ColorMap::Greys
    }

    /// The map that follows this one when the user cycles through them.
    pub open spec fn spec_next(self) -> ColorMap {
        match self {
            ColorMap::Greys => ColorMap::Inferno,
            ColorMap::Inferno => ColorMap::Turbo,
            ColorMap::Turbo => ColorMap::Magma,
            ColorMap::Magma => ColorMap::Viridis,
            ColorMap::Viridis => ColorMap::Cubehelix,
            ColorMap::Cubehelix => ColorMap::Rainbow,
            ColorMap::Rainbow => ColorMap::Greys,
        }
    }

    /// The mapper for this map: `Greys` is read backwards, the others
    /// forwards.
    pub fn get(&self) -> (mapper: ColorMapper)
        ensures
            mapper.gradient == *self,
            mapper.invert == self.spec_inverted(),
    {
        match self {
            ColorMap::Greys => ColorMapper { gradient: ColorMap::Greys, invert: true },
            ColorMap::Inferno => ColorMapper { gradient: ColorMap::Inferno, invert: false },
            ColorMap::Turbo => ColorMapper { gradient: ColorMap::Turbo, invert: false },
            ColorMap::Magma => ColorMapper { gradient: ColorMap::Magma, invert: false },
            ColorMap::Viridis => ColorMapper { gradient: ColorMap::Viridis, invert: false },
            ColorMap::Cubehelix => ColorMapper { gradient: ColorMap::Cubehelix, invert: false },
            ColorMap::Rainbow => ColorMapper { gradient: ColorMap::Rainbow, invert: false },
        }
    }

    /// The map that follows this one when the user cycles through them.
    pub fn next(&self) -> (following: Self)
        ensures
            following == self.spec_next(),
    {
        match self {
            ColorMap::Greys => ColorMap::Inferno,
            ColorMap::Inferno => ColorMap::Turbo,
            ColorMap::Turbo => ColorMap::Magma,
            ColorMap::Magma => ColorMap::Viridis,
            ColorMap::Viridis => ColorMap::Cubehelix,
            ColorMap::Cubehelix => ColorMap::Rainbow,
            ColorMap::Rainbow => ColorMap::Greys,
        }
    }

    /// The name under which the map is shown.
    pub fn name(&self) -> (s: &'static str)
        ensures
            *self == ColorMap::Greys ==> s@ == "Greys"@,
            *self == ColorMap::Inferno ==> s@ == "Inferno"@,
            *self == ColorMap::Turbo ==> s@ == "Turbo"@,
            *self == ColorMap::Magma ==> s@ == "Magma"@,
            *self == ColorMap::Viridis ==> s@ == "Viridis"@,
            *self == ColorMap::Cubehelix ==> s@ == "Cubehelix"@,
            *self == ColorMap::Rainbow ==> s@ == "Rainbow"@,
    {
        match self {
            ColorMap::Greys => "Greys",
            ColorMap::Inferno => "Inferno",
            ColorMap::Turbo => "Turbo",
            ColorMap::Magma => "Magma",
            ColorMap::Viridis => "Viridis",
            ColorMap::Cubehelix => "Cubehelix",
            ColorMap::Rainbow => "Rainbow",
        }
    }
}

/// Cycling through the colour maps visits every one of them and comes back
/// after seven steps, not before.
pub proof fn lemma_next_cycles_through_all(map: ColorMap)
    ensures
        map.spec_next() != map,
        map.spec_next().spec_next().spec_next().spec_next().spec_next().spec_next().spec_next()
            == map,
        forall|a: ColorMap, b: ColorMap| a.spec_next() == b.spec_next() ==> a == b,
{
}

} // verus!
