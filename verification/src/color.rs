//! The color palette: 256 indexed colors and the colors of the terminal's
//! own elements, and how a cell's color attribute resolves against them.
//!
//! A color is an `SrgbaTuple` of `termwiz`. It is only ever stored and
//! handed on here; the one thing asked of `termwiz` is to make a color from
//! red, green and blue.

use vstd::prelude::*;
use termwiz::color::{RgbColor, SrgbaTuple};

verus! {

/// `termwiz::color::SrgbaTuple`: a color of red, green, blue and alpha. It
/// is stored and handed on unread.
#[verifier::external_type_specification]
#[verifier::external_body]
pub struct ExSrgbaTuple(SrgbaTuple);

/// The color with the given red, green and blue, each out of 255, and full
/// alpha: what [`rgb8`] returns.
pub uninterp spec fn srgba(red: u8, green: u8, blue: u8) -> SrgbaTuple;

/// `RgbColor::new_8bpc` and the conversion of its result into `SrgbaTuple`.
/// Claimed is only that the color depends on the three numbers alone.
#[verifier::external_body]
fn rgb8(red: u8, green: u8, blue: u8) -> (color: SrgbaTuple)
    ensures
        color == srgba(red, green, blue),
{
    RgbColor::new_8bpc(red, green, blue).into()
}

/// `SrgbaTuple::clone`, which `derive` wrote for this `Copy` type: the copy
/// is the color itself.
pub assume_specification[ <SrgbaTuple as Clone>::clone ](color: &SrgbaTuple) -> (copy: SrgbaTuple)
    ensures
        copy == *color,
;

/// The color that a cell asks for.
#[derive(Clone, Copy)]
pub enum ColorAttribute {
    /// This color; where that cannot be shown, the palette entry.
    TrueColorWithPaletteFallback(SrgbaTuple, u8),
    /// This color; where that cannot be shown, the default color.
    TrueColorWithDefaultFallback(SrgbaTuple),
    /// The palette entry with this index.
    PaletteIndex(u8),
    /// The default color.
    Default,
}

/// The 256 indexed colors.
#[derive(Clone)]
pub struct Palette256(pub [SrgbaTuple; 256]);

/// The palette of a terminal.
#[derive(Clone)]
pub struct ColorPalette {
    pub colors: Palette256,
    pub foreground: SrgbaTuple,
    pub background: SrgbaTuple,
    pub cursor_fg: SrgbaTuple,
    pub cursor_bg: SrgbaTuple,
    pub cursor_border: SrgbaTuple,
    pub selection_fg: SrgbaTuple,
    pub selection_bg: SrgbaTuple,
    pub scrollbar_thumb: SrgbaTuple,
    pub split: SrgbaTuple,
}

/// The intensity of step `level` of the six-step ramp that the color cube
/// is made of. The steps are those of xterm, which are a little brighter
/// than an even ramp.
pub open spec fn ramp6(level: int) -> u8 {
    if level == 0 {
        0x00
    } else if level == 1 {
        0x5f
    } else if level == 2 {
        0x87
    } else if level == 3 {
        0xaf
    } else if level == 4 {
        0xd7
    } else {
        0xff
    }
}

/// The intensity of step `step` of the 24 greys: from 8 upwards in tens.
pub open spec fn grey_level(step: int) -> u8 {
    (8 + 10 * step) as u8
}

/// Entry `index` of a 256-color table over the 16 colors `ansi`: the ansi
/// colors themselves, then the 6x6x6 color cube with blue running fastest,
/// then the 24 greys.
pub open spec fn xterm_color(ansi: Seq<SrgbaTuple>, index: int) -> SrgbaTuple {
    if index < 16 {
        ansi[index]
    } else if index < 232 {
        let cell = index - 16;
        srgba(ramp6(cell / 36 % 6), ramp6(cell / 6 % 6), ramp6(cell % 6))
    } else {
        let level = grey_level(index - 232);
        srgba(level, level, level)
    }
}

/// The index that a palette color is looked up at as a foreground: bold
/// text shows the first eight colors as their bright counterparts.
pub open spec fn foreground_index(index: u8, bold: bool) -> int {
    if bold && index < 8 {
        index + 8
    } else {
        index as int
    }
}

/// The color that an attribute resolves to over the table `colors`:
/// `fallback` for the default color, the table's entry for a palette color,
/// looked up as a foreground of bold text where `bold` says so, and the color
/// itself where the attribute carries one.
pub open spec fn resolved(
    colors: Seq<SrgbaTuple>,
    fallback: SrgbaTuple,
    color: ColorAttribute,
    bold: bool,
) -> SrgbaTuple {
    match color {
        ColorAttribute::Default => fallback,
        ColorAttribute::PaletteIndex(index) => colors[foreground_index(index, bold)],
        ColorAttribute::TrueColorWithPaletteFallback(color, _) => color,
        ColorAttribute::TrueColorWithDefaultFallback(color) => color,
    }
}

/// The 16 ansi colors of the "Adventure Time" scheme.
pub open spec fn adventure_time_ansi() -> Seq<SrgbaTuple> {
    seq![
        srgba(0x05, 0x04, 0x04),
        srgba(0xbd, 0x00, 0x13),
        srgba(0x4a, 0xb1, 0x18),
        srgba(0xe7, 0x74, 0x1e),
        srgba(0x0f, 0x4a, 0xc6),
        srgba(0x66, 0x59, 0x93),
        srgba(0x70, 0xa5, 0x98),
        srgba(0xf8, 0xdc, 0xc0),
        srgba(0x4e, 0x7c, 0xbf),
        srgba(0xfc, 0x5f, 0x5a),
        srgba(0x9e, 0xff, 0x6e),
        srgba(0xef, 0xc1, 0x1a),
        srgba(0x19, 0x97, 0xc6),
        srgba(0x9b, 0x59, 0x53),
        srgba(0xc8, 0xfa, 0xf4),
        srgba(0xf6, 0xf5, 0xfb),
    ]
}

/// The 16 ansi colors of the xterm scheme.
pub open spec fn xterm_ansi() -> Seq<SrgbaTuple> {
    seq![
        srgba(0x00, 0x00, 0x00),
        srgba(0xcc, 0x55, 0x55),
        srgba(0x55, 0xcc, 0x55),
        srgba(0xcd, 0xcd, 0x55),
        srgba(0x54, 0x55, 0xcb),
        srgba(0xcc, 0x55, 0xcc),
        srgba(0x7a, 0xca, 0xca),
        srgba(0xcc, 0xcc, 0xcc),
        srgba(0x55, 0x55, 0x55),
        srgba(0xff, 0x55, 0x55),
        srgba(0x55, 0xff, 0x55),
        srgba(0xff, 0xff, 0x55),
        srgba(0x55, 0x55, 0xff),
        srgba(0xff, 0x55, 0xff),
        srgba(0x55, 0xff, 0xff),
        srgba(0xff, 0xff, 0xff),
    ]
}

fn ramp(level: usize) -> (intensity: u8)
    requires
        level < 6,
    ensures
        intensity == ramp6(level as int),
{
    if level == 0 {
        0x00
    } else if level == 1 {
        0x5f
    } else if level == 2 {
        0x87
    } else if level == 3 {
        0xaf
    } else if level == 4 {
        0xd7
    } else {
        0xff
    }
}

/// Resolves an attribute over the table `colors`: see [`resolved`].
pub fn resolve(colors: &[SrgbaTuple; 256], fallback: SrgbaTuple, color: ColorAttribute, bold: bool)
    -> (result: SrgbaTuple)
    ensures
        result == resolved(colors@, fallback, color, bold),
{
    match color {
        ColorAttribute::Default => fallback,
        ColorAttribute::PaletteIndex(index) => {
            let shifted: u8 = if bold && index < 8 {
                index + 8
            } else {
                index
            };
            colors[shifted as usize]
        },
        ColorAttribute::TrueColorWithPaletteFallback(color, _) => color,
        ColorAttribute::TrueColorWithDefaultFallback(color) => color,
    }
}

impl Palette256 {
    /// Whether this is the 256-color table over the ansi colors `ansi`.
    pub open spec fn is_xterm_table(&self, ansi: Seq<SrgbaTuple>) -> bool {
        forall|index: int|
            0 <= index < 256 ==> #[trigger] self.0@[index] == xterm_color(ansi, index)
    }

    /// A table that begins with `colors`, as far as they go and the table
    /// has room, and holds `fill` from there on.
    pub fn from_colors(colors: &[SrgbaTuple], fill: SrgbaTuple) -> (table: Palette256)
        ensures
            forall|index: int|
                0 <= index < 256 ==> #[trigger] table.0@[index] == if index < colors@.len() {
                    colors@[index]
                } else {
                    fill
                },
    {
        let mut table: [SrgbaTuple; 256] = [fill; 256];
        let count = if colors.len() < 256 {
            colors.len()
        } else {
            256
        };
        for index in 0..count
            invariant
                count <= 256,
                count <= colors@.len(),
                forall|i: int|
                    0 <= i < 256 ==> #[trigger] table@[i] == if i < index {
                        colors@[i]
                    } else {
                        fill
                    },
        {
            table[index] = colors[index];
        }
        Palette256(table)
    }

    /// The table that holds exactly `colors`; `None` unless there are 256 of
    /// them.
    pub fn from_exact(colors: &[SrgbaTuple]) -> (table: Option<Palette256>)
        ensures
            table is Some <==> colors@.len() == 256,
            table matches Some(palette) ==> palette.0@ == colors@,
    {
        if colors.len() != 256 {
            return None;
        }
        let table = Palette256::from_colors(colors, colors[0]);
        assert(table.0@ =~= colors@);
        Some(table)
    }

    /// The 256-color table over the 16 colors `ansi`: see [`xterm_color`].
    pub fn xterm(ansi: &[SrgbaTuple; 16]) -> (table: Palette256)
        ensures
            table.is_xterm_table(ansi@),
    {
        let mut colors: [SrgbaTuple; 256] = [ansi[0]; 256];
        for index in 0..16usize
            invariant
                forall|i: int| 0 <= i < index ==> #[trigger] colors@[i] == xterm_color(ansi@, i),
        {
            colors[index] = ansi[index];
        }
        for cell in 0..216usize
            invariant
                forall|i: int|
                    0 <= i < 16 + cell ==> #[trigger] colors@[i] == xterm_color(ansi@, i),
        {
            let blue = ramp(cell % 6);
            let green = ramp(cell / 6 % 6);
            let red = ramp(cell / 6 / 6 % 6);
            assert(cell / 6 / 6 == cell / 36) by (nonlinear_arith)
                requires
                    0 <= cell,
            ;
            colors[16 + cell] = rgb8(red, green, blue);
        }
        for step in 0..24usize
            invariant
                forall|i: int|
                    0 <= i < 232 + step ==> #[trigger] colors@[i] == xterm_color(ansi@, i),
        {
            let level: u8 = (8 + 10 * step) as u8;
            colors[232 + step] = rgb8(level, level, level);
        }
        Palette256(colors)
    }
}

impl ColorPalette {
    /// Whether this is the "Adventure Time" palette.
    pub open spec fn is_adventure_time(&self) -> bool {
        &&& self.colors.is_xterm_table(adventure_time_ansi())
        &&& self.foreground == srgba(0xf8, 0xdc, 0xc0)
        &&& self.background == srgba(0x1f, 0x1d, 0x45)
        &&& self.cursor_fg == srgba(0x08, 0x08, 0x0a)
        &&& self.cursor_bg == srgba(0xef, 0xbf, 0x38)
        &&& self.cursor_border == srgba(0xef, 0xbf, 0x38)
        &&& self.selection_fg == srgba(0x70, 0x6b, 0x4e)
        &&& self.selection_bg == srgba(0xf3, 0xd9, 0xc4)
        &&& self.scrollbar_thumb == srgba(0x22, 0x22, 0x22)
        &&& self.split == srgba(0x44, 0x44, 0x44)
    }

    /// Whether this is the xterm palette with the given selection colors.
    pub open spec fn is_xterm(&self, selection_fg: SrgbaTuple, selection_bg: SrgbaTuple) -> bool {
        &&& self.colors.is_xterm_table(xterm_ansi())
        &&& self.foreground == xterm_color(xterm_ansi(), 249)
        &&& self.background == srgba(0x00, 0x00, 0x00)
        &&& self.cursor_fg == srgba(0x00, 0x00, 0x00)
        &&& self.cursor_bg == srgba(0x52, 0xad, 0x70)
        &&& self.cursor_border == srgba(0x52, 0xad, 0x70)
        &&& self.selection_fg == selection_fg
        &&& self.selection_bg == selection_bg
        &&& self.scrollbar_thumb == srgba(0x22, 0x22, 0x22)
        &&& self.split == srgba(0x44, 0x44, 0x44)
    }

    /// The color that text with the attribute `color` is drawn in. Bold text
    /// shows the first eight palette colors as their bright counterparts.
    pub fn resolve_fg(&self, color: ColorAttribute, bold: bool) -> (resolved: SrgbaTuple)
        ensures
            resolved == match color {
                ColorAttribute::Default => self.foreground,
                ColorAttribute::PaletteIndex(index) => self.colors.0@[foreground_index(
                    index,
                    bold,
                )],
                ColorAttribute::TrueColorWithPaletteFallback(color, _) => color,
                ColorAttribute::TrueColorWithDefaultFallback(color) => color,
            },
    {
        resolve(&self.colors.0, self.foreground, color, bold)
    }

    /// The color that the background of a cell with the attribute `color`
    /// is drawn in.
    pub fn resolve_bg(&self, color: ColorAttribute) -> (resolved: SrgbaTuple)
        ensures
            resolved == match color {
                ColorAttribute::Default => self.background,
                ColorAttribute::PaletteIndex(index) => self.colors.0@[index as int],
                ColorAttribute::TrueColorWithPaletteFallback(color, _) => color,
                ColorAttribute::TrueColorWithDefaultFallback(color) => color,
            },
    {
        resolve(&self.colors.0, self.background, color, false)
    }

    /// The xterm palette. The two selection colors are no plain red, green
    /// and blue, so the caller supplies them.
    pub fn compute_default(selection_fg: SrgbaTuple, selection_bg: SrgbaTuple) -> (palette:
        ColorPalette)
        ensures
            palette.is_xterm(selection_fg, selection_bg),
    {
        let ansi: [SrgbaTuple; 16] = [
            rgb8(0x00, 0x00, 0x00),
            rgb8(0xcc, 0x55, 0x55),
            rgb8(0x55, 0xcc, 0x55),
            rgb8(0xcd, 0xcd, 0x55),
            rgb8(0x54, 0x55, 0xcb),
            rgb8(0xcc, 0x55, 0xcc),
            rgb8(0x7a, 0xca, 0xca),
            rgb8(0xcc, 0xcc, 0xcc),
            rgb8(0x55, 0x55, 0x55),
            rgb8(0xff, 0x55, 0x55),
            rgb8(0x55, 0xff, 0x55),
            rgb8(0xff, 0xff, 0x55),
            rgb8(0x55, 0x55, 0xff),
            rgb8(0xff, 0x55, 0xff),
            rgb8(0x55, 0xff, 0xff),
            rgb8(0xff, 0xff, 0xff),
        ];
        assert(ansi@ =~= xterm_ansi());
        let colors = Palette256::xterm(&ansi);
        let foreground = colors.0[249];
        let background = colors.0[0];
        let cursor_fg = colors.0[0];
        ColorPalette {
            colors,
            foreground,
            background,
            cursor_fg,
            cursor_bg: rgb8(0x52, 0xad, 0x70),
            cursor_border: rgb8(0x52, 0xad, 0x70),
            selection_fg,
            selection_bg,
            scrollbar_thumb: rgb8(0x22, 0x22, 0x22),
            split: rgb8(0x44, 0x44, 0x44),
        }
    }

    /// The "Adventure Time" palette.
    pub fn compute_adventure_time() -> (palette: ColorPalette)
        ensures
            palette.is_adventure_time(),
    {
        let ansi: [SrgbaTuple; 16] = [
            rgb8(0x05, 0x04, 0x04),
            rgb8(0xbd, 0x00, 0x13),
            rgb8(0x4a, 0xb1, 0x18),
            rgb8(0xe7, 0x74, 0x1e),
            rgb8(0x0f, 0x4a, 0xc6),
            rgb8(0x66, 0x59, 0x93),
            rgb8(0x70, 0xa5, 0x98),
            rgb8(0xf8, 0xdc, 0xc0),
            rgb8(0x4e, 0x7c, 0xbf),
            rgb8(0xfc, 0x5f, 0x5a),
            rgb8(0x9e, 0xff, 0x6e),
            rgb8(0xef, 0xc1, 0x1a),
            rgb8(0x19, 0x97, 0xc6),
            rgb8(0x9b, 0x59, 0x53),
            rgb8(0xc8, 0xfa, 0xf4),
            rgb8(0xf6, 0xf5, 0xfb),
        ];
        assert(ansi@ =~= adventure_time_ansi());
        ColorPalette {
            colors: Palette256::xterm(&ansi),
            foreground: rgb8(0xf8, 0xdc, 0xc0),
            background: rgb8(0x1f, 0x1d, 0x45),
            cursor_fg: rgb8(0x08, 0x08, 0x0a),
            cursor_bg: rgb8(0xef, 0xbf, 0x38),
            cursor_border: rgb8(0xef, 0xbf, 0x38),
            selection_fg: rgb8(0x70, 0x6b, 0x4e),
            selection_bg: rgb8(0xf3, 0xd9, 0xc4),
            scrollbar_thumb: rgb8(0x22, 0x22, 0x22),
            split: rgb8(0x44, 0x44, 0x44),
        }
    }
}

impl Default for ColorPalette {
    /// The default palette is "Adventure Time".
    fn default() -> (palette: ColorPalette)
        ensures
            palette.is_adventure_time(),
    {
        ColorPalette::compute_adventure_time()
    }
}

} // verus!
