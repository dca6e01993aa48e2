use termpipe::color::{resolve, ColorAttribute, ColorPalette, Palette256};
use termwiz::color::{RgbColor, SrgbaTuple};

fn rgb(red: u8, green: u8, blue: u8) -> SrgbaTuple {
    RgbColor::new_8bpc(red, green, blue).into()
}

#[test]
fn adventure_time_ansi_colors() {
    let palette = ColorPalette::compute_adventure_time();
    assert_eq!(palette.colors.0[0], rgb(0x05, 0x04, 0x04));
    assert_eq!(palette.colors.0[1], rgb(0xbd, 0x00, 0x13));
    assert_eq!(palette.colors.0[7], rgb(0xf8, 0xdc, 0xc0));
    assert_eq!(palette.colors.0[8], rgb(0x4e, 0x7c, 0xbf));
    assert_eq!(palette.colors.0[15], rgb(0xf6, 0xf5, 0xfb));
}

#[test]
fn adventure_time_element_colors() {
    let palette = ColorPalette::compute_adventure_time();
    assert_eq!(palette.foreground, rgb(0xf8, 0xdc, 0xc0));
    assert_eq!(palette.background, rgb(0x1f, 0x1d, 0x45));
    assert_eq!(palette.cursor_fg, rgb(0x08, 0x08, 0x0a));
    assert_eq!(palette.cursor_bg, rgb(0xef, 0xbf, 0x38));
    assert_eq!(palette.cursor_border, rgb(0xef, 0xbf, 0x38));
    assert_eq!(palette.selection_fg, rgb(0x70, 0x6b, 0x4e));
    assert_eq!(palette.selection_bg, rgb(0xf3, 0xd9, 0xc4));
    assert_eq!(palette.scrollbar_thumb, rgb(0x22, 0x22, 0x22));
    assert_eq!(palette.split, rgb(0x44, 0x44, 0x44));
}

#[test]
fn color_cube_entries() {
    let palette = ColorPalette::compute_adventure_time();
    assert_eq!(palette.colors.0[16], rgb(0, 0, 0));
    assert_eq!(palette.colors.0[17], rgb(0, 0, 0x5f));
    assert_eq!(palette.colors.0[21], rgb(0, 0, 0xff));
    assert_eq!(palette.colors.0[22], rgb(0, 0x5f, 0));
    assert_eq!(palette.colors.0[52], rgb(0x5f, 0, 0));
    assert_eq!(palette.colors.0[110], rgb(0x87, 0xaf, 0xd7));
    assert_eq!(palette.colors.0[231], rgb(0xff, 0xff, 0xff));
}

#[test]
fn color_cube_matches_the_ramp_everywhere() {
    let ramp = [0u8, 0x5f, 0x87, 0xaf, 0xd7, 0xff];
    let palette = ColorPalette::compute_adventure_time();
    for index in 0..216usize {
        let expected = rgb(ramp[index / 36 % 6], ramp[index / 6 % 6], ramp[index % 6]);
        assert_eq!(palette.colors.0[16 + index], expected);
    }
}

#[test]
fn grey_scale_entries() {
    let greys = [
        0x08u8, 0x12, 0x1c, 0x26, 0x30, 0x3a, 0x44, 0x4e, 0x58, 0x62, 0x6c, 0x76, 0x80, 0x8a,
        0x94, 0x9e, 0xa8, 0xb2, 0xbc, 0xc6, 0xd0, 0xda, 0xe4, 0xee,
    ];
    let palette = ColorPalette::compute_adventure_time();
    for (step, grey) in greys.iter().enumerate() {
        assert_eq!(palette.colors.0[232 + step], rgb(*grey, *grey, *grey));
    }
}

#[test]
fn xterm_palette_values() {
    let selection_fg = SrgbaTuple(0., 0., 0., 0.);
    let selection_bg = SrgbaTuple(0.5, 0.4, 0.6, 0.5);
    let palette = ColorPalette::compute_default(selection_fg, selection_bg);
    assert_eq!(palette.colors.0[0], rgb(0, 0, 0));
    assert_eq!(palette.colors.0[1], rgb(0xcc, 0x55, 0x55));
    assert_eq!(palette.colors.0[4], rgb(0x54, 0x55, 0xcb));
    assert_eq!(palette.colors.0[15], rgb(0xff, 0xff, 0xff));
    assert_eq!(palette.colors.0[249], rgb(0xb2, 0xb2, 0xb2));
    assert_eq!(palette.foreground, rgb(0xb2, 0xb2, 0xb2));
    assert_eq!(palette.background, rgb(0, 0, 0));
    assert_eq!(palette.cursor_fg, rgb(0, 0, 0));
    assert_eq!(palette.cursor_bg, rgb(0x52, 0xad, 0x70));
    assert_eq!(palette.cursor_border, rgb(0x52, 0xad, 0x70));
    assert_eq!(palette.selection_fg, selection_fg);
    assert_eq!(palette.selection_bg, selection_bg);
    assert_eq!(palette.scrollbar_thumb, rgb(0x22, 0x22, 0x22));
    assert_eq!(palette.split, rgb(0x44, 0x44, 0x44));
}

#[test]
fn table_over_given_ansi_colors() {
    let mut ansi = [rgb(1, 2, 3); 16];
    ansi[5] = rgb(9, 9, 9);
    let table = Palette256::xterm(&ansi);
    assert_eq!(table.0[0], rgb(1, 2, 3));
    assert_eq!(table.0[5], rgb(9, 9, 9));
    assert_eq!(table.0[15], rgb(1, 2, 3));
    assert_eq!(table.0[16], rgb(0, 0, 0));
    assert_eq!(table.0[255], rgb(0xee, 0xee, 0xee));
}

#[test]
fn default_is_adventure_time() {
    let palette = ColorPalette::default();
    let same = ColorPalette::compute_adventure_time();
    assert_eq!(palette.foreground, same.foreground);
    assert_eq!(palette.background, rgb(0x1f, 0x1d, 0x45));
    for index in 0..256usize {
        assert_eq!(palette.colors.0[index], same.colors.0[index]);
    }
}

#[test]
fn resolve_fg_values() {
    let palette = ColorPalette::default();
    assert_eq!(
        palette.resolve_fg(ColorAttribute::Default, false),
        palette.foreground
    );
    assert_eq!(
        palette.resolve_fg(ColorAttribute::Default, true),
        palette.foreground
    );
    assert_eq!(
        palette.resolve_fg(ColorAttribute::PaletteIndex(1), false),
        rgb(0xbd, 0x00, 0x13)
    );
    assert_eq!(
        palette.resolve_fg(ColorAttribute::PaletteIndex(1), true),
        rgb(0xfc, 0x5f, 0x5a)
    );
    assert_eq!(
        palette.resolve_fg(ColorAttribute::PaletteIndex(7), true),
        rgb(0xf6, 0xf5, 0xfb)
    );
    assert_eq!(
        palette.resolve_fg(ColorAttribute::PaletteIndex(8), true),
        rgb(0x4e, 0x7c, 0xbf)
    );
    assert_eq!(
        palette.resolve_fg(ColorAttribute::PaletteIndex(255), true),
        rgb(0xee, 0xee, 0xee)
    );
    let custom = SrgbaTuple(0.25, 0.5, 0.75, 1.0);
    assert_eq!(
        palette.resolve_fg(ColorAttribute::TrueColorWithPaletteFallback(custom, 3), true),
        custom
    );
    assert_eq!(
        palette.resolve_fg(ColorAttribute::TrueColorWithDefaultFallback(custom), false),
        custom
    );
}

#[test]
fn resolve_bg_values() {
    let palette = ColorPalette::default();
    assert_eq!(palette.resolve_bg(ColorAttribute::Default), palette.background);
    assert_eq!(
        palette.resolve_bg(ColorAttribute::PaletteIndex(1)),
        rgb(0xbd, 0x00, 0x13)
    );
    assert_eq!(
        palette.resolve_bg(ColorAttribute::PaletteIndex(0)),
        rgb(0x05, 0x04, 0x04)
    );
    assert_eq!(
        palette.resolve_bg(ColorAttribute::PaletteIndex(255)),
        rgb(0xee, 0xee, 0xee)
    );
    let custom = SrgbaTuple(0.25, 0.5, 0.75, 1.0);
    assert_eq!(
        palette.resolve_bg(ColorAttribute::TrueColorWithPaletteFallback(custom, 3)),
        custom
    );
    assert_eq!(
        palette.resolve_bg(ColorAttribute::TrueColorWithDefaultFallback(custom)),
        custom
    );
}

#[test]
fn palette_clone_keeps_the_colors() {
    let palette = ColorPalette::default();
    let copy = palette.clone();
    assert_eq!(copy.split, palette.split);
    assert_eq!(copy.colors.0[200], palette.colors.0[200]);
}

#[test]
fn table_from_fewer_colors_is_filled() {
    let fill = SrgbaTuple(0., 0., 0., 0.);
    let colors = vec![rgb(1, 1, 1), rgb(2, 2, 2), rgb(3, 3, 3)];
    let table = Palette256::from_colors(&colors, fill);
    assert_eq!(table.0[0], rgb(1, 1, 1));
    assert_eq!(table.0[2], rgb(3, 3, 3));
    assert_eq!(table.0[3], fill);
    assert_eq!(table.0[255], fill);
    let empty = Palette256::from_colors(&[], fill);
    assert_eq!(empty.0[0], fill);
}

#[test]
fn table_from_more_colors_takes_the_first() {
    let fill = SrgbaTuple(0., 0., 0., 0.);
    let colors: Vec<SrgbaTuple> = (0..300u32)
        .map(|i| rgb((i % 256) as u8, (i / 256) as u8, 7))
        .collect();
    let table = Palette256::from_colors(&colors, fill);
    for index in 0..256usize {
        assert_eq!(table.0[index], colors[index]);
    }
}

#[test]
fn exact_table_needs_256_colors() {
    let colors: Vec<SrgbaTuple> = (0..256u32).map(|i| rgb(i as u8, 0, 0)).collect();
    let table = Palette256::from_exact(&colors).expect("256 colors make a table");
    for index in 0..256usize {
        assert_eq!(table.0[index], colors[index]);
    }
    assert!(Palette256::from_exact(&colors[..255]).is_none());
    assert!(Palette256::from_exact(&[]).is_none());
    let mut longer = colors.clone();
    longer.push(rgb(1, 2, 3));
    assert!(Palette256::from_exact(&longer).is_none());
}

#[test]
fn resolve_over_a_table() {
    let mut table = [rgb(0, 0, 0); 256];
    table[3] = rgb(3, 3, 3);
    table[11] = rgb(11, 11, 11);
    table[200] = rgb(200, 0, 0);
    let fallback = rgb(9, 8, 7);
    assert_eq!(resolve(&table, fallback, ColorAttribute::Default, true), fallback);
    assert_eq!(resolve(&table, fallback, ColorAttribute::PaletteIndex(3), false), rgb(3, 3, 3));
    assert_eq!(resolve(&table, fallback, ColorAttribute::PaletteIndex(3), true), rgb(11, 11, 11));
    assert_eq!(resolve(&table, fallback, ColorAttribute::PaletteIndex(200), true), rgb(200, 0, 0));
    let custom = SrgbaTuple(0.1, 0.2, 0.3, 0.4);
    assert_eq!(
        resolve(&table, fallback, ColorAttribute::TrueColorWithPaletteFallback(custom, 3), true),
        custom
    );
    assert_eq!(
        resolve(&table, fallback, ColorAttribute::TrueColorWithDefaultFallback(custom), false),
        custom
    );
}
