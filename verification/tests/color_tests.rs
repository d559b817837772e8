use bevy_terminal_emu::color::{
    indexed_color, ratatui_bg_to_bevy, ratatui_color_to_bevy, ratatui_fg_to_bevy, Rgba, TermColor,
    CHANNEL_ONE,
};

/// The channels as floating-point fractions.
fn floats(c: Rgba) -> [f32; 4] {
    let one = CHANNEL_ONE as f32;
    [c.r as f32 / one, c.g as f32 / one, c.b as f32 / one, c.a as f32 / one]
}

fn srgb(r: f32, g: f32, b: f32) -> [f32; 4] {
    [r, g, b, 1.0]
}

#[test]
fn test_basic_colors() {
    let white = ratatui_color_to_bevy(TermColor::White);
    assert_eq!(floats(white), srgb(1.0, 1.0, 1.0));

    let black = ratatui_color_to_bevy(TermColor::Black);
    assert_eq!(floats(black), srgb(0.0, 0.0, 0.0));
}

#[test]
fn test_rgb_color() {
    let color = ratatui_color_to_bevy(TermColor::Rgb(128, 64, 255));
    assert_eq!(floats(color), srgb(128.0 / 255.0, 64.0 / 255.0, 1.0));
}

#[test]
fn test_indexed_grayscale() {
    let color = ratatui_color_to_bevy(TermColor::Indexed(232));
    let v = 8.0 / 255.0;
    assert_eq!(floats(color), srgb(v, v, v));
}

#[test]
fn test_reset_defaults() {
    let default_fg = Rgba::srgb(4590, 4590, 4590);
    assert_eq!(floats(default_fg), srgb(0.9, 0.9, 0.9));
    let result = ratatui_fg_to_bevy(TermColor::Reset, default_fg);
    assert_eq!(result, default_fg);
}

#[test]
fn named_colors_have_their_palette_values() {
    let table: [(TermColor, [f32; 3]); 17] = [
        (TermColor::Reset, [1.0, 1.0, 1.0]),
        (TermColor::Black, [0.0, 0.0, 0.0]),
        (TermColor::Red, [0.8, 0.0, 0.0]),
        (TermColor::Green, [0.0, 0.8, 0.0]),
        (TermColor::Yellow, [0.8, 0.8, 0.0]),
        (TermColor::Blue, [0.0, 0.0, 0.8]),
        (TermColor::Magenta, [0.8, 0.0, 0.8]),
        (TermColor::Cyan, [0.0, 0.8, 0.8]),
        (TermColor::Gray, [0.75, 0.75, 0.75]),
        (TermColor::DarkGray, [0.5, 0.5, 0.5]),
        (TermColor::LightRed, [1.0, 0.33, 0.33]),
        (TermColor::LightGreen, [0.33, 1.0, 0.33]),
        (TermColor::LightYellow, [1.0, 1.0, 0.33]),
        (TermColor::LightBlue, [0.33, 0.33, 1.0]),
        (TermColor::LightMagenta, [1.0, 0.33, 1.0]),
        (TermColor::LightCyan, [0.33, 1.0, 1.0]),
        (TermColor::White, [1.0, 1.0, 1.0]),
    ];
    for (color, [r, g, b]) in table {
        assert_eq!(floats(ratatui_color_to_bevy(color)), srgb(r, g, b), "{:?}", color);
    }
}

#[test]
fn first_sixteen_indices_are_the_named_colors() {
    let named = [
        TermColor::Black,
        TermColor::Red,
        TermColor::Green,
        TermColor::Yellow,
        TermColor::Blue,
        TermColor::Magenta,
        TermColor::Cyan,
        TermColor::Gray,
        TermColor::DarkGray,
        TermColor::LightRed,
        TermColor::LightGreen,
        TermColor::LightYellow,
        TermColor::LightBlue,
        TermColor::LightMagenta,
        TermColor::LightCyan,
        TermColor::White,
    ];
    for (i, color) in named.iter().enumerate() {
        assert_eq!(indexed_color(i as u8), ratatui_color_to_bevy(*color));
        assert_eq!(ratatui_color_to_bevy(TermColor::Indexed(i as u8)), ratatui_color_to_bevy(*color));
    }
}

#[test]
fn color_cube_levels() {
    // Index 16 is the dark corner of the cube, 231 the bright one.
    assert_eq!(floats(indexed_color(16)), srgb(0.0, 0.0, 0.0));
    assert_eq!(floats(indexed_color(231)), srgb(1.0, 1.0, 1.0));
    // 196 = 16 + 5 * 36: full red.
    assert_eq!(floats(indexed_color(196)), srgb(1.0, 0.0, 0.0));
    // 21 = 16 + 5: full blue; 46 = 16 + 5 * 6: full green.
    assert_eq!(floats(indexed_color(21)), srgb(0.0, 0.0, 1.0));
    assert_eq!(floats(indexed_color(46)), srgb(0.0, 1.0, 0.0));
    // 67 = 16 + 1 * 36 + 2 * 6 + 3.
    assert_eq!(
        floats(indexed_color(67)),
        srgb((55.0 + 40.0 * 1.0) / 255.0, (55.0 + 40.0 * 2.0) / 255.0, (55.0 + 40.0 * 3.0) / 255.0)
    );
    assert_eq!(indexed_color(67), Rgba { r: 1900, g: 2700, b: 3500, a: 5100 });
}

#[test]
fn every_cube_entry_matches_the_formula() {
    for index in 16u8..=231 {
        let n = index - 16;
        let level = |k: u8| if k == 0 { 0.0 } else { (55.0 + 40.0 * k as f32) / 255.0 };
        assert_eq!(
            floats(indexed_color(index)),
            srgb(level(n / 36), level((n / 6) % 6), level(n % 6)),
            "index {}",
            index
        );
    }
}

#[test]
fn gray_ramp_runs_from_8_to_238() {
    for index in 232u8..=255 {
        let v = (8 + 10 * (index - 232) as u32) as f32 / 255.0;
        assert_eq!(floats(indexed_color(index)), srgb(v, v, v), "index {}", index);
    }
    assert_eq!(indexed_color(255), Rgba { r: 4760, g: 4760, b: 4760, a: 5100 });
}

#[test]
fn every_rgb_byte_is_exact() {
    for v in 0u16..=255 {
        let b = v as u8;
        let c = ratatui_color_to_bevy(TermColor::Rgb(b, 0, 255 - b));
        assert_eq!(floats(c), srgb(b as f32 / 255.0, 0.0, (255 - b) as f32 / 255.0));
    }
}

#[test]
fn reset_takes_the_default_and_other_colors_ignore_it() {
    let fg = Rgba { r: 1, g: 2, b: 3, a: 4 };
    let bg = Rgba { r: 5, g: 6, b: 7, a: 8 };
    assert_eq!(ratatui_fg_to_bevy(TermColor::Reset, fg), fg);
    assert_eq!(ratatui_bg_to_bevy(TermColor::Reset, bg), bg);
    assert_eq!(ratatui_fg_to_bevy(TermColor::Red, fg), Rgba { r: 4080, g: 0, b: 0, a: 5100 });
    assert_eq!(ratatui_bg_to_bevy(TermColor::Indexed(232), bg), Rgba { r: 160, g: 160, b: 160, a: 5100 });
    // Without a default, reset reads as white.
    assert_eq!(ratatui_color_to_bevy(TermColor::Reset), Rgba { r: 5100, g: 5100, b: 5100, a: 5100 });
}

#[test]
fn with_alpha_changes_alpha_only() {
    let c = Rgba::srgb(10, 20, 30).with_alpha(2550);
    assert_eq!(c, Rgba { r: 10, g: 20, b: 30, a: 2550 });
}
