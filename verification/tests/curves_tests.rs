use bevy::color::{Color, ColorToComponents};
use bevy_terminal_emu::color::Rgba;
use bevy_terminal_emu::effects::breathe::{breathe_system, Breathe};
use bevy_terminal_emu::effects::bubbly::{bubbly_system, Bubbly};
use bevy_terminal_emu::effects::delta::{CellDelta, Recolor, Resize, Turn};
use bevy_terminal_emu::effects::engine::{apply_effects, probes, Effect, EffectInstance};
use bevy_terminal_emu::effects::explode::{explode_system, Explode};
use bevy_terminal_emu::effects::glow::{glow_system, Glow};
use bevy_terminal_emu::effects::knock::{knock_system, Knock};
use bevy_terminal_emu::effects::radial::{draw_lot, way_to, Radial};
use bevy_terminal_emu::effects::rainbow::{rainbow_system, Rainbow};
use bevy_terminal_emu::effects::ripple::{ripple_system, Ripple};
use bevy_terminal_emu::effects::sample::{
    isqrt, length_of, phase_of, smoothstep, turns_made, turns_to_angle, Probe, Sample,
};
use bevy_terminal_emu::effects::scatter::{scatter_system, Scatter};
use bevy_terminal_emu::effects::shiny::{shiny_system, Shiny};
use bevy_terminal_emu::effects::slash::{slash_system, Slash};
use bevy_terminal_emu::effects::timing::Clock;
use bevy_terminal_emu::effects::wave::{wave_system, Wave};
use bevy_terminal_emu::effects::{reset_transforms, EffectRegion, GridRect};
use bevy_terminal_emu::grid::{spawn_grid, GridPosition, TerminalGrid};
use bevy_terminal_emu::units::{abs_sat, mul_div, neg_sat};
use bevy_terminal_emu::{CellMetrics, TerminalConfig, TerminalLayout};

fn layout() -> TerminalLayout {
    TerminalLayout::from_config(&TerminalConfig::default(), CellMetrics { width: 12_000, height: 24_000 })
}

fn grid(columns: u16, rows: u16) -> TerminalGrid {
    let mut config = TerminalConfig::default();
    config.columns = columns;
    config.rows = rows;
    let layout = TerminalLayout::from_config(&config, CellMetrics { width: 12_000, height: 24_000 });
    spawn_grid(&config, &layout, 0)
}

fn at(now: u64, delta: u32) -> Clock {
    Clock { now, delta }
}

fn pos(col: u16, row: u16) -> GridPosition {
    GridPosition { col, row }
}

/// What a host does with a probe.
fn sample(p: Probe) -> Sample {
    let angle = p.angle as f64 * 1e-6;
    let exponent = p.exponent as f64 * 1e-6;
    let color = Color::hsl(p.hue as f32 * 360e-6, p.saturation as f32 / 1000.0, p.lightness as f32 / 1000.0);
    let [red, green, blue, _] = color.to_srgba().to_f32_array();
    let channel = |v: f32| (v as f64 * 5100.0).round() as u16;
    Sample {
        sin: (angle.sin() * 1e6).round() as i32,
        cos: (angle.cos() * 1e6).round() as i32,
        exp: (exponent.exp() * 1e6).round() as i32,
        red: channel(red),
        green: channel(green),
        blue: channel(blue),
    }
}

fn curve(angle: i64, exponent: i64) -> Probe {
    Probe { angle, exponent, hue: 0, saturation: 0, lightness: 0 }
}

fn found(sin: i32, cos: i32, exp: i32) -> Sample {
    Sample { sin, cos, exp, red: 0, green: 0, blue: 0 }
}

fn sine(v: i32) -> Sample {
    found(v, 0, 1_000_000)
}

fn colored(red: u16, green: u16, blue: u16) -> Sample {
    Sample { sin: 0, cos: 0, exp: 0, red, green, blue }
}

fn close(fixed: i64, float: f64, scale: f64, tolerance: f64) -> bool {
    (fixed as f64 / scale - float).abs() <= tolerance
}

fn shift(dx: i64, dy: i64) -> CellDelta {
    CellDelta { dx, dy, turn: Turn::Keep, resize: Resize::Keep, recolor: Recolor::Keep }
}

fn offsets(grid: &TerminalGrid) -> Vec<(i64, i64)> {
    grid.cells()
        .iter()
        .map(|c| (c.transform.translation.x - c.base.translation.x, c.transform.translation.y - c.base.translation.y))
        .collect()
}

#[test]
fn square_roots_round_down() {
    let table: [(u128, u64); 13] = [
        (0, 0),
        (1, 1),
        (2, 1),
        (3, 1),
        (4, 2),
        (15, 3),
        (16, 4),
        (24, 4),
        (25, 5),
        (99, 9),
        (1_000_000_000_000, 1_000_000),
        (u64::MAX as u128, 4_294_967_295),
        (1u128 << 127, 13_043_817_825_332_782_212),
    ];
    for (n, r) in table {
        assert_eq!(isqrt(n), r, "root of {}", n);
    }
    assert_eq!(isqrt(u128::MAX), u64::MAX);
    for r in [7u128, 1000, 65_535, 4_294_967_296, 10_000_000_019] {
        assert_eq!(isqrt(r * r) as u128, r);
        assert_eq!(isqrt(r * r - 1) as u128, r - 1);
        assert_eq!(isqrt(r * r + 2 * r) as u128, r);
    }
}

#[test]
fn lengths() {
    assert_eq!(length_of(3, 4), 5);
    assert_eq!(length_of(-3, 4), 5);
    assert_eq!(length_of(0, 0), 0);
    assert_eq!(length_of(1, 0), 1);
    assert_eq!(length_of(1, 1), 1);
    assert_eq!(length_of(i64::MIN, i64::MIN), 13_043_817_825_332_782_212);
    assert_eq!(length_of(i64::MAX, 0), i64::MAX as u64);
}

#[test]
fn smooth_steps() {
    let table = [(-5, 0), (0, 0), (250_000, 156_250), (500_000, 500_000), (750_000, 843_750), (1_000_000, 1_000_000), (2_000_000, 1_000_000)];
    for (t, s) in table {
        assert_eq!(smoothstep(t), s);
    }
    assert_eq!(smoothstep(i64::MIN), 0);
    assert_eq!(smoothstep(i64::MAX), 1_000_000);
    for t in (0..=1_000_000).step_by(1_111) {
        let x = t as f64 * 1e-6;
        assert!(close(smoothstep(t), x * x * (3.0 - 2.0 * x), 1e6, 1e-6));
    }
}

#[test]
fn angles_of_turns() {
    let table = [
        (0i128, 0i64),
        (1, 6),
        (250_000, 1_570_796),
        (999_999, 6_283_178),
        (1_000_000, 0),
        (-1, 6_283_178),
        (-250_000, 4_712_388),
        (1_750_000, 4_712_388),
    ];
    for (turns, angle) in table {
        assert_eq!(turns_to_angle(turns), angle);
    }
    assert_eq!(turns_to_angle(i128::MAX), turns_to_angle(i128::MAX % 1_000_000));
    assert!(turns_to_angle(i128::MIN) < 6_283_185);
}

#[test]
fn phases_drop_whole_turns() {
    assert_eq!(phase_of(0, 1000), 0);
    assert_eq!(phase_of(1_000_000, 1000), 0);
    assert_eq!(phase_of(1_500_000, 1500), 250_000);
    assert_eq!(phase_of(123_456_789, -2500), 358_028);
    assert_eq!(phase_of(u64::MAX, i32::MAX), 914_939);
    assert_eq!(turns_made(1_500_000, 1500), 2_250_000);
    assert_eq!(turns_made(123_456_789, -2500), -308_641_972);
    assert_eq!(turns_made(u64::MAX, i32::MAX), 39_614_081_238_685_424_720_914_939);
}

#[test]
fn fixed_point_division_handles_signs_and_zero() {
    assert_eq!(mul_div(7, 3, 2), 10);
    assert_eq!(mul_div(7, 3, -2), -10);
    assert_eq!(mul_div(-7, 3, -2), 10);
    assert_eq!(mul_div(-7, 3, 2), -10);
    assert_eq!(mul_div(7, 3, 0), 0);
    assert_eq!(mul_div(i64::MIN, i64::MIN, 1), i64::MAX);
    assert_eq!(mul_div(i64::MIN, i64::MIN, -1), i64::MIN);
    assert_eq!(abs_sat(i64::MIN), i64::MAX);
    assert_eq!(abs_sat(-4), 4);
    assert_eq!(neg_sat(i64::MIN), i64::MAX);
    assert_eq!(neg_sat(4), -4);
}

#[test]
fn wave_lifts_by_the_sine_of_place_and_time() {
    let w = Wave::default();
    assert_eq!(w, Wave { amplitude: 5_000, wavelength: 8_000, speed: 4_000, horizontal: true });
    assert_eq!(w.probe(pos(2, 9), at(125_000, 0)), curve(4_712_388, 0));
    assert_eq!(w.probe(pos(3, 0), at(1_234_567, 0)), curve(2_744_067, 0));
    assert_eq!(w.probe(pos(79, 0), at(9_999_999, 0)), curve(5_497_812, 0));
    assert_eq!(w.delta(sine(-1_000_000)), shift(0, -5_000));
    assert_eq!(w.delta(sine(387_138)), shift(0, 1_935));
    assert_eq!(w.delta(sine(-707_089)), shift(0, -3_535));
    let down = Wave { horizontal: false, ..w };
    assert_eq!(down.probe(pos(9, 2), at(125_000, 0)), w.probe(pos(2, 9), at(125_000, 0)));
}

#[test]
fn wave_agrees_with_the_sine_formula() {
    let w = Wave { amplitude: 7_500, wavelength: 5_500, speed: -1_300, horizontal: true };
    for col in 0..80u16 {
        for now in [0u64, 16_667, 1_000_000, 123_456_789] {
            let d = w.delta(sample(w.probe(pos(col, 0), at(now, 0))));
            let expected = 7.5 * (std::f64::consts::TAU * (col as f64 / 5.5 - -1.3 * (now as f64 * 1e-6))).sin();
            assert!(close(d.dy, expected, 1000.0, 0.002), "col {} now {}: {} vs {}", col, now, d.dy, expected);
            assert_eq!(d.dx, 0);
        }
    }
}

#[test]
fn wave_without_length_does_nothing() {
    let w = Wave { wavelength: 0, ..Wave::default() };
    assert_eq!(w.delta(sine(1_000_000)), CellDelta::identity());
    let mut g = grid(3, 1);
    wave_system(at(0, 0), &w, &EffectRegion::all(), &mut g, &vec![sine(1_000_000); 3]);
    assert_eq!(offsets(&g), vec![(0, 0); 3]);
}

#[test]
fn wave_system_lifts_the_cells_that_have_a_sample() {
    let w = Wave::default();
    let mut g = grid(4, 2);
    let clock = at(125_000, 16_000);
    let samples: Vec<Sample> = g.cells().iter().take(6).map(|c| sample(w.probe(c.position, clock))).collect();
    let region = EffectRegion { included: vec![], excluded: vec![GridRect { col: 0, row: 0, width: 1, height: 1 }] };
    wave_system(clock, &w, &region, &mut g, &samples);
    // Columns 0..3 at this time: sin(2 pi (col / 8 - 0.5)).
    let lifts: Vec<i64> = offsets(&g).iter().map(|o| o.1).collect();
    assert_eq!(lifts, vec![0, -3_535, -5_000, -3_535, 0, -3_535, 0, 0]);
}

#[test]
fn ripple_runs_on_and_lifts_by_sine_and_decay() {
    let mut r = Ripple::default();
    assert_eq!(
        r,
        Ripple { origin_col: 40_000, origin_row: 12_000, amplitude: 8_000, wavelength: 6_000, speed: 10_000, phase: 0, damping: 100 }
    );
    r.tick(16_667);
    assert_eq!(r.phase, 166_670);
    assert_eq!(r.probe(pos(40, 12)), curve(5_235_966, 0));
    assert_eq!(r.probe(pos(43, 16)), curve(4_188_766, -500_000));
    assert_eq!(r.probe(pos(0, 0)), curve(4_985_682, -4_176_100));
    assert_eq!(r.delta(found(-866_036, 499_981, 1_000_000)), shift(0, -6_928));
    assert_eq!(r.delta(found(-866_013, -500_021, 606_531)), shift(0, -4_202));
    assert_eq!(r.delta(found(-962_887, 269_904, 15_358)), shift(0, -118));
    // The phase keeps within one wavelength.
    for _ in 0..1000 {
        r.tick(33_333);
        assert!(r.phase < 1_000_000);
    }
}

#[test]
fn ripple_agrees_with_its_formula() {
    let mut r = Ripple::default();
    let mut g = grid(80, 24);
    let clock = at(0, 16_667);
    let mut aged = r;
    aged.tick(16_667);
    let samples: Vec<Sample> = g.cells().iter().map(|c| sample(aged.probe(c.position))).collect();
    ripple_system(clock, &mut r, &EffectRegion::all(), &mut g, &samples);
    assert_eq!(r, aged);
    for (i, (dx, dy)) in offsets(&g).into_iter().enumerate() {
        let (col, row) = ((i % 80) as f64, (i / 80) as f64);
        let dist = ((col - 40.0).powi(2) + (row - 12.0).powi(2)).sqrt();
        let expected = 8.0 * (std::f64::consts::TAU * (dist / 6.0 - 10.0 * 0.016667)).sin() * (-0.1 * dist).exp();
        assert_eq!(dx, 0);
        assert!(close(dy, expected, 1000.0, 0.02), "cell {}: {} vs {}", i, dy, expected);
    }
}

#[test]
fn breathe_sets_the_scale() {
    let b = Breathe::default();
    assert_eq!(b, Breathe { min_scale: 800, max_scale: 1_200, speed: 1_500, phase_spread: 300 });
    assert_eq!(b.probe(pos(0, 0), at(0, 0)), curve(0, 0));
    assert_eq!(b.probe(pos(3, 2), at(250_000, 0)), curve(3_646_194, 0));
    assert_eq!(b.probe(pos(10, 5), at(1_000_000, 0)), curve(6_891_592, 0));
    assert_eq!(b.delta(sine(0)).resize, Resize::By(1000));
    assert_eq!(b.delta(sine(-483_459)).resize, Resize::By(903));
    assert_eq!(b.delta(sine(571_561)).resize, Resize::By(1114));
    assert_eq!(b.delta(sine(1_000_000)).resize, Resize::By(1200));
    assert_eq!(b.delta(sine(-1_000_000)).resize, Resize::By(800));
    let mut g = grid(2, 1);
    breathe_system(at(0, 0), &b, &EffectRegion::all(), &mut g, &vec![sine(1_000_000)]);
    assert_eq!(g.cell(0).transform.scale.x, 1200);
    assert_eq!(g.cell(1).transform.scale.x, 1000);
    // The factor multiplies the scale there is.
    breathe_system(at(0, 0), &b, &EffectRegion::all(), &mut g, &vec![sine(1_000_000)]);
    assert_eq!(g.cell(0).transform.scale.x, 1440);
}

#[test]
fn breathe_agrees_with_its_formula() {
    let b = Breathe { min_scale: 500, max_scale: 1_750, speed: 2_300, phase_spread: 450 };
    for (col, row, now) in [(0u16, 0u16, 0u64), (3, 2, 250_000), (10, 5, 1_000_000), (79, 23, 60_000_123)] {
        let d = b.delta(sample(b.probe(pos(col, row), at(now, 0))));
        let wave = (std::f64::consts::TAU * 2.3 * (now as f64 * 1e-6) + (col as f64 * 0.7 + row as f64 * 1.1) * 0.45).sin();
        let expected = (0.5 + 1.75) / 2.0 + (1.75 - 0.5) / 2.0 * wave;
        match d.resize {
            Resize::By(s) => assert!(close(s, expected, 1000.0, 0.0011), "{} vs {}", s, expected),
            other => panic!("unexpected resize {:?}", other),
        }
    }
}

#[test]
fn glow_pulses_scale_and_alpha() {
    let glow = Glow::default();
    assert_eq!(glow, Glow { speed: 2_000, intensity: 500, spread: 400 });
    assert_eq!(glow.probe(pos(1, 1), at(100_000, 0)), curve(1_776_637, 0));
    assert_eq!(glow.probe(pos(7, 3), at(333_333, 0)), curve(6_548_785, 0));
    let d = glow.delta(sine(978_890));
    assert_eq!(d, CellDelta { dx: 0, dy: 0, turn: Turn::Keep, resize: Resize::By(1048), recolor: Recolor::Fade(1489) });
    let d = glow.delta(sine(262_488));
    assert_eq!((d.resize, d.recolor), (Resize::By(1013), Recolor::Fade(1131)));
    let mut g = grid(1, 1);
    let mut c = g.cell(0);
    c.foreground.color = Rgba { r: 1, g: 2, b: 3, a: 2000 };
    g.set_cell(0, c);
    glow_system(at(0, 0), &glow, &EffectRegion::all(), &mut g, &vec![sine(978_890)]);
    assert_eq!(g.cell(0).foreground.color, Rgba { r: 1, g: 2, b: 3, a: 2978 });
    assert_eq!(g.cell(0).transform.scale.x, 1048);
    // A strong pulse cannot push alpha past 1.0 or below 0.0.
    let strong = Glow { intensity: 5_000, ..glow };
    assert_eq!(strong.delta(sine(1_000_000)).recolor.apply(c.foreground.color).a, 5100);
    assert_eq!(strong.delta(sine(-1_000_000)).recolor.apply(c.foreground.color).a, 0);
}

#[test]
fn bubbly_picks_cells_by_hash_and_swells_them() {
    let b = Bubbly::default();
    assert_eq!(b, Bubbly { speed: 800, density: 150, max_scale: 1_400 });
    assert_eq!(b.probe(pos(0, 0), at(0, 0)), curve(0, 0));
    assert_eq!(b.probe(pos(2, 5), at(400_000, 0)), curve(4_567_875, 0));
    assert_eq!(b.probe(pos(3, 3), at(1_000_000, 0)), curve(2_538_406, 0));
    assert_eq!(b.delta(pos(0, 0), sine(0)).resize, Resize::By(1200));
    assert_eq!(b.delta(pos(2, 5), sine(-989_576)).resize, Resize::By(1002));
    assert_eq!(b.delta(pos(3, 3), sine(567_270)).resize, Resize::By(1313));
    assert_eq!(b.delta(pos(0, 0), sine(1_000_000)).resize, Resize::By(1400));
    assert_eq!(b.delta(pos(0, 0), sine(-1_000_000)).resize, Resize::By(1000));
    // Cells that the hash does not pick are left alone.
    for (col, row) in [(1, 0), (10, 10), (40, 12), (4, 4)] {
        assert_eq!(b.delta(pos(col, row), sine(1_000_000)), CellDelta::identity());
    }
    let everyone = Bubbly { density: 1000, ..b };
    assert_eq!(everyone.delta(pos(1, 0), sine(1_000_000)).resize, Resize::By(1400));
    let no_one = Bubbly { density: 0, ..b };
    assert_eq!(no_one.delta(pos(0, 0), sine(1_000_000)), CellDelta::identity());
    let mut g = grid(4, 1);
    bubbly_system(at(0, 0), &b, &EffectRegion::all(), &mut g, &vec![sine(1_000_000); 4]);
    let scales: Vec<i64> = g.cells().iter().map(|c| c.transform.scale.x).collect();
    assert_eq!(scales, vec![1400, 1000, 1000, 1000]);
}

#[test]
fn rainbow_names_the_hue_and_takes_the_color() {
    let r = Rainbow::default();
    assert_eq!(r, Rainbow { speed: 1_000, saturation: 1_000, lightness: 600, spread: 300 });
    assert_eq!(r.hue(pos(0, 0), at(0, 0)), 0);
    assert_eq!(r.hue(pos(1, 0), at(0, 0)), 300_000);
    assert_eq!(r.hue(pos(2, 3), at(250_000, 0)), 750_000);
    assert_eq!(r.hue(pos(5, 5), at(777_777, 0)), 777_777);
    let back = Rainbow { speed: -1_000, ..r };
    assert_eq!(back.hue(pos(0, 0), at(250_000, 0)), 750_000);
    assert_eq!(
        r.probe(pos(2, 3), at(250_000, 0)),
        Probe { angle: 0, exponent: 0, hue: 750_000, saturation: 1_000, lightness: 600 }
    );
    assert_eq!(r.delta(colored(1, 2, 3)).recolor, Recolor::Rgb(1, 2, 3));
    assert_eq!(r.delta(colored(1, 2, 3)), CellDelta { recolor: Recolor::Rgb(1, 2, 3), ..CellDelta::identity() });
}

#[test]
fn rainbow_colors_the_glyphs_with_what_the_host_found() {
    let r = Rainbow::default();
    let mut g = grid(3, 1);
    let mut c = g.cell(1);
    c.foreground.color.a = 1234;
    g.set_cell(1, c);
    let clock = at(0, 0);
    let samples: Vec<Sample> = g.cells().iter().take(2).map(|c| sample(r.probe(c.position, clock))).collect();
    rainbow_system(clock, &r, &EffectRegion::all(), &mut g, &samples);
    // Hue 0 at lightness 0.6: red at 1.0, green and blue at 0.2.
    assert_eq!(g.cell(0).foreground.color, Rgba { r: 5100, g: 1020, b: 1020, a: 5100 });
    // Hue 0.3 of a turn: green at 1.0, red at 0.36, blue at 0.2; the alpha stays.
    assert_eq!(g.cell(1).foreground.color, Rgba { r: 1836, g: 5100, b: 1020, a: 1234 });
    // A cell without a sample keeps its color.
    assert_eq!(g.cell(2).foreground.color, Rgba { r: 5100, g: 5100, b: 5100, a: 5100 });
}

#[test]
fn ways_from_an_origin() {
    let l = layout();
    assert_eq!(way_to(pos(40, 12), 40_000, 12_000, &l), Radial { dx: 0, dy: 0, reach: 1 });
    assert_eq!(way_to(pos(43, 8), 40_000, 12_000, &l), Radial { dx: 36_000, dy: 96_000, reach: 102_528 });
    assert_eq!(way_to(pos(0, 0), 500, 250, &l), Radial { dx: -6_000, dy: 6_000, reach: 8_485 });
    assert_eq!(draw_lot(pos(41, 12), 111), 629);
    assert_eq!(draw_lot(pos(41, 12), 222), 8454);
    assert_eq!(draw_lot(pos(10, 3), 333), 5989);
    assert_eq!(draw_lot(pos(79, 23), 444), 2455);
    assert_eq!(draw_lot(pos(0, 0), 777), 9058);
    assert_eq!(draw_lot(pos(5, 7), 888), 4073);
}

#[test]
fn scatter_after_one_second() {
    let s = Scatter { elapsed: 1_000_000, ..Scatter::default() };
    assert_eq!(
        Scatter::default(),
        Scatter { origin_col: 40_000, origin_row: 12_000, speed: 150_000, elapsed: 0, duration: 3_000_000, spin: 3_000_000, active: true }
    );
    let l = layout();
    let table = [
        ((40u16, 12u16), (0i64, 0i64, 3_000_003i64)),
        ((43, 8), (52_668, 140_449, 3_307_584)),
        ((0, 23), (-131_432, -72_287, 4_643_430)),
        ((79, 0), (127_748, 78_614, 4_648_548)),
    ];
    for ((col, row), (dx, dy, angle)) in table {
        assert_eq!(
            s.delta(pos(col, row), &l),
            CellDelta { dx, dy, turn: Turn::By(angle), resize: Resize::By(734), recolor: Recolor::Keep }
        );
    }
}

#[test]
fn scatter_agrees_with_its_formula() {
    let mut g = grid(80, 24);
    let mut s = Scatter { origin_col: 33_300, origin_row: 7_700, speed: 90_000, spin: -2_000_000, ..Scatter::default() };
    let l = layout();
    scatter_system(at(0, 1_500_000), &l, &mut s, &EffectRegion::all(), &mut g);
    assert_eq!(s.elapsed, 1_500_000);
    for (i, c) in g.cells().iter().enumerate() {
        let (col, row) = ((i % 80) as f64, (i / 80) as f64);
        let dx = (col - 33.3) * 12.0;
        let dy = (row - 7.7) * -24.0;
        let dist = (dx * dx + dy * dy).sqrt().max(0.001);
        let t = 1.5;
        assert!(close(c.transform.translation.x - c.base.translation.x, dx / dist * 90.0 * t, 1000.0, 0.05));
        assert!(close(c.transform.translation.y - c.base.translation.y, dy / dist * 90.0 * t, 1000.0, 0.05));
        assert!(close(c.transform.rotation, -2.0 * t * (1.0 + dist * 0.001), 1e6, 1e-5));
        assert_eq!(c.transform.scale.x, 600);
    }
}

#[test]
fn scatter_shrinks_to_a_fifth_and_then_stops() {
    let mut g = grid(2, 2);
    let l = layout();
    let mut s = Scatter::default();
    scatter_system(at(0, 3_000_000), &l, &mut s, &EffectRegion::all(), &mut g);
    assert!(s.active);
    assert_eq!(g.cell(0).transform.scale.x, 200);
    reset_transforms(&mut g);
    scatter_system(at(0, 1), &l, &mut s, &EffectRegion::all(), &mut g);
    assert!(!s.active);
    assert!(g.cells().iter().all(|c| c.transform == c.base.to_transform()));
    s.retrigger();
    assert_eq!(s, Scatter::default());
    let none = Scatter { duration: 0, ..Scatter::default() };
    assert_eq!(none.delta(pos(0, 0), &l).resize, Resize::By(0));
}

#[test]
fn explode_after_one_second() {
    let e = Explode { elapsed: 1_000_000, ..Explode::default() };
    assert_eq!(
        Explode::default(),
        Explode { origin_col: 40_000, origin_row: 12_000, force: 200_000, chaos: 500, elapsed: 0, duration: 2_500_000, active: true }
    );
    let l = layout();
    assert_eq!(e.probe(pos(41, 12)), curve(-686_595, 0));
    assert_eq!(e.probe(pos(10, 3)), curve(-625_648, 0));
    assert_eq!(e.probe(pos(79, 23)), curve(431_811, 0));
    assert_eq!(
        e.delta(pos(41, 12), &l, found(-633_907, 773_409, 1_000_000)),
        CellDelta { dx: 181_395, dy: -148_676, turn: Turn::By(-2_060_000), resize: Resize::By(598), recolor: Recolor::Keep }
    );
    assert_eq!(
        e.delta(pos(10, 3), &l, found(-585_623, 810_584, 1_000_000)),
        CellDelta { dx: -73_768, dy: 172_204, turn: Turn::By(5_593_400), resize: Resize::By(538), recolor: Recolor::Keep }
    );
    assert_eq!(
        e.delta(pos(79, 23), &l, found(418_516, 908_209, 1_000_000)),
        CellDelta { dx: 194_287, dy: -15_927, turn: Turn::By(7_291_400), resize: Resize::By(638), recolor: Recolor::Keep }
    );
}

#[test]
fn explode_agrees_with_its_formula() {
    let mut g = grid(80, 24);
    let l = layout();
    let mut e = Explode { chaos: 800, force: 120_000, ..Explode::default() };
    let samples: Vec<Sample> = g.cells().iter().map(|c| sample(e.probe(c.position))).collect();
    explode_system(at(0, 700_000), &l, &mut e, &EffectRegion::all(), &mut g, &samples);
    for (i, c) in g.cells().iter().enumerate() {
        let p = c.position;
        let r: Vec<f64> = [111, 222, 333, 444].iter().map(|k| draw_lot(p, *k) as f64 / 10_000.0).collect();
        let (t, chaos) = (0.7, 0.8);
        let dx = (p.col as f64 - 40.0) * 12.0;
        let dy = (p.row as f64 - 12.0) * -24.0;
        let dist = (dx * dx + dy * dy).sqrt().max(0.001);
        let (nx, ny) = (dx / dist, dy / dist);
        let a = (r[0] - 0.5) * std::f64::consts::PI * chaos;
        let (dir_x, dir_y) = (nx * a.cos() - ny * a.sin(), nx * a.sin() + ny * a.cos());
        let disp = 120.0 * (1.0 + (r[1] - 0.5) * chaos) * t;
        let spin = if r[2] > 0.5 { 1.0 } else { -1.0 } * (2.0 + r[2] * 6.0) * t;
        let shrink = (t / 2.5 + (r[3] - 0.5) * 0.3 * chaos).clamp(0.0, 1.0);
        assert!(close(c.transform.translation.x - c.base.translation.x, dir_x * disp, 1000.0, 0.005), "cell {}", i);
        assert!(close(c.transform.translation.y - c.base.translation.y, dir_y * disp, 1000.0, 0.005), "cell {}", i);
        assert!(close(c.transform.rotation, spin, 1e6, 1e-5), "cell {}", i);
        assert!(close(c.transform.scale.x, 1.0 - shrink, 1000.0, 0.0011), "cell {}", i);
    }
}

#[test]
fn knock_at_its_peak() {
    let k = Knock { elapsed: 150_000, ..Knock::default() };
    assert_eq!(
        Knock::default(),
        Knock { angle: 0, amplitude: 12_000, deviation: 300_000, rotation: 100_000, elapsed: 0, duration: 600_000, active: true }
    );
    let l = layout();
    // A quarter of the way in the exponent is 0 and the strength is 1.
    assert_eq!(k.probe(pos(0, 0)), curve(243_480, 0));
    assert_eq!(k.probe(pos(5, 7)), curve(-222_120, 0));
    assert_eq!(k.probe(pos(79, 23)), curve(-187_260, 0));
    assert_eq!(
        k.delta(pos(0, 0), &l, found(241_081, 970_505, 1_000_000)),
        CellDelta { dx: 139_752, dy: -69_408, turn: Turn::By(100_000), resize: Resize::Keep, recolor: Recolor::Keep }
    );
    assert_eq!(
        k.delta(pos(5, 7), &l, found(-220_298, 975_433, 1_000_000)),
        CellDelta { dx: 140_460, dy: 63_432, turn: Turn::By(-100_000), resize: Resize::Keep, recolor: Recolor::Keep }
    );
    let later = Knock { angle: 1_000_000, elapsed: 400_000, ..Knock::default() };
    assert_eq!(later.probe(pos(5, 7)), curve(777_880, -1_666_664));
    assert_eq!(
        later.delta(pos(5, 7), &l, found(701_771, 712_403, 188_876)),
        CellDelta { dx: 51_660, dy: -101_784, turn: Turn::By(-50_366), resize: Resize::Keep, recolor: Recolor::Keep }
    );
    // At the peak, along the blow, a cell of one pixel moves by exactly the amplitude.
    let pixel = TerminalLayout { cell_width: 1000, cell_height: 1000, ..l };
    for (col, row) in [(0, 0), (5, 7), (79, 23)] {
        let d = k.delta(pos(col, row), &pixel, found(0, 1_000_000, 1_000_000));
        assert_eq!((d.dx, d.dy), (12_000, 0));
    }
    let none = Knock { duration: 0, ..Knock::default() };
    assert_eq!(none.delta(pos(5, 7), &l, found(0, 1_000_000, 1_000_000)), CellDelta::identity());
}

#[test]
fn knock_agrees_with_its_formula() {
    let l = layout();
    for elapsed in [30_000u32, 150_000, 300_000, 599_000] {
        let mut g = grid(20, 10);
        let mut k = Knock { angle: 2_200_000, ..Knock::default() };
        let mut aged = k;
        aged.tick(elapsed);
        let samples: Vec<Sample> = g.cells().iter().map(|c| sample(aged.probe(c.position))).collect();
        knock_system(at(0, elapsed), &l, &mut k, &EffectRegion::all(), &mut g, &samples);
        assert_eq!(k, aged);
        let p = elapsed as f64 / 600_000.0;
        let strength = p * (-4.0 * p).exp() / (0.25 * (-1.0f64).exp());
        for c in g.cells() {
            let r1 = draw_lot(c.position, 777) as f64 / 10_000.0;
            let direction = 2.2 + (r1 - 0.5) * 2.0 * 0.3;
            assert!((direction - 2.2).abs() <= 0.3);
            let disp = 12.0 * strength;
            assert!(disp <= 12.0 + 1e-9);
            let turn = 0.1 * strength * if r1 > 0.5 { 1.0 } else { -1.0 };
            assert!(close(c.transform.translation.x - c.base.translation.x, direction.cos() * disp * 12.0, 1000.0, 0.05));
            assert!(close(c.transform.translation.y - c.base.translation.y, direction.sin() * disp * -24.0, 1000.0, 0.1));
            assert!(close(c.transform.rotation, turn, 1e6, 1e-5));
        }
    }
}

#[test]
fn shiny_band_sweeps_and_brightens() {
    let shiny = Shiny::default();
    assert_eq!(shiny, Shiny { speed: 8_000, width: 6_000, angle: 500_000, brightness: 2_000 });
    assert_eq!(shiny.probe(), curve(500_000, 0));
    let s = found(479_426, 877_583, 1_000_000);
    let boost = |col, row, now| match shiny.delta(pos(col, row), at(now, 0), s).recolor {
        Recolor::Brighten(f) => Some(f),
        Recolor::Keep => None,
        other => panic!("unexpected recoloring {:?}", other),
    };
    // After a second the band's middle is 2 cells along the sweep.
    assert_eq!(boost(0, 0, 1_000_000), Some(1518));
    assert_eq!(boost(2, 1, 1_000_000), Some(2965));
    assert_eq!(boost(3, 0, 1_000_000), Some(2771));
    assert_eq!(boost(4, 2, 1_000_000), Some(1166));
    assert_eq!(boost(10, 5, 1_000_000), None);
    // After two and a half seconds it is 14 cells along.
    assert_eq!(boost(0, 0, 2_500_000), None);
    assert_eq!(boost(10, 5, 2_500_000), Some(1018));
    assert_eq!(boost(12, 6, 2_500_000), Some(2795));
    assert_eq!(boost(14, 4, 2_500_000), Some(2973));
    assert_eq!(boost(16, 0, 2_500_000), Some(2998));
    // After 25 seconds the band has started over.
    assert_eq!(boost(2, 1, 26_000_000), Some(2965));
    let flat = Shiny { width: 1, ..shiny };
    assert_eq!(flat.delta(pos(0, 0), at(0, 0), s), CellDelta::identity());
}

#[test]
fn shiny_agrees_with_its_formula() {
    let shiny = Shiny { speed: 11_000, width: 9_000, angle: 1_100_000, brightness: 1_500 };
    let s = sample(shiny.probe());
    let mut g = grid(80, 24);
    let mut cells_lit = 0;
    for c in g.cells().to_vec() {
        let mut dull = c;
        dull.foreground.color = Rgba { r: 1000, g: 2000, b: 3000, a: 4000 };
        g.set_cell((c.position.row as usize) * 80 + c.position.col as usize, dull);
    }
    shiny_system(at(3_300_000, 0), &shiny, &EffectRegion::all(), &mut g, &vec![s; 80 * 24]);
    for c in g.cells() {
        let band = (3.3f64 * 11.0) % 200.0 - 9.0;
        let proj = c.position.col as f64 * 1.1f64.cos() + c.position.row as f64 * 1.1f64.sin();
        let dist = (proj - band).abs();
        let expected = if dist > 4.5 {
            1.0
        } else {
            let t = (dist / 4.5).clamp(0.0, 1.0);
            1.0 + 1.5 * (1.0 - t * t * (3.0 - 2.0 * t))
        };
        if (dist - 4.5).abs() < 0.001 {
            continue;
        }
        cells_lit += (expected > 1.0) as usize;
        assert!(close(c.foreground.color.r as i64, (1000.0 * expected).min(5100.0), 1.0, 2.0), "{:?}", c.position);
        assert!(close(c.foreground.color.b as i64, (3000.0 * expected).min(5100.0), 1.0, 5.0), "{:?}", c.position);
        assert_eq!(c.foreground.color.a, 4000);
    }
    assert!(cells_lit > 50);
}

#[test]
fn slash_parts_the_cells_behind_the_blade() {
    let slash = Slash { elapsed: 200_000, ..Slash::default() };
    assert_eq!(
        Slash::default(),
        Slash { elapsed: 0, duration: 500_000, amplitude: 8_000, width: 4_000, angle: 785_398, active: true }
    );
    assert_eq!(slash.probe(), curve(785_398, 0));
    let s = found(707_107, 707_107, 1_000_000);
    let region = EffectRegion::full_screen(20, 10);
    let l = layout();
    // The middle of the cut, well behind the blade: full strength.
    assert_eq!(
        slash.delta(pos(10, 5), &region, &l, s),
        CellDelta { dx: -67_872, dy: -135_744, turn: Turn::By(80_000), resize: Resize::By(1100), recolor: Recolor::Keep }
    );
    // One cell further along the cut: weaker toward the end of the line.
    assert_eq!(
        slash.delta(pos(11, 6), &region, &l, s),
        CellDelta { dx: -58_824, dy: -117_648, turn: Turn::By(69_334), resize: Resize::By(1086), recolor: Recolor::Keep }
    );
    // Off the band, or ahead of the blade: untouched.
    for (col, row) in [(5, 5), (6, 5), (4, 3), (7, 8), (3, 2), (0, 0)] {
        assert_eq!(slash.delta(pos(col, row), &region, &l, s), CellDelta::identity(), "cell ({}, {})", col, row);
    }
    for (col, row) in [(15, 10), (19, 14)] {
        assert_eq!(slash.delta(pos(col, row), &region, &l, s), CellDelta::identity(), "cell ({}, {})", col, row);
    }
    // In the second half the cut eases shut.
    let closing = Slash { elapsed: 400_000, ..slash };
    assert_eq!(
        closing.delta(pos(10, 5), &region, &l, s),
        CellDelta { dx: -43_440, dy: -86_880, turn: Turn::By(51_200), resize: Resize::By(1064), recolor: Recolor::Keep }
    );
    assert_eq!(
        closing.delta(pos(12, 7), &region, &l, s),
        CellDelta { dx: -31_848, dy: -63_696, turn: Turn::By(37_547), resize: Resize::By(1046), recolor: Recolor::Keep }
    );
    let shut = Slash { elapsed: 500_000, ..slash };
    assert_eq!(shut.delta(pos(10, 5), &region, &l, s).dx, 0);
    let none = Slash { duration: 0, ..slash };
    assert_eq!(none.delta(pos(10, 5), &region, &l, s), CellDelta::identity());
}

#[test]
fn slash_agrees_with_its_formula() {
    let l = layout();
    let region = EffectRegion { included: vec![GridRect { col: 4, row: 2, width: 30, height: 14 }], excluded: vec![] };
    for elapsed in [50_000u32, 200_000, 260_000, 450_000] {
        let mut g = grid(40, 20);
        let mut slash = Slash { angle: 400_000, width: 7_000, ..Slash::default() };
        let s = sample(slash.probe());
        slash_system(at(0, elapsed), &l, &mut slash, &region, &mut g, &vec![s; 800]);
        let progress = elapsed as f64 / 500_000.0;
        let cut = progress.min(0.5) / 0.5;
        let close_phase = if progress > 0.5 { 1.0 - ((progress - 0.5) / 0.5).powi(2) } else { 1.0 };
        let (ax, ay) = (0.4f64.cos(), 0.4f64.sin());
        let (px, py) = (-ay, ax);
        let (cx, cy, ex, ey) = (4.0 + 15.0, 2.0 + 7.0, 15.0, 7.0);
        let half_along = (ex * ax).abs() + (ey * ay).abs();
        let (center_along, center_perp) = (cx * ax + cy * ay, cx * px + cy * py);
        let blade = center_along - half_along + cut * 2.0 * half_along;
        let mut moved = 0;
        for c in g.cells() {
            let (col, row) = (c.position.col as f64, c.position.row as f64);
            let inside = region.contains(c.position.col, c.position.row);
            let (along, perp) = (col * ax + row * ay, col * px + row * py);
            let perp_dist = (perp - center_perp).abs();
            // Cells on an edge of the band or at the blade may fall either way.
            if (perp_dist - 3.5).abs() < 0.01 || (along - blade).abs() < 0.01 || perp_dist < 0.01 {
                continue;
            }
            let strength = if !inside || perp_dist >= 3.5 || along > blade {
                0.0
            } else {
                let t = 1.0 - perp_dist / 3.5;
                let near = t * t * (3.0 - 2.0 * t);
                let middle = (1.0 - (along - center_along).abs() / half_along.max(1.0)).max(0.0);
                let behind = ((blade - along) / 2.0).min(1.0);
                near * middle * behind * close_phase
            };
            let side = if perp >= center_perp { 1.0 } else { -1.0 };
            let disp = 8.0 * strength * side;
            moved += (strength > 0.0) as usize;
            assert!(close(c.transform.translation.x - c.base.translation.x, px * disp * 12.0, 1000.0, 0.05), "{:?}", c.position);
            assert!(close(c.transform.translation.y - c.base.translation.y, py * disp * -24.0, 1000.0, 0.1), "{:?}", c.position);
            assert!(close(c.transform.rotation, 0.08 * strength * side, 1e6, 1e-4), "{:?}", c.position);
            assert!(close(c.transform.scale.x, 1.0 + 0.1 * strength, 1000.0, 0.002), "{:?}", c.position);
        }
        assert!(moved > 10, "elapsed {}", elapsed);
    }
}

#[test]
fn slash_without_a_rectangle_cuts_through_the_stock_middle() {
    let slash = Slash { elapsed: 250_000, ..Slash::default() };
    let s = found(707_107, 707_107, 1_000_000);
    let l = layout();
    // The stock line runs through column 75, row 25.
    let d = slash.delta(pos(75, 25), &EffectRegion::all(), &l, s);
    assert_eq!(d.turn, Turn::By(80_000));
    assert_eq!(slash.delta(pos(0, 0), &EffectRegion::all(), &l, s), CellDelta::identity());
}

#[test]
fn probes_are_taken_for_the_effect_as_it_will_be() {
    let g = grid(3, 2);
    let clock = at(1_000_000, 150_000);
    let knock = EffectInstance::new(EffectRegion::all(), Effect::Knock(Knock::default()));
    let aged = Knock { elapsed: 150_000, ..Knock::default() };
    let expected: Vec<Probe> = g.cells().iter().map(|c| aged.probe(c.position)).collect();
    assert_eq!(probes(&knock, &g, clock), expected);
    assert!(matches!(knock.effect, Effect::Knock(k) if k.elapsed == 0));

    let ripple = EffectInstance::new(EffectRegion::all(), Effect::Ripple(Ripple::default()));
    let mut run_on = Ripple::default();
    run_on.tick(150_000);
    let expected: Vec<Probe> = g.cells().iter().map(|c| run_on.probe(c.position)).collect();
    assert_eq!(probes(&ripple, &g, clock), expected);

    let wave = EffectInstance::new(EffectRegion::all(), Effect::Wave(Wave::default()));
    let expected: Vec<Probe> = g.cells().iter().map(|c| Wave::default().probe(c.position, clock)).collect();
    assert_eq!(probes(&wave, &g, clock), expected);

    let jitter = EffectInstance::new(EffectRegion::all(), Effect::Jitter(Default::default()));
    assert_eq!(probes(&jitter, &g, clock), vec![curve(0, 0); 6]);
}

#[test]
fn sampled_effects_run_in_the_list_like_the_others() {
    let clock = at(2_000_000, 100_000);
    let l = layout();
    let mut g = grid(6, 4);
    let mut effects = vec![
        EffectInstance::new(EffectRegion::all(), Effect::Wave(Wave::default())),
        EffectInstance::new(EffectRegion::all(), Effect::Knock(Knock::default())),
        EffectInstance::new(EffectRegion::all(), Effect::Breathe(Breathe::default())),
        EffectInstance::new(EffectRegion::all(), Effect::Rainbow(Rainbow::default())),
    ];
    for instance in effects.iter_mut() {
        instance.samples = probes(instance, &g, clock).into_iter().map(sample).collect();
    }
    apply_effects(&mut g, &mut effects, clock, &l);

    let mut expected = grid(6, 4);
    let wave = Wave::default();
    let mut knock = Knock::default();
    knock.tick(100_000);
    let breathe = Breathe::default();
    let rainbow = Rainbow::default();
    for i in 0..24 {
        let mut c = expected.cell(i);
        let p = c.position;
        c = wave.delta(sample(wave.probe(p, clock))).apply(c);
        c = knock.delta(p, &l, sample(knock.probe(p))).apply(c);
        c = breathe.delta(sample(breathe.probe(p, clock))).apply(c);
        c = rainbow.delta(sample(rainbow.probe(p, clock))).apply(c);
        expected.set_cell(i, c);
    }
    assert_eq!(g.cells(), expected.cells());
    assert!(matches!(effects[1].effect, Effect::Knock(k) if k == knock));
}

#[test]
fn a_sampled_effect_without_samples_moves_nothing() {
    let mut g = grid(3, 3);
    let mut effects = vec![
        EffectInstance::new(EffectRegion::all(), Effect::Wave(Wave::default())),
        EffectInstance::new(EffectRegion::all(), Effect::Slash(Slash::default())),
        EffectInstance::new(EffectRegion::all(), Effect::Glow(Glow::default())),
    ];
    let before = g.cells().to_vec();
    apply_effects(&mut g, &mut effects, at(100_000, 100_000), &layout());
    assert_eq!(g.cells(), before.as_slice());
    // Time passed for the one-shot all the same.
    assert!(matches!(effects[1].effect, Effect::Slash(s) if s.elapsed == 100_000));
}

#[test]
fn one_shots_replay_when_triggered_again() {
    let l = layout();
    let clock = at(0, 100_000);
    let mut g = grid(8, 4);
    let mut effects = vec![
        EffectInstance::new(EffectRegion::all(), Effect::Scatter(Scatter::default())),
        EffectInstance::new(EffectRegion::all(), Effect::Explode(Explode::default())),
    ];
    let mut run = |effects: &mut Vec<EffectInstance>, g: &mut TerminalGrid| {
        let mut frames = Vec::new();
        for _ in 0..5 {
            reset_transforms(g);
            for instance in effects.iter_mut() {
                instance.samples = probes(instance, g, clock).into_iter().map(sample).collect();
            }
            apply_effects(g, effects, clock, &l);
            frames.push(g.cells().to_vec());
        }
        frames
    };
    let first = run(&mut effects, &mut g);
    for instance in effects.iter_mut() {
        instance.effect.retrigger();
    }
    let second = run(&mut effects, &mut g);
    assert_eq!(first, second);
    assert_ne!(first[0], first[4]);
}

#[test]
fn effects_turn_and_scale_on_top_of_what_earlier_effects_left() {
    let l = layout();
    let clock = at(1_000_000, 1_000_000);
    let earlier = || {
        EffectInstance::new(
            EffectRegion::all(),
            Effect::Custom(vec![
                CellDelta { dx: 7, dy: -7, turn: Turn::By(5), resize: Resize::By(500), recolor: Recolor::Keep };
                4
            ]),
        )
    };
    let run = |later: Effect| {
        let mut g = grid(2, 2);
        let mut effects = vec![earlier(), EffectInstance::new(EffectRegion::all(), later)];
        for instance in effects.iter_mut() {
            instance.samples = probes(instance, &g, clock).into_iter().map(sample).collect();
        }
        apply_effects(&mut g, &mut effects, clock, &l);
        g.cell(3)
    };

    // A scatter without spin leaves the rotation that was there.
    let still = Scatter { spin: 0, ..Scatter::default() };
    let c = run(Effect::Scatter(still));
    assert_eq!(c.transform.rotation, 5);
    // After a third of its duration its factor is 1 - 0.8 / 3.
    assert_eq!(c.transform.scale.x, 500 * 734 / 1000);
    let d = Scatter { elapsed: 1_000_000, ..still }.delta(c.position, &l);
    assert_eq!(c.transform.translation.x, c.base.translation.x + 7 + d.dx);
    assert_eq!(c.transform.translation.y, c.base.translation.y - 7 + d.dy);

    let spinning = Scatter::default();
    let c = run(Effect::Scatter(spinning));
    let d = Scatter { elapsed: 1_000_000, ..spinning }.delta(c.position, &l);
    assert_eq!(d.turn, Turn::By(c.transform.rotation - 5));
    assert!(c.transform.rotation > 3_000_000);

    // Explode, breathe and jitter do the same.
    let c = run(Effect::Explode(Explode::default()));
    let aged = Explode { elapsed: 1_000_000, ..Explode::default() };
    let d = aged.delta(c.position, &l, sample(aged.probe(c.position)));
    match (d.turn, d.resize) {
        (Turn::By(a), Resize::By(f)) => {
            assert_eq!(c.transform.rotation, 5 + a);
            assert_eq!(c.transform.scale.x, 500 * f / 1000);
        }
        other => panic!("unexpected delta {:?}", other),
    }
    let c = run(Effect::Breathe(Breathe { min_scale: 2_000, max_scale: 2_000, ..Breathe::default() }));
    assert_eq!(c.transform.scale.x, 1000);
    assert_eq!(c.transform.rotation, 5);
    let c = run(Effect::Jitter(Default::default()));
    let d = bevy_terminal_emu::effects::jitter::Jitter::default().delta(c.position, clock);
    match d.turn {
        Turn::By(a) => assert_eq!(c.transform.rotation, 5 + a),
        other => panic!("unexpected turn {:?}", other),
    }
    assert_eq!(c.transform.scale.x, 500);
}
