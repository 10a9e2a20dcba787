use glowing_waffle::fixed::{Turn, ONE};
use glowing_waffle::color::{normal, rainbow, Rgb};
use glowing_waffle::renderer::{
    project_point, ColorMode, Entry, Frame, Renderer, Stroke, BLANK, DEPTH_FLOOR, EDGE_GLYPH,
};
use glowing_waffle::terminal::Terminal;
use glowing_waffle::waffle::{Point3D, Size, Waffle, WaffleCell};

fn cell(x: i64, y: i64, z: i64, depth: i64, is_edge: bool, source: usize) -> WaffleCell {
    WaffleCell { point: Point3D::new(x, y, z), depth, is_edge, source }
}

fn drawn(frame: &Frame) -> Vec<(usize, usize, Entry)> {
    let mut out = Vec::new();
    for row in 0..frame.height() as usize {
        for col in 0..frame.width() as usize {
            if let Some(entry) = frame.get(col, row) {
                out.push((col, row, entry));
            }
        }
    }
    out
}

fn turn_of(angle: i128) -> Turn {
    let radians = angle as f64 / 1_000_000.0;
    Turn::new(
        (radians.sin() * 1_000_000.0).round() as i64,
        (radians.cos() * 1_000_000.0).round() as i64,
    )
}

#[test]
fn a_single_point_at_the_origin_lands_on_the_centre() {
    let renderer = Renderer::new(ColorMode::Normal);
    let cells = vec![cell(0, 0, 0, 0, false, 0)];
    let frame = renderer.rasterize(&cells, 10, 10, 0);
    assert_eq!((frame.width(), frame.height()), (10, 10));
    let shown = drawn(&frame);
    assert_eq!(shown.len(), 1);
    let (col, row, entry) = shown[0];
    assert_eq!((col, row), (5, 5));
    assert_eq!(entry.glyph, '*');
    assert_eq!(entry.input.point, Point3D::new(0, 0, 0));
    assert_eq!(entry.input.depth, 0);
}

#[test]
fn projection_follows_the_formula() {
    // f = (0 + 5) / 10 = 0.5: column 40 + 1 * 5 / 0.5 = 50, row 12
    assert_eq!(project_point(&Point3D::new(ONE, 0, 0), 80, 24), Some((50, 12)));
    // row 12 + 1 * 2.5 / 0.5 = 17
    assert_eq!(project_point(&Point3D::new(0, ONE, 0), 80, 24), Some((40, 17)));
    // f = (5 + 5) / 10 = 1: column 40 + 2 * 5 = 50, row 12 - 2 * 2.5 = 7
    assert_eq!(project_point(&Point3D::new(2 * ONE, -2 * ONE, 5 * ONE), 80, 24), Some((50, 7)));
    // column 40 - 0.05 * 5 / 0.5 = 39.5, floored
    assert_eq!(project_point(&Point3D::new(-50_000, 0, 0), 80, 24), Some((39, 12)));
    // an odd width: the centre is 40.5
    assert_eq!(project_point(&Point3D::new(0, 0, 0), 81, 25), Some((40, 12)));
    assert_eq!(project_point(&Point3D::new(50_000, 50_000, 0), 81, 25), Some((41, 12)));
}

#[test]
fn points_beyond_the_display_are_not_drawn() {
    // column 40 + 4 * 5 / 0.5 = 80, just beyond the last column
    assert_eq!(project_point(&Point3D::new(4 * ONE, 0, 0), 80, 24), None);
    assert_eq!(project_point(&Point3D::new(3_999_999, 0, 0), 80, 24), Some((79, 12)));
    // column 40 - 40.1 = -0.1: below zero, though it would truncate to zero
    assert_eq!(project_point(&Point3D::new(-4_010_000, 0, 0), 80, 24), None);
    assert_eq!(project_point(&Point3D::new(-4 * ONE, 0, 0), 80, 24), Some((0, 12)));
    // rows
    assert_eq!(project_point(&Point3D::new(0, 2_400_000, 0), 80, 24), None);
    assert_eq!(project_point(&Point3D::new(0, -2_400_000, 0), 80, 24), Some((40, 0)));
    // a display without cells shows nothing
    assert_eq!(project_point(&Point3D::new(0, 0, 0), 0, 24), None);
    assert_eq!(project_point(&Point3D::new(0, 0, 0), 80, 0), None);
}

#[test]
fn a_vanishing_projection_factor_puts_the_point_off_the_display() {
    assert_eq!(project_point(&Point3D::new(0, 0, -5 * ONE), 80, 24), None);
    assert_eq!(project_point(&Point3D::new(ONE, ONE, -5 * ONE), 80, 24), None);
    // just in front of it the point is far out, but a point on the axis stays in the centre
    assert_eq!(project_point(&Point3D::new(ONE, 0, -5 * ONE + 1), 80, 24), None);
    assert_eq!(project_point(&Point3D::new(0, 0, -5 * ONE + 1), 80, 24), Some((40, 12)));
}

#[test]
fn behind_the_vanishing_depth_the_picture_flips() {
    // f = (-6 + 5) / 10 = -0.1: column 40 + 0.1 * 5 / -0.1 = 35
    assert_eq!(project_point(&Point3D::new(100_000, 0, -6 * ONE), 80, 24), Some((35, 12)));
    assert_eq!(project_point(&Point3D::new(-100_000, -40_000, -6 * ONE), 80, 24), Some((45, 13)));
}

#[test]
fn projection_takes_any_coordinates() {
    // x / (z + 5) is just below one: column 32767.5 + 50, row 32767.5 + 25
    assert_eq!(
        project_point(&Point3D::new(i64::MAX, i64::MAX, i64::MAX), 65_535, 65_535),
        Some((32_817, 32_792))
    );
    assert_eq!(
        project_point(&Point3D::new(i64::MIN, i64::MIN, i64::MIN), 65_535, 65_535),
        Some((32_817, 32_792))
    );
    assert_eq!(project_point(&Point3D::new(i64::MAX, i64::MIN, 0), 65_535, 65_535), None);
    assert_eq!(
        project_point(&Point3D::new(0, 0, i64::MAX), 65_535, 65_535),
        Some((32_767, 32_767))
    );
    assert_eq!(project_point(&Point3D::new(0, 0, i64::MIN), 1, 1), Some((0, 0)));
}

#[test]
fn the_deeper_of_two_cells_wins_the_screen_cell() {
    let renderer = Renderer::new(ColorMode::Normal);
    let near = cell(0, 0, 0, 1_500_000, false, 0);
    let far = cell(0, 0, 0, -500_000, false, 1);
    for cells in [vec![near, far], vec![far, near]] {
        let frame = renderer.rasterize(&cells, 20, 10, 7);
        let shown = drawn(&frame);
        assert_eq!(shown.len(), 1);
        let (col, row, entry) = shown[0];
        assert_eq!((col, row), (10, 5));
        assert_eq!(entry.input.depth, 1_500_000);
        assert_eq!(entry.glyph, renderer.get_char_for_depth(1_500_000, false));
        assert_eq!(entry.input.time, 7);
    }
}

#[test]
fn at_equal_depth_the_earlier_cell_keeps_the_screen_cell() {
    let renderer = Renderer::new(ColorMode::Normal);
    let first = cell(0, 0, 0, 300_000, true, 0);
    let second = cell(10_000, 10_000, 0, 300_000, false, 1);
    let frame = renderer.rasterize(&[first, second], 20, 10, 0);
    let shown = drawn(&frame);
    assert_eq!(shown.len(), 1);
    assert_eq!(shown[0].2.glyph, EDGE_GLYPH);
    assert_eq!(shown[0].2.input.point, first.point);
    let frame = renderer.rasterize(&[second, first], 20, 10, 0);
    let shown = drawn(&frame);
    assert_eq!(shown.len(), 1);
    assert_eq!(shown[0].2.glyph, 'o');
    assert_eq!(shown[0].2.input.point, second.point);
}

#[test]
fn nothing_at_or_below_the_depth_floor_is_drawn() {
    let renderer = Renderer::new(ColorMode::Normal);
    assert_eq!(DEPTH_FLOOR, -1000 * ONE);
    let at_floor = cell(0, 0, 0, DEPTH_FLOOR, true, 0);
    let frame = renderer.rasterize(&[at_floor], 20, 10, 0);
    assert!(drawn(&frame).is_empty());
    let above = cell(0, 0, 0, DEPTH_FLOOR + 1, true, 0);
    let frame = renderer.rasterize(&[at_floor, above], 20, 10, 0);
    let shown = drawn(&frame);
    assert_eq!(shown.len(), 1);
    assert_eq!(shown[0].2.input.depth, DEPTH_FLOOR + 1);
}

#[test]
fn cells_on_different_screen_cells_do_not_contend() {
    let renderer = Renderer::new(ColorMode::Normal);
    let cells = [
        cell(0, 0, 0, 0, false, 0),
        cell(ONE, 0, 0, -ONE, true, 1),
        cell(0, ONE, 0, ONE, false, 2),
        cell(9 * ONE, 0, 0, ONE, false, 3),
    ];
    let frame = renderer.rasterize(&cells, 80, 24, 0);
    let shown = drawn(&frame);
    assert_eq!(shown.len(), 3);
    assert_eq!(frame.get(40, 12).unwrap().input.point, cells[0].point);
    assert_eq!(frame.get(50, 12).unwrap().glyph, EDGE_GLYPH);
    assert_eq!(frame.get(40, 17).unwrap().input.point, cells[2].point);
    assert_eq!(frame.get(41, 12), None);
    assert_eq!(frame.glyph_at(41, 12), BLANK);
    assert_eq!(frame.glyph_at(50, 12), EDGE_GLYPH);
}

#[test]
fn a_frame_holds_nothing_outside_the_display() {
    let renderer = Renderer::new(ColorMode::Normal);
    let frame = renderer.rasterize(&[cell(0, 0, 0, 0, true, 0)], 4, 2, 0);
    assert_eq!(frame.get(2, 1).unwrap().glyph, EDGE_GLYPH);
    assert_eq!(frame.get(4, 1), None);
    assert_eq!(frame.get(2, 2), None);
    assert_eq!(frame.glyph_at(400, 200), BLANK);
    let empty = renderer.rasterize(&[cell(0, 0, 0, 0, true, 0)], 0, 0, 0);
    assert_eq!((empty.width(), empty.height()), (0, 0));
    assert_eq!(empty.get(0, 0), None);
}

#[test]
fn edges_are_drawn_with_the_edge_glyph_whatever_the_depth() {
    let renderer = Renderer::new(ColorMode::Fire);
    assert_eq!(EDGE_GLYPH, '#');
    for depth in [i64::MIN, -3 * ONE, -2 * ONE, -1, 0, 1, ONE, 2 * ONE, 50 * ONE, i64::MAX] {
        assert_eq!(renderer.get_char_for_depth(depth, true), '#');
    }
    let frame = renderer.rasterize(&[cell(0, 0, 0, -2 * ONE, true, 0)], 10, 10, 0);
    assert_eq!(frame.get(5, 5).unwrap().glyph, '#');
}

#[test]
fn the_glyph_of_a_depth_comes_from_the_palette() {
    let renderer = Renderer::new(ColorMode::Normal);
    let glyph = |depth: i64| renderer.get_char_for_depth(depth, false);
    // (depth + 2) / 4 * 11, floored
    assert_eq!(glyph(-2 * ONE), ' ');
    assert_eq!(glyph(-1_700_000), ' ');
    assert_eq!(glyph(-1_636_364), ' ');
    assert_eq!(glyph(-1_636_363), '.');
    assert_eq!(glyph(-1_600_000), '.');
    assert_eq!(glyph(-ONE), ':');
    assert_eq!(glyph(-500_000), '!');
    assert_eq!(glyph(0), '*');
    assert_eq!(glyph(500_000), 'o');
    assert_eq!(glyph(ONE), '%');
    assert_eq!(glyph(1_600_000), '#');
    assert_eq!(glyph(1_636_363), '#');
    assert_eq!(glyph(1_636_364), '@');
    assert_eq!(glyph(1_900_000), '@');
    // held to [0, 0.99]
    assert_eq!(glyph(1_960_000), '@');
    assert_eq!(glyph(2 * ONE), '@');
    assert_eq!(glyph(70 * ONE), '@');
    assert_eq!(glyph(i64::MAX), '@');
    assert_eq!(glyph(-2 * ONE - 1), ' ');
    assert_eq!(glyph(-70 * ONE), ' ');
    assert_eq!(glyph(i64::MIN), ' ');
}

#[test]
fn the_colour_mode_can_be_changed() {
    let mut renderer = Renderer::new(ColorMode::Normal);
    assert_eq!(renderer.color_mode(), ColorMode::Normal);
    renderer.set_color_mode(ColorMode::Fire);
    assert_eq!(renderer.color_mode(), ColorMode::Fire);
    renderer.set_color_mode(ColorMode::Rainbow);
    assert_eq!(renderer.color_mode(), ColorMode::Rainbow);
    // the palette is untouched
    assert_eq!(renderer.get_char_for_depth(0, false), '*');
}

#[test]
fn rendering_a_lattice_draws_its_nearest_points() {
    let renderer = Renderer::new(ColorMode::Normal);
    let term = Terminal::new(80, 24);
    let mut waffle = Waffle::new(Size::Small);
    waffle.rotate(500_000, 200_000, 100_000, &turn_of);
    let frame = renderer.render(&term, &waffle, 3);
    assert_eq!((frame.width(), frame.height()), (80, 24));
    let shown = drawn(&frame);
    assert!(!shown.is_empty());
    for &(col, row, entry) in &shown {
        // the entry is that of the deepest cell that lands here, the first of them
        let mut best: Option<WaffleCell> = None;
        for c in waffle.cells() {
            if project_point(&c.point, 80, 24) == Some((col, row)) {
                if best.map_or(true, |b| c.depth > b.depth) {
                    best = Some(*c);
                }
            }
        }
        let best = best.unwrap();
        assert_eq!(entry.input.point, best.point);
        assert_eq!(entry.input.depth, best.depth);
        assert_eq!(entry.input.time, 3);
        assert_eq!(entry.glyph, renderer.get_char_for_depth(best.depth, best.is_edge));
    }
    // and every cell that lands on the display lands on a drawn screen cell
    for c in waffle.cells() {
        if let Some((col, row)) = project_point(&c.point, 80, 24) {
            assert!(frame.get(col, row).unwrap().input.depth >= c.depth);
        }
    }
}

#[test]
fn the_display_may_change_between_frames() {
    let renderer = Renderer::new(ColorMode::Normal);
    let waffle = Waffle::new(Size::Large);
    for (w, h) in [(80u16, 24u16), (1, 1), (200, 60), (3, 100)] {
        let frame = renderer.render(&Terminal::new(w, h), &waffle, 0);
        assert_eq!((frame.width(), frame.height()), (w, h));
    }
}

fn bearing_of(x: i64, y: i64) -> i64 {
    ((x as f64).atan2(y as f64) * 1_000_000.0).round() as i64
}

#[test]
fn strokes_follow_the_frame_row_by_row() {
    let mut renderer = Renderer::new(ColorMode::Normal);
    let cells = [
        cell(ONE, ONE, 0, ONE, false, 0),
        cell(0, 0, 0, 0, true, 1),
        cell(-ONE, 0, 0, -2 * ONE, false, 2),
        cell(ONE, -ONE, 0, -ONE, false, 3),
    ];
    let frame = renderer.rasterize(&cells, 80, 24, 9);
    let strokes = renderer.strokes(&frame, &turn_of, &bearing_of);
    assert_eq!(
        strokes,
        vec![
            Stroke { col: 50, row: 7, glyph: ':', color: normal(-ONE) },
            Stroke { col: 40, row: 12, glyph: '#', color: normal(0) },
            Stroke { col: 50, row: 17, glyph: '%', color: normal(ONE) },
        ]
    );
    // the cell at the back won its screen cell, but its glyph is the blank
    assert_eq!(frame.get(30, 12).unwrap().glyph, BLANK);
    assert_eq!(frame.visible(30, 12), None);
    assert_eq!(frame.visible(40, 12), frame.get(40, 12));
    assert_eq!(frame.visible(41, 12), None);

    renderer.set_color_mode(ColorMode::Rainbow);
    let strokes = renderer.strokes(&frame, &turn_of, &bearing_of);
    assert_eq!(strokes.len(), 3);
    assert_eq!(strokes[0].color, rainbow(bearing_of(ONE, -ONE), 9, -ONE));
    assert_eq!(strokes[1].color, rainbow(0, 9, 0));
    assert_eq!(strokes[2].color, rainbow(bearing_of(ONE, ONE), 9, ONE));
    assert_eq!(strokes[1].color, Rgb { r: 177, g: 0, b: 0 });
}

#[test]
fn an_empty_frame_has_no_strokes() {
    let renderer = Renderer::new(ColorMode::Fire);
    let frame = renderer.rasterize(&[], 80, 24, 0);
    assert!(renderer.strokes(&frame, &turn_of, &bearing_of).is_empty());
    let frame = renderer.rasterize(&[cell(0, 0, 0, 0, true, 0)], 0, 0, 0);
    assert!(renderer.strokes(&frame, &turn_of, &bearing_of).is_empty());
}

#[test]
fn every_drawn_cell_of_a_lattice_gets_one_stroke() {
    let renderer = Renderer::new(ColorMode::Fire);
    let mut waffle = Waffle::new(Size::Medium);
    waffle.rotate(900_000, 400_000, 200_000, &turn_of);
    let frame = renderer.render(&Terminal::new(100, 40), &waffle, 5 * ONE);
    let strokes = renderer.strokes(&frame, &turn_of, &bearing_of);
    let visible: Vec<(usize, usize, Entry)> =
        drawn(&frame).into_iter().filter(|(_, _, e)| e.glyph != BLANK).collect();
    assert_eq!(strokes.len(), visible.len());
    for (stroke, &(col, row, entry)) in strokes.iter().zip(visible.iter()) {
        assert_eq!((stroke.col as usize, stroke.row as usize), (col, row));
        assert_eq!(stroke.glyph, entry.glyph);
        assert_eq!(
            stroke.color,
            renderer.get_color(
                &entry.input.point,
                entry.input.depth,
                entry.input.time,
                &turn_of,
                &bearing_of
            )
        );
    }
}
