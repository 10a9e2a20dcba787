//! Projection of the lattice onto a grid of character cells, the
//! nearest-point rule that resolves overlaps, and the glyph of each cell.

use vstd::prelude::*;
use crate::color::{fire, flicker_phase, normal, radial_distance, rainbow, Rgb};
use crate::color::{fire_color, normal_color, radial, rainbow_color};
use crate::fixed::{floor_div, Turn};
use crate::terminal::Terminal;
use crate::waffle::{Coords, Point3D, Waffle, WaffleCell};

verus! {

/// Available color modes for rendering.
#[derive(Debug, Clone, Copy, PartialEq, Eq, Structural)]
pub enum ColorMode {
    Normal,
    Rainbow,
    Fire,
}

/// The glyph of every structural edge, whatever its depth.
pub const EDGE_GLYPH: char = '#';

/// The glyph of a screen cell on which nothing is drawn.
pub const BLANK: char = ' ';

/// The depth at or below which no point is drawn: a thousand units behind
/// the origin.
pub const DEPTH_FLOOR: i64 = -1_000_000_000;

/// Character palette from sparse to dense.
pub open spec fn palette() -> Seq<char> {
    seq![' ', '.', ':', ';', '!', '*', 'o', '&', '%', '#', '@']
}

/// The palette level of a depth. The depth is brought into `[0, 0.99]` as
/// `(depth + 2) / 4`, held to that range; the level is the floor of eleven
/// times that.
pub open spec fn glyph_index(depth: int) -> int {
    let shifted: int = depth + 2_000_000;
    if shifted <= 0 {
        0
    } else if 100 * shifted >= 99 * 4_000_000 {
        10
    } else {
        11 * shifted / 4_000_000
    }
}

/// The glyph of a point: the edge glyph for an edge, else the palette
/// character of its depth.
pub open spec fn glyph_for(depth: int, is_edge: bool) -> char {
    if is_edge {
        EDGE_GLYPH
    } else {
        palette()[glyph_index(depth)]
    }
}

/// Where a point falls along one axis of the display. With `extent`
/// character cells on the axis the point stands at
/// `extent / 2 + reach / divisor`; the result is the floor of that, if it
/// lies in `[0, extent)`. A zero divisor puts the point off the display.
pub open spec fn axis_cell(extent: int, reach: int, divisor: int) -> Option<int> {
    let raw: int = extent * divisor + 2 * reach;
    let numer: int = if divisor > 0 {
        raw
    } else {
        -raw
    };
    let denom: int = if divisor > 0 {
        2 * divisor
    } else {
        -2 * divisor
    };
    if divisor != 0 && 0 <= numer && numer < extent * denom {
        Some(numer / denom)
    } else {
        None
    }
}

/// The screen cell, column and row, on which a point is drawn, if it is on
/// the display at all. With the projection factor `f = (z + 5) / 10` the
/// point stands at column `width / 2 + 5 x / f` and at row
/// `height / 2 + 2.5 y / f`.
pub open spec fn screen_cell(p: Coords, width: int, height: int) -> Option<(int, int)> {
    let divisor: int = p.z + 5_000_000;
    match (axis_cell(width, 50 * p.x, divisor), axis_cell(height, 25 * p.y, divisor)) {
        (Some(col), Some(row)) => Some((col, row)),
        _ => None,
    }
}

/// A point that is drawn is drawn inside the display.
pub proof fn screen_cell_on_display(p: Coords, width: int, height: int)
    requires
        0 <= width,
        0 <= height,
    ensures
        match screen_cell(p, width, height) {
            Some((col, row)) => 0 <= col < width && 0 <= row < height,
            None => true,
        },
{
    let divisor: int = p.z + 5_000_000;
    axis_cell_on_axis(width, 50 * p.x, divisor);
    axis_cell_on_axis(height, 25 * p.y, divisor);
}

/// A point that falls on an axis falls inside its extent.
pub proof fn axis_cell_on_axis(extent: int, reach: int, divisor: int)
    requires
        0 <= extent,
    ensures
        match axis_cell(extent, reach, divisor) {
            Some(cell) => 0 <= cell < extent,
            None => true,
        },
{
    let raw: int = extent * divisor + 2 * reach;
    let numer: int = if divisor > 0 {
        raw
    } else {
        -raw
    };
    let denom: int = if divisor > 0 {
        2 * divisor
    } else {
        -2 * divisor
    };
    if divisor != 0 && 0 <= numer && numer < extent * denom {
        assert(numer < denom * extent) by (nonlinear_arith)
            requires
                numer < extent * denom,
        ;
        vstd::arithmetic::div_mod::lemma_multiply_divide_lt(numer, denom, extent);
        crate::fixed::quotient_between(numer, denom);
    }
}

/// Where a point falls along one axis of the display.
fn axis_cell_of(extent: u16, reach: i128, divisor: i128) -> (cell: Option<usize>)
    requires
        -1_000_000_000_000_000_000_000 <= reach <= 1_000_000_000_000_000_000_000,
        -10_000_000_000_000_000_000 <= divisor <= 10_000_000_000_000_000_000,
    ensures
        match cell {
            Some(c) => axis_cell(extent as int, reach as int, divisor as int) == Some(c as int),
            None => axis_cell(extent as int, reach as int, divisor as int) is None,
        },
        cell is Some ==> cell->0 < extent,
{
    if divisor == 0 {
        return None;
    }
    let wide: i128 = extent as i128;
    proof {
        crate::fixed::product_between(wide as int, divisor as int, 65_535, 10_000_000_000_000_000_000);
    }
    let raw: i128 = wide * divisor + 2 * reach;
    let numer: i128 = if divisor > 0 {
        raw
    } else {
        -raw
    };
    let denom: i128 = if divisor > 0 {
        2 * divisor
    } else {
        -2 * divisor
    };
    proof {
        crate::fixed::product_between(wide as int, denom as int, 65_535, 20_000_000_000_000_000_000);
        axis_cell_on_axis(extent as int, reach as int, divisor as int);
    }
    if 0 <= numer && numer < wide * denom {
        let q: i128 = floor_div(numer, denom);
        Some(q as usize)
    } else {
        None
    }
}

/// The screen cell, column and row, on which a point is drawn on a display
/// of `width` columns and `height` rows, if it is on the display at all.
pub fn project_point(point: &Point3D, width: u16, height: u16) -> (cell: Option<(usize, usize)>)
    ensures
        match cell {
            Some((col, row)) => {
                &&& screen_cell(point@, width as int, height as int) == Some(
                    (col as int, row as int),
                )
                &&& col < width
                &&& row < height
            },
            None => screen_cell(point@, width as int, height as int) is None,
        },
{
    let divisor: i128 = point.z as i128 + 5_000_000;
    let col: Option<usize> = axis_cell_of(width, 50 * (point.x as i128), divisor);
    let row: Option<usize> = axis_cell_of(height, 25 * (point.y as i128), divisor);
    match (col, row) {
        (Some(c), Some(r)) => Some((c, r)),
        _ => None,
    }
}

/// What the colour of a drawn point is computed from: the live point, its
/// depth and the animation time of the frame.
#[derive(Debug, Clone, Copy, PartialEq, Eq, Structural)]
pub struct ColorInput {
    pub point: Point3D,
    pub depth: i64,
    pub time: i64,
}

/// What is drawn on one screen cell: a glyph, and what its colour is
/// computed from.
#[derive(Debug, Clone, Copy, PartialEq, Eq, Structural)]
pub struct Entry {
    pub glyph: char,
    pub input: ColorInput,
}

/// What a lattice cell draws on the screen cell that it wins.
pub open spec fn entry_of(cell: WaffleCell, time: i64) -> Entry {
    Entry {
        glyph: glyph_for(cell.depth as int, cell.is_edge),
        input: ColorInput { point: cell.point, depth: cell.depth, time },
    }
}

/// The lattice cell is drawn on this screen cell.
pub open spec fn lands(cell: WaffleCell, width: int, height: int, col: int, row: int) -> bool {
    screen_cell(cell.point@, width, height) == Some((col, row))
}

/// The lattice cell is drawn on this screen cell and lies above the depth
/// floor, so it takes part in the contest for the screen cell.
pub open spec fn contends(cell: WaffleCell, width: int, height: int, col: int, row: int) -> bool {
    lands(cell, width, height, col, row) && cell.depth > DEPTH_FLOOR
}

/// Cell `k` wins the screen cell: it contends for it, every other contender
/// is no deeper, and of the contenders of its own depth it is the first.
pub open spec fn wins(
    cells: Seq<WaffleCell>,
    k: int,
    width: int,
    height: int,
    col: int,
    row: int,
) -> bool {
    &&& 0 <= k < cells.len()
    &&& contends(cells[k], width, height, col, row)
    &&& forall|j: int|
        0 <= j < cells.len() && contends(#[trigger] cells[j], width, height, col, row) ==> {
            ||| cells[j].depth < cells[k].depth
            ||| cells[j].depth == cells[k].depth && k <= j
        }
}

/// The position of a screen cell in a display stored row by row.
pub open spec fn slot(width: int, col: int, row: int) -> int {
    row * width + col
}

/// Two screen cells of one display with the same position are the same.
pub proof fn slot_determines_cell(width: int, col: int, row: int, other_col: int, other_row: int)
    requires
        0 <= col < width,
        0 <= other_col < width,
        slot(width, col, row) == slot(width, other_col, other_row),
    ensures
        col == other_col,
        row == other_row,
{
    let at: int = slot(width, col, row);
    vstd::arithmetic::div_mod::lemma_fundamental_div_mod_converse(at, width, row, col);
    vstd::arithmetic::div_mod::lemma_fundamental_div_mod_converse(at, width, other_row, other_col);
}

/// A screen cell of a display has its position inside the display.
pub proof fn slot_in_display(width: int, height: int, col: int, row: int)
    by (nonlinear_arith)
    requires
        0 <= col < width,
        0 <= row < height,
    ensures
        0 <= slot(width, col, row) < width * height,
{
}

/// One frame: for every screen cell of a display, what is drawn on it, if
/// anything.
pub struct Frame {
    width: u16,
    height: u16,
    entries: Vec<Option<Entry>>,
}

impl Frame {
    #[verifier::type_invariant]
    closed spec fn every_cell_stored(&self) -> bool {
        self.entries.len() == self.width * self.height
    }

    /// Number of columns.
    pub closed spec fn spec_width(&self) -> u16 {
        self.width
    }

    /// Number of rows.
    pub closed spec fn spec_height(&self) -> u16 {
        self.height
    }

    /// What is drawn at a column and a row; nothing outside the display.
    pub closed spec fn at(&self, col: int, row: int) -> Option<Entry> {
        if 0 <= col < self.width && 0 <= row < self.height {
            self.entries@[slot(self.width as int, col, row)]
        } else {
            None
        }
    }

    /// What there is to see at a column and a row: the entry, unless its
    /// glyph is the blank.
    pub open spec fn shown(&self, col: int, row: int) -> Option<Entry> {
        match self.at(col, row) {
            Some(found) => if found.glyph == BLANK {
                None
            } else {
                Some(found)
            },
            None => None,
        }
    }

    /// There is something to see only on the display.
    pub proof fn shown_on_display(&self, col: int, row: int)
        requires
            self.shown(col, row) is Some,
        ensures
            0 <= col < self.width(),
            0 <= row < self.height(),
    {
    }

    /// Number of columns.
    #[verifier::when_used_as_spec(spec_width)]
    pub fn width(&self) -> (w: u16)
        ensures
            w == self.spec_width(),
    {
        self.width
    }

    /// Number of rows.
    #[verifier::when_used_as_spec(spec_height)]
    pub fn height(&self) -> (h: u16)
        ensures
            h == self.spec_height(),
    {
        self.height
    }

    /// What is drawn at a column and a row; nothing outside the display.
    pub fn get(&self, col: usize, row: usize) -> (entry: Option<Entry>)
        ensures
            entry == self.at(col as int, row as int),
    {
        proof {
            use_type_invariant(self);
        }
        if col < self.width as usize && row < self.height as usize {
            proof {
                slot_in_display(self.width as int, self.height as int, col as int, row as int);
            }
            self.entries[row * (self.width as usize) + col]
        } else {
            None
        }
    }

    /// What there is to see at a column and a row: the entry, unless its
    /// glyph is the blank.
    pub fn visible(&self, col: usize, row: usize) -> (entry: Option<Entry>)
        ensures
            entry == self.shown(col as int, row as int),
    {
        match self.get(col, row) {
            Some(found) => if found.glyph == BLANK {
                None
            } else {
                Some(found)
            },
            None => None,
        }
    }

    /// The glyph at a column and a row: that of the entry, and a blank
    /// where nothing is drawn.
    pub fn glyph_at(&self, col: usize, row: usize) -> (glyph: char)
        ensures
            glyph == match self.at(col as int, row as int) {
                Some(entry) => entry.glyph,
                None => BLANK,
            },
    {
        match self.get(col, row) {
            Some(entry) => entry.glyph,
            None => BLANK,
        }
    }
}

/// `rgb` is the colour that a policy gives a drawn point. Normal reads the
/// depth alone. Rainbow reads the angle that `bearing` gave for the `x` and
/// `y` of the point. Fire reads the sines that `trig` gave at the radial
/// distance of the point and at three times the animation time, each
/// between minus one and one.
pub open spec fn colored<F: Fn(i128) -> Turn, G: Fn(i64, i64) -> i64>(
    mode: ColorMode,
    point: Point3D,
    depth: int,
    time: int,
    trig: &F,
    bearing: &G,
    rgb: (int, int, int),
) -> bool {
    match mode {
        ColorMode::Normal => rgb == normal_color(depth),
        ColorMode::Rainbow => exists|angle: i64| #[trigger]
            call_ensures(bearing, (point.x, point.y), angle) && rgb == rainbow_color(
                angle as int,
                time,
                depth,
            ),
        ColorMode::Fire => exists|ripple: Turn, flicker: Turn|
            {
                &&& #[trigger] call_ensures(trig, (radial(point@) as i128,), ripple)
                &&& #[trigger] call_ensures(trig, ((3 * time) as i128,), flicker)
                &&& ripple.is_unit()
                &&& flicker.is_unit()
                &&& rgb == fire_color(ripple.sine(), flicker.sine())
            },
    }
}

/// A structural edge is drawn with the edge glyph, whatever its depth.
pub proof fn edge_glyph_is_fixed(cell: WaffleCell, time: i64)
    requires
        cell.is_edge,
    ensures
        glyph_for(cell.depth as int, cell.is_edge) == EDGE_GLYPH,
        entry_of(cell, time).glyph == EDGE_GLYPH,
{
}

/// A screen cell has at most one winner.
pub proof fn winner_is_unique(
    cells: Seq<WaffleCell>,
    first: int,
    second: int,
    width: int,
    height: int,
    col: int,
    row: int,
)
    requires
        wins(cells, first, width, height, col, row),
        wins(cells, second, width, height, col, row),
    ensures
        first == second,
{
}

/// Of two lattice cells that contend for one screen cell, the shallower
/// one is not the winner: the winner is at least as deep as the deeper one.
pub proof fn deeper_cell_prevails(
    cells: Seq<WaffleCell>,
    winner: int,
    shallow: int,
    deep: int,
    width: int,
    height: int,
    col: int,
    row: int,
)
    requires
        wins(cells, winner, width, height, col, row),
        0 <= shallow < cells.len(),
        0 <= deep < cells.len(),
        contends(cells[shallow], width, height, col, row),
        contends(cells[deep], width, height, col, row),
        cells[shallow].depth < cells[deep].depth,
    ensures
        winner != shallow,
        cells[winner].depth >= cells[deep].depth,
        cells[winner].depth > cells[shallow].depth,
{
}

/// One character to draw: where, which glyph, and in what colour.
#[derive(Debug, Clone, Copy, PartialEq, Eq, Structural)]
pub struct Stroke {
    pub col: u16,
    pub row: u16,
    pub glyph: char,
    pub color: Rgb,
}

/// ASCII renderer for the waffle model.
pub struct Renderer {
    color_mode: ColorMode,
    // Character palette from sparse to dense
    char_palette: Vec<char>,
}

/// The first `n` lattice cells leave the screen cell at position `at`
/// alone, or cell `leader` is the winner among them.
spec fn settled(
    cells: Seq<WaffleCell>,
    n: int,
    width: int,
    height: int,
    at: int,
    leader: int,
) -> bool {
    if leader < 0 {
        forall|j: int| 0 <= j < n ==> !aims(#[trigger] cells[j], width, height, at)
    } else {
        &&& leader < n
        &&& aims(cells[leader], width, height, at)
        &&& forall|j: int|
            0 <= j < n && aims(#[trigger] cells[j], width, height, at) ==> {
                ||| cells[j].depth < cells[leader].depth
                ||| cells[j].depth == cells[leader].depth && leader <= j
            }
    }
}

/// The lattice cell contends for the screen cell at position `at`.
spec fn aims(cell: WaffleCell, width: int, height: int, at: int) -> bool {
    &&& cell.depth > DEPTH_FLOOR
    &&& match screen_cell(cell.point@, width, height) {
        Some((col, row)) => slot(width, col, row) == at,
        None => false,
    }
}

/// On a display, contending for a screen cell and aiming at its position
/// are the same.
proof fn aims_is_contends(cell: WaffleCell, width: int, height: int, col: int, row: int)
    requires
        0 <= col < width,
        0 <= row < height,
    ensures
        aims(cell, width, height, slot(width, col, row)) == contends(cell, width, height, col, row),
{
    screen_cell_on_display(cell.point@, width, height);
    match screen_cell(cell.point@, width, height) {
        Some((c, r)) => {
            if slot(width, c, r) == slot(width, col, row) {
                slot_determines_cell(width, c, r, col, row);
            }
        },
        None => {},
    }
}

/// The strokes cover the frame up to, and not including, the screen cell
/// at position `upto`: each stroke paints what there is to see on its
/// screen cell, the strokes come in the order of their positions, and
/// nothing that there is to see before `upto` is left out.
spec fn painted<F: Fn(i128) -> Turn, G: Fn(i64, i64) -> i64>(
    renderer: &Renderer,
    frame: &Frame,
    trig: &F,
    bearing: &G,
    strokes: Seq<Stroke>,
    upto: int,
) -> bool {
    &&& forall|i: int|
        0 <= i < strokes.len() ==> {
            &&& slot(frame.width() as int, (#[trigger] strokes[i]).col as int, strokes[i].row as int)
                < upto
            &&& match frame.shown(strokes[i].col as int, strokes[i].row as int) {
                Some(entry) => {
                    &&& strokes[i].glyph == entry.glyph
                    &&& colored(
                        renderer.mode(),
                        entry.input.point,
                        entry.input.depth as int,
                        entry.input.time as int,
                        trig,
                        bearing,
                        strokes[i].color@,
                    )
                },
                None => false,
            }
        }
    &&& forall|i: int, j: int|
        0 <= i < j < strokes.len() ==> slot(
            frame.width() as int,
            (#[trigger] strokes[i]).col as int,
            strokes[i].row as int,
        ) < slot(frame.width() as int, (#[trigger] strokes[j]).col as int, strokes[j].row as int)
    &&& forall|col: int, row: int|
        0 <= col < frame.width() && slot(frame.width() as int, col, row) < upto && (
        #[trigger] frame.shown(col, row)) is Some ==> exists|i: int|
            0 <= i < strokes.len() && (#[trigger] strokes[i]).col == col && strokes[i].row == row
}

impl Renderer {
    #[verifier::type_invariant]
    closed spec fn palette_held(&self) -> bool {
        self.char_palette@ == palette()
    }

    /// The colour mode in force.
    pub closed spec fn mode(&self) -> ColorMode {
        self.color_mode
    }

    /// A renderer with a colour mode and the palette of eleven glyphs.
    pub fn new(color_mode: ColorMode) -> (renderer: Renderer)
        ensures
            renderer.mode() == color_mode,
    {
        // Character palette from sparse to dense for depth representation
        let char_palette: Vec<char> = vec![' ', '.', ':', ';', '!', '*', 'o', '&', '%', '#', '@'];
        assert(char_palette@ =~= palette());
        Renderer { color_mode, char_palette }
    }

    /// Change the color mode
    pub fn set_color_mode(&mut self, mode: ColorMode)
        ensures
            final(self).mode() == mode,
    {
        proof {
            use_type_invariant(&*self);
        }
        self.color_mode = mode;
    }

    /// The colour mode in force.
    pub fn color_mode(&self) -> (mode: ColorMode)
        ensures
            mode == self.mode(),
    {
        self.color_mode
    }

    /// Get a character based on depth value: the edge glyph for an edge,
    /// whatever the depth, else the palette character of the depth.
    pub fn get_char_for_depth(&self, depth: i64, is_edge: bool) -> (glyph: char)
        ensures
            glyph == glyph_for(depth as int, is_edge),
            is_edge ==> glyph == EDGE_GLYPH,
    {
        if is_edge {
            return EDGE_GLYPH;
        }
        proof {
            use_type_invariant(self);
        }
        // Normalize depth to 0-1 range
        let shifted: i128 = depth as i128 + 2_000_000;
        // Map to character palette
        let char_index: usize = if shifted <= 0 {
            0
        } else if 100 * shifted >= 99 * 4_000_000 {
            10
        } else {
            (11 * shifted / 4_000_000) as usize
        };
        self.char_palette[char_index]
    }

    /// Get a color based on depth and position, under the colour mode in
    /// force. `trig` is asked for the sine and cosine of an angle in
    /// millionths of a radian, and `bearing` for the angle `atan2(x, y)`,
    /// in millionths of a radian, of a point whose `x` and `y` are in
    /// millionths; each is asked only what the mode reads.
    pub fn get_color<F: Fn(i128) -> Turn, G: Fn(i64, i64) -> i64>(
        &self,
        point: &Point3D,
        depth: i64,
        time: i64,
        trig: &F,
        bearing: &G,
    ) -> (rgb: Rgb)
        requires
            forall|angle: i128| #[trigger] call_requires(trig, (angle,)),
            forall|x: i64, y: i64| #[trigger] call_requires(bearing, (x, y)),
        ensures
            colored(self.mode(), *point, depth as int, time as int, trig, bearing, rgb@),
            self.mode() == ColorMode::Normal ==> rgb.r == rgb.g && rgb.g == rgb.b,
            self.mode() == ColorMode::Fire ==> rgb.b <= rgb.g <= rgb.r && rgb.g <= 140 && rgb.b
                <= 40,
    {
        match self.color_mode {
            ColorMode::Normal => normal(depth),
            ColorMode::Rainbow => {
                let angle: i64 = bearing(point.x, point.y);
                assert(call_ensures(bearing, (point.x, point.y), angle));
                rainbow(angle, time, depth)
            },
            ColorMode::Fire => {
                let ripple: Turn = trig(radial_distance(point) as i128);
                let flicker: Turn = trig(flicker_phase(time));
                proof {
                    use_type_invariant(&ripple);
                    use_type_invariant(&flicker);
                }
                assert(call_ensures(trig, (radial(point@) as i128,), ripple));
                assert(call_ensures(trig, ((3 * time) as i128,), flicker));
                fire(ripple, flicker)
            },
        }
    }

    /// What to draw of a frame, row by row and from left to right: one
    /// stroke for every screen cell on which there is something to see,
    /// with the glyph of its entry and the colour that the mode in force
    /// gives it.
    pub fn strokes<F: Fn(i128) -> Turn, G: Fn(i64, i64) -> i64>(
        &self,
        frame: &Frame,
        trig: &F,
        bearing: &G,
    ) -> (strokes: Vec<Stroke>)
        requires
            forall|angle: i128| #[trigger] call_requires(trig, (angle,)),
            forall|x: i64, y: i64| #[trigger] call_requires(bearing, (x, y)),
        ensures
            forall|i: int|
                0 <= i < strokes.len() ==> match frame.shown(
                    (#[trigger] strokes[i]).col as int,
                    strokes[i].row as int,
                ) {
                    Some(entry) => {
                        &&& strokes[i].glyph == entry.glyph
                        &&& colored(
                            self.mode(),
                            entry.input.point,
                            entry.input.depth as int,
                            entry.input.time as int,
                            trig,
                            bearing,
                            strokes[i].color@,
                        )
                    },
                    None => false,
                },
            forall|i: int, j: int|
                0 <= i < j < strokes.len() ==> slot(
                    frame.width() as int,
                    (#[trigger] strokes[i]).col as int,
                    strokes[i].row as int,
                ) < slot(
                    frame.width() as int,
                    (#[trigger] strokes[j]).col as int,
                    strokes[j].row as int,
                ),
            forall|col: int, row: int|
                (#[trigger] frame.shown(col, row)) is Some ==> exists|i: int|
                    0 <= i < strokes.len() && (#[trigger] strokes[i]).col == col && strokes[i].row
                        == row,
    {
        let width: u16 = frame.width();
        let height: u16 = frame.height();
        let mut strokes: Vec<Stroke> = Vec::new();
        let mut row: u16 = 0;
        while row < height
            invariant
                row <= height,
                width == frame.width(),
                height == frame.height(),
                forall|angle: i128| #[trigger] call_requires(trig, (angle,)),
                forall|x: i64, y: i64| #[trigger] call_requires(bearing, (x, y)),
                painted(self, frame, trig, bearing, strokes@, slot(width as int, 0, row as int)),
            decreases height - row,
        {
            let mut col: u16 = 0;
            while col < width
                invariant
                    row < height,
                    col <= width,
                    width == frame.width(),
                    height == frame.height(),
                    forall|angle: i128| #[trigger] call_requires(trig, (angle,)),
                    forall|x: i64, y: i64| #[trigger] call_requires(bearing, (x, y)),
                    painted(
                        self,
                        frame,
                        trig,
                        bearing,
                        strokes@,
                        slot(width as int, col as int, row as int),
                    ),
                decreases width - col,
            {
                let ghost before: Seq<Stroke> = strokes@;
                let ghost here: int = slot(width as int, col as int, row as int);
                match frame.visible(col as usize, row as usize) {
                    Some(entry) => {
                        let color: Rgb = self.get_color(
                            &entry.input.point,
                            entry.input.depth,
                            entry.input.time,
                            trig,
                            bearing,
                        );
                        strokes.push(Stroke { col, row, glyph: entry.glyph, color });
                    },
                    None => {},
                }
                proof {
                    assert forall|c: int, r: int|
                        0 <= c < width && slot(width as int, c, r) < here + 1 && (
                        #[trigger] frame.shown(c, r)) is Some implies exists|i: int|
                        0 <= i < strokes@.len() && (#[trigger] strokes@[i]).col == c
                            && strokes@[i].row == r by {
                        if slot(width as int, c, r) < here {
                            let i: int = choose|i: int|
                                0 <= i < before.len() && (#[trigger] before[i]).col == c
                                    && before[i].row == r;
                            assert(strokes@[i] == before[i]);
                        } else {
                            slot_determines_cell(width as int, c, r, col as int, row as int);
                            assert(strokes@[strokes@.len() - 1].col == c);
                        }
                    }
                }
                col += 1;
            }
            proof {
                assert((row + 1) * width == row * width + width) by (nonlinear_arith);
            }
            row += 1;
        }
        proof {
            assert forall|col: int, row: int| (#[trigger] frame.shown(col, row)) is Some implies exists|
                i: int,
            |
                0 <= i < strokes@.len() && (#[trigger] strokes@[i]).col == col && strokes@[i].row
                    == row by {
                frame.shown_on_display(col, row);
                assert(slot(width as int, col, row) < slot(width as int, 0, height as int))
                    by (nonlinear_arith)
                    requires
                        0 <= col < width,
                        0 <= row < height,
                ;
            }
        }
        strokes
    }

    /// Projects lattice cells onto a display of `width` columns and
    /// `height` rows. On every screen cell the winner of the contest for it
    /// is drawn, and a screen cell for which no lattice cell contends stays
    /// empty.
    pub fn rasterize(&self, cells: &[WaffleCell], width: u16, height: u16, time: i64) -> (frame:
        Frame)
        ensures
            frame.width() == width,
            frame.height() == height,
            forall|col: int, row: int|
                0 <= col < width && 0 <= row < height ==> match #[trigger] frame.at(col, row) {
                    Some(entry) => exists|k: int|
                        wins(cells@, k, width as int, height as int, col, row) && entry
                            == entry_of(cells@[k], time),
                    None => forall|k: int|
                        0 <= k < cells@.len() ==> !contends(
                            #[trigger] cells@[k],
                            width as int,
                            height as int,
                            col,
                            row,
                        ),
                },
    {
        let columns: usize = width as usize;
        let rows: usize = height as usize;
        assert(columns * rows <= 65_535 * 65_535) by (nonlinear_arith)
            requires
                columns <= 65_535,
                rows <= 65_535,
        ;
        let total: usize = columns * rows;
        let mut entries: Vec<Option<Entry>> = Vec::new();
        while entries.len() < total
            invariant
                entries.len() <= total,
                forall|at: int| 0 <= at < entries.len() ==> (#[trigger] entries[at]) is None,
            decreases total - entries.len(),
        {
            entries.push(None);
        }
        let ghost mut leaders: Seq<int> = Seq::new(total as nat, |at: int| -1int);

        // Project 3D points to 2D screen coordinates
        let mut n: usize = 0;
        while n < cells.len()
            invariant
                n <= cells.len(),
                columns == width,
                rows == height,
                total == columns * rows,
                entries.len() == total,
                leaders.len() == total,
                forall|at: int|
                    0 <= at < total ==> settled(
                        cells@,
                        n as int,
                        width as int,
                        height as int,
                        at,
                        #[trigger] leaders[at],
                    ),
                forall|at: int|
                    0 <= at < total ==> #[trigger] entries[at] == if leaders[at] < 0 {
                        None
                    } else {
                        Some(entry_of(cells@[leaders[at]], time))
                    },
            decreases cells.len() - n,
        {
            let cell: WaffleCell = cells[n];
            let ghost before: Seq<int> = leaders;
            if cell.depth > DEPTH_FLOOR {
                match project_point(&cell.point, width, height) {
                    Some((col, row)) => {
                        proof {
                            slot_in_display(width as int, height as int, col as int, row as int);
                        }
                        let at: usize = row * columns + col;
                        // Only draw the point if it's closer than what's already there (z-buffer)
                        let shown: i64 = match entries[at] {
                            Some(entry) => entry.input.depth,
                            None => DEPTH_FLOOR,
                        };
                        if cell.depth > shown {
                            let glyph: char = self.get_char_for_depth(cell.depth, cell.is_edge);
                            entries[at] = Some(
                                Entry {
                                    glyph,
                                    input: ColorInput {
                                        point: cell.point,
                                        depth: cell.depth,
                                        time,
                                    },
                                },
                            );
                            proof {
                                leaders = leaders.update(at as int, n as int);
                            }
                        }
                    },
                    None => {},
                }
            }
            proof {
                assert forall|at: int| 0 <= at < total implies settled(
                    cells@,
                    n + 1,
                    width as int,
                    height as int,
                    at,
                    #[trigger] leaders[at],
                ) by {
                    assert(settled(cells@, n as int, width as int, height as int, at, before[at]));
                }
            }
            n += 1;
        }
        let frame = Frame { width, height, entries };
        proof {
            assert forall|col: int, row: int| 0 <= col < width && 0 <= row < height implies match
                #[trigger] frame.at(col, row) {
                Some(entry) => exists|k: int|
                    wins(cells@, k, width as int, height as int, col, row) && entry == entry_of(
                        cells@[k],
                        time,
                    ),
                None => forall|k: int|
                    0 <= k < cells@.len() ==> !contends(
                        #[trigger] cells@[k],
                        width as int,
                        height as int,
                        col,
                        row,
                    ),
            } by {
                let at: int = slot(width as int, col, row);
                slot_in_display(width as int, height as int, col, row);
                let leader: int = leaders[at];
                assert(settled(cells@, cells@.len() as int, width as int, height as int, at, leader));
                assert forall|j: int| 0 <= j < cells@.len() implies aims(
                    #[trigger] cells@[j],
                    width as int,
                    height as int,
                    at,
                ) == contends(cells@[j], width as int, height as int, col, row) by {
                    aims_is_contends(cells@[j], width as int, height as int, col, row);
                }
                if leader >= 0 {
                    assert(wins(cells@, leader, width as int, height as int, col, row));
                }
            }
        }
        frame
    }

    /// Render the waffle model: its cells are projected onto the display,
    /// and the frame says what to draw on every screen cell.
    pub fn render(&self, term: &Terminal, waffle: &Waffle, time: i64) -> (frame: Frame)
        ensures
            frame.width() == term.width(),
            frame.height() == term.height(),
            forall|col: int, row: int|
                0 <= col < term.width() && 0 <= row < term.height() ==> match #[trigger] frame.at(
                    col,
                    row,
                ) {
                    Some(entry) => exists|k: int|
                        wins(
                            waffle@.cells,
                            k,
                            term.width() as int,
                            term.height() as int,
                            col,
                            row,
                        ) && entry == entry_of(waffle@.cells[k], time),
                    None => forall|k: int|
                        0 <= k < waffle@.cells.len() ==> !contends(
                            #[trigger] waffle@.cells[k],
                            term.width() as int,
                            term.height() as int,
                            col,
                            row,
                        ),
                },
    {
        self.rasterize(waffle.cells(), term.width(), term.height(), time)
    }
}

} // verus!
