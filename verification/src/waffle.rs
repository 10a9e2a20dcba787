//! The lattice: its points, their rotation and the order in which they are
//! handed to the renderer.

use vstd::prelude::*;
use crate::fixed::{round_div, wrap_angle, Turn, LIMIT, ONE, TAU};
use crate::fixed::{angle_after, evaluated, rescale, total, wrap};

verus! {

/// Size options for the waffle.
#[derive(Debug, Clone, Copy, PartialEq, Eq, Structural)]
pub enum Size {
    Small,
    Medium,
    Large,
}

impl Size {
    /// Extent of the lattice along x, in millionths.
    pub open spec fn spec_width(self) -> int {
        match self {
            Size::Small => 5_000_000,
            Size::Medium => 8_000_000,
            Size::Large => 12_000_000,
        }
    }

    /// Extent of the lattice along y, in millionths.
    pub open spec fn spec_height(self) -> int {
        match self {
            Size::Small => 5_000_000,
            Size::Medium => 8_000_000,
            Size::Large => 12_000_000,
        }
    }

    /// Distance between the two faces, in millionths.
    pub open spec fn spec_thickness(self) -> int {
        match self {
            Size::Small => 1_000_000,
            Size::Medium => 1_500_000,
            Size::Large => 2_000_000,
        }
    }

    /// Number of points along each side of a face.
    pub open spec fn spec_grid_size(self) -> int {
        match self {
            Size::Small => 10,
            Size::Medium => 16,
            Size::Large => 24,
        }
    }

    /// Extent of the lattice along x, in millionths.
    pub fn width(self) -> (w: i64)
        ensures
            w == self.spec_width(),
    {
        match self {
            Size::Small => 5 * ONE,
            Size::Medium => 8 * ONE,
            Size::Large => 12 * ONE,
        }
    }

    /// Extent of the lattice along y, in millionths.
    pub fn height(self) -> (h: i64)
        ensures
            h == self.spec_height(),
    {
        match self {
            Size::Small => 5 * ONE,
            Size::Medium => 8 * ONE,
            Size::Large => 12 * ONE,
        }
    }

    /// Distance between the two faces, in millionths.
    pub fn thickness(self) -> (t: i64)
        ensures
            t == self.spec_thickness(),
    {
        match self {
            Size::Small => ONE,
            Size::Medium => ONE + ONE / 2,
            Size::Large => 2 * ONE,
        }
    }

    /// Number of points along each side of a face.
    pub fn grid_size(self) -> (g: usize)
        ensures
            g == self.spec_grid_size(),
    {
        match self {
            Size::Small => 10,
            Size::Medium => 16,
            Size::Large => 24,
        }
    }
}

/// A point of space as the contracts see it: three integers, in millionths,
/// free of any machine bound.
pub struct Coords {
    pub x: int,
    pub y: int,
    pub z: int,
}

/// The first coordinate of a pair turned in its plane:
/// `a cos - b sin`, to the nearest millionth.
pub open spec fn turned_first(a: int, b: int, turn: Turn) -> int {
    rescale(a * turn.cosine() - b * turn.sine())
}

/// The second coordinate of a pair turned in its plane:
/// `a sin + b cos`, to the nearest millionth.
pub open spec fn turned_second(a: int, b: int, turn: Turn) -> int {
    rescale(a * turn.sine() + b * turn.cosine())
}

impl Coords {
    /// Every coordinate is at most `m` in magnitude.
    pub open spec fn within(self, m: int) -> bool {
        &&& -m <= self.x <= m
        &&& -m <= self.y <= m
        &&& -m <= self.z <= m
    }

    /// The point turned about the x axis: x stays, (y, z) turns.
    pub open spec fn rotate_x(self, turn: Turn) -> Coords {
        Coords {
            x: self.x,
            y: turned_first(self.y, self.z, turn),
            z: turned_second(self.y, self.z, turn),
        }
    }

    /// The point turned about the y axis: y stays, (x, z) turns.
    pub open spec fn rotate_y(self, turn: Turn) -> Coords {
        Coords {
            x: turned_first(self.x, self.z, turn),
            y: self.y,
            z: turned_second(self.x, self.z, turn),
        }
    }

    /// The point turned about the z axis: z stays, (x, y) turns.
    pub open spec fn rotate_z(self, turn: Turn) -> Coords {
        Coords {
            x: turned_first(self.x, self.y, turn),
            y: turned_second(self.x, self.y, turn),
            z: self.z,
        }
    }

    /// The point turned about x, then about y, then about z.
    pub open spec fn oriented(self, about_x: Turn, about_y: Turn, about_z: Turn) -> Coords {
        self.rotate_x(about_x).rotate_y(about_y).rotate_z(about_z)
    }
}

/// Turning a pair whose coordinates are at most `m` in magnitude gives
/// coordinates of at most `2 m`.
pub proof fn turned_pair_bounded(a: int, b: int, turn: Turn, m: int)
    requires
        turn.is_unit(),
        -m <= a <= m,
        -m <= b <= m,
    ensures
        -2 * m <= turned_first(a, b, turn) <= 2 * m,
        -2 * m <= turned_second(a, b, turn) <= 2 * m,
{
    crate::fixed::product_between(a, turn.cosine(), m, 1_000_000);
    crate::fixed::product_between(b, turn.sine(), m, 1_000_000);
    crate::fixed::product_between(a, turn.sine(), m, 1_000_000);
    crate::fixed::product_between(b, turn.cosine(), m, 1_000_000);
}

/// Turning by the zero angle moves nothing.
pub proof fn identity_turn_fixes(a: int, b: int, turn: Turn)
    requires
        turn.is_identity(),
    ensures
        turned_first(a, b, turn) == a,
        turned_second(a, b, turn) == b,
{
    assert(a * turn.cosine() == a * 1_000_000);
    assert(b * turn.sine() == 0);
    assert(a * turn.sine() == 0);
    assert(b * turn.cosine() == b * 1_000_000);
}

/// The 3D point in space, each coordinate in millionths.
#[derive(Debug, Clone, Copy, PartialEq, Eq, Structural)]
pub struct Point3D {
    pub x: i64,
    pub y: i64,
    pub z: i64,
}

impl View for Point3D {
    type V = Coords;

    open spec fn view(&self) -> Coords {
        Coords { x: self.x as int, y: self.y as int, z: self.z as int }
    }
}

/// Turns the pair `(a, b)` in its plane.
fn turn_pair(a: i64, b: i64, turn: Turn) -> (r: (i64, i64))
    requires
        -LIMIT <= a <= LIMIT,
        -LIMIT <= b <= LIMIT,
    ensures
        r.0 == turned_first(a as int, b as int, turn),
        r.1 == turned_second(a as int, b as int, turn),
{
    let c: i128 = turn.cos() as i128;
    let s: i128 = turn.sin() as i128;
    let wide_a: i128 = a as i128;
    let wide_b: i128 = b as i128;
    proof {
        let limit: int = 4_000_000_000_000_000_000;
        crate::fixed::product_between(a as int, c as int, limit, 1_000_000);
        crate::fixed::product_between(b as int, s as int, limit, 1_000_000);
        crate::fixed::product_between(a as int, s as int, limit, 1_000_000);
        crate::fixed::product_between(b as int, c as int, limit, 1_000_000);
        turned_pair_bounded(a as int, b as int, turn, limit);
    }
    let first: i128 = round_div(wide_a * c - wide_b * s, ONE as i128);
    let second: i128 = round_div(wide_a * s + wide_b * c, ONE as i128);
    (first as i64, second as i64)
}

impl Point3D {
    /// The point with these coordinates, in millionths.
    pub fn new(x: i64, y: i64, z: i64) -> (p: Point3D)
        ensures
            p.x == x,
            p.y == y,
            p.z == z,
    {
        Point3D { x, y, z }
    }

    /// Rotate the point around the y-axis, by the angle whose sine and
    /// cosine `turn` holds.
    pub fn rotate_y(&mut self, turn: Turn)
        requires
            old(self)@.within(LIMIT as int),
        ensures
            final(self)@ == old(self)@.rotate_y(turn),
    {
        let (x, z): (i64, i64) = turn_pair(self.x, self.z, turn);
        self.x = x;
        self.z = z;
    }

    /// Rotate the point around the x-axis, by the angle whose sine and
    /// cosine `turn` holds.
    pub fn rotate_x(&mut self, turn: Turn)
        requires
            old(self)@.within(LIMIT as int),
        ensures
            final(self)@ == old(self)@.rotate_x(turn),
    {
        let (y, z): (i64, i64) = turn_pair(self.y, self.z, turn);
        self.y = y;
        self.z = z;
    }

    /// Rotate the point around the z-axis, by the angle whose sine and
    /// cosine `turn` holds.
    pub fn rotate_z(&mut self, turn: Turn)
        requires
            old(self)@.within(LIMIT as int),
        ensures
            final(self)@ == old(self)@.rotate_z(turn),
    {
        let (x, y): (i64, i64) = turn_pair(self.x, self.y, turn);
        self.x = x;
        self.y = y;
    }
}

/// Turning about all three axes by the zero angle moves nothing.
pub proof fn identity_orientation_fixes(p: Coords, about_x: Turn, about_y: Turn, about_z: Turn)
    requires
        about_x.is_identity(),
        about_y.is_identity(),
        about_z.is_identity(),
    ensures
        p.oriented(about_x, about_y, about_z) == p,
{
    identity_turn_fixes(p.y, p.z, about_x);
    let q: Coords = p.rotate_x(about_x);
    identity_turn_fixes(q.x, q.z, about_y);
    let r: Coords = q.rotate_y(about_y);
    identity_turn_fixes(r.x, r.y, about_z);
}

/// Turning a point about all three axes at most doubles its largest
/// coordinate three times over.
pub proof fn orientation_bounded(p: Coords, about_x: Turn, about_y: Turn, about_z: Turn, m: int)
    requires
        about_x.is_unit(),
        about_y.is_unit(),
        about_z.is_unit(),
        p.within(m),
    ensures
        p.rotate_x(about_x).within(2 * m),
        p.rotate_x(about_x).rotate_y(about_y).within(4 * m),
        p.oriented(about_x, about_y, about_z).within(8 * m),
{
    turned_pair_bounded(p.y, p.z, about_x, m);
    let q: Coords = p.rotate_x(about_x);
    turned_pair_bounded(q.x, q.z, about_y, 2 * m);
    let r: Coords = q.rotate_y(about_y);
    turned_pair_bounded(r.x, r.y, about_z, 4 * m);
}

/// Number of points on the two faces of a lattice.
pub open spec fn face_points(size: Size) -> int {
    2 * (size.spec_grid_size() * size.spec_grid_size())
}

/// Number of points of a lattice: two faces of `grid x grid` points, four
/// corner struts of five points, and twelve cross-bars of five points.
pub open spec fn cell_count(size: Size) -> nat {
    (face_points(size) + 4 * 5 + 3 * 2 * 2 * 5) as nat
}

/// Coordinate of grid line `i` out of `grid` across an extent centred on
/// zero: `extent * (i / grid - 1/2)`.
pub open spec fn grid_coordinate(extent: int, grid: int, i: int) -> int {
    extent * i / grid - extent / 2
}

/// Height of sample `i` of the five that span the thickness:
/// `thickness * (i / 4 - 1/2)`.
pub open spec fn depth_sample(thickness: int, i: int) -> int {
    thickness * i / 4 - thickness / 2
}

/// Position of cross-bar `i` of the three inside an extent:
/// `i * extent / 4 - extent / 2`.
pub open spec fn bar_position(extent: int, i: int) -> int {
    i * (extent / 4) - extent / 2
}

/// The low (`side == 0`) or high end of an extent centred on zero.
pub open spec fn extreme(extent: int, side: int) -> int {
    if side == 0 {
        -(extent / 2)
    } else {
        extent / 2
    }
}

/// Point `k` of the two faces: the bottom face first, each face row by row.
pub open spec fn face_point(size: Size, k: int) -> Coords {
    let g: int = size.spec_grid_size();
    Coords {
        x: grid_coordinate(size.spec_width(), g, k % g),
        y: grid_coordinate(size.spec_height(), g, (k % (g * g)) / g),
        z: extreme(size.spec_thickness(), k / (g * g)),
    }
}

/// Whether the point at a row and a column of a grid of `grid` by `grid`
/// points lies on the boundary of the grid: in its first or last row, or in
/// its first or last column.
pub open spec fn on_boundary(grid: int, row: int, col: int) -> bool {
    row == 0 || row == grid - 1 || col == 0 || col == grid - 1
}

/// Whether point `k` of the two faces lies on the boundary of its grid.
pub open spec fn face_edge(size: Size, k: int) -> bool {
    let g: int = size.spec_grid_size();
    on_boundary(g, (k % (g * g)) / g, k % g)
}

/// Point `k` of the twenty strut points: the corners in the order
/// (low x, low y), (low x, high y), (high x, low y), (high x, high y), five
/// samples through the thickness at each.
pub open spec fn strut_point(size: Size, k: int) -> Coords {
    Coords {
        x: extreme(size.spec_width(), k / 10),
        y: extreme(size.spec_height(), (k / 5) % 2),
        z: depth_sample(size.spec_thickness(), k % 5),
    }
}

/// Point `k` of the sixty cross-bar points. For each of the three interior
/// positions in turn: a strip at the low and at the high end of the height,
/// then a strip at the low and at the high end of the width, five samples
/// through the thickness in each strip.
pub open spec fn bar_point(size: Size, k: int) -> Coords {
    let position: int = 1 + k / 20;
    let within: int = k % 20;
    if within < 10 {
        Coords {
            x: bar_position(size.spec_width(), position),
            y: extreme(size.spec_height(), within / 5),
            z: depth_sample(size.spec_thickness(), within % 5),
        }
    } else {
        Coords {
            x: extreme(size.spec_width(), (within - 10) / 5),
            y: bar_position(size.spec_height(), position),
            z: depth_sample(size.spec_thickness(), within % 5),
        }
    }
}

/// Reference point `k` of a lattice, in generation order: the faces, the
/// struts, the cross-bars.
pub open spec fn reference_point(size: Size, k: int) -> Coords {
    let faces: int = face_points(size);
    if k < faces {
        face_point(size, k)
    } else if k < faces + 20 {
        strut_point(size, k - faces)
    } else {
        bar_point(size, k - faces - 20)
    }
}

/// Whether reference point `k` is a structural edge: every strut and
/// cross-bar point is, and so are the boundary points of the faces.
pub open spec fn reference_edge(size: Size, k: int) -> bool {
    if k < face_points(size) {
        face_edge(size, k)
    } else {
        true
    }
}

/// Waffle grid cell.
#[derive(Debug, Clone, Copy, PartialEq, Eq, Structural)]
pub struct WaffleCell {
    /// The live, rotated point.
    pub point: Point3D,
    /// The z coordinate of the live point.
    pub depth: i64,
    /// Whether the point belongs to a structural edge.
    pub is_edge: bool,
    /// Index of the reference point that this cell is derived from, for
    /// as long as the lattice lives.
    pub source: usize,
}

/// The cell that sits on reference point number `source` before any
/// rotation.
pub open spec fn resting_cell(point: Point3D, is_edge: bool, source: int) -> WaffleCell {
    WaffleCell { point, depth: point.z, is_edge, source: source as usize }
}

/// The first `k` points of a lattice have been generated, cells and
/// reference points alike.
pub open spec fn generated(size: Size, points: Seq<Point3D>, cells: Seq<WaffleCell>, k: int) -> bool {
    &&& points.len() == k
    &&& cells.len() == k
    &&& forall|i: int| 0 <= i < k ==> (#[trigger] points[i])@ == reference_point(size, i)
    &&& forall|i: int|
        0 <= i < k ==> #[trigger] cells[i] == resting_cell(points[i], reference_edge(size, i), i)
}

/// No two cells are derived from the same reference point.
pub open spec fn distinct_sources(cells: Seq<WaffleCell>) -> bool {
    forall|i: int, j: int|
        0 <= i < j < cells.len() ==> (#[trigger] cells[i]).source != (#[trigger] cells[j]).source
}

/// Whether `a` comes before `b` in render order: the greater depth first,
/// and at equal depth the lower reference index first.
pub open spec fn precedes(a: WaffleCell, b: WaffleCell) -> bool {
    a.depth > b.depth || (a.depth == b.depth && a.source < b.source)
}

/// The cells stand in render order: by descending depth, cells of equal
/// depth by ascending reference index.
pub open spec fn in_render_order(cells: Seq<WaffleCell>) -> bool {
    forall|i: int, j: int|
        0 <= i < j < cells.len() ==> precedes(#[trigger] cells[i], #[trigger] cells[j])
}

/// What a lattice is: its size, its cumulative rotation angles, the sine and
/// cosine last applied about each axis, its cells in render order and its
/// reference points in generation order.
pub struct WaffleView {
    pub size: Size,
    pub rotation: (int, int, int),
    pub turns: (Turn, Turn, Turn),
    pub cells: Seq<WaffleCell>,
    pub reference: Seq<Point3D>,
}

impl WaffleView {
    /// The cell is tied to a reference point of the lattice and carries
    /// that point's edge flag.
    pub open spec fn tied(self, cell: WaffleCell) -> bool {
        &&& cell.source < self.reference.len()
        &&& cell.is_edge == reference_edge(self.size, cell.source as int)
    }

    /// The cell's live point is its reference point under the current
    /// orientation, and its depth is the z coordinate of its live point.
    pub open spec fn live(self, cell: WaffleCell) -> bool {
        &&& cell.point@ == reference_point(self.size, cell.source as int).oriented(
            self.turns.0,
            self.turns.1,
            self.turns.2,
        )
        &&& cell.depth == cell.point.z
    }

    /// The cell is derived from its reference point: tied to it and live.
    pub open spec fn derived(self, cell: WaffleCell) -> bool {
        self.tied(cell) && self.live(cell)
    }

    /// Everything the invariant asks but for the live points: the reference
    /// points are those of the size, there are as many cells as reference
    /// points, every cell is tied to a reference point and no two cells to
    /// the same one, and every angle lies in `[0, TAU)`.
    pub open spec fn anchored(self) -> bool {
        &&& self.turns.0.is_unit()
        &&& self.turns.1.is_unit()
        &&& self.turns.2.is_unit()
        &&& 0 <= self.rotation.0 < TAU
        &&& 0 <= self.rotation.1 < TAU
        &&& 0 <= self.rotation.2 < TAU
        &&& self.reference.len() == cell_count(self.size)
        &&& self.cells.len() == cell_count(self.size)
        &&& forall|k: int|
            0 <= k < self.reference.len() ==> (#[trigger] self.reference[k])@ == reference_point(
                self.size,
                k,
            )
        &&& forall|i: int| 0 <= i < self.cells.len() ==> self.tied(#[trigger] self.cells[i])
        &&& distinct_sources(self.cells)
    }

    /// The invariant of a lattice: it is anchored, and every cell is live.
    /// So each cell is derived from exactly one reference point, whatever
    /// the order of the cells, and its depth is the z coordinate of its
    /// live point.
    pub open spec fn wf(self) -> bool {
        &&& self.anchored()
        &&& forall|i: int| 0 <= i < self.cells.len() ==> self.live(#[trigger] self.cells[i])
    }

    /// The lattice as built: no rotation, and cell `k` resting on reference
    /// point `k`.
    pub open spec fn at_rest(self) -> bool {
        &&& self.rotation == (0int, 0int, 0int)
        &&& self.turns.0.is_identity()
        &&& self.turns.1.is_identity()
        &&& self.turns.2.is_identity()
        &&& generated(self.size, self.reference, self.cells, cell_count(self.size) as int)
    }
}

/// The 3D waffle model.
pub struct Waffle {
    cells: Vec<WaffleCell>,
    size: Size,
    rotation_x: i64,
    rotation_y: i64,
    rotation_z: i64,
    turn_x: Turn,
    turn_y: Turn,
    turn_z: Turn,
    original_points: Vec<Point3D>,
}

impl View for Waffle {
    type V = WaffleView;

    closed spec fn view(&self) -> WaffleView {
        WaffleView {
            size: self.size,
            rotation: (self.rotation_x as int, self.rotation_y as int, self.rotation_z as int),
            turns: (self.turn_x, self.turn_y, self.turn_z),
            cells: self.cells@,
            reference: self.original_points@,
        }
    }
}

/// Every reference point of a lattice lies within six units of the origin
/// on each axis.
pub proof fn reference_point_bounded(size: Size, k: int)
    requires
        0 <= k < cell_count(size),
    ensures
        reference_point(size, k).within(6_000_000),
{
    match size {
        Size::Small => {
            assert(size.spec_grid_size() * size.spec_grid_size() == 100);
        },
        Size::Medium => {
            assert(size.spec_grid_size() * size.spec_grid_size() == 256);
        },
        Size::Large => {
            assert(size.spec_grid_size() * size.spec_grid_size() == 576);
        },
    }
}

/// Every reference point of a lattice has a cell derived from it: the
/// cells and the reference points correspond one to one.
pub proof fn every_reference_point_has_its_cell(view: WaffleView, source: int)
    requires
        view.anchored(),
        0 <= source < view.reference.len(),
    ensures
        exists|i: int| 0 <= i < view.cells.len() && (#[trigger] view.cells[i]).source == source,
{
    let n: int = view.cells.len() as int;
    let sources: Seq<int> = Seq::new(view.cells.len(), |i: int| view.cells[i].source as int);
    assert(sources.no_duplicates()) by {
        assert forall|i: int, j: int|
            0 <= i < sources.len() && 0 <= j < sources.len() && i != j implies sources[i]
            != sources[j] by {
            if i < j {
                assert(view.cells[i].source != view.cells[j].source);
            } else {
                assert(view.cells[j].source != view.cells[i].source);
            }
        }
    }
    sources.unique_seq_to_set();
    let all: Set<int> = vstd::set_lib::set_int_range(0, n);
    vstd::set_lib::lemma_int_range(0, n);
    assert(sources.to_set().subset_of(all)) by {
        assert forall|s: int| sources.to_set().contains(s) implies all.contains(s) by {
            let i: int = choose|i: int| 0 <= i < sources.len() && sources[i] == s;
            assert(view.tied(view.cells[i]));
        }
    }
    vstd::set_lib::lemma_len_subset(sources.to_set(), all);
    vstd::set_lib::lemma_subset_equality(sources.to_set(), all);
    assert(all.contains(source));
    assert(sources.to_set().contains(source));
    let i: int = choose|i: int| 0 <= i < sources.len() && sources[i] == source;
    assert(view.cells[i].source == source);
}

/// Two cells derived from the same reference point of lattices of one
/// size, under one orientation, are the same cell.
pub proof fn same_source_same_cell(a: WaffleView, b: WaffleView, x: WaffleCell, y: WaffleCell)
    requires
        a.size == b.size,
        a.turns == b.turns,
        a.derived(x),
        b.derived(y),
        x.source == y.source,
    ensures
        x == y,
{
    assert(x.point@ == y.point@);
    assert(x.point.x == y.point.x);
    assert(x.point.y == y.point.y);
    assert(x.point.z == y.point.z);
}

/// Two lattices of one size under one orientation, both in render order,
/// agree on their first `upto` cells.
proof fn render_orders_agree(a: WaffleView, b: WaffleView, upto: int)
    requires
        a.wf(),
        b.wf(),
        a.size == b.size,
        a.turns == b.turns,
        in_render_order(a.cells),
        in_render_order(b.cells),
        0 <= upto <= a.cells.len(),
    ensures
        forall|j: int| 0 <= j < upto ==> a.cells[j] == b.cells[j],
    decreases upto,
{
    if upto > 0 {
        let m: int = upto - 1;
        render_orders_agree(a, b, m);
        assert(a.derived(a.cells[m]));
        assert(b.derived(b.cells[m]));
        every_reference_point_has_its_cell(b, a.cells[m].source as int);
        let p: int = choose|p: int|
            0 <= p < b.cells.len() && (#[trigger] b.cells[p]).source == a.cells[m].source;
        assert(b.derived(b.cells[p]));
        same_source_same_cell(a, b, a.cells[m], b.cells[p]);
        every_reference_point_has_its_cell(a, b.cells[m].source as int);
        let q: int = choose|q: int|
            0 <= q < a.cells.len() && (#[trigger] a.cells[q]).source == b.cells[m].source;
        assert(a.derived(a.cells[q]));
        same_source_same_cell(a, b, a.cells[q], b.cells[m]);
        if p < m {
            assert(a.cells[p] == b.cells[p]);
            assert(a.cells[p].source != a.cells[m].source);
        }
        if q < m {
            assert(a.cells[q] == b.cells[q]);
            assert(b.cells[q].source != b.cells[m].source);
        }
        if p > m && q > m {
            assert(precedes(b.cells[m], b.cells[p]));
            assert(precedes(a.cells[m], a.cells[q]));
        }
        if p > m && q == m {
            assert(b.cells[m].source != b.cells[p].source);
        }
    }
}

/// The cells of a lattice and their order are a matter of its size and
/// its orientation alone. So whenever the cumulative angles come back to
/// where they were, and with them their sines and cosines, every live
/// point comes back to where it was, exactly.
pub proof fn same_orientation_same_cells(a: WaffleView, b: WaffleView)
    requires
        a.wf(),
        b.wf(),
        a.size == b.size,
        a.turns == b.turns,
        in_render_order(a.cells),
        in_render_order(b.cells),
    ensures
        a.cells == b.cells,
{
    render_orders_agree(a, b, a.cells.len() as int);
    assert(a.cells =~= b.cells);
}

/// A lattice has as many cells as its size has reference points, whatever
/// rotations it has been through.
pub proof fn cell_count_is_fixed(view: WaffleView)
    requires
        view.wf(),
    ensures
        view.cells.len() == cell_count(view.size),
        view.cells.len() == view.reference.len(),
{
}

/// The depth of every cell of a lattice is the z coordinate of its live
/// point.
pub proof fn depth_is_live_z(view: WaffleView, i: int)
    requires
        view.wf(),
        0 <= i < view.cells.len(),
    ensures
        view.cells[i].depth == view.cells[i].point.z,
{
    assert(view.live(view.cells[i]));
}

/// Under the zero angles every live point is its reference point.
pub proof fn at_zero_angles_live_is_reference(view: WaffleView, i: int)
    requires
        view.wf(),
        view.turns.0.is_identity(),
        view.turns.1.is_identity(),
        view.turns.2.is_identity(),
        0 <= i < view.cells.len(),
    ensures
        view.cells[i].point@ == reference_point(view.size, view.cells[i].source as int),
        view.cells[i].point == view.reference[view.cells[i].source as int],
{
    let cell: WaffleCell = view.cells[i];
    assert(view.live(cell));
    assert(view.tied(cell));
    identity_orientation_fixes(
        reference_point(view.size, cell.source as int),
        view.turns.0,
        view.turns.1,
        view.turns.2,
    );
    let origin: Point3D = view.reference[cell.source as int];
    assert(origin@ == reference_point(view.size, cell.source as int));
    assert(cell.point@ == origin@);
    assert(cell.point.x == origin.x && cell.point.y == origin.y && cell.point.z == origin.z);
}

/// In a face, point number `face * grid^2 + row * grid + col` has that
/// face, row and column.
proof fn face_index_parts(g: int, face: int, row: int, col: int)
    requires
        g > 0,
        0 <= face < 2,
        0 <= row < g,
        0 <= col < g,
    ensures
        ({
            let k: int = face * (g * g) + row * g + col;
            &&& k % g == col
            &&& (k % (g * g)) / g == row
            &&& k / (g * g) == face
            &&& 0 <= k < 2 * (g * g)
        }),
{
    let k: int = face * (g * g) + row * g + col;
    let inner: int = row * g + col;
    assert(0 <= inner < g * g) by (nonlinear_arith)
        requires
            g > 0,
            0 <= row < g,
            0 <= col < g,
            inner == row * g + col,
    ;
    vstd::arithmetic::div_mod::lemma_fundamental_div_mod_converse(k, g * g, face, inner);
    vstd::arithmetic::div_mod::lemma_fundamental_div_mod_converse(inner, g, row, col);
    assert(k == (face * g + row) * g + col) by (nonlinear_arith)
        requires
            k == face * (g * g) + row * g + col,
    ;
    vstd::arithmetic::div_mod::lemma_fundamental_div_mod_converse(k, g, face * g + row, col);
    assert(0 <= face * (g * g) <= g * g) by (nonlinear_arith)
        requires
            0 <= face < 2,
    ;
}

/// Coordinate of grid line `i` out of `grid`.
fn grid_line(extent: i64, grid: usize, i: usize) -> (v: i64)
    requires
        0 < extent <= 12_000_000,
        0 < grid <= 24,
        i < grid,
    ensures
        v == grid_coordinate(extent as int, grid as int, i as int),
{
    assert(0 <= extent * i <= 12_000_000 * 24) by (nonlinear_arith)
        requires
            0 < extent <= 12_000_000,
            0 <= i < 24,
    ;
    extent * (i as i64) / (grid as i64) - extent / 2
}

/// Height of sample `i` of the five through the thickness.
fn thickness_sample(thickness: i64, i: usize) -> (v: i64)
    requires
        0 < thickness <= 2_000_000,
        i < 5,
    ensures
        v == depth_sample(thickness as int, i as int),
{
    assert(0 <= thickness * i <= 2_000_000 * 5) by (nonlinear_arith)
        requires
            0 < thickness <= 2_000_000,
            0 <= i < 5,
    ;
    thickness * (i as i64) / 4 - thickness / 2
}

/// Position of cross-bar `i` of the three inside an extent.
fn bar_line(extent: i64, i: usize) -> (v: i64)
    requires
        0 < extent <= 12_000_000,
        1 <= i < 4,
    ensures
        v == bar_position(extent as int, i as int),
{
    let step: i64 = extent / 4;
    assert(0 <= i * step <= 4 * 3_000_000) by (nonlinear_arith)
        requires
            0 <= step <= 3_000_000,
            1 <= i < 4,
    ;
    (i as i64) * step - extent / 2
}

/// The low (`side == 0`) or high end of an extent.
fn extent_end(extent: i64, side: usize) -> (v: i64)
    requires
        0 < extent <= 12_000_000,
    ensures
        v == extreme(extent as int, side as int),
{
    if side == 0 {
        -(extent / 2)
    } else {
        extent / 2
    }
}

/// Appends one generated point to the reference points and its resting cell
/// to the cells.
fn append_point(
    size: Size,
    cells: &mut Vec<WaffleCell>,
    points: &mut Vec<Point3D>,
    x: i64,
    y: i64,
    z: i64,
    is_edge: bool,
)
    requires
        generated(size, old(points)@, old(cells)@, old(points).len() as int),
        reference_point(size, old(points).len() as int) == (Coords {
            x: x as int,
            y: y as int,
            z: z as int,
        }),
        reference_edge(size, old(points).len() as int) == is_edge,
    ensures
        generated(size, final(points)@, final(cells)@, old(points).len() + 1),
{
    let source: usize = points.len();
    let point: Point3D = Point3D::new(x, y, z);
    points.push(point);
    cells.push(WaffleCell { point, depth: point.z, is_edge, source });
}

/// Appends the two faces: the bottom one, then the top one, each a grid of
/// points generated row by row.
fn append_faces(size: Size, cells: &mut Vec<WaffleCell>, points: &mut Vec<Point3D>)
    requires
        generated(size, old(points)@, old(cells)@, 0),
    ensures
        generated(size, final(points)@, final(cells)@, face_points(size)),
{
    let width: i64 = size.width();
    let height: i64 = size.height();
    let thickness: i64 = size.thickness();
    let grid: usize = size.grid_size();
    let face_len: usize = grid * grid;

    let mut face: usize = 0;
    while face < 2
        invariant
            face <= 2,
            width == size.spec_width(),
            height == size.spec_height(),
            thickness == size.spec_thickness(),
            grid == size.spec_grid_size(),
            face_len == grid * grid,
            generated(size, points@, cells@, face * face_len),
        decreases 2 - face,
    {
        let z: i64 = extent_end(thickness, face);
        let mut row: usize = 0;
        while row < grid
            invariant
                face < 2,
                row <= grid,
                width == size.spec_width(),
                height == size.spec_height(),
                thickness == size.spec_thickness(),
                grid == size.spec_grid_size(),
                face_len == grid * grid,
                z == extreme(thickness as int, face as int),
                generated(size, points@, cells@, face * face_len + row * grid),
            decreases grid - row,
        {
            let y: i64 = grid_line(height, grid, row);
            let mut col: usize = 0;
            while col < grid
                invariant
                    face < 2,
                    row < grid,
                    col <= grid,
                    width == size.spec_width(),
                    height == size.spec_height(),
                    thickness == size.spec_thickness(),
                    grid == size.spec_grid_size(),
                    face_len == grid * grid,
                    z == extreme(thickness as int, face as int),
                    y == grid_coordinate(height as int, grid as int, row as int),
                    generated(size, points@, cells@, face * face_len + row * grid + col),
                decreases grid - col,
            {
                let x: i64 = grid_line(width, grid, col);
                let is_edge: bool = row == 0 || row == grid - 1 || col == 0 || col == grid - 1;
                proof {
                    face_index_parts(grid as int, face as int, row as int, col as int);
                }
                append_point(size, cells, points, x, y, z, is_edge);
                col += 1;
            }
            proof {
                assert((row + 1) * grid == row * grid + grid) by (nonlinear_arith);
            }
            row += 1;
        }
        proof {
            assert((face + 1) * face_len == face * face_len + grid * grid) by (nonlinear_arith)
                requires
                    face_len == grid * grid,
            ;
        }
        face += 1;
    }
}

/// Appends the four corner struts: at each corner five points through the
/// thickness, all of them edges.
fn append_struts(size: Size, cells: &mut Vec<WaffleCell>, points: &mut Vec<Point3D>)
    requires
        generated(size, old(points)@, old(cells)@, face_points(size)),
    ensures
        generated(size, final(points)@, final(cells)@, face_points(size) + 20),
{
    let width: i64 = size.width();
    let height: i64 = size.height();
    let thickness: i64 = size.thickness();
    let ghost faces: int = face_points(size);

    let mut side_x: usize = 0;
    while side_x < 2
        invariant
            side_x <= 2,
            width == size.spec_width(),
            height == size.spec_height(),
            thickness == size.spec_thickness(),
            faces == face_points(size),
            generated(size, points@, cells@, faces + side_x * 10),
        decreases 2 - side_x,
    {
        let x: i64 = extent_end(width, side_x);
        let mut side_y: usize = 0;
        while side_y < 2
            invariant
                side_x < 2,
                side_y <= 2,
                width == size.spec_width(),
                height == size.spec_height(),
                thickness == size.spec_thickness(),
                faces == face_points(size),
                x == extreme(width as int, side_x as int),
                generated(size, points@, cells@, faces + side_x * 10 + side_y * 5),
            decreases 2 - side_y,
        {
            let y: i64 = extent_end(height, side_y);
            let mut level: usize = 0;
            while level < 5
                invariant
                    side_x < 2,
                    side_y < 2,
                    level <= 5,
                    width == size.spec_width(),
                    height == size.spec_height(),
                    thickness == size.spec_thickness(),
                    faces == face_points(size),
                    x == extreme(width as int, side_x as int),
                    y == extreme(height as int, side_y as int),
                    generated(size, points@, cells@, faces + side_x * 10 + side_y * 5 + level),
                decreases 5 - level,
            {
                let z: i64 = thickness_sample(thickness, level);
                append_point(size, cells, points, x, y, z, true);
                level += 1;
            }
            side_y += 1;
        }
        side_x += 1;
    }
}

/// Appends one strip of a cross-bar: five points through the thickness at
/// one place, all of them edges. `base` points have been generated, and
/// the strip runs from cross-bar point number `first`.
fn append_strip(
    size: Size,
    cells: &mut Vec<WaffleCell>,
    points: &mut Vec<Point3D>,
    x: i64,
    y: i64,
    Ghost(first): Ghost<int>,
)
    requires
        0 <= first,
        first + 5 <= 60,
        first % 5 == 0,
        generated(size, old(points)@, old(cells)@, face_points(size) + 20 + first),
        forall|level: int|
            0 <= level < 5 ==> {
                &&& (#[trigger] bar_point(size, first + level)).x == x
                &&& bar_point(size, first + level).y == y
            },
    ensures
        generated(size, final(points)@, final(cells)@, face_points(size) + 20 + first + 5),
{
    let thickness: i64 = size.thickness();
    let mut level: usize = 0;
    while level < 5
        invariant
            level <= 5,
            0 <= first,
            first + 5 <= 60,
            first % 5 == 0,
            thickness == size.spec_thickness(),
            forall|level: int|
                0 <= level < 5 ==> {
                    &&& (#[trigger] bar_point(size, first + level)).x == x
                    &&& bar_point(size, first + level).y == y
                },
            generated(size, points@, cells@, face_points(size) + 20 + first + level),
        decreases 5 - level,
    {
        let z: i64 = thickness_sample(thickness, level);
        proof {
            let point: Coords = bar_point(size, first + level);
            assert(point.x == x && point.y == y);
            assert(point.z == depth_sample(thickness as int, level as int));
        }
        append_point(size, cells, points, x, y, z, true);
        level += 1;
    }
}

/// Appends the cross-bars. At each of the three interior positions: a strip
/// at the low and at the high end of the height, then a strip at the low
/// and at the high end of the width.
fn append_bars(size: Size, cells: &mut Vec<WaffleCell>, points: &mut Vec<Point3D>)
    requires
        generated(size, old(points)@, old(cells)@, face_points(size) + 20),
    ensures
        generated(size, final(points)@, final(cells)@, face_points(size) + 80),
{
    let width: i64 = size.width();
    let height: i64 = size.height();

    let mut position: usize = 1;
    while position < 4
        invariant
            1 <= position <= 4,
            width == size.spec_width(),
            height == size.spec_height(),
            generated(size, points@, cells@, face_points(size) + 20 + (position - 1) * 20),
        decreases 4 - position,
    {
        let along_x: i64 = bar_line(width, position);
        let along_y: i64 = bar_line(height, position);
        let ghost first: int = (position - 1) * 20;

        // Horizontal lines
        append_strip(size, cells, points, along_x, extent_end(height, 0), Ghost(first));
        append_strip(size, cells, points, along_x, extent_end(height, 1), Ghost(first + 5));

        // Vertical lines
        append_strip(size, cells, points, extent_end(width, 0), along_y, Ghost(first + 10));
        append_strip(size, cells, points, extent_end(width, 1), along_y, Ghost(first + 15));

        position += 1;
    }
}

/// Whether `a` comes before `b` in render order.
fn comes_before(a: &WaffleCell, b: &WaffleCell) -> (r: bool)
    ensures
        r == precedes(*a, *b),
{
    a.depth > b.depth || (a.depth == b.depth && a.source < b.source)
}

/// Puts the cells in render order, moving whole cells only.
fn sort_cells(cells: &mut Vec<WaffleCell>, Ghost(model): Ghost<WaffleView>)
    requires
        distinct_sources(old(cells)@),
        forall|i: int| 0 <= i < old(cells).len() ==> model.derived(#[trigger] old(cells)[i]),
    ensures
        final(cells).len() == old(cells).len(),
        distinct_sources(final(cells)@),
        forall|i: int| 0 <= i < final(cells).len() ==> model.derived(#[trigger] final(cells)[i]),
        in_render_order(final(cells)@),
{
    let n: usize = cells.len();
    let mut sorted: usize = 0;
    while sorted < n
        invariant
            sorted <= n,
            cells.len() == n,
            distinct_sources(cells@),
            forall|i: int| 0 <= i < n ==> model.derived(#[trigger] cells[i]),
            forall|i: int, j: int|
                0 <= i < j < sorted ==> precedes(#[trigger] cells[i], #[trigger] cells[j]),
        decreases n - sorted,
    {
        let mut slot: usize = sorted;
        while slot > 0 && comes_before(&cells[slot], &cells[slot - 1])
            invariant
                slot <= sorted < n,
                cells.len() == n,
                distinct_sources(cells@),
                forall|i: int| 0 <= i < n ==> model.derived(#[trigger] cells[i]),
                forall|i: int, j: int|
                    0 <= i < j <= sorted && i != slot && j != slot ==> precedes(
                        #[trigger] cells[i],
                        #[trigger] cells[j],
                    ),
                forall|j: int| slot < j <= sorted ==> precedes(cells[slot as int], #[trigger] cells[j]),
            decreases slot,
        {
            let lower: WaffleCell = cells[slot - 1];
            let upper: WaffleCell = cells[slot];
            cells[slot - 1] = upper;
            cells[slot] = lower;
            slot -= 1;
        }
        sorted += 1;
    }
}

/// What `rotate` makes of a lattice: `after` is `before` rotated by the
/// increments `step`, with the sines and cosines that `trig` gave at the
/// new angles.
pub open spec fn rotated_by<F: Fn(i128) -> Turn>(
    trig: &F,
    before: WaffleView,
    after: WaffleView,
    step: (int, int, int),
) -> bool {
    &&& after.wf()
    &&& after.size == before.size
    &&& after.reference == before.reference
    &&& after.cells.len() == before.cells.len()
    &&& after.rotation == (
        wrap(before.rotation.0 + step.0),
        wrap(before.rotation.1 + step.1),
        wrap(before.rotation.2 + step.2),
    )
    &&& evaluated(trig, after.rotation, after.turns)
    &&& in_render_order(after.cells)
}

/// `trig` gives the sine zero and the cosine one at the angle zero.
pub open spec fn exact_at_zero<F: Fn(i128) -> Turn>(trig: &F) -> bool {
    forall|turn: Turn| #[trigger] call_ensures(trig, (0i128,), turn) ==> turn.is_identity()
}

/// The increments about the x axis of a sequence of steps.
pub open spec fn about_x(steps: Seq<(int, int, int)>) -> Seq<int> {
    Seq::new(steps.len(), |i: int| steps[i].0)
}

/// The increments about the y axis of a sequence of steps.
pub open spec fn about_y(steps: Seq<(int, int, int)>) -> Seq<int> {
    Seq::new(steps.len(), |i: int| steps[i].1)
}

/// The increments about the z axis of a sequence of steps.
pub open spec fn about_z(steps: Seq<(int, int, int)>) -> Seq<int> {
    Seq::new(steps.len(), |i: int| steps[i].2)
}

/// A lattice is built and then rotated once for each of `steps`;
/// `states` holds it as built and after each rotation.
pub open spec fn rotated_in_turn<F: Fn(i128) -> Turn>(
    trig: &F,
    states: Seq<WaffleView>,
    steps: Seq<(int, int, int)>,
) -> bool {
    &&& states.len() == steps.len() + 1
    &&& states[0].wf()
    &&& states[0].at_rest()
    &&& forall|i: int|
        0 <= i < steps.len() ==> rotated_by(trig, #[trigger] states[i], states[i + 1], steps[i])
}

/// After the first `upto` rotations the lattice has the size and the
/// reference points that it was built with, and about each axis the
/// angle that the increments so far add up to, reduced as they were made.
proof fn angles_follow_the_steps<F: Fn(i128) -> Turn>(
    trig: &F,
    states: Seq<WaffleView>,
    steps: Seq<(int, int, int)>,
    upto: int,
)
    requires
        rotated_in_turn(trig, states, steps),
        0 <= upto <= steps.len(),
    ensures
        states[upto].wf(),
        states[upto].size == states[0].size,
        states[upto].reference == states[0].reference,
        states[upto].cells.len() == states[0].cells.len(),
        states[upto].rotation.0 == angle_after(0, about_x(steps).take(upto)),
        states[upto].rotation.1 == angle_after(0, about_y(steps).take(upto)),
        states[upto].rotation.2 == angle_after(0, about_z(steps).take(upto)),
    decreases upto,
{
    if upto > 0 {
        let before: int = upto - 1;
        angles_follow_the_steps(trig, states, steps, before);
        assert(rotated_by(trig, states[before], states[before + 1], steps[before]));
        assert(about_x(steps).take(upto).drop_last() =~= about_x(steps).take(before));
        assert(about_y(steps).take(upto).drop_last() =~= about_y(steps).take(before));
        assert(about_z(steps).take(upto).drop_last() =~= about_z(steps).take(before));
        assert(about_x(steps).take(upto).last() == steps[before].0);
        assert(about_y(steps).take(upto).last() == steps[before].1);
        assert(about_z(steps).take(upto).last() == steps[before].2);
    }
}

/// Rotation is periodic. A lattice is built and rotated any number of
/// times, and about each axis the increments add up to a whole number of
/// turns. Then every angle is back at zero, and every cell's live point
/// and depth are those that the cell of the same reference point had when
/// the lattice was built, exactly. This is so for every `trig` that gives
/// the sine zero and the cosine one at the angle zero.
pub proof fn whole_turns_restore_the_lattice<F: Fn(i128) -> Turn>(
    trig: &F,
    states: Seq<WaffleView>,
    steps: Seq<(int, int, int)>,
    turns: (int, int, int),
)
    requires
        rotated_in_turn(trig, states, steps),
        total(about_x(steps)) == turns.0 * TAU,
        total(about_y(steps)) == turns.1 * TAU,
        total(about_z(steps)) == turns.2 * TAU,
        exact_at_zero(trig),
    ensures
        states.last().rotation == (0int, 0int, 0int),
        states.last().cells.len() == states[0].cells.len(),
        forall|c: int|
            0 <= c < states.last().cells.len() ==> {
                &&& (#[trigger] states.last().cells[c]).source < states[0].cells.len()
                &&& states.last().cells[c].point == states[0].cells[states.last().cells[c].source as int].point
                &&& states.last().cells[c].depth == states[0].cells[states.last().cells[c].source as int].depth
            },
{
    let n: int = steps.len() as int;
    let first: WaffleView = states[0];
    let last: WaffleView = states.last();
    angles_follow_the_steps(trig, states, steps, n);
    assert(about_x(steps).take(n) =~= about_x(steps));
    assert(about_y(steps).take(n) =~= about_y(steps));
    assert(about_z(steps).take(n) =~= about_z(steps));
    crate::fixed::whole_turns_bring_the_angle_back(0, about_x(steps), turns.0);
    crate::fixed::whole_turns_bring_the_angle_back(0, about_y(steps), turns.1);
    crate::fixed::whole_turns_bring_the_angle_back(0, about_z(steps), turns.2);
    if n > 0 {
        assert(rotated_by(trig, states[n - 1], states[n - 1 + 1], steps[n - 1]));
        assert(evaluated(trig, last.rotation, last.turns));
        assert(call_ensures(trig, (0i128,), last.turns.0));
        assert(call_ensures(trig, (0i128,), last.turns.1));
        assert(call_ensures(trig, (0i128,), last.turns.2));
    }
    assert forall|c: int| 0 <= c < last.cells.len() implies {
        &&& (#[trigger] last.cells[c]).source < first.cells.len()
        &&& last.cells[c].point == first.cells[last.cells[c].source as int].point
        &&& last.cells[c].depth == first.cells[last.cells[c].source as int].depth
    } by {
        let cell: WaffleCell = last.cells[c];
        let source: int = cell.source as int;
        assert(last.tied(cell));
        at_zero_angles_live_is_reference(last, c);
        depth_is_live_z(last, c);
        let origin: WaffleCell = first.cells[source];
        assert(origin == resting_cell(
            first.reference[source],
            reference_edge(first.size, source),
            source,
        ));
        assert(first.reference[source] == last.reference[source]);
    }
}

impl Waffle {
    /// Whether the lattice satisfies its invariant.
    pub open spec fn wf(&self) -> bool {
        self@.wf()
    }

    /// Builds the lattice of a size, at rest.
    pub fn new(size: Size) -> (w: Waffle)
        ensures
            w.wf(),
            w@.size == size,
            w@.at_rest(),
    {
        // Create the basic waffle grid
        let mut cells: Vec<WaffleCell> = Vec::new();
        let mut original_points: Vec<Point3D> = Vec::new();

        // Create top and bottom grids
        append_faces(size, &mut cells, &mut original_points);

        // Create the vertical connections between top and bottom
        append_struts(size, &mut cells, &mut original_points);

        // Create the waffle grid lines
        append_bars(size, &mut cells, &mut original_points);

        let w = Waffle {
            cells,
            size,
            rotation_x: 0,
            rotation_y: 0,
            rotation_z: 0,
            turn_x: Turn::identity(),
            turn_y: Turn::identity(),
            turn_z: Turn::identity(),
            original_points,
        };
        proof {
            assert forall|i: int| 0 <= i < w@.cells.len() implies w@.live(
                #[trigger] w@.cells[i],
            ) by {
                identity_orientation_fixes(
                    reference_point(size, i),
                    w@.turns.0,
                    w@.turns.1,
                    w@.turns.2,
                );
            }
        }
        w
    }

    /// Get a reference to all waffle cells, in render order.
    pub fn cells(&self) -> (cells: &[WaffleCell])
        ensures
            cells@ == self@.cells,
    {
        self.cells.as_slice()
    }

    /// The reference points, in generation order. They never change.
    pub fn reference_points(&self) -> (points: &[Point3D])
        ensures
            points@ == self@.reference,
    {
        self.original_points.as_slice()
    }

    /// Get the current size.
    pub fn size(&self) -> (size: Size)
        ensures
            size == self@.size,
    {
        self.size
    }

    /// Get current rotation values: the cumulative angle about each axis,
    /// in millionths of a radian.
    pub fn rotation(&self) -> (angles: (i64, i64, i64))
        ensures
            angles.0 == self@.rotation.0,
            angles.1 == self@.rotation.1,
            angles.2 == self@.rotation.2,
    {
        (self.rotation_x, self.rotation_y, self.rotation_z)
    }

    /// The angles that `rotate` stores for these increments: each sum
    /// reduced into one turn.
    pub fn rotation_after(&self, dx: i64, dy: i64, dz: i64) -> (angles: (i64, i64, i64))
        ensures
            angles.0 == wrap(self@.rotation.0 + dx),
            angles.1 == wrap(self@.rotation.1 + dy),
            angles.2 == wrap(self@.rotation.2 + dz),
    {
        (
            wrap_angle(self.rotation_x as i128 + dx as i128),
            wrap_angle(self.rotation_y as i128 + dy as i128),
            wrap_angle(self.rotation_z as i128 + dz as i128),
        )
    }

    /// Sets the cumulative angles, each reduced into one turn, together
    /// with their sines and cosines, and recomputes every live point from
    /// its reference point. `about_x`, `about_y` and `about_z` are the sine
    /// and cosine of the three angles.
    pub fn orient(
        &mut self,
        x: i64,
        y: i64,
        z: i64,
        about_x: Turn,
        about_y: Turn,
        about_z: Turn,
    )
        requires
            old(self).wf(),
        ensures
            final(self).wf(),
            final(self)@.size == old(self)@.size,
            final(self)@.reference == old(self)@.reference,
            final(self)@.cells.len() == old(self)@.cells.len(),
            final(self)@.rotation == (wrap(x as int), wrap(y as int), wrap(z as int)),
            final(self)@.turns == (about_x, about_y, about_z),
            in_render_order(final(self)@.cells),
    {
        proof {
            use_type_invariant(&about_x);
            use_type_invariant(&about_y);
            use_type_invariant(&about_z);
        }
        self.rotation_x = wrap_angle(x as i128);
        self.rotation_y = wrap_angle(y as i128);
        self.rotation_z = wrap_angle(z as i128);
        self.turn_x = about_x;
        self.turn_y = about_y;
        self.turn_z = about_z;
        self.update_points();
    }

    /// Set the rotation angles, each reduced into one turn, and recompute
    /// every live point. The sine and cosine of each reduced angle are
    /// asked of `trig`.
    pub fn set_rotation<F: Fn(i128) -> Turn>(&mut self, x: i64, y: i64, z: i64, trig: &F)
        requires
            old(self).wf(),
            forall|angle: i128| #[trigger] call_requires(trig, (angle,)),
        ensures
            final(self).wf(),
            final(self)@.size == old(self)@.size,
            final(self)@.reference == old(self)@.reference,
            final(self)@.cells.len() == old(self)@.cells.len(),
            final(self)@.rotation == (wrap(x as int), wrap(y as int), wrap(z as int)),
            evaluated(trig, final(self)@.rotation, final(self)@.turns),
            in_render_order(final(self)@.cells),
    {
        let ax: i64 = wrap_angle(x as i128);
        let ay: i64 = wrap_angle(y as i128);
        let az: i64 = wrap_angle(z as i128);
        let about_x: Turn = trig(ax as i128);
        let about_y: Turn = trig(ay as i128);
        let about_z: Turn = trig(az as i128);
        proof {
            crate::fixed::wrap_of_reduced(ax as int);
            crate::fixed::wrap_of_reduced(ay as int);
            crate::fixed::wrap_of_reduced(az as int);
        }
        self.orient(ax, ay, az, about_x, about_y, about_z);
    }

    /// Update all points based on current rotation: every live point is
    /// recomputed from its own reference point, turned about x, then y,
    /// then z; then the cells are put in render order.
    fn update_points(&mut self)
        requires
            old(self)@.anchored(),
        ensures
            final(self).wf(),
            final(self)@.size == old(self)@.size,
            final(self)@.reference == old(self)@.reference,
            final(self)@.rotation == old(self)@.rotation,
            final(self)@.turns == old(self)@.turns,
            in_render_order(final(self)@.cells),
    {
        let about_x: Turn = self.turn_x;
        let about_y: Turn = self.turn_y;
        let about_z: Turn = self.turn_z;
        let n: usize = self.cells.len();
        let mut i: usize = 0;
        while i < n
            invariant
                i <= n,
                n == self.cells.len(),
                self@.anchored(),
                self@.size == old(self)@.size,
                self@.reference == old(self)@.reference,
                self@.rotation == old(self)@.rotation,
                self@.turns == old(self)@.turns,
                self@.turns == (about_x, about_y, about_z),
                forall|k: int| 0 <= k < i ==> self@.live(#[trigger] self.cells[k]),
            decreases n - i,
        {
            let cell: WaffleCell = self.cells[i];
            let mut point: Point3D = self.original_points[cell.source];
            proof {
                reference_point_bounded(self.size, cell.source as int);
                orientation_bounded(point@, about_x, about_y, about_z, 6_000_000);
            }
            // Apply rotations
            point.rotate_x(about_x);
            point.rotate_y(about_y);
            point.rotate_z(about_z);

            // Update the cell
            self.cells[i] = WaffleCell {
                point,
                depth: point.z,
                is_edge: cell.is_edge,
                source: cell.source,
            };
            i += 1;
        }

        // Sort cells by z-value for proper rendering (back-to-front)
        let ghost model: WaffleView = self@;
        sort_cells(&mut self.cells, Ghost(model));
    }

    /// Update waffle rotation by increment. The increments are added to
    /// the cumulative angles, each sum reduced into one turn, and every
    /// live point is recomputed from its reference point. The sine and
    /// cosine of each new angle are asked of `trig`.
    pub fn rotate<F: Fn(i128) -> Turn>(&mut self, dx: i64, dy: i64, dz: i64, trig: &F)
        requires
            old(self).wf(),
            forall|angle: i128| #[trigger] call_requires(trig, (angle,)),
        ensures
            final(self).wf(),
            final(self)@.size == old(self)@.size,
            final(self)@.reference == old(self)@.reference,
            final(self)@.cells.len() == old(self)@.cells.len(),
            final(self)@.rotation == (
                wrap(old(self)@.rotation.0 + dx),
                wrap(old(self)@.rotation.1 + dy),
                wrap(old(self)@.rotation.2 + dz),
            ),
            evaluated(trig, final(self)@.rotation, final(self)@.turns),
            in_render_order(final(self)@.cells),
            rotated_by(trig, old(self)@, final(self)@, (dx as int, dy as int, dz as int)),
    {
        let (ax, ay, az): (i64, i64, i64) = self.rotation_after(dx, dy, dz);
        let about_x: Turn = trig(ax as i128);
        let about_y: Turn = trig(ay as i128);
        let about_z: Turn = trig(az as i128);
        proof {
            crate::fixed::wrap_of_reduced(ax as int);
            crate::fixed::wrap_of_reduced(ay as int);
            crate::fixed::wrap_of_reduced(az as int);
        }
        self.orient(ax, ay, az, about_x, about_y, about_z);
    }
}

} // verus!
