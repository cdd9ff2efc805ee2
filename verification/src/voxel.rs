//! The voxel spatial index.
//!
//! A [`VoxelGrid`] buckets 3D points into cubic cells of a fixed edge
//! length and keeps, per occupied cell, an exact running color average
//! (as per-channel sums together with a sample count) and the cell's
//! world-space center. Cell indices are derived by floor division of
//! each coordinate by the edge length, so points with negative
//! coordinates land in the correct cell.

use crate::scalar::{floor_div, Scalar};
use vstd::arithmetic::div_mod::{lemma_div_is_ordered, lemma_div_multiples_vanish};
use vstd::prelude::*;

verus! {

/// Bound on the numerator and denominator of the voxel edge length.
pub const SIZE_BOUND: i128 = 0x100000;

/// Bound on the magnitude of each cell index component.
pub const INDEX_BOUND: i128 = 0x40000000000000000000000;

/// Bound on the magnitude of a point coordinate's numerator.
pub const POS_NUM_BOUND: i128 = 0x40000000000000000000000;

/// Bound on a point coordinate's denominator.
pub const POS_DEN_BOUND: i128 = 0x400000000000000000;

/// Bound on the magnitude of a point coordinate's value.
pub const POS_VALUE_BOUND: i128 = 0x400000000000000000;

/// The integer 3-tuple naming a cubic cell of a grid.
#[derive(Clone, Copy, Debug, PartialEq, Eq, Structural)]
pub struct VoxelIndex {
    pub x: i128,
    pub y: i128,
    pub z: i128,
}

/// A 3D vector of exact rational components.
#[derive(Clone, Copy, Debug, PartialEq, Eq, Structural)]
pub struct Vector3 {
    pub x: Scalar,
    pub y: Scalar,
    pub z: Scalar,
}

/// An 8-bit color sample; channel `c` denotes the value `c / 255`.
#[derive(Clone, Copy, Debug, PartialEq, Eq, Structural)]
pub struct Color {
    pub r: u8,
    pub g: u8,
    pub b: u8,
}

/// Exact per-channel sums of the color samples merged into a voxel.
#[derive(Clone, Copy, Debug, PartialEq, Eq, Structural)]
pub struct ColorSum {
    pub r: u128,
    pub g: u128,
    pub b: u128,
}

/// One occupied cell: its index, its world-space center, the exact
/// sums of the colors merged into it, the number of merged samples,
/// and an optional normal filled in by [`VoxelGrid::compute_normal`].
#[derive(Clone, Copy, Debug, PartialEq, Eq)]
pub struct Voxel {
    pub index: VoxelIndex,
    pub position: Vector3,
    pub color_sum: ColorSum,
    pub count: u64,
    pub normal: Option<Vector3>,
}

/// A spatial hash from cell indices to voxels: a sequence of voxels
/// with pairwise distinct indices, a fixed edge length, and the number
/// of points merged so far.
#[derive(Clone, Debug, PartialEq)]
pub struct VoxelGrid {
    pub voxels: Vec<Voxel>,
    pub size: Scalar,
    pub total: u64,
}

impl Vector3 {
    pub open spec fn wf(self) -> bool {
        self.x.wf() && self.y.wf() && self.z.wf()
    }
}

/// An admissible voxel edge length: positive, with modest numerator
/// and denominator.
pub open spec fn size_ok(s: Scalar) -> bool {
    1 <= s.num <= SIZE_BOUND && 1 <= s.den <= SIZE_BOUND
}

/// An admissible point coordinate: bounded representation and value,
/// so that cell indexing and center computation stay in range.
pub open spec fn coord_ok(c: Scalar) -> bool {
    &&& 1 <= c.den <= POS_DEN_BOUND
    &&& -POS_NUM_BOUND <= c.num <= POS_NUM_BOUND
    &&& -c.den * POS_VALUE_BOUND <= c.num <= c.den * POS_VALUE_BOUND
}

/// An admissible point position.
pub open spec fn pos_ok(p: Vector3) -> bool {
    coord_ok(p.x) && coord_ok(p.y) && coord_ok(p.z)
}

pub open spec fn index_ok(idx: VoxelIndex) -> bool {
    &&& -INDEX_BOUND <= idx.x <= INDEX_BOUND
    &&& -INDEX_BOUND <= idx.y <= INDEX_BOUND
    &&& -INDEX_BOUND <= idx.z <= INDEX_BOUND
}

/// The cell coordinate of `c` for edge length `s`: the floor of
/// `c / s`, computed exactly on the rational representations.
pub open spec fn spec_cell_coord(c: Scalar, s: Scalar) -> int {
    (c.num * s.den) / (c.den * s.num)
}

/// The cell index of position `p` for edge length `s`.
pub open spec fn spec_cell_index(p: Vector3, s: Scalar) -> VoxelIndex {
    VoxelIndex {
        x: spec_cell_coord(p.x, s) as i128,
        y: spec_cell_coord(p.y, s) as i128,
        z: spec_cell_coord(p.z, s) as i128,
    }
}

/// The world-space center of cell coordinate `i`: `(i + 1/2) * s`.
pub open spec fn spec_center_coord(i: int, s: Scalar) -> Scalar {
    Scalar { num: ((2 * i + 1) * s.num) as i128, den: (2 * s.den) as i128 }
}

/// The world-space center of the cell named by `idx`.
pub open spec fn spec_center(idx: VoxelIndex, s: Scalar) -> Vector3 {
    Vector3 {
        x: spec_center_coord(idx.x as int, s),
        y: spec_center_coord(idx.y as int, s),
        z: spec_center_coord(idx.z as int, s),
    }
}

/// The voxel created when a point with color `c` first lands in the
/// cell named by `idx`.
pub open spec fn spec_new_voxel(idx: VoxelIndex, c: Color, s: Scalar) -> Voxel {
    Voxel {
        index: idx,
        position: spec_center(idx, s),
        color_sum: ColorSum { r: c.r as u128, g: c.g as u128, b: c.b as u128 },
        count: 1,
        normal: None,
    }
}

/// The voxel `v` after one more sample of color `c` is merged into it:
/// the channel sums grow by the sample and the count by one, which is
/// exactly the running-average update on the mean `sum / (255 * count)`.
pub open spec fn spec_update_voxel(v: Voxel, c: Color) -> Voxel {
    Voxel {
        color_sum: ColorSum {
            r: (v.color_sum.r + c.r) as u128,
            g: (v.color_sum.g + c.g) as u128,
            b: (v.color_sum.b + c.b) as u128,
        },
        count: (v.count + 1) as u64,
        ..v
    }
}

/// Some voxel of `voxels` occupies the cell named by `idx`.
pub open spec fn occupied(voxels: Seq<Voxel>, idx: VoxelIndex) -> bool {
    exists|j: int| 0 <= j < voxels.len() && voxels[j].index == idx
}

/// The voxel sequence after merging one point: if the point's cell is
/// occupied its voxel is updated in place, otherwise a fresh voxel is
/// appended.
pub open spec fn spec_add_point(voxels: Seq<Voxel>, s: Scalar, p: Vector3, c: Color) -> Seq<
    Voxel,
> {
    let idx = spec_cell_index(p, s);
    if occupied(voxels, idx) {
        let j = choose|j: int| 0 <= j < voxels.len() && voxels[j].index == idx;
        voxels.update(j, spec_update_voxel(voxels[j], c))
    } else {
        voxels.push(spec_new_voxel(idx, c, s))
    }
}

impl Voxel {
    /// Well-formed for a grid of edge length `s` holding `total`
    /// points: in-range index, position at the cell center, at least
    /// one and at most `total` merged samples, and channel sums that
    /// are sums of `count` 8-bit samples.
    pub open spec fn wf(self, s: Scalar, total: u64) -> bool {
        &&& index_ok(self.index)
        &&& self.position == spec_center(self.index, s)
        &&& 1 <= self.count <= total
        &&& self.color_sum.r <= 255 * self.count
        &&& self.color_sum.g <= 255 * self.count
        &&& self.color_sum.b <= 255 * self.count
    }

    /// The first voxel for the cell named by `index`, holding the one
    /// color sample `color`, centered at `(index + 1/2) * size` per
    /// axis.
    pub fn new(index: VoxelIndex, color: Color, size: Scalar) -> (v: Voxel)
        requires
            index_ok(index),
            size_ok(size),
        ensures
            v == spec_new_voxel(index, color, size),
            v.wf(size, 1),
    {
        proof {
            let bound = (2 * INDEX_BOUND + 1) * SIZE_BOUND;
            assert(-bound <= (2 * index.x + 1) * size.num <= bound && -bound <= (2 * index.y + 1)
                * size.num <= bound && -bound <= (2 * index.z + 1) * size.num <= bound)
                by (nonlinear_arith)
                requires
                    -INDEX_BOUND <= index.x <= INDEX_BOUND,
                    -INDEX_BOUND <= index.y <= INDEX_BOUND,
                    -INDEX_BOUND <= index.z <= INDEX_BOUND,
                    1 <= size.num <= SIZE_BOUND,
                    bound == (2 * INDEX_BOUND + 1) * SIZE_BOUND,
            ;
        }
        let position = Vector3 {
            x: Scalar { num: (2 * index.x + 1) * size.num, den: 2 * size.den },
            y: Scalar { num: (2 * index.y + 1) * size.num, den: 2 * size.den },
            z: Scalar { num: (2 * index.z + 1) * size.num, den: 2 * size.den },
        };
        Voxel {
            index,
            position,
            color_sum: ColorSum { r: color.r as u128, g: color.g as u128, b: color.b as u128 },
            count: 1,
            normal: None,
        }
    }

    /// Merge one more color sample into this voxel. The stored sums
    /// keep the mean exact: after the call the average color is
    /// `color_sum / (255 * count)` per channel, the arithmetic mean of
    /// all merged samples.
    pub fn update(&mut self, new_color: Color)
        requires
            old(self).count < u64::MAX,
            old(self).color_sum.r <= 255 * old(self).count,
            old(self).color_sum.g <= 255 * old(self).count,
            old(self).color_sum.b <= 255 * old(self).count,
        ensures
            *final(self) == spec_update_voxel(*old(self), new_color),
    {
        self.color_sum.r = self.color_sum.r + (new_color.r as u128);
        self.color_sum.g = self.color_sum.g + (new_color.g as u128);
        self.color_sum.b = self.color_sum.b + (new_color.b as u128);
        self.count = self.count + 1;
    }

    /// The exact average color of the merged samples, normalized to
    /// `[0, 1]` per channel: channel sum over `255 * count`.
    pub fn avg_color(&self) -> (r: Vector3)
        requires
            1 <= self.count,
            self.color_sum.r <= 255 * self.count,
            self.color_sum.g <= 255 * self.count,
            self.color_sum.b <= 255 * self.count,
        ensures
            r.x == (Scalar { num: self.color_sum.r as i128, den: (255 * self.count) as i128 }),
            r.y == (Scalar { num: self.color_sum.g as i128, den: (255 * self.count) as i128 }),
            r.z == (Scalar { num: self.color_sum.b as i128, den: (255 * self.count) as i128 }),
            r.wf(),
    {
        let den: i128 = 255 * (self.count as i128);
        Vector3 {
            x: Scalar { num: self.color_sum.r as i128, den },
            y: Scalar { num: self.color_sum.g as i128, den },
            z: Scalar { num: self.color_sum.b as i128, den },
        }
    }
}

/// Bound transfer through floor division: if `|a| <= b * bound` then
/// `|a / b| <= bound`.
proof fn lemma_div_bounded(a: int, b: int, bound: int)
    requires
        b >= 1,
        0 <= bound,
        -(b * bound) <= a <= b * bound,
    ensures
        -bound <= a / b <= bound,
{
    lemma_div_multiples_vanish(bound, b);
    lemma_div_multiples_vanish(-bound, b);
    assert(b * (-bound) == -(b * bound)) by (nonlinear_arith);
    lemma_div_is_ordered(a, b * bound, b);
    lemma_div_is_ordered(b * (-bound), a, b);
}

/// The cell coordinate of `c` for edge length `s`, by exact floor
/// division of the cross products.
pub fn cell_coord(c: Scalar, s: Scalar) -> (r: i128)
    requires
        coord_ok(c),
        size_ok(s),
    ensures
        r == spec_cell_coord(c, s),
        -INDEX_BOUND <= r <= INDEX_BOUND,
{
    proof {
        assert(-POS_NUM_BOUND * SIZE_BOUND <= c.num * s.den <= POS_NUM_BOUND * SIZE_BOUND)
            by (nonlinear_arith)
            requires
                -POS_NUM_BOUND <= c.num <= POS_NUM_BOUND,
                1 <= s.den <= SIZE_BOUND,
        ;
        assert(1 <= c.den * s.num <= POS_DEN_BOUND * SIZE_BOUND) by (nonlinear_arith)
            requires
                1 <= c.den <= POS_DEN_BOUND,
                1 <= s.num <= SIZE_BOUND,
        ;
        // The value bound on `c` gives |c.num * s.den| <= (c.den * s.num) * INDEX_BOUND.
        assert((c.den * s.num) * INDEX_BOUND >= c.den * POS_VALUE_BOUND * s.den)
            by (nonlinear_arith)
            requires
                1 <= c.den,
                1 <= s.num,
                1 <= s.den <= SIZE_BOUND,
                INDEX_BOUND == POS_VALUE_BOUND * SIZE_BOUND,
        ;
        assert(c.num * s.den <= c.den * POS_VALUE_BOUND * s.den && -(c.den * POS_VALUE_BOUND
            * s.den) <= c.num * s.den) by (nonlinear_arith)
            requires
                -c.den * POS_VALUE_BOUND <= c.num <= c.den * POS_VALUE_BOUND,
                1 <= s.den,
        ;
        lemma_div_bounded(c.num * s.den, c.den * s.num, INDEX_BOUND as int);
    }
    let num: i128 = c.num * s.den;
    let den: i128 = c.den * s.num;
    floor_div(num, den)
}

/// The cell index of position `p` for edge length `s`.
pub fn cell_index(p: Vector3, s: Scalar) -> (r: VoxelIndex)
    requires
        pos_ok(p),
        size_ok(s),
    ensures
        r == spec_cell_index(p, s),
        index_ok(r),
{
    VoxelIndex { x: cell_coord(p.x, s), y: cell_coord(p.y, s), z: cell_coord(p.z, s) }
}

impl VoxelGrid {
    /// Well-formed: admissible edge length, every voxel well-formed
    /// for it, and pairwise distinct cell indices.
    pub open spec fn wf(self) -> bool {
        &&& size_ok(self.size)
        &&& forall|i: int|
            0 <= i < self.voxels@.len() ==> (#[trigger] self.voxels@[i]).wf(self.size, self.total)
        &&& forall|i: int, j: int|
            0 <= i < j < self.voxels@.len() ==> (#[trigger] self.voxels@[i]).index != (
            #[trigger] self.voxels@[j]).index
    }

    /// An empty grid with the given voxel edge length.
    pub fn new(size: Scalar) -> (g: VoxelGrid)
        requires
            size_ok(size),
        ensures
            g.voxels@ =~= Seq::<Voxel>::empty(),
            g.size == size,
            g.total == 0,
            g.wf(),
    {
        VoxelGrid { voxels: Vec::new(), size, total: 0 }
    }

    /// The position in the voxel sequence of the voxel occupying the
    /// cell named by `idx`, if any.
    pub fn find_voxel(&self, idx: VoxelIndex) -> (r: Option<usize>)
        ensures
            match r {
                Some(i) => 0 <= i < self.voxels@.len() && self.voxels@[i as int].index == idx,
                None => !occupied(self.voxels@, idx),
            },
    {
        let n = self.voxels.len();
        let mut i: usize = 0;
        while i < n
            invariant
                n == self.voxels@.len(),
                0 <= i <= n,
                forall|j: int| 0 <= j < i ==> (#[trigger] self.voxels@[j]).index != idx,
            decreases n - i,
        {
            let vi = self.voxels[i].index;
            if vi.x == idx.x && vi.y == idx.y && vi.z == idx.z {
                proof {
                    assert(self.voxels@[i as int].index == idx);
                }
                return Some(i);
            }
            i = i + 1;
        }
        None
    }

    /// Merge one point into the grid: bucket `position` into its cell
    /// by floor division, then either update the cell's voxel or
    /// create it.
    pub fn add_point(&mut self, position: Vector3, color: Color)
        requires
            old(self).wf(),
            pos_ok(position),
            old(self).total < u64::MAX,
        ensures
            final(self).voxels@ == spec_add_point(
                old(self).voxels@,
                old(self).size,
                position,
                color,
            ),
            final(self).size == old(self).size,
            final(self).total == old(self).total + 1,
            final(self).wf(),
    {
        let ghost old_voxels = self.voxels@;
        let idx = cell_index(position, self.size);
        let found = self.find_voxel(idx);
        match found {
            Some(i) => {
                proof {
                    let j = choose|j: int|
                        0 <= j < old_voxels.len() && old_voxels[j].index == idx;
                    assert(occupied(old_voxels, idx));
                    assert(old_voxels[j].index == idx);
                    assert(j == i as int);
                }
                let voxel = &mut self.voxels[i];
                voxel.update(color);
                self.total = self.total + 1;
                proof {
                    assert(self.voxels@ =~= old_voxels.update(
                        i as int,
                        spec_update_voxel(old_voxels[i as int], color),
                    ));
                }
            },
            None => {
                let voxel = Voxel::new(idx, color, self.size);
                self.voxels.push(voxel);
                self.total = self.total + 1;
            },
        }
    }
}

/// The voxel `v` after the colors `cs` are merged into it, in order.
pub open spec fn spec_apply_colors(v: Voxel, cs: Seq<Color>) -> Voxel
    decreases cs.len(),
{
    if cs.len() == 0 {
        v
    } else {
        spec_update_voxel(spec_apply_colors(v, cs.drop_last()), cs.last())
    }
}

/// The total of the red channels of `cs`.
pub open spec fn sum_r(cs: Seq<Color>) -> int
    decreases cs.len(),
{
    if cs.len() == 0 {
        0
    } else {
        sum_r(cs.drop_last()) + cs.last().r
    }
}

pub open spec fn sum_g(cs: Seq<Color>) -> int
    decreases cs.len(),
{
    if cs.len() == 0 {
        0
    } else {
        sum_g(cs.drop_last()) + cs.last().g
    }
}

pub open spec fn sum_b(cs: Seq<Color>) -> int
    decreases cs.len(),
{
    if cs.len() == 0 {
        0
    } else {
        sum_b(cs.drop_last()) + cs.last().b
    }
}

/// The running-average update computes the true mean of all merged
/// samples: folding any colors `cs` into a voxel grows its count by
/// their number and each channel sum by their total, and touches
/// nothing else — so the voxel's stored average, channel sum over
/// `255 * count`, is exactly the arithmetic mean of every sample
/// merged into the cell, however many updates delivered them.
pub proof fn lemma_color_mean(v: Voxel, cs: Seq<Color>)
    requires
        v.count + cs.len() <= u64::MAX,
        v.color_sum.r <= 255 * v.count,
        v.color_sum.g <= 255 * v.count,
        v.color_sum.b <= 255 * v.count,
    ensures
        spec_apply_colors(v, cs).count == v.count + cs.len(),
        spec_apply_colors(v, cs).color_sum.r == v.color_sum.r + sum_r(cs),
        spec_apply_colors(v, cs).color_sum.g == v.color_sum.g + sum_g(cs),
        spec_apply_colors(v, cs).color_sum.b == v.color_sum.b + sum_b(cs),
        spec_apply_colors(v, cs).color_sum.r <= 255 * spec_apply_colors(v, cs).count,
        spec_apply_colors(v, cs).color_sum.g <= 255 * spec_apply_colors(v, cs).count,
        spec_apply_colors(v, cs).color_sum.b <= 255 * spec_apply_colors(v, cs).count,
        spec_apply_colors(v, cs).index == v.index,
        spec_apply_colors(v, cs).position == v.position,
        spec_apply_colors(v, cs).normal == v.normal,
    decreases cs.len(),
{
    if cs.len() > 0 {
        lemma_color_mean(v, cs.drop_last());
    }
}

/// Merging two colors into a voxel is order-independent: the channel
/// sums and the count come out the same either way.
pub proof fn lemma_update_commutes(v: Voxel, c1: Color, c2: Color)
    requires
        v.count + 2 <= u64::MAX,
        v.color_sum.r <= 255 * v.count,
        v.color_sum.g <= 255 * v.count,
        v.color_sum.b <= 255 * v.count,
    ensures
        spec_update_voxel(spec_update_voxel(v, c1), c2) == spec_update_voxel(
            spec_update_voxel(v, c2),
            c1,
        ),
{
}

/// Two points that land in the same cell of an empty grid yield, in
/// either insertion order, the same single voxel: count 2, channel
/// sums `c1 + c2` — so its stored average color is `(c1 + c2) / 2`,
/// independent of insertion order.
pub proof fn lemma_merge_two_points(s: Scalar, p1: Vector3, c1: Color, p2: Vector3, c2: Color)
    requires
        spec_cell_index(p1, s) == spec_cell_index(p2, s),
    ensures
        ({
            let g12 = spec_add_point(spec_add_point(Seq::empty(), s, p1, c1), s, p2, c2);
            let g21 = spec_add_point(spec_add_point(Seq::empty(), s, p2, c2), s, p1, c1);
            &&& g12 == g21
            &&& g12.len() == 1
            &&& g12[0].count == 2
            &&& g12[0].color_sum.r == c1.r + c2.r
            &&& g12[0].color_sum.g == c1.g + c2.g
            &&& g12[0].color_sum.b == c1.b + c2.b
            &&& g12[0].index == spec_cell_index(p1, s)
        }),
{
    let idx = spec_cell_index(p1, s);
    let e = Seq::<Voxel>::empty();
    assert(!occupied(e, idx));
    let g1 = spec_add_point(e, s, p1, c1);
    assert(g1 =~= seq![spec_new_voxel(idx, c1, s)]);
    assert(g1[0].index == idx);
    assert(occupied(g1, idx));
    let j1 = choose|j: int| 0 <= j < g1.len() && g1[j].index == idx;
    assert(j1 == 0);
    let g12 = spec_add_point(g1, s, p2, c2);
    assert(g12 =~= seq![spec_update_voxel(spec_new_voxel(idx, c1, s), c2)]);
    let g2 = spec_add_point(e, s, p2, c2);
    assert(g2 =~= seq![spec_new_voxel(idx, c2, s)]);
    assert(g2[0].index == idx);
    assert(occupied(g2, idx));
    let j2 = choose|j: int| 0 <= j < g2.len() && g2[j].index == idx;
    assert(j2 == 0);
    let g21 = spec_add_point(g2, s, p1, c1);
    assert(g21 =~= seq![spec_update_voxel(spec_new_voxel(idx, c2, s), c1)]);
    assert(spec_update_voxel(spec_new_voxel(idx, c1, s), c2) == spec_update_voxel(
        spec_new_voxel(idx, c2, s),
        c1,
    ));
    assert(g12 =~= g21);
}

/// The `x` offset of the `k`-th probe of a 27-cell neighborhood scan,
/// for `k` in `0..27`: offsets run over `{-1, 0, 1}` per axis, `x`
/// slowest.
pub open spec fn spec_offset_x(k: int) -> int {
    k / 9 - 1
}

pub open spec fn spec_offset_y(k: int) -> int {
    (k % 9) / 3 - 1
}

pub open spec fn spec_offset_z(k: int) -> int {
    k % 3 - 1
}

/// The cell probed at step `k` of the neighborhood scan around `idx`.
pub open spec fn spec_probe(idx: VoxelIndex, k: int) -> VoxelIndex {
    VoxelIndex {
        x: (idx.x + spec_offset_x(k)) as i128,
        y: (idx.y + spec_offset_y(k)) as i128,
        z: (idx.z + spec_offset_z(k)) as i128,
    }
}

/// How many of the first `k` probes around `idx` hit an occupied cell.
pub open spec fn spec_neighbor_count(voxels: Seq<Voxel>, idx: VoxelIndex, k: int) -> int
    decreases k,
{
    if k <= 0 {
        0
    } else {
        spec_neighbor_count(voxels, idx, k - 1) + if occupied(voxels, spec_probe(idx, k - 1)) {
            1int
        } else {
            0int
        }
    }
}

/// The sum of `2 * x + 1` over the occupied cells among the first `k`
/// probes around `idx`: the occupied neighbors' center `x` coordinates
/// share the denominator `2 * size.den`, and their numerators are
/// `(2 * x + 1) * size.num`.
pub open spec fn spec_neighbor_sum_x(voxels: Seq<Voxel>, idx: VoxelIndex, k: int) -> int
    decreases k,
{
    if k <= 0 {
        0
    } else {
        spec_neighbor_sum_x(voxels, idx, k - 1) + if occupied(voxels, spec_probe(idx, k - 1)) {
            2 * spec_probe(idx, k - 1).x + 1
        } else {
            0int
        }
    }
}

pub open spec fn spec_neighbor_sum_y(voxels: Seq<Voxel>, idx: VoxelIndex, k: int) -> int
    decreases k,
{
    if k <= 0 {
        0
    } else {
        spec_neighbor_sum_y(voxels, idx, k - 1) + if occupied(voxels, spec_probe(idx, k - 1)) {
            2 * spec_probe(idx, k - 1).y + 1
        } else {
            0int
        }
    }
}

pub open spec fn spec_neighbor_sum_z(voxels: Seq<Voxel>, idx: VoxelIndex, k: int) -> int
    decreases k,
{
    if k <= 0 {
        0
    } else {
        spec_neighbor_sum_z(voxels, idx, k - 1) + if occupied(voxels, spec_probe(idx, k - 1)) {
            2 * spec_probe(idx, k - 1).z + 1
        } else {
            0int
        }
    }
}

/// The normal assigned to voxel `i`: the offset of the voxel's center
/// from the centroid of the centers of the occupied cells in its
/// 27-cell neighborhood (the voxel's own cell included). With `n`
/// occupied neighbors, the centroid's `x` numerator over the common
/// denominator `2 * s.den * n` is `sum_x * s.num`, so the offset is
/// `((2 * idx.x + 1) * n - sum_x) * s.num` over that denominator.
pub open spec fn spec_normal(voxels: Seq<Voxel>, s: Scalar, i: int) -> Vector3 {
    let idx = voxels[i].index;
    let n = spec_neighbor_count(voxels, idx, 27);
    Vector3 {
        x: Scalar {
            num: (((2 * idx.x + 1) * n - spec_neighbor_sum_x(voxels, idx, 27)) * s.num) as i128,
            den: (2 * s.den * n) as i128,
        },
        y: Scalar {
            num: (((2 * idx.y + 1) * n - spec_neighbor_sum_y(voxels, idx, 27)) * s.num) as i128,
            den: (2 * s.den * n) as i128,
        },
        z: Scalar {
            num: (((2 * idx.z + 1) * n - spec_neighbor_sum_z(voxels, idx, 27)) * s.num) as i128,
            den: (2 * s.den * n) as i128,
        },
    }
}

proof fn lemma_neighbor_count_nonneg(voxels: Seq<Voxel>, idx: VoxelIndex, k: int)
    ensures
        spec_neighbor_count(voxels, idx, k) >= 0,
    decreases k,
{
    if k > 0 {
        lemma_neighbor_count_nonneg(voxels, idx, k - 1);
    }
}

proof fn lemma_neighbor_count_mono(voxels: Seq<Voxel>, idx: VoxelIndex, k1: int, k2: int)
    requires
        0 <= k1 <= k2,
    ensures
        spec_neighbor_count(voxels, idx, k1) <= spec_neighbor_count(voxels, idx, k2),
    decreases k2,
{
    if k2 > k1 {
        lemma_neighbor_count_mono(voxels, idx, k1, k2 - 1);
    }
}

/// A full neighborhood scan counts at least the voxel's own occupied
/// cell, probed with the zero offset at step 13.
proof fn lemma_neighbor_count_at_least_one(voxels: Seq<Voxel>, idx: VoxelIndex)
    requires
        occupied(voxels, idx),
    ensures
        spec_neighbor_count(voxels, idx, 27) >= 1,
{
    assert(spec_offset_x(13) == 0 && spec_offset_y(13) == 0 && spec_offset_z(13) == 0);
    assert(spec_probe(idx, 13) == idx);
    lemma_neighbor_count_nonneg(voxels, idx, 13);
    assert(spec_neighbor_count(voxels, idx, 14) >= 1);
    lemma_neighbor_count_mono(voxels, idx, 14, 27);
}

impl VoxelGrid {
    /// Fill in every voxel's normal from the completed grid: for each
    /// voxel, gather the centers of the occupied cells in its 27-cell
    /// neighborhood, take their mean once, and store the offset of the
    /// voxel's center from that centroid. Nothing else changes.
    pub fn compute_normal(&mut self)
        requires
            old(self).wf(),
        ensures
            final(self).size == old(self).size,
            final(self).total == old(self).total,
            final(self).voxels@.len() == old(self).voxels@.len(),
            forall|i: int|
                0 <= i < old(self).voxels@.len() ==> final(self).voxels@[i] == (Voxel {
                    normal: Some(spec_normal(old(self).voxels@, old(self).size, i)),
                    ..old(self).voxels@[i]
                }),
            final(self).wf(),
    {
        let ghost g0 = *self;
        let n_vox = self.voxels.len();
        let mut normals: Vec<Vector3> = Vec::new();
        let mut i: usize = 0;
        while i < n_vox
            invariant
                *self == g0,
                g0.wf(),
                n_vox == self.voxels@.len(),
                0 <= i <= n_vox,
                normals@.len() == i,
                forall|t: int|
                    0 <= t < i ==> normals@[t] == spec_normal(g0.voxels@, g0.size, t),
            decreases n_vox - i,
        {
            let idx = self.voxels[i].index;
            proof {
                assert(g0.voxels@[i as int].wf(g0.size, g0.total));
            }
            let mut cnt: i128 = 0;
            let mut sx: i128 = 0;
            let mut sy: i128 = 0;
            let mut sz: i128 = 0;
            let mut k: usize = 0;
            while k < 27
                invariant
                    *self == g0,
                    g0.wf(),
                    0 <= i < self.voxels@.len(),
                    idx == self.voxels@[i as int].index,
                    index_ok(idx),
                    0 <= k <= 27,
                    cnt == spec_neighbor_count(g0.voxels@, idx, k as int),
                    0 <= cnt <= k,
                    sx == spec_neighbor_sum_x(g0.voxels@, idx, k as int),
                    sy == spec_neighbor_sum_y(g0.voxels@, idx, k as int),
                    sz == spec_neighbor_sum_z(g0.voxels@, idx, k as int),
                    // 2475880078570760549798248451 == 2 * INDEX_BOUND + 3, the
                    // largest magnitude one probe can add to a sum.
                    -(k as int) * 2475880078570760549798248451 <= sx <= (k as int)
                        * 2475880078570760549798248451,
                    -(k as int) * 2475880078570760549798248451 <= sy <= (k as int)
                        * 2475880078570760549798248451,
                    -(k as int) * 2475880078570760549798248451 <= sz <= (k as int)
                        * 2475880078570760549798248451,
                decreases 27 - k,
            {
                let dx = (k / 9) as i128 - 1;
                let dy = ((k % 9) / 3) as i128 - 1;
                let dz = (k % 3) as i128 - 1;
                proof {
                    assert(dx == spec_offset_x(k as int));
                    assert(dy == spec_offset_y(k as int));
                    assert(dz == spec_offset_z(k as int));
                    assert(0 <= k / 9 <= 2 && 0 <= (k % 9) / 3 <= 2 && 0 <= k % 3 <= 2);
                }
                let probe = VoxelIndex { x: idx.x + dx, y: idx.y + dy, z: idx.z + dz };
                proof {
                    assert(probe == spec_probe(idx, k as int));
                }
                match self.find_voxel(probe) {
                    Some(j) => {
                        proof {
                            assert(g0.voxels@[j as int].index == probe);
                            assert(occupied(g0.voxels@, probe));
                        }
                        cnt = cnt + 1;
                        sx = sx + (2 * probe.x + 1);
                        sy = sy + (2 * probe.y + 1);
                        sz = sz + (2 * probe.z + 1);
                    },
                    None => {
                        proof {
                            assert(!occupied(g0.voxels@, probe));
                        }
                    },
                }
                k = k + 1;
            }
            proof {
                assert(occupied(g0.voxels@, idx));
                lemma_neighbor_count_at_least_one(g0.voxels@, idx);
                // 66848762121410534844552708177 == 27 * (2 * INDEX_BOUND + 3)
                // bounds the sums and the scaled own-center numerators;
                // scaling by the edge length numerator stays far inside
                // the i128 range.
                assert(-66848762121410534844552708177 <= (2 * idx.x + 1) * cnt
                    <= 66848762121410534844552708177 && -66848762121410534844552708177 <= (2
                    * idx.y + 1) * cnt <= 66848762121410534844552708177
                    && -66848762121410534844552708177 <= (2 * idx.z + 1) * cnt
                    <= 66848762121410534844552708177) by (nonlinear_arith)
                    requires
                        -INDEX_BOUND <= idx.x <= INDEX_BOUND,
                        -INDEX_BOUND <= idx.y <= INDEX_BOUND,
                        -INDEX_BOUND <= idx.z <= INDEX_BOUND,
                        INDEX_BOUND == 0x40000000000000000000000,
                        0 <= cnt <= 27,
                ;
                assert(-170141183460469231731687303715884105728 <= ((2 * idx.x + 1) * cnt - sx)
                    * self.size.num < 170141183460469231731687303715884105728
                    && -170141183460469231731687303715884105728 <= ((2 * idx.y + 1) * cnt - sy)
                    * self.size.num < 170141183460469231731687303715884105728
                    && -170141183460469231731687303715884105728 <= ((2 * idx.z + 1) * cnt - sz)
                    * self.size.num < 170141183460469231731687303715884105728)
                    by (nonlinear_arith)
                    requires
                        -66848762121410534844552708177 <= (2 * idx.x + 1) * cnt
                            <= 66848762121410534844552708177,
                        -66848762121410534844552708177 <= (2 * idx.y + 1) * cnt
                            <= 66848762121410534844552708177,
                        -66848762121410534844552708177 <= (2 * idx.z + 1) * cnt
                            <= 66848762121410534844552708177,
                        -66848762121410534844552708177 <= sx <= 66848762121410534844552708177,
                        -66848762121410534844552708177 <= sy <= 66848762121410534844552708177,
                        -66848762121410534844552708177 <= sz <= 66848762121410534844552708177,
                        1 <= self.size.num <= 0x100000,
                ;
                assert(0 < 2 * self.size.den * cnt <= 0x6c00000) by (nonlinear_arith)
                    requires
                        1 <= self.size.den <= 0x100000,
                        1 <= cnt <= 27,
                ;
            }
            let den = 2 * self.size.den * cnt;
            let normal = Vector3 {
                x: Scalar { num: ((2 * idx.x + 1) * cnt - sx) * self.size.num, den },
                y: Scalar { num: ((2 * idx.y + 1) * cnt - sy) * self.size.num, den },
                z: Scalar { num: ((2 * idx.z + 1) * cnt - sz) * self.size.num, den },
            };
            normals.push(normal);
            i = i + 1;
        }
        let mut new_voxels: Vec<Voxel> = Vec::new();
        let mut t: usize = 0;
        while t < n_vox
            invariant
                *self == g0,
                g0.wf(),
                n_vox == self.voxels@.len(),
                normals@.len() == n_vox,
                forall|u: int|
                    0 <= u < n_vox ==> normals@[u] == spec_normal(g0.voxels@, g0.size, u),
                0 <= t <= n_vox,
                new_voxels@.len() == t,
                forall|u: int|
                    0 <= u < t ==> new_voxels@[u] == (Voxel {
                        normal: Some(spec_normal(g0.voxels@, g0.size, u)),
                        ..g0.voxels@[u]
                    }),
            decreases n_vox - t,
        {
            let mut v = self.voxels[t];
            v.normal = Some(normals[t]);
            new_voxels.push(v);
            t = t + 1;
        }
        self.voxels = new_voxels;
        proof {
            assert forall|u: int| 0 <= u < self.voxels@.len() implies (
            #[trigger] self.voxels@[u]).wf(self.size, self.total) by {
                assert(g0.voxels@[u].wf(g0.size, g0.total));
            }
        }
    }
}

} // verus!
