//! Frame assembly and back-projection.
//!
//! A frame pairs an 8-bit 3-channel color buffer with a per-pixel
//! depth buffer in meters. Assembly validates that the two rasters
//! agree in width and height and converts raw 16-bit depth samples
//! from millimeters to meters by dividing by 1000 exactly. The
//! projector then inverts the pinhole model per pixel, skipping
//! pixels without a positive depth, and the resulting point cloud is
//! merged into a fresh voxel grid.

use crate::scalar::{rat_div, rat_int, rat_mul, rat_sub, Scalar};
use crate::utils::{Intrinsics, INTRINSIC_DEN_BOUND, INTRINSIC_NUM_BOUND};
use crate::voxel::{coord_ok, pos_ok, spec_add_point, Color, Vector3, Voxel, VoxelGrid};
use crate::OdometryError;
use vstd::arithmetic::div_mod::{lemma_div_multiples_vanish_fancy, lemma_fundamental_div_mod};
use vstd::prelude::*;

verus! {

/// An assembled frame: a color buffer of `width * height * 3` byte
/// channels and a depth buffer of `width * height` samples in meters,
/// each an exact rational with denominator 1000 (a whole number of
/// millimeters).
#[derive(Clone, Debug, PartialEq)]
pub struct RGBD {
    pub rgb: Vec<u8>,
    pub depth: Vec<Scalar>,
    pub width: u32,
    pub height: u32,
}

impl RGBD {
    pub open spec fn wf(self) -> bool {
        &&& self.rgb@.len() == self.width * self.height * 3
        &&& self.depth@.len() == self.width * self.height
        &&& forall|i: int|
            0 <= i < self.depth@.len() ==> (#[trigger] self.depth@[i]).den == 1000 && 0
                <= self.depth@[i].num <= 65535
    }
}

/// One 3D point of a cloud: a metric position and the color sampled
/// at its source pixel.
#[derive(Clone, Copy, Debug, PartialEq, Eq, Structural)]
pub struct Point3D {
    pub position: Vector3,
    pub color: Color,
}

/// Validate and package a color raster and a raw depth raster into a
/// frame. The rasters must agree in width and height; otherwise
/// assembly fails with [`OdometryError::DimensionMismatch`] and no
/// frame is produced. Each raw depth sample `d`, a count of
/// millimeters, becomes exactly the rational `d / 1000` meters.
pub fn create_rgbd_image(
    rgb: Vec<u8>,
    rgb_width: u32,
    rgb_height: u32,
    depth: Vec<u16>,
    depth_width: u32,
    depth_height: u32,
) -> (r: Result<RGBD, OdometryError>)
    requires
        rgb@.len() == rgb_width * rgb_height * 3,
        depth@.len() == depth_width * depth_height,
    ensures
        match r {
            Ok(frame) => {
                &&& rgb_width == depth_width && rgb_height == depth_height
                &&& frame.width == rgb_width && frame.height == rgb_height
                &&& frame.rgb@ == rgb@
                &&& frame.depth@.len() == depth@.len()
                &&& forall|i: int|
                    0 <= i < depth@.len() ==> frame.depth@[i] == (Scalar {
                        num: depth@[i] as i128,
                        den: 1000,
                    })
                &&& frame.wf()
            },
            Err(e) => {
                &&& e == OdometryError::DimensionMismatch
                &&& (rgb_width != depth_width || rgb_height != depth_height)
            },
        },
{
    if rgb_width != depth_width || rgb_height != depth_height {
        return Err(OdometryError::DimensionMismatch);
    }
    let n = depth.len();
    let mut meters: Vec<Scalar> = Vec::new();
    let mut i: usize = 0;
    while i < n
        invariant
            n == depth@.len(),
            0 <= i <= n,
            meters@.len() == i,
            forall|j: int|
                0 <= j < i ==> meters@[j] == (Scalar { num: depth@[j] as i128, den: 1000 }),
        decreases n - i,
    {
        let d = depth[i];
        meters.push(Scalar { num: d as i128, den: 1000 });
        i = i + 1;
    }
    Ok(RGBD { rgb, depth: meters, width: rgb_width, height: rgb_height })
}

/// The point produced by pixel `k` (raster scan order) of `rgbd`:
/// with `u = k % width`, `v = k / width` and depth `D`, the position
/// is `x = (u - cx) * D / fx`, `y = (v - cy) * D / fy`, `z = D`, and
/// the color is the pixel's three channels.
pub open spec fn spec_project_pixel(rgbd: RGBD, intr: Intrinsics, k: int) -> Point3D {
    let w = rgbd.width as int;
    let u = k % w;
    let v = k / w;
    let d = rgbd.depth@[k];
    Point3D {
        position: Vector3 {
            x: rat_div(rat_mul(rat_sub(rat_int(u), intr.cx), d), intr.fx),
            y: rat_div(rat_mul(rat_sub(rat_int(v), intr.cy), d), intr.fy),
            z: d,
        },
        color: Color { r: rgbd.rgb@[3 * k], g: rgbd.rgb@[3 * k + 1], b: rgbd.rgb@[3 * k + 2] },
    }
}

/// The cloud contributed by the first `k` pixels: pixels with a
/// positive depth each yield one point, in raster scan order; pixels
/// with depth zero yield none.
pub open spec fn spec_pointcloud_prefix(rgbd: RGBD, intr: Intrinsics, k: int) -> Seq<Point3D>
    decreases k,
{
    if k <= 0 {
        Seq::empty()
    } else {
        let rest = spec_pointcloud_prefix(rgbd, intr, k - 1);
        if rgbd.depth@[k - 1].is_positive() {
            rest.push(spec_project_pixel(rgbd, intr, k - 1))
        } else {
            rest
        }
    }
}

/// The full point cloud of a frame under the given intrinsics.
pub open spec fn spec_pointcloud(rgbd: RGBD, intr: Intrinsics) -> Seq<Point3D> {
    spec_pointcloud_prefix(rgbd, intr, rgbd.width * rgbd.height)
}

/// One back-projected coordinate: `(pix - c) * d / f`, computed
/// exactly on the rational representations.
fn project_coord(pix: u32, c: Scalar, f: Scalar, d: Scalar) -> (r: Scalar)
    requires
        -INTRINSIC_NUM_BOUND <= c.num <= INTRINSIC_NUM_BOUND,
        1 <= c.den <= INTRINSIC_DEN_BOUND,
        1 <= f.num <= INTRINSIC_NUM_BOUND,
        1 <= f.den <= INTRINSIC_DEN_BOUND,
        d.den == 1000,
        0 <= d.num <= 65535,
    ensures
        r == rat_div(rat_mul(rat_sub(rat_int(pix as int), c), d), f),
        coord_ok(r),
{
    proof {
        // The pixel term is at most 2^32 * c.den + INTRINSIC_NUM_BOUND
        // in magnitude — both as an absolute constant and relative to
        // c.den — the depth factor at most 65535 and the focal
        // denominator at most INTRINSIC_DEN_BOUND, so the numerator
        // stays far inside the i128 range; the denominator carries
        // c.den * 1000 * f.num with f.num >= 1, which keeps the
        // coordinate's value far below POS_VALUE_BOUND.
        assert(-4504699137949696 <= pix * c.den - c.num <= 4504699137949696 && -(c.den
            * 1103806595071) <= pix * c.den - c.num <= c.den * 1103806595071)
            by (nonlinear_arith)
            requires
                0 <= pix <= 0xffffffff,
                -0x10000000000 <= c.num <= 0x10000000000,
                1 <= c.den <= 0x100000,
        ;
        assert(-295215458005533327360 <= (pix * c.den - c.num) * d.num <= 295215458005533327360
            && -309555844093610114269839360 <= (pix * c.den - c.num) * d.num * f.den
            <= 309555844093610114269839360) by (nonlinear_arith)
            requires
                -4504699137949696 <= pix * c.den - c.num <= 4504699137949696,
                0 <= d.num <= 65535,
                1 <= f.den <= 0x100000,
        ;
        assert(-(c.den * 1000 * f.num * 0x400000000000000000) <= (pix * c.den - c.num) * d.num
            * f.den <= c.den * 1000 * f.num * 0x400000000000000000) by (nonlinear_arith)
            requires
                -(c.den * 1103806595071) <= pix * c.den - c.num <= c.den * 1103806595071,
                1 <= c.den,
                0 <= d.num <= 65535,
                1 <= f.num,
                1 <= f.den <= 0x100000,
        ;
        assert(1 <= c.den * 1000 * f.num <= 0x400000000000000000) by (nonlinear_arith)
            requires
                1 <= c.den <= 0x100000,
                1 <= f.num <= 0x10000000000,
        ;
    }
    let t: i128 = (pix as i128) * c.den - c.num;
    let num: i128 = t * d.num * f.den;
    let den: i128 = c.den * 1000 * f.num;
    Scalar { num, den }
}

/// Back-project every pixel of the frame with a strictly positive
/// depth into a 3D point, in raster scan order. A pixel with depth
/// zero contributes no point, so the cloud's length is the number of
/// positive-depth pixels, not `width * height`.
pub fn rgbd_to_pointcloud(rgbd: &RGBD, intrinsics: &Intrinsics) -> (r: Vec<Point3D>)
    requires
        rgbd.wf(),
        intrinsics.wf(),
    ensures
        r@ == spec_pointcloud(*rgbd, *intrinsics),
        forall|i: int| 0 <= i < r@.len() ==> pos_ok((#[trigger] r@[i]).position),
{
    let mut out: Vec<Point3D> = Vec::new();
    let w = rgbd.width as usize;
    let h = rgbd.height as usize;
    let n = rgbd.depth.len();
    let rn = rgbd.rgb.len();
    proof {
        assert(n == w * h);
        assert(rn == 3 * n);
    }
    let mut k: usize = 0;
    while k < n
        invariant
            rgbd.wf(),
            intrinsics.wf(),
            w == rgbd.width,
            h == rgbd.height,
            n == w * h,
            n == rgbd.depth@.len(),
            rn == rgbd.rgb@.len(),
            rn == 3 * n,
            0 <= k <= n,
            out@ == spec_pointcloud_prefix(*rgbd, *intrinsics, k as int),
            forall|i: int| 0 <= i < out@.len() ==> pos_ok((#[trigger] out@[i]).position),
        decreases n - k,
    {
        let d = rgbd.depth[k];
        if d.num > 0 {
            proof {
                assert(w * h > 0);
                assert(w >= 1 && h >= 1) by (nonlinear_arith)
                    requires
                        w * h > 0,
                        w >= 0,
                        h >= 0,
                ;
                // k / w < h and k % w < w for k < w * h.
                lemma_fundamental_div_mod(k as int, w as int);
                lemma_div_multiples_vanish_fancy(h as int - 1, w as int - 1, w as int);
                assert((w * (h - 1) + (w - 1)) / (w as int) == h - 1);
                assert(k <= w * h - 1 == w * (h - 1) + (w - 1)) by (nonlinear_arith)
                    requires
                        k < w * h,
                        w >= 1,
                        h >= 1,
                ;
                vstd::arithmetic::div_mod::lemma_div_is_ordered(
                    k as int,
                    w * (h as int - 1) + (w as int - 1),
                    w as int,
                );
                assert(k as int / (w as int) <= h - 1);
            }
            let u = (k % w) as u32;
            let v = (k / w) as u32;
            let x = project_coord(u, intrinsics.cx, intrinsics.fx, d);
            let y = project_coord(v, intrinsics.cy, intrinsics.fy, d);
            proof {
                assert(3 * k + 2 < rgbd.rgb@.len());
            }
            let base = 3 * k;
            let color = Color {
                r: rgbd.rgb[base],
                g: rgbd.rgb[base + 1],
                b: rgbd.rgb[base + 2],
            };
            let point = Point3D { position: Vector3 { x, y, z: d }, color };
            proof {
                assert(coord_ok(d));
                assert(point == spec_project_pixel(*rgbd, *intrinsics, k as int));
            }
            out.push(point);
        }
        k = k + 1;
    }
    out
}

/// The voxel sequence after merging the first `k` points of a cloud
/// into an initially empty grid of edge length `s`.
pub open spec fn spec_voxelize(points: Seq<Point3D>, s: Scalar, k: int) -> Seq<Voxel>
    decreases k,
{
    if k <= 0 {
        Seq::empty()
    } else {
        spec_add_point(
            spec_voxelize(points, s, k - 1),
            s,
            points[k - 1].position,
            points[k - 1].color,
        )
    }
}

/// The fixed voxel edge length of [`create_voxel_grid`]: 1/100 of a
/// length unit (one centimeter when positions are in meters).
pub open spec fn default_voxel_size() -> Scalar {
    Scalar { num: 1, den: 100 }
}

/// Merge a point cloud into a fresh voxel grid of edge length 1/100,
/// one point at a time, in order.
pub fn create_voxel_grid(point_cloud: Vec<Point3D>) -> (g: VoxelGrid)
    requires
        forall|i: int| 0 <= i < point_cloud@.len() ==> pos_ok((#[trigger] point_cloud@[i]).position),
    ensures
        g.size == default_voxel_size(),
        g.total == point_cloud@.len(),
        g.voxels@ == spec_voxelize(point_cloud@, default_voxel_size(), point_cloud@.len() as int),
        g.wf(),
{
    let mut grid = VoxelGrid::new(Scalar::new(1, 100));
    let n = point_cloud.len();
    let mut i: usize = 0;
    while i < n
        invariant
            n == point_cloud@.len(),
            forall|t: int| 0 <= t < n ==> pos_ok((#[trigger] point_cloud@[t]).position),
            0 <= i <= n,
            grid.wf(),
            grid.size == default_voxel_size(),
            grid.total == i,
            grid.voxels@ == spec_voxelize(point_cloud@, default_voxel_size(), i as int),
        decreases n - i,
    {
        let p = point_cloud[i];
        grid.add_point(p.position, p.color);
        i = i + 1;
    }
    grid
}

/// The pipeline is deterministic: re-running the projector and the
/// voxel-grid construction on the same frame with the same intrinsics
/// and the same voxel size produces structurally identical grids —
/// the same voxel sequence, hence the same cell indices and the same
/// per-voxel color sums and counts.
pub proof fn lemma_pipeline_deterministic(rgbd: RGBD, intr: Intrinsics, g1: VoxelGrid, g2: VoxelGrid)
    requires
        g1.size == default_voxel_size(),
        g2.size == default_voxel_size(),
        g1.voxels@ == spec_voxelize(
            spec_pointcloud(rgbd, intr),
            default_voxel_size(),
            spec_pointcloud(rgbd, intr).len() as int,
        ),
        g2.voxels@ == spec_voxelize(
            spec_pointcloud(rgbd, intr),
            default_voxel_size(),
            spec_pointcloud(rgbd, intr).len() as int,
        ),
    ensures
        g1.voxels@ == g2.voxels@,
        g1.size == g2.size,
{
}

} // verus!
