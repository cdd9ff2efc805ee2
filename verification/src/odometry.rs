//! The odometry pipeline and the correspondence search.
//!
//! Two frames are each back-projected and voxelized; then, for every
//! occupied voxel of the source grid, all 27 cells within one step
//! per axis are probed in the target grid, and every hit emits one
//! candidate correspondence. The search is a broad-phase candidate
//! generator: no deduplication across source voxels, no distance
//! ranking, no nearest-match selection.

use crate::image::{
    create_voxel_grid, default_voxel_size, rgbd_to_pointcloud, spec_pointcloud, spec_voxelize,
    RGBD,
};
use crate::utils::Intrinsics;
use crate::voxel::{occupied, Voxel, VoxelGrid, VoxelIndex};
use vstd::prelude::*;

verus! {

/// A candidate pairing of one source voxel with one target voxel
/// whose cells lie within one step of each other per axis.
#[derive(Clone, Copy, Debug, PartialEq)]
pub struct Correspondence {
    pub source_voxel: Voxel,
    pub target_voxel: Voxel,
}

/// Cell `b` lies in the 27-cell neighborhood of cell `a` (the cell
/// itself included).
pub open spec fn neighboring(a: VoxelIndex, b: VoxelIndex) -> bool {
    &&& -1 <= b.x - a.x <= 1
    &&& -1 <= b.y - a.y <= 1
    &&& -1 <= b.z - a.z <= 1
}

/// The correspondence pairing source voxel `i` with target voxel `j`.
pub open spec fn pair_of(s: Seq<Voxel>, t: Seq<Voxel>, i: int, j: int) -> Correspondence {
    Correspondence { source_voxel: s[i], target_voxel: t[j] }
}

/// `r` holds the pair `p` somewhere.
pub open spec fn contains_pair(r: Seq<Correspondence>, p: Correspondence) -> bool {
    exists|c: int| 0 <= c < r.len() && r[c] == p
}

/// Every element of `r` pairs some source voxel with some target
/// voxel of a neighboring cell.
pub open spec fn corr_sound(r: Seq<Correspondence>, s: Seq<Voxel>, t: Seq<Voxel>) -> bool {
    forall|c: int|
        0 <= c < r.len() ==> exists|i: int, j: int|
            0 <= i < s.len() && 0 <= j < t.len() && #[trigger] r[c] == pair_of(s, t, i, j)
                && neighboring(s[i].index, t[j].index)
}

/// Every neighboring (source, target) voxel pair appears in `r`.
pub open spec fn corr_complete(r: Seq<Correspondence>, s: Seq<Voxel>, t: Seq<Voxel>) -> bool {
    forall|i: int, j: int|
        0 <= i < s.len() && 0 <= j < t.len() && neighboring(
            (#[trigger] s[i]).index,
            (#[trigger] t[j]).index,
        ) ==> contains_pair(r, pair_of(s, t, i, j))
}

/// No pair appears twice in `r`.
pub open spec fn corr_distinct(r: Seq<Correspondence>) -> bool {
    forall|c1: int, c2: int| 0 <= c1 < c2 < r.len() ==> #[trigger] r[c1] != #[trigger] r[c2]
}

/// When no target voxel lies in the neighborhood of any source
/// voxel, a sound correspondence sequence is empty: the search emits
/// zero candidates.
pub proof fn lemma_no_neighbors_no_correspondences(
    r: Seq<Correspondence>,
    s: Seq<Voxel>,
    t: Seq<Voxel>,
)
    requires
        corr_sound(r, s, t),
        forall|i: int, j: int|
            0 <= i < s.len() && 0 <= j < t.len() ==> !neighboring(
                (#[trigger] s[i]).index,
                (#[trigger] t[j]).index,
            ),
    ensures
        r.len() == 0,
{
    if r.len() > 0 {
        assert(0 <= 0 < r.len());
        let (i, j) = choose|i: int, j: int|
            0 <= i < s.len() && 0 <= j < t.len() && r[0] == pair_of(s, t, i, j) && neighboring(
                s[i].index,
                t[j].index,
            );
        assert(!neighboring(s[i].index, t[j].index));
        assert(false);
    }
}

/// The scan step at which the neighborhood walk around `a` probes
/// `b`: offsets run over `{-1, 0, 1}` per axis, `x` slowest.
pub open spec fn scan_pos(a: VoxelIndex, b: VoxelIndex) -> int {
    9 * (b.x - a.x + 1) + 3 * (b.y - a.y + 1) + (b.z - a.z + 1)
}

/// The pair (source `i2`, target `j2`) has already been scanned when
/// the walk stands at source voxel `i`, probe step `k`.
spec fn done_before(s: Seq<Voxel>, t: Seq<Voxel>, i: int, k: int, i2: int, j2: int) -> bool {
    i2 < i || (i2 == i && scan_pos(s[i2].index, t[j2].index) < k)
}

/// Every element of `r` is a neighboring pair already scanned at
/// position (`i`, `k`).
spec fn sound_upto(
    r: Seq<Correspondence>,
    s: Seq<Voxel>,
    t: Seq<Voxel>,
    i: int,
    k: int,
) -> bool {
    forall|c: int|
        0 <= c < r.len() ==> exists|i2: int, j2: int|
            0 <= i2 < s.len() && 0 <= j2 < t.len() && #[trigger] r[c] == pair_of(s, t, i2, j2)
                && neighboring(s[i2].index, t[j2].index) && done_before(s, t, i, k, i2, j2)
}

/// Every neighboring pair already scanned at position (`i`, `k`)
/// appears in `r`.
spec fn complete_upto(
    r: Seq<Correspondence>,
    s: Seq<Voxel>,
    t: Seq<Voxel>,
    i: int,
    k: int,
) -> bool {
    forall|i2: int, j2: int|
        0 <= i2 < s.len() && 0 <= j2 < t.len() && neighboring(
            (#[trigger] s[i2]).index,
            (#[trigger] t[j2]).index,
        ) && done_before(s, t, i, k, i2, j2) ==> contains_pair(r, pair_of(s, t, i2, j2))
}

/// Probe the 27-cell neighborhood of every source voxel in the target
/// grid and emit one [`Correspondence`] for every hit: the result
/// holds exactly one pair for each (source voxel, target voxel)
/// combination whose cells lie within one step per axis, and nothing
/// else. A source voxel thus contributes between 0 and 27 pairs.
pub fn find_correspondences(source: &VoxelGrid, target: &VoxelGrid) -> (r: Vec<Correspondence>)
    requires
        source.wf(),
        target.wf(),
    ensures
        corr_sound(r@, source.voxels@, target.voxels@),
        corr_complete(r@, source.voxels@, target.voxels@),
        corr_distinct(r@),
{
    let ghost s = source.voxels@;
    let ghost t = target.voxels@;
    let mut out: Vec<Correspondence> = Vec::new();
    let n = source.voxels.len();
    let mut i: usize = 0;
    while i < n
        invariant
            source.wf(),
            target.wf(),
            s == source.voxels@,
            t == target.voxels@,
            n == s.len(),
            0 <= i <= n,
            sound_upto(out@, s, t, i as int, 0),
            complete_upto(out@, s, t, i as int, 0),
            corr_distinct(out@),
        decreases n - i,
    {
        let sv = source.voxels[i];
        proof {
            assert(s[i as int].wf(source.size, source.total));
        }
        let mut k: usize = 0;
        while k < 27
            invariant
                source.wf(),
                target.wf(),
                s == source.voxels@,
                t == target.voxels@,
                n == s.len(),
                0 <= i < n,
                sv == s[i as int],
                crate::voxel::index_ok(sv.index),
                0 <= k <= 27,
                sound_upto(out@, s, t, i as int, k as int),
                complete_upto(out@, s, t, i as int, k as int),
                corr_distinct(out@),
            decreases 27 - k,
        {
            let dx = (k / 9) as i128 - 1;
            let dy = ((k % 9) / 3) as i128 - 1;
            let dz = (k % 3) as i128 - 1;
            let probe = VoxelIndex { x: sv.index.x + dx, y: sv.index.y + dy, z: sv.index.z + dz };
            let ghost out0 = out@;
            match target.find_voxel(probe) {
                Some(j) => {
                    let tv = target.voxels[j];
                    let c = Correspondence { source_voxel: sv, target_voxel: tv };
                    proof {
                        assert(tv == t[j as int]);
                        assert(t[j as int].index == probe);
                        assert(neighboring(sv.index, probe));
                        assert(scan_pos(sv.index, probe) == k);
                        // The new pair is not yet in `out`: any earlier
                        // element pairs either a different source voxel
                        // (distinct index) or the same one with a target
                        // scanned strictly before step k.
                        assert forall|c2: int| 0 <= c2 < out0.len() implies out0[c2] != c by {
                            let (i2, j2) = choose|i2: int, j2: int|
                                0 <= i2 < s.len() && 0 <= j2 < t.len() && out0[c2] == pair_of(
                                    s,
                                    t,
                                    i2,
                                    j2,
                                ) && neighboring(s[i2].index, t[j2].index) && done_before(
                                    s,
                                    t,
                                    i as int,
                                    k as int,
                                    i2,
                                    j2,
                                );
                            if out0[c2] == c {
                                assert(s[i2] == sv && t[j2] == tv);
                                if i2 < i {
                                    assert(s[i2].index != s[i as int].index);
                                    assert(false);
                                } else {
                                    assert(i2 == i);
                                    assert(scan_pos(s[i2].index, t[j2].index) < k);
                                    assert(t[j2].index == probe);
                                    assert(false);
                                }
                            }
                        }
                    }
                    out.push(c);
                    proof {
                        assert(out@ == out0.push(c));
                        // Soundness and distinctness carry over; the new
                        // element is the pair (i, j), scanned at step k.
                        assert(out@[out0.len() as int] == pair_of(s, t, i as int, j as int));
                        assert(done_before(s, t, i as int, k as int + 1, i as int, j as int));
                        assert forall|c2: int| 0 <= c2 < out@.len() implies exists|i2: int, j2: int|
                            0 <= i2 < s.len() && 0 <= j2 < t.len() && #[trigger] out@[c2]
                                == pair_of(s, t, i2, j2) && neighboring(s[i2].index, t[j2].index)
                                && done_before(s, t, i as int, k as int + 1, i2, j2) by {
                            if c2 < out0.len() {
                                let (i2, j2) = choose|i2: int, j2: int|
                                    0 <= i2 < s.len() && 0 <= j2 < t.len() && out0[c2] == pair_of(
                                        s,
                                        t,
                                        i2,
                                        j2,
                                    ) && neighboring(s[i2].index, t[j2].index) && done_before(
                                        s,
                                        t,
                                        i as int,
                                        k as int,
                                        i2,
                                        j2,
                                    );
                                assert(out@[c2] == pair_of(s, t, i2, j2) && neighboring(
                                    s[i2].index,
                                    t[j2].index,
                                ) && done_before(s, t, i as int, k as int + 1, i2, j2));
                            } else {
                                assert(out@[c2] == pair_of(s, t, i as int, j as int)
                                    && neighboring(s[i as int].index, t[j as int].index)
                                    && done_before(
                                    s,
                                    t,
                                    i as int,
                                    k as int + 1,
                                    i as int,
                                    j as int,
                                ));
                            }
                        }
                        // Completeness at step k + 1: a pair of source
                        // voxel i scanned exactly at step k has its
                        // target at the probed cell, which is voxel j.
                        assert forall|i2: int, j2: int|
                            0 <= i2 < s.len() && 0 <= j2 < t.len() && neighboring(
                                (#[trigger] s[i2]).index,
                                (#[trigger] t[j2]).index,
                            ) && done_before(s, t, i as int, k as int + 1, i2, j2) implies
                            contains_pair(out@, pair_of(s, t, i2, j2)) by {
                            if done_before(s, t, i as int, k as int, i2, j2) {
                                assert(contains_pair(out0, pair_of(s, t, i2, j2)));
                                let c3 = choose|c3: int|
                                    0 <= c3 < out0.len() && out0[c3] == pair_of(s, t, i2, j2);
                                assert(out@[c3] == pair_of(s, t, i2, j2));
                            } else {
                                assert(i2 == i && scan_pos(s[i2].index, t[j2].index) == k);
                                assert(t[j2].index == probe);
                                if j2 != j {
                                    assert(t[j2].index != t[j as int].index);
                                    assert(false);
                                }
                                assert(out@[out0.len() as int] == pair_of(s, t, i2, j2));
                            }
                        }
                    }
                },
                None => {
                    proof {
                        assert(!occupied(t, probe));
                        assert(neighboring(sv.index, probe));
                        // No pair of source voxel i is scanned exactly at
                        // step k: its target would occupy the probed cell.
                        assert forall|i2: int, j2: int|
                            0 <= i2 < s.len() && 0 <= j2 < t.len() && neighboring(
                                (#[trigger] s[i2]).index,
                                (#[trigger] t[j2]).index,
                            ) && done_before(s, t, i as int, k as int + 1, i2, j2) implies
                            contains_pair(out@, pair_of(s, t, i2, j2)) by {
                            if done_before(s, t, i as int, k as int, i2, j2) {
                                assert(contains_pair(out@, pair_of(s, t, i2, j2)));
                            } else {
                                assert(i2 == i && scan_pos(s[i2].index, t[j2].index) == k);
                                assert(t[j2].index == probe);
                                assert(occupied(t, probe));
                                assert(false);
                            }
                        }
                        assert forall|c2: int| 0 <= c2 < out@.len() implies exists|i2: int, j2: int|
                            0 <= i2 < s.len() && 0 <= j2 < t.len() && #[trigger] out@[c2]
                                == pair_of(s, t, i2, j2) && neighboring(s[i2].index, t[j2].index)
                                && done_before(s, t, i as int, k as int + 1, i2, j2) by {
                            let (i2, j2) = choose|i2: int, j2: int|
                                0 <= i2 < s.len() && 0 <= j2 < t.len() && out@[c2] == pair_of(
                                    s,
                                    t,
                                    i2,
                                    j2,
                                ) && neighboring(s[i2].index, t[j2].index) && done_before(
                                    s,
                                    t,
                                    i as int,
                                    k as int,
                                    i2,
                                    j2,
                                );
                            assert(out@[c2] == pair_of(s, t, i2, j2) && neighboring(
                                s[i2].index,
                                t[j2].index,
                            ) && done_before(s, t, i as int, k as int + 1, i2, j2));
                        }
                    }
                },
            }
            k = k + 1;
        }
        proof {
            // Walking past step 26 finishes source voxel i: every
            // neighboring pair of voxel i has a scan position in 0..27.
            assert forall|c2: int| 0 <= c2 < out@.len() implies exists|i2: int, j2: int|
                0 <= i2 < s.len() && 0 <= j2 < t.len() && #[trigger] out@[c2] == pair_of(
                    s,
                    t,
                    i2,
                    j2,
                ) && neighboring(s[i2].index, t[j2].index) && done_before(
                    s,
                    t,
                    i as int + 1,
                    0,
                    i2,
                    j2,
                ) by {
                let (i2, j2) = choose|i2: int, j2: int|
                    0 <= i2 < s.len() && 0 <= j2 < t.len() && out@[c2] == pair_of(s, t, i2, j2)
                        && neighboring(s[i2].index, t[j2].index) && done_before(
                        s,
                        t,
                        i as int,
                        27,
                        i2,
                        j2,
                    );
                assert(out@[c2] == pair_of(s, t, i2, j2) && neighboring(s[i2].index, t[j2].index)
                    && done_before(s, t, i as int + 1, 0, i2, j2));
            }
            assert forall|i2: int, j2: int|
                0 <= i2 < s.len() && 0 <= j2 < t.len() && neighboring(
                    (#[trigger] s[i2]).index,
                    (#[trigger] t[j2]).index,
                ) && done_before(s, t, i as int + 1, 0, i2, j2) implies contains_pair(
                out@,
                pair_of(s, t, i2, j2),
            ) by {
                assert(0 <= scan_pos(s[i2].index, t[j2].index) < 27);
                assert(done_before(s, t, i as int, 27, i2, j2));
            }
        }
        i = i + 1;
    }
    proof {
        assert forall|c2: int| 0 <= c2 < out@.len() implies exists|i2: int, j2: int|
            0 <= i2 < s.len() && 0 <= j2 < t.len() && #[trigger] out@[c2] == pair_of(s, t, i2, j2)
                && neighboring(s[i2].index, t[j2].index) by {
            let (i2, j2) = choose|i2: int, j2: int|
                0 <= i2 < s.len() && 0 <= j2 < t.len() && out@[c2] == pair_of(s, t, i2, j2)
                    && neighboring(s[i2].index, t[j2].index) && done_before(
                    s,
                    t,
                    n as int,
                    0,
                    i2,
                    j2,
                );
            assert(out@[c2] == pair_of(s, t, i2, j2) && neighboring(s[i2].index, t[j2].index));
        }
        assert forall|i2: int, j2: int|
            0 <= i2 < s.len() && 0 <= j2 < t.len() && neighboring(
                (#[trigger] s[i2]).index,
                (#[trigger] t[j2]).index,
            ) implies contains_pair(out@, pair_of(s, t, i2, j2)) by {
            assert(done_before(s, t, n as int, 0, i2, j2));
        }
    }
    out
}

/// The full odometry front end on a pair of assembled frames: project
/// and voxelize the source and the target with the same intrinsics
/// and the fixed voxel edge length, then emit every candidate
/// correspondence between the two grids. The alignment solve that
/// would consume the candidates is out of scope, so they are returned
/// to the caller.
pub fn compute_rgbd_odometry(source: &RGBD, target: &RGBD, intrinsics: &Intrinsics) -> (r: Vec<
    Correspondence,
>)
    requires
        source.wf(),
        target.wf(),
        intrinsics.wf(),
    ensures
        ({
            let sg = spec_voxelize(
                spec_pointcloud(*source, *intrinsics),
                default_voxel_size(),
                spec_pointcloud(*source, *intrinsics).len() as int,
            );
            let tg = spec_voxelize(
                spec_pointcloud(*target, *intrinsics),
                default_voxel_size(),
                spec_pointcloud(*target, *intrinsics).len() as int,
            );
            corr_sound(r@, sg, tg) && corr_complete(r@, sg, tg) && corr_distinct(r@)
        }),
{
    let source_point_cloud = rgbd_to_pointcloud(source, intrinsics);
    let source_voxel_grid = create_voxel_grid(source_point_cloud);
    let target_point_cloud = rgbd_to_pointcloud(target, intrinsics);
    let target_voxel_grid = create_voxel_grid(target_point_cloud);
    find_correspondences(&source_voxel_grid, &target_voxel_grid)
}

} // verus!
