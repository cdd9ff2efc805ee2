use rgbd_odometry::image::{create_rgbd_image, create_voxel_grid, rgbd_to_pointcloud};
use rgbd_odometry::odometry::{compute_rgbd_odometry, find_correspondences};
use rgbd_odometry::scalar::Scalar;
use rgbd_odometry::utils::Intrinsics;
use rgbd_odometry::voxel::{Color, Vector3, VoxelGrid, VoxelIndex};

fn vec3(xn: i128, xd: i128, yn: i128, yd: i128, zn: i128, zd: i128) -> Vector3 {
    Vector3 {
        x: Scalar::new(xn, xd),
        y: Scalar::new(yn, yd),
        z: Scalar::new(zn, zd),
    }
}

fn centimeter_grid() -> VoxelGrid {
    VoxelGrid::new(Scalar::new(1, 100))
}

fn unit_intrinsics() -> Intrinsics {
    Intrinsics::new(
        Scalar::new(1, 1),
        Scalar::new(1, 1),
        Scalar::new(0, 1),
        Scalar::new(0, 1),
    )
}

const GRAY: Color = Color { r: 128, g: 128, b: 128 };

#[test]
fn one_correspondence_per_overlapping_cell_pair() {
    // Source: one voxel at cell (0,0,0).
    let mut source = centimeter_grid();
    source.add_point(vec3(1, 1000, 1, 1000, 1, 1000), GRAY);
    // Target: voxels at cells (0,0,0), (1,1,1) — both in the
    // neighborhood — and (5,5,5), which is not.
    let mut target = centimeter_grid();
    target.add_point(vec3(1, 1000, 1, 1000, 1, 1000), GRAY);
    target.add_point(vec3(15, 1000, 15, 1000, 15, 1000), GRAY);
    target.add_point(vec3(55, 1000, 55, 1000, 55, 1000), GRAY);

    let corr = find_correspondences(&source, &target);
    assert_eq!(corr.len(), 2);
    let mut hit_same = 0;
    let mut hit_diag = 0;
    for c in &corr {
        assert_eq!(c.source_voxel.index, VoxelIndex { x: 0, y: 0, z: 0 });
        if c.target_voxel.index == (VoxelIndex { x: 0, y: 0, z: 0 }) {
            hit_same += 1;
        }
        if c.target_voxel.index == (VoxelIndex { x: 1, y: 1, z: 1 }) {
            hit_diag += 1;
        }
    }
    assert_eq!(hit_same, 1);
    assert_eq!(hit_diag, 1);
}

#[test]
fn no_correspondence_outside_neighborhood() {
    let mut source = centimeter_grid();
    source.add_point(vec3(1, 1000, 1, 1000, 1, 1000), GRAY);
    let mut target = centimeter_grid();
    target.add_point(vec3(95, 1000, 1, 1000, 1, 1000), GRAY);
    let corr = find_correspondences(&source, &target);
    assert_eq!(corr.len(), 0);
}

#[test]
fn source_voxel_can_match_many_targets() {
    // All 27 neighborhood cells of (1,1,1) occupied in the target:
    // one source voxel yields 27 correspondences, none deduplicated.
    let mut source = centimeter_grid();
    source.add_point(vec3(15, 1000, 15, 1000, 15, 1000), GRAY);
    let mut target = centimeter_grid();
    for x in 0..3i128 {
        for y in 0..3i128 {
            for z in 0..3i128 {
                target.add_point(
                    vec3(10 * x + 5, 1000, 10 * y + 5, 1000, 10 * z + 5, 1000),
                    GRAY,
                );
            }
        }
    }
    assert_eq!(target.voxels.len(), 27);
    let corr = find_correspondences(&source, &target);
    assert_eq!(corr.len(), 27);
}

#[test]
fn pipeline_rerun_builds_identical_grids() {
    let rgb: Vec<u8> = vec![
        1, 2, 3, 4, 5, 6, //
        7, 8, 9, 10, 11, 12,
    ];
    let depth: Vec<u16> = vec![1000, 0, 500, 2500];
    let frame = create_rgbd_image(rgb, 2, 2, depth, 2, 2).unwrap();
    let intr = unit_intrinsics();

    let cloud1 = rgbd_to_pointcloud(&frame, &intr);
    let grid1 = create_voxel_grid(cloud1);
    let cloud2 = rgbd_to_pointcloud(&frame, &intr);
    let grid2 = create_voxel_grid(cloud2);

    assert_eq!(grid1, grid2);
}

#[test]
fn odometry_end_to_end_emits_candidates() {
    let rgb: Vec<u8> = vec![10u8; 12];
    let depth: Vec<u16> = vec![100, 100, 100, 100];
    let source = create_rgbd_image(rgb.clone(), 2, 2, depth.clone(), 2, 2).unwrap();
    let target = create_rgbd_image(rgb, 2, 2, depth, 2, 2).unwrap();
    let intr = unit_intrinsics();
    let corr = compute_rgbd_odometry(&source, &target, &intr);
    // Identical frames: every source voxel at least matches its own
    // cell in the target grid.
    assert!(!corr.is_empty());
    for c in &corr {
        let dx = c.target_voxel.index.x - c.source_voxel.index.x;
        let dy = c.target_voxel.index.y - c.source_voxel.index.y;
        let dz = c.target_voxel.index.z - c.source_voxel.index.z;
        assert!(dx.abs() <= 1 && dy.abs() <= 1 && dz.abs() <= 1);
    }
}
