use rgbd_odometry::scalar::Scalar;
use rgbd_odometry::voxel::{cell_index, Color, Vector3, Voxel, VoxelGrid, VoxelIndex};

fn vec3(xn: i128, xd: i128, yn: i128, yd: i128, zn: i128, zd: i128) -> Vector3 {
    Vector3 {
        x: Scalar::new(xn, xd),
        y: Scalar::new(yn, yd),
        z: Scalar::new(zn, zd),
    }
}

fn centimeter_grid() -> VoxelGrid {
    VoxelGrid::new(Scalar::new(1, 100))
}

#[test]
fn cell_index_uses_floor_division() {
    let size = Scalar::new(1, 100);
    // +0.001 lands in cell 0, -0.001 in cell -1: floor, not
    // truncation toward zero.
    let pos = vec3(1, 1000, -1, 1000, 0, 1);
    let idx = cell_index(pos, size);
    assert_eq!(idx, VoxelIndex { x: 0, y: -1, z: 0 });
    // Exactly on a cell boundary: -0.01 belongs to cell -1.
    let pos2 = vec3(-1, 100, 1, 100, 25, 1000);
    let idx2 = cell_index(pos2, size);
    assert_eq!(idx2, VoxelIndex { x: -1, y: 1, z: 2 });
}

#[test]
fn voxel_new_centers_cell() {
    let v = Voxel::new(
        VoxelIndex { x: 0, y: -1, z: 3 },
        Color { r: 9, g: 8, b: 7 },
        Scalar::new(1, 100),
    );
    // Center is (index + 1/2) * size per axis: 1/200, -1/200, 7/200.
    assert!(v.position.x.same_value(&Scalar::new(1, 200)));
    assert!(v.position.y.same_value(&Scalar::new(-1, 200)));
    assert!(v.position.z.same_value(&Scalar::new(7, 200)));
    assert_eq!(v.count, 1);
    assert_eq!(v.color_sum.r, 9);
    assert!(v.normal.is_none());
}

#[test]
fn merge_two_points_same_cell_either_order() {
    let p1 = vec3(1, 1000, 2, 1000, 3, 1000);
    let p2 = vec3(4, 1000, 5, 1000, 6, 1000);
    let c1 = Color { r: 10, g: 20, b: 30 };
    let c2 = Color { r: 30, g: 40, b: 90 };

    let mut g12 = centimeter_grid();
    g12.add_point(p1, c1);
    g12.add_point(p2, c2);
    let mut g21 = centimeter_grid();
    g21.add_point(p2, c2);
    g21.add_point(p1, c1);

    assert_eq!(g12.voxels.len(), 1);
    let v = &g12.voxels[0];
    assert_eq!(v.count, 2);
    // The stored average is (c1 + c2) / 2 per channel: the sums are
    // c1 + c2 over count 2.
    assert_eq!(v.color_sum.r, 40);
    assert_eq!(v.color_sum.g, 60);
    assert_eq!(v.color_sum.b, 120);
    let avg = v.avg_color();
    // (10 + 30) / 2 = 20, normalized: 20 / 255 = 4 / 51.
    assert!(avg.x.same_value(&Scalar::new(4, 51)));
    assert_eq!(g12, g21);
}

#[test]
fn merge_many_points_mean_color() {
    let cs = [17u8, 40u8, 99u8, 4u8];
    let mut g = centimeter_grid();
    for c in cs {
        g.add_point(
            vec3(2, 1000, 2, 1000, 2, 1000),
            Color { r: c, g: c, b: c },
        );
    }
    assert_eq!(g.voxels.len(), 1);
    assert_eq!(g.total, 4);
    let v = &g.voxels[0];
    assert_eq!(v.count, 4);
    let total: u128 = 17 + 40 + 99 + 4;
    assert_eq!(v.color_sum.r, total);
    let avg = v.avg_color();
    assert_eq!(avg.x, Scalar::new(total as i128, 255 * 4));
}

#[test]
fn distinct_cells_make_distinct_voxels() {
    let mut g = centimeter_grid();
    g.add_point(vec3(1, 1000, 0, 1, 0, 1), Color { r: 1, g: 1, b: 1 });
    g.add_point(vec3(15, 1000, 0, 1, 0, 1), Color { r: 2, g: 2, b: 2 });
    assert_eq!(g.voxels.len(), 2);
    assert_eq!(g.voxels[0].index, VoxelIndex { x: 0, y: 0, z: 0 });
    assert_eq!(g.voxels[1].index, VoxelIndex { x: 1, y: 0, z: 0 });
    assert_eq!(g.total, 2);
}

#[test]
fn normal_of_isolated_voxel_is_zero_offset() {
    let mut g = centimeter_grid();
    g.add_point(vec3(1, 1000, 1, 1000, 1, 1000), Color { r: 5, g: 5, b: 5 });
    g.compute_normal();
    assert_eq!(g.voxels.len(), 1);
    let n = g.voxels[0].normal.unwrap();
    // The only neighbor is the voxel itself, so the centroid is its
    // own center and the offset is zero.
    assert_eq!(n.x.num, 0);
    assert_eq!(n.y.num, 0);
    assert_eq!(n.z.num, 0);
    assert!(n.x.den > 0);
}

#[test]
fn normal_points_away_from_neighbor() {
    let mut g = centimeter_grid();
    // Two voxels side by side along x: cells (0,0,0) and (1,0,0).
    g.add_point(vec3(1, 1000, 0, 1, 0, 1), Color { r: 1, g: 1, b: 1 });
    g.add_point(vec3(15, 1000, 0, 1, 0, 1), Color { r: 1, g: 1, b: 1 });
    g.compute_normal();
    let n0 = g.voxels[0].normal.unwrap();
    // Centroid of centers (1/200, ...) and (3/200, ...) is x = 1/100;
    // offset of own center from it is 1/200 - 1/100 = -1/200.
    assert!(n0.x.same_value(&Scalar::new(-1, 200)));
    assert!(n0.y.same_value(&Scalar::new(0, 1)));
    assert!(n0.z.same_value(&Scalar::new(0, 1)));
    let n1 = g.voxels[1].normal.unwrap();
    assert!(n1.x.same_value(&Scalar::new(1, 200)));
}
