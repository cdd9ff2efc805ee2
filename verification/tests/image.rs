use rgbd_odometry::image::{create_rgbd_image, rgbd_to_pointcloud};
use rgbd_odometry::scalar::Scalar;
use rgbd_odometry::utils::Intrinsics;
use rgbd_odometry::OdometryError;

fn unit_intrinsics() -> Intrinsics {
    Intrinsics::new(
        Scalar::new(1, 1),
        Scalar::new(1, 1),
        Scalar::new(0, 1),
        Scalar::new(0, 1),
    )
}

#[test]
fn frame_assembly_buffer_lengths() {
    let w: u32 = 5;
    let h: u32 = 4;
    let rgb: Vec<u8> = vec![7u8; (w * h * 3) as usize];
    let depth: Vec<u16> = vec![250u16; (w * h) as usize];
    let frame = create_rgbd_image(rgb, w, h, depth, w, h).unwrap();
    assert_eq!(frame.rgb.len(), (w * h * 3) as usize);
    assert_eq!(frame.depth.len(), (w * h) as usize);
    assert_eq!(frame.width, w);
    assert_eq!(frame.height, h);
}

#[test]
fn depth_converts_to_exact_thousandths() {
    let rgb: Vec<u8> = vec![0u8; 3];
    let depth: Vec<u16> = vec![1234u16];
    let frame = create_rgbd_image(rgb, 1, 1, depth, 1, 1).unwrap();
    assert_eq!(frame.depth[0], Scalar::new(1234, 1000));
    assert!(frame.depth[0].same_value(&Scalar::new(617, 500)));
}

#[test]
fn dimension_mismatch_fails_assembly() {
    let rgb: Vec<u8> = vec![0u8; 2 * 3 * 3];
    let depth: Vec<u16> = vec![0u16; 3 * 2];
    let r = create_rgbd_image(rgb, 2, 3, depth, 3, 2);
    assert_eq!(r.unwrap_err(), OdometryError::DimensionMismatch);
}

#[test]
fn projection_2x2_unit_intrinsics() {
    // Raw depths in mm at pixels (0,0), (1,0), (0,1), (1,1); the
    // zero-depth pixel at (0,1) must be skipped.
    let depth: Vec<u16> = vec![1000, 2000, 0, 500];
    let rgb: Vec<u8> = vec![
        255, 0, 0, // pixel (0,0)
        0, 255, 0, // pixel (1,0)
        0, 0, 255, // pixel (0,1)
        10, 20, 30, // pixel (1,1)
    ];
    let frame = create_rgbd_image(rgb, 2, 2, depth, 2, 2).unwrap();
    let cloud = rgbd_to_pointcloud(&frame, &unit_intrinsics());
    assert_eq!(cloud.len(), 3);

    // (0, 0, 1.0)
    assert!(cloud[0].position.x.same_value(&Scalar::new(0, 1)));
    assert!(cloud[0].position.y.same_value(&Scalar::new(0, 1)));
    assert!(cloud[0].position.z.same_value(&Scalar::new(1, 1)));
    assert_eq!(cloud[0].color.r, 255);
    assert_eq!(cloud[0].color.g, 0);

    // (2.0, 0, 2.0)
    assert!(cloud[1].position.x.same_value(&Scalar::new(2, 1)));
    assert!(cloud[1].position.y.same_value(&Scalar::new(0, 1)));
    assert!(cloud[1].position.z.same_value(&Scalar::new(2, 1)));
    assert_eq!(cloud[1].color.g, 255);

    // (0.5, 0.5, 0.5)
    assert!(cloud[2].position.x.same_value(&Scalar::new(1, 2)));
    assert!(cloud[2].position.y.same_value(&Scalar::new(1, 2)));
    assert!(cloud[2].position.z.same_value(&Scalar::new(1, 2)));
    assert_eq!(cloud[2].color.b, 30);
}

#[test]
fn projection_applies_principal_point_and_focal() {
    // fx = fy = 2, cx = cy = 1/2: pixel (0,0) at depth 1m maps to
    // x = (0 - 1/2) * 1 / 2 = -1/4.
    let intr = Intrinsics::new(
        Scalar::new(2, 1),
        Scalar::new(2, 1),
        Scalar::new(1, 2),
        Scalar::new(1, 2),
    );
    let rgb: Vec<u8> = vec![1, 2, 3];
    let depth: Vec<u16> = vec![1000];
    let frame = create_rgbd_image(rgb, 1, 1, depth, 1, 1).unwrap();
    let cloud = rgbd_to_pointcloud(&frame, &intr);
    assert_eq!(cloud.len(), 1);
    assert!(cloud[0].position.x.same_value(&Scalar::new(-1, 4)));
    assert!(cloud[0].position.y.same_value(&Scalar::new(-1, 4)));
    assert!(cloud[0].position.z.same_value(&Scalar::new(1, 1)));
}
