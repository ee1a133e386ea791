use plane_cut::side::{less_than, Side};
use plane_cut::{LinearColor, Plane, Space};

fn samples() -> Vec<f32> {
    vec![
        0.0,
        -0.0,
        f32::MIN_POSITIVE,
        -f32::MIN_POSITIVE,
        f32::from_bits(1),
        f32::from_bits(0x8000_0001),
        f32::from_bits(0x007F_FFFF),
        f32::from_bits(0x0080_0001),
        1.0e-20,
        -1.0e-20,
        0.1,
        0.5,
        -0.5,
        0.999_999_94,
        1.0,
        1.000_000_1,
        -1.0,
        2.0,
        3.5,
        -3.5,
        1.0e20,
        -1.0e20,
        f32::MAX,
        f32::MIN,
        f32::INFINITY,
        f32::NEG_INFINITY,
        f32::NAN,
        f32::from_bits(0xFFC0_0000),
        f32::from_bits(0x7F80_0001),
    ]
}

#[test]
fn less_than_agrees_with_the_numbers() {
    for a in samples() {
        for b in samples() {
            assert_eq!(
                less_than(a.to_bits(), b.to_bits()),
                a < b,
                "{a:?} < {b:?}"
            );
        }
    }
}

#[test]
fn kept_iff_product_is_at_least_the_offset() {
    for w in samples() {
        let plane = Plane::new(1.0f32.to_bits(), 0, 0, w.to_bits());
        for d in samples() {
            let side = plane.classify(d.to_bits());
            if d.is_nan() || w.is_nan() {
                assert_eq!(side, Side::Kept);
            } else {
                assert_eq!(side == Side::Kept, d >= w, "{d:?} against {w:?}");
            }
        }
    }
}

#[test]
fn a_point_on_the_plane_is_kept() {
    let plane = Plane::new(1.0f32.to_bits(), 0, 0, 0.5f32.to_bits());
    // The point (0.5, 7, -3): its product with the normal (1, 0, 0) is 0.5.
    let product = 1.0f32 * 0.5 + 0.0 * 7.0 + 0.0 * -3.0;
    assert_eq!(plane.classify(product.to_bits()), Side::Kept);
    assert_eq!(plane.classify(0.499_999_97f32.to_bits()), Side::Cut);
    assert_eq!(plane.classify(0.500_000_06f32.to_bits()), Side::Kept);
}

#[test]
fn zero_and_negative_zero_are_the_same_offset() {
    let plane = Plane::new(0, 1.0f32.to_bits(), 0, (-0.0f32).to_bits());
    assert_eq!(plane.classify(0.0f32.to_bits()), Side::Kept);
    assert_eq!(plane.classify((-0.0f32).to_bits()), Side::Kept);
    assert_eq!(plane.classify((-1.0e-30f32).to_bits()), Side::Cut);
}

#[test]
fn the_inert_plane_cuts_nothing() {
    let inert = Plane::zero();
    for p in samples() {
        let product = 0.0f32 * p + 0.0 * p + 0.0 * p;
        assert_eq!(inert.classify(product.to_bits()), Side::Kept);
    }
}

#[test]
fn unit_cube_keeps_its_inside_and_cuts_its_outside() {
    let cube = plane_cut::PlaneCutExt::default();
    let product = |plane: &Plane, p: [f32; 3]| {
        f32::from_bits(plane.nx) * p[0]
            + f32::from_bits(plane.ny) * p[1]
            + f32::from_bits(plane.nz) * p[2]
    };
    let kept_by_all = |p: [f32; 3]| {
        cube.planes
            .iter()
            .all(|plane| plane.classify(product(plane, p).to_bits()) == Side::Kept)
    };
    assert!(kept_by_all([0.0, 0.0, 0.0]));
    assert!(kept_by_all([0.5, -0.5, 0.5]));
    assert!(kept_by_all([0.25, 0.1, -0.4]));
    assert!(!kept_by_all([0.75, 0.0, 0.0]));
    assert!(!kept_by_all([0.0, -0.6, 0.0]));
    assert!(!kept_by_all([0.0, 0.0, 1.0]));
    // The right face alone cuts x > 0.5.
    let right = cube.planes[0];
    assert_eq!(right.classify(product(&right, [0.6, 0.0, 0.0]).to_bits()), Side::Cut);
    assert_eq!(right.classify(product(&right, [0.5, 0.0, 0.0]).to_bits()), Side::Kept);
    assert_eq!(right.classify(product(&right, [-9.0, 0.0, 0.0]).to_bits()), Side::Kept);
}

#[test]
fn pack_entries_takes_none_and_refuses_seven() {
    let none: Vec<(Plane, LinearColor)> = Vec::new();
    let block = plane_cut::nplane::pack_entries(&none, Space::Screen, true).unwrap();
    assert_eq!(block.count, 0);
    assert_eq!(block.flags, 5);
    assert!(block.planes.iter().all(|p| *p == Plane::zero()));
    assert!(block.colors.iter().all(|c| *c == LinearColor::zero()));
    let bytes = block.to_bytes();
    assert!(bytes[0..192].iter().all(|b| *b == 0));
    assert_eq!(&bytes[192..200], &[5, 0, 0, 0, 0, 0, 0, 0]);

    let seven = vec![(Plane::new(1, 2, 3, 4), LinearColor::black()); 7];
    assert_eq!(
        plane_cut::nplane::pack_entries(&seven, Space::World, true).err(),
        Some(plane_cut::ConfigurationError::TooManyPlanes)
    );

    let two = vec![(Plane::new(1, 2, 3, 4), LinearColor::new(5, 6, 7, 8)); 2];
    let block = plane_cut::nplane::pack_entries(&two, Space::World, false).unwrap();
    let cut = plane_cut::NPlaneCutExt::new(two, Space::World, false).unwrap();
    assert_eq!(block.to_bytes(), cut.as_bind_group_shader_type().to_bytes());
    assert_eq!(block.count, 2);
}
