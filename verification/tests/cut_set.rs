use plane_cut::plane::{NEG_HALF_BITS, NEG_ONE_BITS, ONE_BITS, ZERO_BITS};
use plane_cut::{
    ConfigurationError, LinearColor, LookupError, NPlaneCutExt, Plane, PlaneCutExt, Space,
    PLANE_MAX,
};

fn plane(nx: f32, ny: f32, nz: f32, w: f32) -> Plane {
    Plane::new(nx.to_bits(), ny.to_bits(), nz.to_bits(), w.to_bits())
}

fn entries(n: usize) -> Vec<(Plane, LinearColor)> {
    (0..n)
        .map(|i| (plane(1.0, 0.0, 0.0, i as f32), LinearColor::black()))
        .collect()
}

#[test]
fn bit_patterns_are_those_of_the_numbers() {
    assert_eq!(ZERO_BITS, 0.0f32.to_bits());
    assert_eq!(ONE_BITS, 1.0f32.to_bits());
    assert_eq!(NEG_ONE_BITS, (-1.0f32).to_bits());
    assert_eq!(NEG_HALF_BITS, (-0.5f32).to_bits());
}

#[test]
fn construction_rejects_no_planes() {
    let r = NPlaneCutExt::new(Vec::new(), Space::World, true);
    assert_eq!(r.err(), Some(ConfigurationError::NoPlanes));
}

#[test]
fn construction_rejects_seven_planes() {
    let r = NPlaneCutExt::new(entries(7), Space::World, true);
    assert_eq!(r.err(), Some(ConfigurationError::TooManyPlanes));
    let r = NPlaneCutExt::new(entries(100), Space::Screen, false);
    assert_eq!(r.err(), Some(ConfigurationError::TooManyPlanes));
}

#[test]
fn construction_accepts_one_to_six_planes() {
    for n in 1..=PLANE_MAX {
        let given = entries(n);
        let cut = NPlaneCutExt::new(given.clone(), Space::Screen, false).unwrap();
        assert_eq!(cut.count(), n);
        assert_eq!(cut.planes_and_colors(), &given);
        assert_eq!(cut.space(), Space::Screen);
        assert!(!cut.shaded());
    }
}

#[test]
fn planes_keep_their_order() {
    let given = vec![
        (plane(0.0, 0.0, 1.0, 3.0), LinearColor::black()),
        (plane(0.0, 1.0, 0.0, 2.0), LinearColor::zero()),
        (plane(1.0, 0.0, 0.0, 1.0), LinearColor::black()),
    ];
    let cut = NPlaneCutExt::new(given.clone(), Space::World, true).unwrap();
    for (i, entry) in given.iter().enumerate() {
        assert_eq!(cut.get_plane(i), Some(entry.0));
        assert_eq!(cut.get_color(i), Some(entry.1));
    }
}

#[test]
fn get_plane_past_the_count_is_none() {
    let cut = NPlaneCutExt::new(entries(2), Space::World, true).unwrap();
    assert_eq!(cut.get_plane(1), Some(plane(1.0, 0.0, 0.0, 1.0)));
    assert_eq!(cut.get_plane(2), None);
    assert_eq!(cut.get_plane(usize::MAX), None);
    assert_eq!(cut.get_color(2), None);
}

#[test]
fn set_plane_replaces_one_plane_only() {
    let mut cut = NPlaneCutExt::new(entries(3), Space::World, true).unwrap();
    let moved = plane(0.0, 1.0, 0.0, -2.5);
    assert_eq!(cut.set_plane(1, moved), Ok(()));
    assert_eq!(cut.get_plane(0), Some(plane(1.0, 0.0, 0.0, 0.0)));
    assert_eq!(cut.get_plane(1), Some(moved));
    assert_eq!(cut.get_plane(2), Some(plane(1.0, 0.0, 0.0, 2.0)));
    assert_eq!(cut.get_color(1), Some(LinearColor::black()));
    assert_eq!(cut.count(), 3);
    assert_eq!(cut.as_bind_group_shader_type().planes[1], moved);
}

#[test]
fn set_plane_past_the_count_fails_and_changes_nothing() {
    let mut cut = NPlaneCutExt::new(entries(3), Space::World, true).unwrap();
    let before = cut.as_bind_group_shader_type().to_bytes();
    assert_eq!(
        cut.set_plane(3, plane(9.0, 9.0, 9.0, 9.0)),
        Err(LookupError { index: 3, count: 3 })
    );
    assert_eq!(
        cut.set_color(5, LinearColor::zero()),
        Err(LookupError { index: 5, count: 3 })
    );
    assert_eq!(cut.as_bind_group_shader_type().to_bytes(), before);
}

#[test]
fn set_color_replaces_one_color_only() {
    let mut cut = NPlaneCutExt::new(entries(2), Space::World, true).unwrap();
    let red = LinearColor::new(ONE_BITS, 0, 0, ONE_BITS);
    assert_eq!(cut.set_color(0, red), Ok(()));
    assert_eq!(cut.get_color(0), Some(red));
    assert_eq!(cut.get_color(1), Some(LinearColor::black()));
    assert_eq!(cut.get_plane(0), Some(plane(1.0, 0.0, 0.0, 0.0)));
}

#[test]
fn modes_can_be_changed() {
    let mut cut = NPlaneCutExt::default();
    assert_eq!(cut.space(), Space::World);
    assert!(cut.shaded());
    cut.set_space(Space::Screen);
    cut.set_shaded(false);
    assert_eq!(cut.space(), Space::Screen);
    assert!(!cut.shaded());
    assert_eq!(cut.as_bind_group_shader_type().flags, 1);
    assert_eq!(cut.count(), 1);
}

#[test]
fn default_n_plane_set() {
    let cut = NPlaneCutExt::default();
    assert_eq!(cut.count(), 1);
    assert_eq!(cut.get_plane(0), Some(plane(1.0, 0.0, 0.0, 0.0)));
    assert_eq!(
        cut.get_color(0),
        Some(LinearColor::new(0, 0, 0, 1.0f32.to_bits()))
    );
    assert_eq!(cut.space(), Space::World);
    assert!(cut.shaded());
    let block = cut.as_bind_group_shader_type();
    assert_eq!(block.flags, 4);
    assert_eq!(block.count, 1);
}

#[test]
fn default_six_plane_set_is_the_unit_cube() {
    let cut = PlaneCutExt::default();
    assert_eq!(cut.planes[0], plane(-1.0, 0.0, 0.0, -0.5));
    assert_eq!(cut.planes[1], plane(1.0, 0.0, 0.0, -0.5));
    assert_eq!(cut.planes[2], plane(0.0, -1.0, 0.0, -0.5));
    assert_eq!(cut.planes[3], plane(0.0, 1.0, 0.0, -0.5));
    assert_eq!(cut.planes[4], plane(0.0, 0.0, -1.0, -0.5));
    assert_eq!(cut.planes[5], plane(0.0, 0.0, 1.0, -0.5));
    assert_eq!(cut.color, LinearColor::black());
    assert_eq!(cut.space, Space::World);
    assert!(cut.shaded);
    assert_eq!(cut.as_bind_group_shader_type().flags, 4);
}

#[test]
fn default_space_is_world() {
    assert_eq!(Space::default(), Space::World);
}

#[test]
fn six_plane_get_and_set() {
    let mut cut = PlaneCutExt::default();
    assert_eq!(cut.get_plane(5), Some(plane(0.0, 0.0, 1.0, -0.5)));
    assert_eq!(cut.get_plane(6), None);
    assert_eq!(cut.set_plane(2, Plane::zero()), Ok(()));
    assert_eq!(cut.get_plane(2), Some(Plane::new(0, 0, 0, 0)));
    assert_eq!(cut.get_plane(1), Some(plane(1.0, 0.0, 0.0, -0.5)));
    assert_eq!(cut.get_plane(3), Some(plane(0.0, 1.0, 0.0, -0.5)));
    assert_eq!(
        cut.set_plane(6, Plane::zero()),
        Err(LookupError { index: 6, count: 6 })
    );
    assert_eq!(cut.color, LinearColor::black());
}

#[test]
fn one_color_for_all_planes() {
    let planes = vec![
        plane(1.0, 0.0, 0.0, 0.1),
        plane(0.0, 1.0, 0.0, 0.2),
        plane(0.0, 0.0, 1.0, 0.3),
    ];
    let blue = LinearColor::new(0, 0, ONE_BITS, ONE_BITS);
    let cut = NPlaneCutExt::with_color(planes.clone(), blue, Space::World, false).unwrap();
    assert_eq!(cut.count(), 3);
    for (i, p) in planes.iter().enumerate() {
        assert_eq!(cut.get_plane(i), Some(*p));
        assert_eq!(cut.get_color(i), Some(blue));
    }
    assert_eq!(cut.space(), Space::World);
    assert!(!cut.shaded());

    assert_eq!(
        NPlaneCutExt::with_color(Vec::new(), blue, Space::World, true).err(),
        Some(ConfigurationError::NoPlanes)
    );
    assert_eq!(
        NPlaneCutExt::with_color(vec![Plane::zero(); 7], blue, Space::World, true).err(),
        Some(ConfigurationError::TooManyPlanes)
    );
    assert!(NPlaneCutExt::with_color(vec![Plane::zero(); 6], blue, Space::World, true).is_ok());
}
