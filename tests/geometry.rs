use ahistorics::geometry::{
    cube_dir, rebalance, sector_dir, snap_candidates, unit_move_target, AxialPoint, Axis,
    CubePoint, Dir,
};

const ALL_DIRS: [Dir; 6] = [
    Dir::Up,
    Dir::UpLeft,
    Dir::DownLeft,
    Dir::Down,
    Dir::DownRight,
    Dir::UpRight,
];

#[test]
fn direction_offsets_are_unit_cells() {
    assert_eq!(cube_dir(Dir::Up), CubePoint::new(0, 1, -1));
    assert_eq!(cube_dir(Dir::UpLeft), CubePoint::new(-1, 1, 0));
    assert_eq!(cube_dir(Dir::DownLeft), CubePoint::new(-1, 0, 1));
    assert_eq!(cube_dir(Dir::Down), CubePoint::new(0, -1, 1));
    assert_eq!(cube_dir(Dir::DownRight), CubePoint::new(1, -1, 0));
    assert_eq!(cube_dir(Dir::UpRight), CubePoint::new(1, 0, -1));
    for d in ALL_DIRS {
        let p = cube_dir(d);
        assert_eq!(p.a + p.b + p.c, 0);
    }
}

#[test]
fn opposite_direction_negates_offset() {
    for d in ALL_DIRS {
        let i: usize = d.into();
        let o = sector_dir(i + 3);
        assert_eq!(o, d.opposite());
        assert_eq!(cube_dir(o), -cube_dir(d));
    }
    assert_eq!(Dir::Up.opposite(), Dir::Down);
    assert_eq!(Dir::UpRight.opposite(), Dir::DownLeft);
}

#[test]
fn sectors_wrap_modulo_six() {
    assert_eq!(sector_dir(0), Dir::Up);
    assert_eq!(sector_dir(5), Dir::UpRight);
    assert_eq!(sector_dir(6), Dir::Up);
    assert_eq!(sector_dir(13), Dir::UpLeft);
    assert_eq!(Dir::from(7u8), Dir::UpLeft);
    assert_eq!(Dir::from(3u8), Dir::Down);
    assert_eq!(u8::from(Dir::DownRight), 4);
    assert_eq!(usize::from(Dir::DownLeft), 2);
    assert_eq!(Dir::UpRight.index(), 5);
}

#[test]
fn from_q_r_derives_middle_axis() {
    let p = CubePoint::from_q_r(3, -5);
    assert_eq!(p, CubePoint::new(3, 2, -5));
    assert_eq!(p.a + p.b + p.c, 0);
    let q = CubePoint::from_q_r(-7, -9);
    assert_eq!(q.b, 16);
}

#[test]
fn neighbour_arithmetic_keeps_zero_sum() {
    let mut p = CubePoint::from_q_r(2, 1);
    for (k, d) in ALL_DIRS.iter().enumerate() {
        p = if k % 2 == 0 { p + cube_dir(*d) } else { p - cube_dir(*d) };
        assert_eq!(p.a + p.b + p.c, 0);
    }
    let sum = CubePoint::from_q_r(4, -1) + CubePoint::from_q_r(-2, 6);
    assert_eq!(sum, CubePoint::new(2, -7, 5));
    let diff = CubePoint::from_q_r(4, -1) - CubePoint::from_q_r(-2, 6);
    assert_eq!(diff, CubePoint::new(6, 1, -7));
}

#[test]
fn unit_move_from_origin_facing_up() {
    let origin = CubePoint::new(0, 0, 0);
    let ahead = unit_move_target(origin, 0, true);
    assert_eq!(ahead, cube_dir(Dir::Up));
    assert_eq!(ahead, CubePoint::new(0, 1, -1));
    let behind = unit_move_target(origin, 0, false);
    assert_eq!(behind, CubePoint::new(0, -1, 1));
}

#[test]
fn unit_move_uses_sector_modulo_six() {
    let start = CubePoint::from_q_r(1, 1);
    assert_eq!(unit_move_target(start, 2, true), CubePoint::new(0, -2, 2));
    assert_eq!(unit_move_target(start, 8, true), CubePoint::new(0, -2, 2));
    assert_eq!(unit_move_target(start, 4, false), CubePoint::new(0, -1, 1));
}

#[test]
fn map_and_cast_act_on_each_coordinate() {
    let p = CubePoint::new(1, -3, 2);
    let doubled = p.map(|x: i32| x * 2);
    assert_eq!(doubled, CubePoint::new(2, -6, 4));
    let real: CubePoint<f64> = p.cast();
    assert_eq!(real, CubePoint::new(1.0, -3.0, 2.0));
    let wide: CubePoint<i64> = p.cast();
    assert_eq!(wide, CubePoint::new(1i64, -3, 2));
}

#[test]
fn axial_points_add_and_convert() {
    let p = AxialPoint::new(2, -1) + AxialPoint::new(-5, 4);
    assert_eq!(p, AxialPoint::new(-3, 3));
    assert_eq!(p.to_cube(), CubePoint::new(-3, 0, 3));
    let back = AxialPoint::from(CubePoint::new(4, -1, -3));
    assert_eq!(back, AxialPoint::new(4, -3));
}

#[test]
fn rebalance_recomputes_one_axis() {
    let rounded = CubePoint::new(1, 1, -1);
    assert_eq!(rebalance(rounded, Axis::A), CubePoint::new(0, 1, -1));
    assert_eq!(rebalance(rounded, Axis::B), CubePoint::new(1, 0, -1));
    assert_eq!(rebalance(rounded, Axis::C), CubePoint::new(1, 1, -2));
    let cands = snap_candidates(CubePoint::new(2, -1, 0));
    assert_eq!(cands[0], CubePoint::new(1, -1, 0));
    assert_eq!(cands[1], CubePoint::new(2, -2, 0));
    assert_eq!(cands[2], CubePoint::new(2, -1, -1));
    for c in cands {
        assert_eq!(c.a + c.b + c.c, 0);
    }
}
