use fox_field::components::Position;
use fox_field::ray::{ray_at_height, ray_box_intersection, Direction, Ray};

const M: i64 = 1_000_000;

fn at(x: i64, y: i64, z: i64) -> Position {
    Position { x: x * M, y: y * M, z: z * M }
}

fn ray(origin: Position, x: i32, y: i32, z: i32) -> Ray {
    Ray { origin, direction: Direction { x, y, z } }
}

fn cube(half: i64) -> Position {
    at(half, half, half)
}

#[test]
fn a_ray_along_an_axis_enters_at_the_near_face() {
    let r = ray(at(0, 0, 0), 1_000_000, 0, 0);
    assert_eq!(ray_box_intersection(&r, at(30, 0, 0), cube(8)), Some(22_000_000));
    let r = ray(at(0, 0, 0), -1_000_000, 0, 0);
    assert_eq!(ray_box_intersection(&r, at(-30, 0, 0), cube(8)), Some(22_000_000));
    let r = ray(at(0, 100, 0), 0, -1_000_000, 0);
    assert_eq!(ray_box_intersection(&r, at(0, 0, 0), cube(8)), Some(92_000_000));
    let r = ray(at(1, 2, -50), 0, 0, 1_000_000);
    assert_eq!(ray_box_intersection(&r, at(0, 0, 0), cube(8)), Some(42_000_000));
}

#[test]
fn a_ray_that_starts_inside_enters_at_once() {
    let r = ray(at(1, 2, 3), 1_000_000, 0, 0);
    assert_eq!(ray_box_intersection(&r, at(0, 0, 0), cube(8)), Some(0));
    let r = ray(at(1, 2, 3), -300_000, 500_000, 800_000);
    assert_eq!(ray_box_intersection(&r, at(0, 0, 0), cube(8)), Some(0));
}

#[test]
fn a_box_behind_the_origin_is_missed() {
    let r = ray(at(0, 0, 0), 1_000_000, 0, 0);
    assert_eq!(ray_box_intersection(&r, at(-30, 0, 0), cube(8)), None);
    let r = ray(at(0, 0, 0), -600_000, -800_000, 0);
    assert_eq!(ray_box_intersection(&r, at(30, 40, 0), cube(8)), None);
}

#[test]
fn a_box_beside_the_ray_is_missed() {
    let r = ray(at(0, 0, 0), 1_000_000, 0, 0);
    assert_eq!(ray_box_intersection(&r, at(30, 9, 0), cube(8)), None);
    assert_eq!(ray_box_intersection(&r, at(30, 0, -9), cube(8)), None);
    let r = ray(at(0, 0, 0), 600_000, 800_000, 0);
    assert_eq!(ray_box_intersection(&r, at(30, 0, 0), cube(8)), None);
}

#[test]
fn the_faces_belong_to_the_box() {
    let r = ray(at(0, 8, 0), 1_000_000, 0, 0);
    assert_eq!(ray_box_intersection(&r, at(30, 0, 0), cube(8)), Some(22_000_000));
    let r = ray(at(0, 0, -8), 1_000_000, 0, 0);
    assert_eq!(ray_box_intersection(&r, at(30, 0, 0), cube(8)), Some(22_000_000));
    let just_off = Ray { origin: Position { x: 0, y: 8 * M + 1, z: 0 }, ..r };
    assert_eq!(ray_box_intersection(&just_off, at(30, 0, 0), cube(8)), None);
    let touching_corner = ray(at(0, 0, 0), 1_000_000, 1_000_000, 0);
    assert_eq!(ray_box_intersection(&touching_corner, at(30, 14, 0), cube(8)), Some(22_000_000));
    assert_eq!(ray_box_intersection(&touching_corner, at(30, 15, 0), cube(8)), Some(22_000_000));
    assert_eq!(ray_box_intersection(&touching_corner, at(30, 13, 0), cube(8)), None);
    assert_eq!(ray_box_intersection(&touching_corner, at(31, 14, 0), cube(8)), None);
    assert_eq!(ray_box_intersection(&touching_corner, at(30, 47, 0), cube(8)), None);
}

#[test]
fn a_slanted_ray_enters_where_it_is_in_all_three_slabs() {
    let r = ray(at(0, 0, 0), 1_000_000, 1_000_000, 0);
    assert_eq!(ray_box_intersection(&r, at(10, 10, 0), cube(2)), Some(8_000_000));
    assert_eq!(ray_box_intersection(&r, at(10, 11, 0), cube(2)), Some(9_000_000));
    // Towards the origin: under y = 8 from 401.3 on, within x and z from 395.8 on.
    let r = ray(at(200, 300, 200), -485_071, -727_607, -485_071);
    assert_eq!(ray_box_intersection(&r, at(0, 0, 0), cube(8)), Some(401_315_545));
    // Past the box: under y = 8 only from 417.1 on, out of x and z at 416.
    let r = ray(at(200, 300, 200), -500_000, -700_000, -500_000);
    assert_eq!(ray_box_intersection(&r, at(0, 0, 0), cube(8)), None);
}

#[test]
fn the_multiple_is_of_the_direction_as_it_is() {
    let r = ray(at(0, 0, 0), 2_000_000, 0, 0);
    assert_eq!(ray_box_intersection(&r, at(10, 0, 0), cube(2)), Some(4_000_000));
    let r = ray(at(0, 0, 0), 3, 0, 0);
    let near = Position { x: 11, y: 0, z: 0 };
    let unit = Position { x: 1, y: 1, z: 1 };
    assert_eq!(ray_box_intersection(&r, near, unit), Some(3_333_333));
}

#[test]
fn a_ray_that_does_not_move_hits_what_it_stands_in() {
    let r = ray(at(1, 1, 1), 0, 0, 0);
    assert_eq!(ray_box_intersection(&r, at(0, 0, 0), cube(8)), Some(0));
    assert_eq!(ray_box_intersection(&r, at(10, 0, 0), cube(8)), None);
}

#[test]
fn a_box_turned_inside_out_is_missed() {
    let r = ray(at(0, 0, 0), 1_000_000, 0, 0);
    assert_eq!(ray_box_intersection(&r, at(30, 0, 0), cube(-8)), None);
    assert_eq!(ray_box_intersection(&r, at(30, 0, 0), cube(0)), Some(30_000_000));
}

#[test]
fn a_distance_too_large_to_tell_is_the_largest() {
    let r = Ray {
        origin: Position { x: i64::MIN, y: 0, z: 0 },
        direction: Direction { x: 1, y: 0, z: 0 },
    };
    let far = Position { x: i64::MAX, y: 0, z: 0 };
    assert_eq!(ray_box_intersection(&r, far, cube(1)), Some(u64::MAX));
    let r = Ray {
        origin: Position { x: i64::MIN, y: i64::MIN, z: i64::MIN },
        direction: Direction { x: i32::MAX, y: i32::MAX, z: i32::MAX },
    };
    let corner = Position { x: i64::MAX, y: i64::MAX, z: i64::MAX };
    let whole = Position { x: i64::MAX, y: i64::MAX, z: i64::MAX };
    assert_eq!(ray_box_intersection(&r, corner, whole), Some(4_294_967_298_000_000));
    let back = Ray { direction: Direction { x: i32::MIN, y: i32::MIN, z: i32::MIN }, ..r };
    assert_eq!(ray_box_intersection(&back, corner, whole), None);
}

#[test]
fn a_ray_reaches_a_height_it_moves_towards() {
    let r = ray(at(200, 300, 200), -500_000, -700_000, -500_000);
    assert_eq!(
        ray_at_height(&r, 8 * M),
        Some(Position { x: -8_571_428, y: 8_000_000, z: -8_571_428 })
    );
    let r = ray(at(0, 0, 0), 1_000_000, 2_000_000, -3_000_000);
    assert_eq!(ray_at_height(&r, 10 * M), Some(at(5, 10, -15)));
    let r = ray(at(3, 9, 4), 0, -1, 0);
    assert_eq!(ray_at_height(&r, 8 * M), Some(at(3, 8, 4)));
}

#[test]
fn a_ray_does_not_reach_a_height_behind_it_or_beside_it() {
    let up = ray(at(0, 10, 0), 0, 1_000_000, 0);
    let down = ray(at(0, 6, 0), 0, -1_000_000, 0);
    let level = ray(at(0, 10, 0), 1_000_000, 0, 0);
    let on_it = ray(at(0, 8, 0), 1_000_000, -1_000_000, 0);
    assert_eq!(ray_at_height(&up, 8 * M), None);
    assert_eq!(ray_at_height(&down, 8 * M), None);
    assert_eq!(ray_at_height(&level, 8 * M), None);
    assert_eq!(ray_at_height(&on_it, 8 * M), None);
}

#[test]
fn a_point_too_far_to_tell_is_the_farthest() {
    let r = Ray {
        origin: Position { x: 0, y: i64::MAX, z: 0 },
        direction: Direction { x: i32::MAX, y: -1, z: i32::MIN },
    };
    assert_eq!(
        ray_at_height(&r, i64::MIN),
        Some(Position { x: i64::MAX, y: i64::MIN, z: i64::MIN })
    );
}
