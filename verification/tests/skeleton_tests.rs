use scathanna_core::bounds::BoundingBox;
use scathanna_core::fixed::Fixed;
use scathanna_core::frame::{Frame, Orientation};
use scathanna_core::skeleton::{
    Skeleton, AIR_CONTROL, AIR_DRAG, DRAG, GRAVITY, GROUND_PROBE, MAX_AIRCTL_SPEED,
    STAIRCLIMB_SPEED, STEP_HEIGHT, SUBSTEPS,
};
use scathanna_core::vector::Vec3;
use scathanna_core::world::{BoxWorld, EmptyWorld};

fn raw(x: i64, y: i64, z: i64) -> Vec3 {
    Vec3::new(Fixed::from_raw(x), Fixed::from_raw(y), Fixed::from_raw(z))
}

fn facing(yaw: i64, pitch: i64) -> Orientation {
    Orientation { yaw: Fixed::from_raw(yaw), pitch: Fixed::from_raw(pitch) }
}

fn body(position: Vec3, velocity: Vec3) -> Skeleton {
    let mut s = Skeleton::new(position, facing(0, 0), Fixed::from_int(1), Fixed::from_int(2));
    s.velocity = velocity;
    s
}

fn slab(lo: (i64, i64, i64), hi: (i64, i64, i64)) -> BoundingBox {
    BoundingBox::new(raw(lo.0, lo.1, lo.2), raw(hi.0, hi.1, hi.2))
}

/// Ground whose top is at height zero.
fn ground() -> BoxWorld {
    BoxWorld::new(vec![slab((-100_000_000, -1_000_000, -100_000_000), (100_000_000, 0, 100_000_000))])
}

fn tick_of_a_sixtieth() -> Fixed {
    Fixed::from_ratio(1, 60)
}

#[test]
fn the_constants_have_their_values() {
    assert_eq!(GRAVITY, 48_000_000);
    assert_eq!(DRAG, 50_000);
    assert_eq!(STAIRCLIMB_SPEED, 15_000_000);
    assert_eq!(STEP_HEIGHT, 2_100_000);
    assert_eq!(GROUND_PROBE, 50_000);
    assert_eq!(MAX_AIRCTL_SPEED, 12_000_000);
    assert_eq!(AIR_CONTROL, 800_000);
    assert_eq!(AIR_DRAG, 100_000);
    assert_eq!(SUBSTEPS, 16);
}

#[test]
fn a_new_body_is_at_rest() {
    let s = Skeleton::new(raw(1, 2, 3), facing(4, 5), Fixed::from_raw(6), Fixed::from_raw(7));
    assert_eq!(s.position, raw(1, 2, 3));
    assert_eq!(s.velocity, Vec3::zero());
    assert_eq!(s.orientation, facing(4, 5));
    assert_eq!(s.hsize.raw, 6);
    assert_eq!(s.vsize.raw, 7);
}

#[test]
fn the_bounds_are_centred_on_the_feet() {
    let s = body(raw(10_000_000, 20_000_000, -30_000_000), Vec3::zero());
    let b = s.bounds();
    assert_eq!(b.min, raw(9_500_000, 20_000_000, -30_500_000));
    assert_eq!(b.max, raw(10_500_000, 22_000_000, -29_500_000));
    assert_eq!(s.bounds_for(s.position), b);
    let moved = s.bounds_for(raw(0, 0, 0));
    assert_eq!(moved.min, raw(-500_000, 0, -500_000));
    assert_eq!(moved.max, raw(500_000, 2_000_000, 500_000));
}

#[test]
fn half_of_an_odd_width_is_rounded_down() {
    let s = Skeleton::new(raw(0, 0, 0), facing(0, 0), Fixed::from_raw(3), Fixed::from_raw(5));
    assert_eq!(s.bounds().min, raw(-1, 0, -1));
    assert_eq!(s.bounds().max, raw(1, 5, 1));
}

#[test]
fn a_position_is_ok_when_the_body_fits_there() {
    let world = ground();
    let s = body(raw(0, 5_000_000, 0), Vec3::zero());
    assert!(s.pos_ok(&world, s.position));
    assert!(s.pos_ok(&world, raw(0, 0, 0)));
    assert!(!s.pos_ok(&world, raw(0, -1, 0)));
    assert!(!s.pos_ok(&world, raw(0, -2_500_000, 0)));
    assert!(s.pos_ok(&world, raw(0, -3_000_000, 0)));
    assert!(s.pos_ok(&EmptyWorld {}, raw(0, -1, 0)));
}

#[test]
fn ground_is_found_within_the_probe_depth() {
    let world = ground();
    assert!(body(raw(0, 0, 0), Vec3::zero()).on_ground(&world));
    assert!(body(raw(0, 40_000, 0), Vec3::zero()).on_ground(&world));
    assert!(body(raw(0, 49_999, 0), Vec3::zero()).on_ground(&world));
    assert!(!body(raw(0, 50_000, 0), Vec3::zero()).on_ground(&world));
    assert!(!body(raw(0, 60_000, 0), Vec3::zero()).on_ground(&world));
}

#[test]
fn a_falling_body_high_above_the_floor_is_not_on_ground() {
    let world = ground();
    let mut s = body(raw(0, 10_000_000, 0), Vec3::zero());
    for _ in 0..10 {
        s.tick(&world, tick_of_a_sixtieth());
        assert!(s.position.y.raw > 50_000);
        assert!(!s.on_ground(&world));
    }
    assert!(!body(raw(0, 10_000_000, 0), Vec3::zero()).on_ground(&EmptyWorld {}));
}

#[test]
fn a_jump_from_the_ground_sets_the_vertical_velocity() {
    let world = ground();
    let mut s = body(raw(0, 0, 0), raw(1_000_000, -3_000_000, 2_000_000));
    s.try_jump(&world, Fixed::from_int(16));
    assert_eq!(s.velocity, raw(1_000_000, 16_000_000, 2_000_000));
    assert_eq!(s.position, raw(0, 0, 0));
}

#[test]
fn a_jump_in_the_air_does_nothing() {
    let world = ground();
    let mut s = body(raw(0, 3_000_000, 0), raw(1_000_000, -3_000_000, 2_000_000));
    let before = s;
    s.try_jump(&world, Fixed::from_int(16));
    assert_eq!(s, before);
    s.try_jump(&EmptyWorld {}, Fixed::from_int(16));
    assert_eq!(s, before);
}

#[test]
fn no_second_jump_while_rising() {
    let world = ground();
    let mut s = body(raw(0, 0, 0), Vec3::zero());
    s.try_jump(&world, Fixed::from_int(16));
    s.tick(&world, tick_of_a_sixtieth());
    assert_eq!(s.position, raw(0, 253_104, 0));
    assert_eq!(s.velocity, raw(0, 15_187_370, 0));
    s.try_jump(&world, Fixed::from_int(16));
    assert_eq!(s.velocity, raw(0, 15_187_370, 0));
    s.tick(&world, tick_of_a_sixtieth());
    assert_eq!(s.position, raw(0, 492_672, 0));
    assert_eq!(s.velocity, raw(0, 14_375_417, 0));
}

#[test]
fn walking_on_the_ground_replaces_the_horizontal_velocity() {
    let world = ground();
    let mut s = body(raw(0, 0, 0), raw(1_000_000, -1_000_000, 1_000_000));
    s.try_walk(tick_of_a_sixtieth(), &world, raw(5_000_000, 2_000_000, -5_000_000));
    assert_eq!(s.velocity, raw(5_000_000, -1_000_000, -5_000_000));
}

#[test]
fn steering_in_the_air_below_the_cap_accelerates() {
    let world = ground();
    let mut s = body(raw(0, 10_000_000, 0), raw(11_999_999, 1_000_000, 0));
    s.try_walk(tick_of_a_sixtieth(), &world, raw(5_000_000, 0, 5_000_000));
    assert_eq!(s.velocity, raw(12_046_559, 998_334, 66_552));
}

#[test]
fn steering_in_the_air_at_the_cap_only_slows() {
    let world = ground();
    let dt = tick_of_a_sixtieth();
    let mut s = body(raw(0, 10_000_000, 0), raw(12_000_000, 1_000_000, 0));
    let before = s.velocity;
    s.try_walk(dt, &world, raw(5_000_000, 0, 5_000_000));
    assert_eq!(s.velocity, raw(11_980_008, 998_334, 0));
    let keep = Fixed::from_int(1).minus(Fixed::from_raw(AIR_DRAG).times(dt));
    assert_eq!(s.velocity, before.scale(keep));
}

#[test]
fn the_cap_is_on_the_length_of_the_horizontal_velocity() {
    let world = ground();
    let mut s = body(raw(0, 10_000_000, 0), raw(-7_000_000, 1_000_000, 9_800_000));
    s.try_walk(tick_of_a_sixtieth(), &world, raw(5_000_000, 2_000_000, -5_000_000));
    assert_eq!(s.velocity, raw(-6_988_338, 998_334, 9_783_673));
}

#[test]
fn a_frame_is_taken_and_put_back() {
    let mut s = body(raw(1, 2, 3), raw(4, 5, 6));
    s.orientation = facing(7, 8);
    let f = s.frame();
    assert_eq!(f, Frame { position: raw(1, 2, 3), velocity: raw(4, 5, 6), orientation: facing(7, 8) });
    let mut other = Skeleton::new(raw(0, 0, 0), facing(0, 0), Fixed::from_raw(9), Fixed::from_raw(10));
    other.set_frame(f);
    assert_eq!(other.position, raw(1, 2, 3));
    assert_eq!(other.velocity, raw(4, 5, 6));
    assert_eq!(other.orientation, facing(7, 8));
    assert_eq!(other.hsize.raw, 9);
    assert_eq!(other.vsize.raw, 10);
    assert_eq!(other.frame(), f);
}

#[test]
fn gravity_pulls_then_drag_slows() {
    let mut s = body(raw(0, 0, 0), raw(3_000_000, -2_000_000, -7_000_000));
    s.tick_gravity(Fixed::from_raw(GRAVITY), tick_of_a_sixtieth());
    assert_eq!(s.velocity, raw(2_997_501, -2_797_635, -6_994_169));
    assert_eq!(s.position, raw(0, 0, 0));

    let mut s = body(raw(0, 0, 0), raw(3_000_000, -2_000_000, -7_000_000));
    s.tick_gravity(Fixed::from_raw(GRAVITY), Fixed::from_raw(500_000));
    assert_eq!(s.velocity, raw(2_925_000, -25_350_000, -6_825_000));
}

#[test]
fn rescue_lifts_only_a_stuck_body() {
    let world = ground();
    let dt = tick_of_a_sixtieth();
    let mut stuck = body(raw(0, -500_000, 0), raw(1, 2, 3));
    stuck.tick_rescue(&world, dt);
    assert_eq!(stuck.position, raw(0, -250_010, 0));
    assert_eq!(stuck.velocity, raw(1, 2, 3));

    let mut free = body(raw(0, 0, 0), raw(1, 2, 3));
    let before = free;
    free.tick_rescue(&world, dt);
    assert_eq!(free, before);
}
