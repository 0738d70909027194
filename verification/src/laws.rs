//! What holds of a moving body, whatever the world and the numbers.

use vstd::prelude::*;
use crate::fixed::{
    lemma_div_toward_zero_shrinks, lemma_parts_nearly_whole, lemma_saturating_walk,
    lemma_times_not_rising, lemma_times_one, lemma_times_zero, saturate, Fixed, SCALE,
};
use crate::bounds::BoundingBox;
use crate::skeleton::{
    along_x, along_y, along_z, horizontal_with, Contact, Progress, Skeleton, DRAG, GRAVITY,
    GROUND_PROBE, STAIRCLIMB_SPEED, STEP_HEIGHT, SUBSTEPS,
};
use crate::vector::Vec3;
use crate::world::{CollisionOracle, EmptyWorld, Ground};

verus! {

/// A substep of no displacement leaves the body where it is, and is blocked
/// on every axis exactly when the body is stuck.
proof fn lemma_still_substeps<W: CollisionOracle>(s: Skeleton, world: &W, n: nat)
    ensures
        s.substeps(world, Vec3::zero(), n).position == s.position,
        s.spec_pos_ok(world, s.position) ==> s.substeps(world, Vec3::zero(), n) == (Progress {
            position: s.position,
            landed: false,
            last: Contact::none(),
        }),
    decreases n,
{
    if n > 0 {
        lemma_still_substeps(s, world, (n - 1) as nat);
        let p = s.position;
        assert(p.plus(along_x(Vec3::zero())) == p);
        assert(p.plus(along_y(Vec3::zero())) == p);
        assert(p.plus(along_z(Vec3::zero())) == p);
    }
}

/// A substep of no displacement is blocked on every axis when the body is
/// stuck.
proof fn lemma_stuck_substeps<W: CollisionOracle>(s: Skeleton, world: &W, n: nat)
    requires
        !s.spec_pos_ok(world, s.position),
        n > 0,
    ensures
        s.substeps(world, Vec3::zero(), n) == (Progress {
            position: s.position,
            landed: true,
            last: Contact { x: true, y: true, z: true },
        }),
    decreases n,
{
    lemma_still_substeps(s, world, (n - 1) as nat);
    if n > 1 {
        lemma_stuck_substeps(s, world, (n - 1) as nat);
    }
    let p = s.position;
    assert(p.plus(along_x(Vec3::zero())) == p);
    assert(p.plus(along_y(Vec3::zero())) == p);
    assert(p.plus(along_z(Vec3::zero())) == p);
}

/// A tick of no duration moves nothing, and changes nothing at all for a
/// body that is not stuck in geometry. A stuck body loses its vertical
/// velocity, and its horizontal velocity too unless it would fit one step
/// higher.
pub proof fn lemma_tick_of_no_duration<W: CollisionOracle>(s: Skeleton, world: &W)
    ensures
        s.after_tick(world, Fixed { raw: 0 }).position == s.position,
        s.spec_pos_ok(world, s.position) ==> s.after_tick(world, Fixed { raw: 0 }) == s,
        !s.spec_pos_ok(world, s.position) ==> s.after_tick(world, Fixed { raw: 0 }).velocity == (
        if s.spec_pos_ok(
            world,
            s.position.plus(horizontal_with(Vec3::zero(), Fixed { raw: STEP_HEIGHT })),
        ) {
            Vec3 { y: Fixed { raw: 0 }, ..s.velocity }
        } else {
            Vec3::zero()
        }),
{
    if !s.spec_pos_ok(world, s.position) {
        lemma_stuck_substeps(s, world, SUBSTEPS as nat);
    }
    let zero = Fixed { raw: 0 };
    let g = s.after_gravity(Fixed { raw: GRAVITY }, zero);
    lemma_times_zero(Fixed { raw: GRAVITY });
    lemma_times_zero(Fixed { raw: DRAG });
    lemma_times_one(s.velocity.x);
    lemma_times_one(s.velocity.y);
    lemma_times_one(s.velocity.z);
    assert(g == s);
    lemma_times_zero(s.velocity.x);
    lemma_times_zero(s.velocity.y);
    lemma_times_zero(s.velocity.z);
    assert(s.displacement(zero) == Vec3::zero());
    assert(Vec3::zero().div_int(SUBSTEPS) == Vec3::zero());
    lemma_still_substeps(s, world, SUBSTEPS as nat);
    let m = s.after_move(world, zero);
    let p = s.position;
    assert(p.plus(horizontal_with(Vec3::zero(), zero)) == p);
    assert(m.position == s.position);
    lemma_times_zero(Fixed { raw: STAIRCLIMB_SPEED });
}

/// Substeps never lead a body into geometry.
pub proof fn lemma_substeps_stay_clear<W: CollisionOracle>(
    s: Skeleton,
    world: &W,
    step: Vec3,
    n: nat,
)
    requires
        s.spec_pos_ok(world, s.position),
    ensures
        s.spec_pos_ok(world, s.substeps(world, step, n).position),
    decreases n,
{
    if n > 0 {
        lemma_substeps_stay_clear(s, world, step, (n - 1) as nat);
    }
}

/// A body that is clear of geometry is still clear after moving, unless the
/// move ends with a climb.
pub proof fn lemma_move_stays_clear<W: CollisionOracle>(s: Skeleton, world: &W, dt: Fixed)
    requires
        s.spec_pos_ok(world, s.position),
        !s.climbs(world, dt),
    ensures
        s.after_move(world, dt).spec_pos_ok(world, s.after_move(world, dt).position),
{
    lemma_substeps_stay_clear(s, world, s.displacement(dt).div_int(SUBSTEPS), SUBSTEPS as nat);
}

/// Whether the tick of `dt` ends its move with a climb.
pub open spec fn tick_climbs<W: CollisionOracle>(s: Skeleton, world: &W, dt: Fixed) -> bool {
    s.after_gravity(Fixed { raw: GRAVITY }, dt).climbs(world, dt)
}

/// A body that is clear of geometry is still clear after a tick that does
/// not climb, and was not lifted.
pub proof fn lemma_tick_stays_clear<W: CollisionOracle>(s: Skeleton, world: &W, dt: Fixed)
    requires
        s.spec_pos_ok(world, s.position),
        !tick_climbs(s, world, dt),
    ensures
        s.after_tick(world, dt).spec_pos_ok(world, s.after_tick(world, dt).position),
        s.after_tick(world, dt) == s.after_gravity(Fixed { raw: GRAVITY }, dt).after_move(world, dt),
{
    lemma_move_stays_clear(s.after_gravity(Fixed { raw: GRAVITY }, dt), world, dt);
}

/// The body after one tick for each duration in `dts`, in their order.
pub open spec fn after_ticks<W: CollisionOracle>(s: Skeleton, world: &W, dts: Seq<Fixed>) -> Skeleton
    decreases dts.len(),
{
    if dts.len() == 0 {
        s
    } else {
        after_ticks(s, world, dts.drop_last()).after_tick(world, dts.last())
    }
}

/// Whether one of the ticks in `dts` ends its move with a climb.
pub open spec fn climbs_during<W: CollisionOracle>(s: Skeleton, world: &W, dts: Seq<Fixed>) -> bool
    decreases dts.len(),
{
    dts.len() > 0 && (climbs_during(s, world, dts.drop_last()) || tick_climbs(
        after_ticks(s, world, dts.drop_last()),
        world,
        dts.last(),
    ))
}

/// In a world that does not change, a body that starts clear of geometry is
/// clear of it after every tick of a run in which it never climbs.
pub proof fn lemma_ticks_stay_clear<W: CollisionOracle>(s: Skeleton, world: &W, dts: Seq<Fixed>)
    requires
        s.spec_pos_ok(world, s.position),
        !climbs_during(s, world, dts),
    ensures
        forall|k: int|
            0 <= k <= dts.len() ==> {
                let then = #[trigger] after_ticks(s, world, dts.take(k));
                then.spec_pos_ok(world, then.position)
            },
    decreases dts.len(),
{
    if dts.len() == 0 {
        assert forall|k: int| 0 <= k <= dts.len() implies {
            let then = #[trigger] after_ticks(s, world, dts.take(k));
            then.spec_pos_ok(world, then.position)
        } by {
            assert(dts.take(k) =~= dts);
        }
    } else {
        let shorter = dts.drop_last();
        lemma_ticks_stay_clear(s, world, shorter);
        assert forall|k: int| 0 <= k <= dts.len() implies {
            let then = #[trigger] after_ticks(s, world, dts.take(k));
            then.spec_pos_ok(world, then.position)
        } by {
            if k < dts.len() {
                assert(dts.take(k) =~= shorter.take(k));
            } else {
                assert(dts.take(k) =~= dts);
                assert(shorter.take(shorter.len() as int) =~= shorter);
                let before = after_ticks(s, world, shorter.take(shorter.len() as int));
                assert(before.spec_pos_ok(world, before.position));
                lemma_tick_stays_clear(before, world, dts.last());
            }
        }
    }
}

/// A world without anything solid in it.
pub open spec fn is_free<W: CollisionOracle>(world: &W) -> bool {
    forall|region: BoundingBox| !world.solid(region)
}

/// The empty world is free.
pub proof fn lemma_empty_world_is_free(world: &EmptyWorld)
    ensures
        is_free(world),
{
}

/// In a free world every substep is made in full.
pub proof fn lemma_free_substeps<W: CollisionOracle>(s: Skeleton, world: &W, step: Vec3, n: nat)
    requires
        is_free(world),
    ensures
        s.substeps(world, step, n) == (Progress {
            position: Vec3 {
                x: Fixed { raw: saturate(s.position.x@ + n * step.x@) as i64 },
                y: Fixed { raw: saturate(s.position.y@ + n * step.y@) as i64 },
                z: Fixed { raw: saturate(s.position.z@ + n * step.z@) as i64 },
            },
            landed: false,
            last: Contact::none(),
        }),
    decreases n,
{
    if n == 0 {
        assert(0 * step.x@ == 0 && 0 * step.y@ == 0 && 0 * step.z@ == 0);
    } else {
        let k = (n - 1) as nat;
        lemma_free_substeps(s, world, step, k);
        lemma_saturating_walk(s.position.x@, step.x@, k);
        lemma_saturating_walk(s.position.y@, step.y@, k);
        lemma_saturating_walk(s.position.z@, step.z@, k);
    }
}

/// The largest distance, in raw steps, by which the substeps of a move can
/// fall short of the displacement asked for along one axis.
pub open spec fn substep_slack() -> int {
    SUBSTEPS - 1
}

/// In a free world a move in substeps keeps the velocity and arrives where
/// a single step of the whole displacement would, up to the rounding of the
/// substeps: on each axis it falls short by at most `substep_slack()` raw
/// steps.
pub proof fn lemma_free_move_is_straight<W: CollisionOracle>(s: Skeleton, world: &W, dt: Fixed)
    requires
        is_free(world),
    ensures
        s.after_move(world, dt).velocity == s.velocity,
        ({
            let moved = s.after_move(world, dt).position;
            let straight = s.position.plus(s.displacement(dt));
            &&& -substep_slack() <= moved.x@ - straight.x@ <= substep_slack()
            &&& -substep_slack() <= moved.y@ - straight.y@ <= substep_slack()
            &&& -substep_slack() <= moved.z@ - straight.z@ <= substep_slack()
        }),
{
    let delta = s.displacement(dt);
    let step = delta.div_int(SUBSTEPS);
    lemma_free_substeps(s, world, step, SUBSTEPS as nat);
    lemma_parts_nearly_whole(delta.x@, SUBSTEPS as int);
    lemma_parts_nearly_whole(delta.y@, SUBSTEPS as int);
    lemma_parts_nearly_whole(delta.z@, SUBSTEPS as int);
}

/// A world of walls that stand across the first axis: whether a region is
/// blocked depends only on where it begins and ends along that axis.
pub open spec fn walls_across_x<W: CollisionOracle>(world: &W) -> bool {
    forall|a: BoundingBox, b: BoundingBox|
        a.min.x == b.min.x && a.max.x == b.max.x ==> world.solid(a) == world.solid(b)
}

/// A world of walls that stand across the third axis.
pub open spec fn walls_across_z<W: CollisionOracle>(world: &W) -> bool {
    forall|a: BoundingBox, b: BoundingBox|
        a.min.z == b.min.z && a.max.z == b.max.z ==> world.solid(a) == world.solid(b)
}

/// Against a wall across the first axis, every substep is blocked along that
/// axis and made in full along the two others.
pub proof fn lemma_substeps_along_x_wall<W: CollisionOracle>(
    s: Skeleton,
    world: &W,
    step: Vec3,
    n: nat,
)
    requires
        walls_across_x(world),
        s.spec_pos_ok(world, s.position),
        !s.spec_pos_ok(world, s.position.plus(along_x(step))),
    ensures
        s.substeps(world, step, n) == (Progress {
            position: Vec3 {
                x: s.position.x,
                y: Fixed { raw: saturate(s.position.y@ + n * step.y@) as i64 },
                z: Fixed { raw: saturate(s.position.z@ + n * step.z@) as i64 },
            },
            landed: false,
            last: Contact { x: n > 0, y: false, z: false },
        }),
    decreases n,
{
    if n == 0 {
        assert(0 * step.y@ == 0 && 0 * step.z@ == 0);
    } else {
        let k = (n - 1) as nat;
        lemma_substeps_along_x_wall(s, world, step, k);
        lemma_saturating_walk(s.position.y@, step.y@, k);
        lemma_saturating_walk(s.position.z@, step.z@, k);
        let here = s.substeps(world, step, k).position;
        let clear = s.spec_bounds_for(s.position);
        let blocked = s.spec_bounds_for(s.position.plus(along_x(step)));
        assert(world.solid(blocked) && !world.solid(clear));
        let bx = s.spec_bounds_for(here.plus(along_x(step)));
        assert(bx.min.x == blocked.min.x && bx.max.x == blocked.max.x);
        assert(world.solid(bx));
        let by = s.spec_bounds_for(here.plus(along_y(step)));
        assert(by.min.x == clear.min.x && by.max.x == clear.max.x);
        assert(!world.solid(by));
        let bz = s.spec_bounds_for(here.plus(along_y(step)).plus(along_z(step)));
        assert(bz.min.x == clear.min.x && bz.max.x == clear.max.x);
        assert(!world.solid(bz));
    }
}

/// Sliding along a wall: a body that moves into a wall across the first
/// axis stays where it is along that axis and advances in full along the
/// two others, unless the move ends with a climb.
pub proof fn lemma_slide_along_x_wall<W: CollisionOracle>(s: Skeleton, world: &W, dt: Fixed)
    requires
        walls_across_x(world),
        s.spec_pos_ok(world, s.position),
        !s.spec_pos_ok(world, s.position.plus(along_x(s.displacement(dt).div_int(SUBSTEPS)))),
        !s.climbs(world, dt),
    ensures
        ({
            let step = s.displacement(dt).div_int(SUBSTEPS);
            s.after_move(world, dt).position == (Vec3 {
                x: s.position.x,
                y: Fixed { raw: saturate(s.position.y@ + SUBSTEPS * step.y@) as i64 },
                z: Fixed { raw: saturate(s.position.z@ + SUBSTEPS * step.z@) as i64 },
            })
        }),
{
    lemma_substeps_along_x_wall(s, world, s.displacement(dt).div_int(SUBSTEPS), SUBSTEPS as nat);
}

/// Against a wall across the third axis, every substep is blocked along that
/// axis and made in full along the two others.
pub proof fn lemma_substeps_along_z_wall<W: CollisionOracle>(
    s: Skeleton,
    world: &W,
    step: Vec3,
    n: nat,
)
    requires
        walls_across_z(world),
        s.spec_pos_ok(world, s.position),
        !s.spec_pos_ok(world, s.position.plus(along_z(step))),
    ensures
        s.substeps(world, step, n) == (Progress {
            position: Vec3 {
                x: Fixed { raw: saturate(s.position.x@ + n * step.x@) as i64 },
                y: Fixed { raw: saturate(s.position.y@ + n * step.y@) as i64 },
                z: s.position.z,
            },
            landed: false,
            last: Contact { x: false, y: false, z: n > 0 },
        }),
    decreases n,
{
    if n == 0 {
        assert(0 * step.x@ == 0 && 0 * step.y@ == 0);
    } else {
        let k = (n - 1) as nat;
        lemma_substeps_along_z_wall(s, world, step, k);
        lemma_saturating_walk(s.position.x@, step.x@, k);
        lemma_saturating_walk(s.position.y@, step.y@, k);
        let here = s.substeps(world, step, k).position;
        let clear = s.spec_bounds_for(s.position);
        let blocked = s.spec_bounds_for(s.position.plus(along_z(step)));
        assert(world.solid(blocked) && !world.solid(clear));
        let bx = s.spec_bounds_for(here.plus(along_x(step)));
        assert(bx.min.z == clear.min.z && bx.max.z == clear.max.z);
        assert(!world.solid(bx));
        let by = s.spec_bounds_for(here.plus(along_x(step)).plus(along_y(step)));
        assert(by.min.z == clear.min.z && by.max.z == clear.max.z);
        assert(!world.solid(by));
        let bz = s.spec_bounds_for(here.plus(along_x(step)).plus(along_y(step)).plus(along_z(step)));
        assert(bz.min.z == blocked.min.z && bz.max.z == blocked.max.z);
        assert(world.solid(bz));
    }
}

/// Sliding along a wall across the third axis: the body stays where it is
/// along that axis and advances in full along the two others, unless the
/// move ends with a climb.
pub proof fn lemma_slide_along_z_wall<W: CollisionOracle>(s: Skeleton, world: &W, dt: Fixed)
    requires
        walls_across_z(world),
        s.spec_pos_ok(world, s.position),
        !s.spec_pos_ok(world, s.position.plus(along_z(s.displacement(dt).div_int(SUBSTEPS)))),
        !s.climbs(world, dt),
    ensures
        ({
            let step = s.displacement(dt).div_int(SUBSTEPS);
            s.after_move(world, dt).position == (Vec3 {
                x: Fixed { raw: saturate(s.position.x@ + SUBSTEPS * step.x@) as i64 },
                y: Fixed { raw: saturate(s.position.y@ + SUBSTEPS * step.y@) as i64 },
                z: s.position.z,
            })
        }),
{
    lemma_substeps_along_z_wall(s, world, s.displacement(dt).div_int(SUBSTEPS), SUBSTEPS as nat);
}

/// A body that is held in place: while the moves along the first and the
/// vertical axis are blocked and there is nothing to move along the third,
/// no substep moves it.
proof fn lemma_substeps_held<W: CollisionOracle>(s: Skeleton, world: &W, step: Vec3, n: nat)
    requires
        s.spec_pos_ok(world, s.position),
        !s.spec_pos_ok(world, s.position.plus(along_x(step))),
        !s.spec_pos_ok(world, s.position.plus(along_y(step))),
        step.z@ == 0,
    ensures
        s.substeps(world, step, n) == (Progress {
            position: s.position,
            landed: n > 0,
            last: Contact { x: n > 0, y: n > 0, z: false },
        }),
    decreases n,
{
    if n > 0 {
        lemma_substeps_held(s, world, step, (n - 1) as nat);
        assert(s.position.plus(along_z(step)) == s.position);
    }
}

/// Climbing a step: a body that stands on the ground and walks along the
/// first axis into an obstacle, and that would fit one step higher at the
/// end of its displacement, is not stopped. It keeps its horizontal
/// velocity, and arrives along that axis where the whole displacement
/// leads, which is within `substep_slack()` raw steps of where sixteen
/// unhindered substeps would have led.
pub proof fn lemma_step_is_climbed<W: CollisionOracle>(s: Skeleton, world: &W, dt: Fixed)
    requires
        s.velocity.z@ == 0,
        s.spec_pos_ok(world, s.position),
        !s.spec_pos_ok(world, s.position.plus(along_x(s.displacement(dt).div_int(SUBSTEPS)))),
        !s.spec_pos_ok(world, s.position.plus(along_y(s.displacement(dt).div_int(SUBSTEPS)))),
        s.spec_pos_ok(
            world,
            s.position.plus(horizontal_with(s.displacement(dt), Fixed { raw: STEP_HEIGHT })),
        ),
    ensures
        s.climbs(world, dt),
        s.after_move(world, dt).position == (Vec3 {
            x: s.position.x.plus(s.displacement(dt).x),
            ..s.position
        }),
        s.after_move(world, dt).velocity == (Vec3 { y: Fixed { raw: 0 }, ..s.velocity }),
        ({
            let unhindered = saturate(
                s.position.x@ + SUBSTEPS * s.displacement(dt).div_int(SUBSTEPS).x@,
            );
            let arrived = s.after_move(world, dt).position.x@;
            -substep_slack() <= arrived - unhindered <= substep_slack()
        }),
{
    let delta = s.displacement(dt);
    let step = delta.div_int(SUBSTEPS);
    lemma_times_zero(dt);
    assert(delta.z@ == 0);
    lemma_substeps_held(s, world, step, SUBSTEPS as nat);
    lemma_parts_nearly_whole(delta.x@, SUBSTEPS as int);
}

/// Solid ground everywhere below the height `top`, and nothing above: a
/// region is blocked exactly when it reaches below `top`.
pub open spec fn is_ground_below<W: CollisionOracle>(world: &W, top: Fixed) -> bool {
    forall|region: BoundingBox| world.solid(region) == (region.min.y@ < top@)
}

/// Flat ground is solid ground below its top.
pub proof fn lemma_flat_ground(world: &Ground)
    ensures
        is_ground_below(world, world.top),
{
}

/// Finding the ground: on solid ground a body counts as standing exactly
/// when its feet, lowered by `GROUND_PROBE`, reach below the top of the
/// ground.
pub proof fn lemma_ground_is_found<W: CollisionOracle>(s: Skeleton, world: &W, top: Fixed)
    requires
        is_ground_below(world, top),
    ensures
        s.spec_on_ground(world) == (saturate(s.position.y@ - GROUND_PROBE) < top@),
{
}

/// The longest tick, in raw seconds, for which drag slows a body down
/// instead of reversing it (20.0).
pub open spec fn longest_tick() -> int {
    20 * SCALE
}

/// For a tick of at most twenty seconds, gravity and drag leave a body that
/// is not rising with a velocity, a displacement and a substep that do not
/// rise either.
proof fn lemma_gravity_keeps_falling(s: Skeleton, dt: Fixed)
    requires
        s.velocity.y@ <= 0,
        0 <= dt@ <= longest_tick(),
    ensures
        s.after_gravity(Fixed { raw: GRAVITY }, dt).velocity.y@ <= 0,
        s.after_gravity(Fixed { raw: GRAVITY }, dt).displacement(dt).y@ <= 0,
        s.after_gravity(Fixed { raw: GRAVITY }, dt).displacement(dt).div_int(SUBSTEPS).y@ <= 0,
        s.after_gravity(Fixed { raw: GRAVITY }, dt).position == s.position,
        s.after_gravity(Fixed { raw: GRAVITY }, dt).hsize == s.hsize,
        s.after_gravity(Fixed { raw: GRAVITY }, dt).vsize == s.vsize,
{
    let pull = Fixed { raw: GRAVITY }.times(dt);
    assert(GRAVITY * dt@ >= 0) by (nonlinear_arith)
        requires
            dt@ >= 0,
    ;
    assert(pull@ >= 0);
    let fallen = s.velocity.y.minus(pull);
    assert(fallen@ <= 0);
    let lost = Fixed { raw: DRAG }.times(dt);
    assert(0 <= DRAG * dt@ <= 50_000 * 20_000_000) by (nonlinear_arith)
        requires
            0 <= dt@ <= 20_000_000,
    ;
    assert(0 <= lost@ <= 1_000_000);
    let keep = Fixed { raw: SCALE }.minus(lost);
    assert(keep@ >= 0);
    lemma_times_not_rising(fallen, keep);
    let vy = fallen.times(keep);
    lemma_times_not_rising(vy, dt);
    lemma_div_toward_zero_shrinks(vy.times(dt)@, SUBSTEPS as int);
}

/// A body below the top of the ground is held in place by every substep
/// that does not rise.
proof fn lemma_substeps_in_ground<W: CollisionOracle>(
    s: Skeleton,
    world: &W,
    top: Fixed,
    step: Vec3,
    n: nat,
)
    requires
        is_ground_below(world, top),
        s.position.y@ < top@,
        step.y@ <= 0,
    ensures
        s.substeps(world, step, n) == (Progress {
            position: s.position,
            landed: n > 0,
            last: Contact { x: n > 0, y: n > 0, z: n > 0 },
        }),
    decreases n,
{
    if n > 0 {
        lemma_substeps_in_ground(s, world, top, step, (n - 1) as nat);
        let p = s.position;
        assert(world.solid(s.spec_bounds_for(p.plus(along_x(step)))));
        assert(world.solid(s.spec_bounds_for(p.plus(along_y(step)))));
        assert(world.solid(s.spec_bounds_for(p.plus(along_z(step)))));
    }
}

/// Rescue from the ground: a body that is stuck below the top of the
/// ground and is not moving upward is lifted by each tick of at most twenty
/// seconds by exactly `STAIRCLIMB_SPEED` times the tick, and leaves the tick
/// without vertical velocity.
pub proof fn lemma_stuck_body_rises<W: CollisionOracle>(
    s: Skeleton,
    world: &W,
    top: Fixed,
    dt: Fixed,
)
    requires
        is_ground_below(world, top),
        s.position.y@ < top@,
        s.velocity.y@ <= 0,
        0 <= dt@ <= longest_tick(),
    ensures
        s.after_tick(world, dt).position.y@ == saturate(s.position.y@ + 15 * dt@),
        s.after_tick(world, dt).position.y@ >= s.position.y@,
        s.after_tick(world, dt).velocity.y@ == 0,
{
    let g = s.after_gravity(Fixed { raw: GRAVITY }, dt);
    lemma_gravity_keeps_falling(s, dt);
    let delta = g.displacement(dt);
    lemma_substeps_in_ground(g, world, top, delta.div_int(SUBSTEPS), SUBSTEPS as nat);
    let m = g.after_move(world, dt);
    assert(m.position.y == s.position.y);
    assert(m.velocity.y@ == 0);
    assert(world.solid(m.spec_bounds_for(m.position)));
    assert(STAIRCLIMB_SPEED * dt@ / 1_000_000 == 15 * dt@);
}

/// On top of the ground, substeps that do not rise are never blocked
/// sideways, and leave the body no higher than it was and no lower than the
/// top of the ground.
proof fn lemma_substeps_on_ground<W: CollisionOracle>(
    s: Skeleton,
    world: &W,
    top: Fixed,
    step: Vec3,
    n: nat,
)
    requires
        is_ground_below(world, top),
        s.position.y@ >= top@,
        step.y@ <= 0,
    ensures
        top@ <= s.substeps(world, step, n).position.y@ <= s.position.y@,
        !s.substeps(world, step, n).last.x,
        !s.substeps(world, step, n).last.z,
    decreases n,
{
    if n > 0 {
        lemma_substeps_on_ground(s, world, top, step, (n - 1) as nat);
        let here = s.substeps(world, step, (n - 1) as nat).position;
        let after_x = here.plus(along_x(step));
        assert(!world.solid(s.spec_bounds_for(after_x)));
        let after_y = if world.solid(s.spec_bounds_for(after_x.plus(along_y(step)))) {
            after_x
        } else {
            after_x.plus(along_y(step))
        };
        assert(top@ <= after_y.y@ <= here.y@);
        assert(!world.solid(s.spec_bounds_for(after_y.plus(along_z(step)))));
    }
}

/// Once free, the rescue is over: a body on top of the ground that is not
/// moving upward is no higher after a tick of at most twenty seconds, is
/// still on top of the ground, and is still not moving upward.
pub proof fn lemma_freed_body_stops_rising<W: CollisionOracle>(
    s: Skeleton,
    world: &W,
    top: Fixed,
    dt: Fixed,
)
    requires
        is_ground_below(world, top),
        s.position.y@ >= top@,
        s.velocity.y@ <= 0,
        0 <= dt@ <= longest_tick(),
    ensures
        top@ <= s.after_tick(world, dt).position.y@ <= s.position.y@,
        s.after_tick(world, dt).velocity.y@ <= 0,
{
    let g = s.after_gravity(Fixed { raw: GRAVITY }, dt);
    lemma_gravity_keeps_falling(s, dt);
    let delta = g.displacement(dt);
    lemma_substeps_on_ground(g, world, top, delta.div_int(SUBSTEPS), SUBSTEPS as nat);
    let m = g.after_move(world, dt);
    assert(!world.solid(m.spec_bounds_for(m.position)));
}

} // verus!
