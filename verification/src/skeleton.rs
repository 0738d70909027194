//! The body of an entity and the way it moves through static geometry.
//!
//! A tick applies gravity, then moves the body in sixteen substeps that
//! resolve each axis on its own, then lifts a body that is stuck inside
//! geometry. All quantities are fixed-point: lengths in units, time in
//! seconds.

use vstd::prelude::*;
use crate::bounds::BoundingBox;
use crate::fixed::{Fixed, SCALE};
use crate::frame::{Frame, Orientation};
use crate::vector::Vec3;
use crate::world::CollisionOracle;

verus! {

/// Downward acceleration, in raw units per second squared (48.0).
pub const GRAVITY: i64 = 48_000_000;

/// Share of the velocity that is lost per second while ticking (0.05).
pub const DRAG: i64 = 50_000;

/// Speed at which a stuck body is lifted, in raw units per second (15.0).
pub const STAIRCLIMB_SPEED: i64 = 15_000_000;

/// Height of the tallest step that is climbed without a jump (2.1).
pub const STEP_HEIGHT: i64 = 2_100_000;

/// Depth below the feet at which ground is looked for (0.05).
pub const GROUND_PROBE: i64 = 50_000;

/// Horizontal speed from which steering in the air no longer accelerates (12.0).
pub const MAX_AIRCTL_SPEED: i64 = 12_000_000;

/// Acceleration in the air per unit of walking speed asked for (0.8).
pub const AIR_CONTROL: i64 = 800_000;

/// Share of the velocity that is lost per second while steering in the air (0.1).
pub const AIR_DRAG: i64 = 100_000;

/// Number of equal parts into which the displacement of a tick is split.
pub const SUBSTEPS: i64 = 16;

/// Which axes were blocked during one substep.
#[derive(Clone, Copy, Debug, PartialEq, Eq, Structural)]
pub struct Contact {
    pub x: bool,
    pub y: bool,
    pub z: bool,
}

/// Where a run of substeps has led.
pub struct Progress {
    /// The position reached.
    pub position: Vec3,
    /// Whether the vertical move was blocked in any substep so far.
    pub landed: bool,
    /// What was blocked in the latest substep.
    pub last: Contact,
}

/// The physical state of one entity.
///
/// `position` is the centre of the bottom face of the bounding box, which is
/// `hsize` wide and deep and `vsize` tall.
#[derive(Clone, Copy, Debug, PartialEq, Eq, Structural)]
pub struct Skeleton {
    pub hsize: Fixed,
    pub vsize: Fixed,
    pub position: Vec3,
    pub velocity: Vec3,
    pub orientation: Orientation,
}

impl Skeleton {
    /// A body has a positive width and a positive height.
    pub open spec fn wf(&self) -> bool {
        self.hsize@ > 0 && self.vsize@ > 0
    }

    /// A body at rest at `pos`.
    pub fn new(pos: Vec3, orientation: Orientation, hsize: Fixed, vsize: Fixed) -> (s: Skeleton)
        ensures
            s == (Skeleton { hsize, vsize, position: pos, velocity: Vec3::zero(), orientation }),
            s.wf() <==> hsize@ > 0 && vsize@ > 0,
    {
        Skeleton { position: pos, hsize, vsize, orientation, velocity: Vec3::zero() }
    }

    pub open spec fn spec_bounds_for(&self, pos: Vec3) -> BoundingBox {
        let half = self.hsize.div_int(2);
        BoundingBox {
            min: pos.minus(Vec3 { x: half, y: Fixed { raw: 0 }, z: half }),
            max: pos.plus(Vec3 { x: half, y: self.vsize, z: half }),
        }
    }

    /// The box that the body would fill if it stood at `pos`.
    #[verifier::when_used_as_spec(spec_bounds_for)]
    pub fn bounds_for(&self, pos: Vec3) -> (b: BoundingBox)
        ensures
            b == self.spec_bounds_for(pos),
    {
        let half = self.hsize.div_int(2);
        let min = pos.minus(Vec3::new(half, Fixed::from_raw(0), half));
        let max = pos.plus(Vec3::new(half, self.vsize, half));
        BoundingBox::new(min, max)
    }

    pub open spec fn spec_bounds(&self) -> BoundingBox {
        self.spec_bounds_for(self.position)
    }

    /// The box that the body fills.
    #[verifier::when_used_as_spec(spec_bounds)]
    pub fn bounds(&self) -> (b: BoundingBox)
        ensures
            b == self.spec_bounds(),
    {
        self.bounds_for(self.position)
    }

    pub open spec fn spec_pos_ok<W: CollisionOracle>(&self, world: &W, pos: Vec3) -> bool {
        !world.solid(self.spec_bounds_for(pos))
    }

    /// Whether the body could stand at `pos` without touching geometry.
    #[verifier::when_used_as_spec(spec_pos_ok)]
    pub fn pos_ok<W: CollisionOracle>(&self, world: &W, pos: Vec3) -> (ok: bool)
        ensures
            ok == self.spec_pos_ok(world, pos),
            ok == !world.solid(self.bounds_for(pos)),
    {
        !world.collides(&self.bounds_for(pos))
    }

    pub open spec fn spec_on_ground<W: CollisionOracle>(&self, world: &W) -> bool {
        !self.spec_pos_ok(
            world,
            self.position.minus(
                Vec3 { x: Fixed { raw: 0 }, y: Fixed { raw: GROUND_PROBE }, z: Fixed { raw: 0 } },
            ),
        )
    }

    /// Whether something solid lies just below the feet: the body, lowered by
    /// `GROUND_PROBE`, would touch geometry.
    #[verifier::when_used_as_spec(spec_on_ground)]
    pub fn on_ground<W: CollisionOracle>(&self, world: &W) -> (grounded: bool)
        ensures
            grounded == self.spec_on_ground(world),
            grounded == world.solid(
                self.bounds_for(
                    self.position.minus(
                        Vec3 {
                            x: Fixed { raw: 0 },
                            y: Fixed { raw: GROUND_PROBE },
                            z: Fixed { raw: 0 },
                        },
                    ),
                ),
            ),
    {
        let zero = Fixed::from_raw(0);
        !self.pos_ok(world, self.position.minus(Vec3::new(zero, Fixed::from_raw(GROUND_PROBE), zero)))
    }
}

impl Contact {
    pub open spec fn spec_none() -> Contact {
        Contact { x: false, y: false, z: false }
    }

    /// Nothing was blocked.
    #[verifier::when_used_as_spec(spec_none)]
    pub fn none() -> (c: Contact)
        ensures
            c == Contact::spec_none(),
    {
        Contact { x: false, y: false, z: false }
    }
}

/// The displacement `d` along the first axis alone.
pub open spec fn along_x(d: Vec3) -> Vec3 {
    Vec3 { x: d.x, y: Fixed { raw: 0 }, z: Fixed { raw: 0 } }
}

/// The displacement `d` along the vertical axis alone.
pub open spec fn along_y(d: Vec3) -> Vec3 {
    Vec3 { x: Fixed { raw: 0 }, y: d.y, z: Fixed { raw: 0 } }
}

/// The displacement `d` along the third axis alone.
pub open spec fn along_z(d: Vec3) -> Vec3 {
    Vec3 { x: Fixed { raw: 0 }, y: Fixed { raw: 0 }, z: d.z }
}

/// The horizontal part of `d`, with `lift` as its vertical component.
pub open spec fn horizontal_with(d: Vec3, lift: Fixed) -> Vec3 {
    Vec3 { x: d.x, y: lift, z: d.z }
}

impl Skeleton {
    /// The velocity after gravity `g` has pulled for `dt` and drag has then
    /// slowed every component.
    pub open spec fn after_gravity(self, g: Fixed, dt: Fixed) -> Skeleton {
        let fallen = Vec3 { y: self.velocity.y.minus(g.times(dt)), ..self.velocity };
        Skeleton {
            velocity: fallen.scale(Fixed { raw: SCALE }.minus(Fixed { raw: DRAG }.times(dt))),
            ..self
        }
    }

    /// Where one substep of displacement `step` leads from `pos`, and what
    /// blocked it. The axes are tried in the order x, y, z; each move is made
    /// if the body fits at its end and is dropped otherwise, and each later
    /// axis starts from where the earlier ones arrived.
    pub open spec fn substep_from<W: CollisionOracle>(
        &self,
        world: &W,
        pos: Vec3,
        step: Vec3,
    ) -> (Vec3, Contact) {
        let x_hit = !self.spec_pos_ok(world, pos.plus(along_x(step)));
        let after_x = if x_hit { pos } else { pos.plus(along_x(step)) };
        let y_hit = !self.spec_pos_ok(world, after_x.plus(along_y(step)));
        let after_y = if y_hit { after_x } else { after_x.plus(along_y(step)) };
        let z_hit = !self.spec_pos_ok(world, after_y.plus(along_z(step)));
        let after_z = if z_hit { after_y } else { after_y.plus(along_z(step)) };
        (after_z, Contact { x: x_hit, y: y_hit, z: z_hit })
    }

    /// Where the first `n` substeps of displacement `step` lead from the
    /// body's position.
    pub open spec fn substeps<W: CollisionOracle>(&self, world: &W, step: Vec3, n: nat) -> Progress
        decreases n,
    {
        if n == 0 {
            Progress { position: self.position, landed: false, last: Contact::spec_none() }
        } else {
            let before = self.substeps(world, step, (n - 1) as nat);
            let (position, contact) = self.substep_from(world, before.position, step);
            Progress { position, landed: before.landed || contact.y, last: contact }
        }
    }

    /// The displacement that the velocity asks for over `dt`.
    pub open spec fn displacement(&self, dt: Fixed) -> Vec3 {
        self.velocity.scale(dt)
    }

    /// Whether moving for `dt` ends with a climb: the last substep was
    /// blocked sideways, the body is not falling, and it would fit one step
    /// higher at the end of the whole horizontal displacement.
    pub open spec fn climbs<W: CollisionOracle>(&self, world: &W, dt: Fixed) -> bool {
        let delta = self.displacement(dt);
        let run = self.substeps(world, delta.div_int(SUBSTEPS), SUBSTEPS as nat);
        let vy = if run.landed { 0 } else { self.velocity.y@ };
        &&& run.last.x || run.last.z
        &&& vy >= 0
        &&& self.spec_pos_ok(
            world,
            run.position.plus(horizontal_with(delta, Fixed { raw: STEP_HEIGHT })),
        )
    }

    /// The body after it has moved for `dt`.
    ///
    /// The displacement is made in `SUBSTEPS` equal parts. A blocked vertical
    /// move stops the vertical velocity. If the last substep was blocked
    /// sideways while the body was not falling, the body either climbs (it is
    /// carried over the whole horizontal displacement, at its own height) or
    /// loses its velocity along each axis that was blocked.
    pub open spec fn after_move<W: CollisionOracle>(self, world: &W, dt: Fixed) -> Skeleton {
        let delta = self.displacement(dt);
        let run = self.substeps(world, delta.div_int(SUBSTEPS), SUBSTEPS as nat);
        let vy = if run.landed { Fixed { raw: 0 } } else { self.velocity.y };
        let bumped = (run.last.x || run.last.z) && vy@ >= 0;
        if self.climbs(world, dt) {
            Skeleton {
                position: run.position.plus(horizontal_with(delta, Fixed { raw: 0 })),
                velocity: Vec3 { y: vy, ..self.velocity },
                ..self
            }
        } else if bumped {
            Skeleton {
                position: run.position,
                velocity: Vec3 {
                    x: if run.last.x { Fixed { raw: 0 } } else { self.velocity.x },
                    y: vy,
                    z: if run.last.z { Fixed { raw: 0 } } else { self.velocity.z },
                },
                ..self
            }
        } else {
            Skeleton {
                position: run.position,
                velocity: Vec3 { y: vy, ..self.velocity },
                ..self
            }
        }
    }

    /// The body after a rescue of `dt`: lifted if it is stuck in geometry,
    /// else as it was.
    pub open spec fn after_rescue<W: CollisionOracle>(self, world: &W, dt: Fixed) -> Skeleton {
        if self.spec_pos_ok(world, self.position) {
            self
        } else {
            Skeleton {
                position: Vec3 {
                    y: self.position.y.plus(Fixed { raw: STAIRCLIMB_SPEED }.times(dt)),
                    ..self.position
                },
                ..self
            }
        }
    }

    /// The body after a whole tick of `dt`: gravity, then movement, then
    /// rescue.
    pub open spec fn after_tick<W: CollisionOracle>(self, world: &W, dt: Fixed) -> Skeleton {
        self.after_gravity(Fixed { raw: GRAVITY }, dt).after_move(world, dt).after_rescue(world, dt)
    }

    /// The body after a jump was asked for.
    pub open spec fn after_jump<W: CollisionOracle>(self, world: &W, jump_speed: Fixed) -> Skeleton {
        if self.spec_on_ground(world) {
            Skeleton { velocity: Vec3 { y: jump_speed, ..self.velocity }, ..self }
        } else {
            self
        }
    }

    /// The velocity of an airborne body after steering toward `walk_speed`
    /// for `dt`: below `MAX_AIRCTL_SPEED` the body accelerates, and in either
    /// case drag then slows every component.
    pub open spec fn steered_in_air(self, dt: Fixed, walk_speed: Vec3) -> Vec3 {
        let pushed = if self.velocity.spec_horizontal_len_below(Fixed { raw: MAX_AIRCTL_SPEED }) {
            self.velocity.plus(walk_speed.scale(Fixed { raw: AIR_CONTROL }).scale(dt))
        } else {
            self.velocity
        };
        pushed.scale(Fixed { raw: SCALE }.minus(Fixed { raw: AIR_DRAG }.times(dt)))
    }

    /// The body after walking at `walk_speed` was asked for: on the ground
    /// the horizontal velocity is replaced, in the air it is steered.
    pub open spec fn after_walk<W: CollisionOracle>(
        self,
        dt: Fixed,
        world: &W,
        walk_speed: Vec3,
    ) -> Skeleton {
        if self.spec_on_ground(world) {
            Skeleton {
                velocity: Vec3 { x: walk_speed.x, y: self.velocity.y, z: walk_speed.z },
                ..self
            }
        } else {
            Skeleton { velocity: self.steered_in_air(dt, walk_speed), ..self }
        }
    }

    /// Pulls the body down for `dt` with acceleration `g`, then applies drag.
    pub fn tick_gravity(&mut self, g: Fixed, dt: Fixed)
        ensures
            *final(self) == old(self).after_gravity(g, dt),
    {
        self.velocity.y = self.velocity.y.minus(g.times(dt));
        let keep = Fixed::from_raw(SCALE).minus(Fixed::from_raw(DRAG).times(dt));
        self.velocity = self.velocity.scale(keep);
    }

    /// Makes one substep of displacement `step` and reports what blocked it.
    fn substep<W: CollisionOracle>(&mut self, world: &W, step: Vec3) -> (contact: Contact)
        ensures
            (final(self).position, contact) == old(self).substep_from(
                world,
                old(self).position,
                step,
            ),
            *final(self) == (Skeleton { position: final(self).position, ..*old(self) }),
    {
        let zero = Fixed::from_raw(0);
        let mut contact = Contact::none();

        let ahead = self.position.plus(Vec3::new(step.x, zero, zero));
        if self.pos_ok(world, ahead) {
            self.position = ahead;
        } else {
            contact.x = true;
        }

        let ahead = self.position.plus(Vec3::new(zero, step.y, zero));
        if self.pos_ok(world, ahead) {
            self.position = ahead;
        } else {
            contact.y = true;
        }

        let ahead = self.position.plus(Vec3::new(zero, zero, step.z));
        if self.pos_ok(world, ahead) {
            self.position = ahead;
        } else {
            contact.z = true;
        }
        contact
    }

    /// Moves the body for `dt` through `world`.
    pub fn tick_move<W: CollisionOracle>(&mut self, world: &W, dt: Fixed)
        ensures
            *final(self) == old(self).after_move(world, dt),
    {
        let zero = Fixed::from_raw(0);
        let delta = self.velocity.scale(dt);
        let sub_delta = delta.div_int(SUBSTEPS);
        let ghost start = *self;
        let mut last = Contact::none();
        let mut landed = false;

        let mut i: i64 = 0;
        while i < SUBSTEPS
            invariant
                0 <= i <= SUBSTEPS,
                *self == (Skeleton { position: self.position, ..start }),
                start.substeps(world, sub_delta, i as nat) == (Progress {
                    position: self.position,
                    landed,
                    last,
                }),
            decreases SUBSTEPS - i,
        {
            last = self.substep(world, sub_delta);
            if last.y {
                landed = true;
            }
            i += 1;
        }

        if landed {
            self.velocity.y = zero;
        }
        if (last.x || last.z) && self.velocity.y.raw >= 0 {
            let probe_pos = self.position.plus(Vec3::new(delta.x, Fixed::from_raw(STEP_HEIGHT), delta.z));
            if self.pos_ok(world, probe_pos) {
                self.position = self.position.plus(Vec3::new(delta.x, zero, delta.z));
            } else {
                if last.x {
                    self.velocity.x = zero;
                }
                if last.z {
                    self.velocity.z = zero;
                }
            }
        }
    }

    /// Lifts the body for `dt` if it is stuck inside geometry.
    pub fn tick_rescue<W: CollisionOracle>(&mut self, world: &W, dt: Fixed)
        ensures
            *final(self) == old(self).after_rescue(world, dt),
    {
        if !self.pos_ok(world, self.position) {
            self.position.y = self.position.y.plus(Fixed::from_raw(STAIRCLIMB_SPEED).times(dt));
        }
    }

    /// Advances the body by `dt`: gravity, then movement, then rescue.
    pub fn tick<W: CollisionOracle>(&mut self, world: &W, dt: Fixed)
        ensures
            *final(self) == old(self).after_tick(world, dt),
            final(self).hsize == old(self).hsize,
            final(self).vsize == old(self).vsize,
            final(self).orientation == old(self).orientation,
            final(self).wf() == old(self).wf(),
    {
        self.tick_gravity(Fixed::from_raw(GRAVITY), dt);
        self.tick_move(world, dt);
        self.tick_rescue(world, dt);
    }

    /// Sets the vertical velocity to `jump_speed` if the body stands on
    /// ground, and does nothing if it is in the air.
    pub fn try_jump<W: CollisionOracle>(&mut self, world: &W, jump_speed: Fixed)
        ensures
            *final(self) == old(self).after_jump(world, jump_speed),
            old(self).spec_on_ground(world) ==> final(self).velocity.y == jump_speed,
            !old(self).spec_on_ground(world) ==> *final(self) == *old(self),
    {
        if self.on_ground(world) {
            self.velocity.y = jump_speed;
        }
    }

    /// Steers the body toward `walk_speed`.
    ///
    /// On the ground the horizontal velocity becomes that of `walk_speed` at
    /// once. In the air the body accelerates toward `walk_speed` only while
    /// its horizontal speed is below `MAX_AIRCTL_SPEED`, and drag applies
    /// whether it accelerated or not.
    pub fn try_walk<W: CollisionOracle>(&mut self, dt: Fixed, world: &W, walk_speed: Vec3)
        ensures
            *final(self) == old(self).after_walk(dt, world, walk_speed),
            old(self).spec_on_ground(world) ==> final(self).velocity == (Vec3 {
                x: walk_speed.x,
                y: old(self).velocity.y,
                z: walk_speed.z,
            }),
            !old(self).spec_on_ground(world) && !old(self).velocity.spec_horizontal_len_below(
                Fixed { raw: MAX_AIRCTL_SPEED },
            ) ==> final(self).velocity == old(self).velocity.scale(
                Fixed { raw: SCALE }.minus(Fixed { raw: AIR_DRAG }.times(dt)),
            ),
    {
        if self.on_ground(world) {
            self.velocity.x = walk_speed.x;
            self.velocity.z = walk_speed.z;
        } else {
            if self.velocity.horizontal_len_below(Fixed::from_raw(MAX_AIRCTL_SPEED)) {
                let push = walk_speed.scale(Fixed::from_raw(AIR_CONTROL)).scale(dt);
                self.velocity = self.velocity.plus(push);
            }
            let keep = Fixed::from_raw(SCALE).minus(Fixed::from_raw(AIR_DRAG).times(dt));
            self.velocity = self.velocity.scale(keep);
        }
    }

    /// Takes position, velocity and orientation from `frame`.
    pub fn set_frame(&mut self, frame: Frame)
        ensures
            *final(self) == (Skeleton {
                position: frame.position,
                velocity: frame.velocity,
                orientation: frame.orientation,
                ..*old(self)
            }),
    {
        self.position = frame.position;
        self.velocity = frame.velocity;
        self.orientation = frame.orientation;
    }

    /// The body's position, velocity and orientation.
    pub fn frame(&self) -> (f: Frame)
        ensures
            f == (Frame {
                position: self.position,
                velocity: self.velocity,
                orientation: self.orientation,
            }),
    {
        Frame { position: self.position, velocity: self.velocity, orientation: self.orientation }
    }
}

} // verus!
