//! The AI-driven opponents: the three enemy classes, their per-tick
//! decision rule, and the same sub-step kinematics the player uses.

use vstd::prelude::*;

use crate::arena::div_trunc_40;
use crate::arena::ground_contact;
use crate::arena::on_ground_at;
use crate::arena::quarter_offset;
use crate::arena::sample_view;
use crate::arena::sample_x;
use crate::arena::sample_y;
use crate::arena::wrap_x;

verus! {

/// The closed set of enemy classes, in rising order of aggressiveness.
#[derive(Copy, Clone, Debug, PartialEq, Eq, Structural)]
pub enum EnemyType {
    Bounder,
    Hunter,
    ShadowLord,
}

/// One enemy slot.  A tombstoned slot (`dead = true`) stays allocated but
/// is excluded from simulation; the `score` and `lives` fields are carried
/// for symmetry with the player and are functionally vestigial.
#[derive(Copy, Clone, Debug, PartialEq, Eq, Structural)]
pub struct Enemy {
    pub x: usize,
    pub y: usize,
    pub dx: isize,
    pub dy: isize,
    pub etype: EnemyType,
    pub score: usize,
    pub lives: usize,
    pub on_ground: bool,
    pub dead: bool,
}

/// The per-class ceiling on horizontal speed.
pub open spec fn speed_cap(t: EnemyType) -> int {
    match t {
        EnemyType::Bounder => 10,
        EnemyType::Hunter => 25,
        EnemyType::ShadowLord => 40,
    }
}

/// The score awarded for killing an enemy of the class.
pub open spec fn class_reward(t: EnemyType) -> int {
    match t {
        EnemyType::Bounder => 250,
        EnemyType::Hunter => 500,
        EnemyType::ShadowLord => 1000,
    }
}

/// Well-formedness kept by every operation: position inside the arena,
/// horizontal speed within the widest class ceiling, vertical speed on the
/// 5-unit grid within flap impulse and terminal fall velocity.
pub open spec fn enemy_wf(e: Enemy) -> bool {
    &&& e.x < 76
    &&& e.y <= 22
    &&& -40 <= e.dx <= 40
    &&& -15 <= e.dy <= 30
    &&& (e.dy as int) % 5 == 0
}

/// The value every enemy slot starts from: a tombstone parked at the
/// arena's center.
pub open spec fn enemy_default_spec() -> Enemy {
    Enemy {
        x: 40,
        y: 12,
        dx: 0,
        dy: 0,
        etype: EnemyType::Bounder,
        score: 0,
        lives: 6,
        on_ground: false,
        dead: true,
    }
}

/// The horizontal steering rule: accelerate toward the player's column by 3
/// on foot or 2 airborne (while below the class ceiling), then clamp the
/// result to the ceiling on both sides.
pub open spec fn steer_dx(dx: int, x: int, px: int, on_ground: bool, cap: int) -> int {
    let a: int = if on_ground {
        3
    } else {
        2
    };
    let d1: int = if x > px && dx < cap {
        dx - a
    } else if x < px && dx < cap {
        dx + a
    } else {
        dx
    };
    if d1 > cap {
        cap
    } else if d1 < -cap {
        -cap
    } else {
        d1
    }
}

/// The whole decision rule: flap (an upward impulse of 15) when flying too
/// low in the arena or below the player, then steer toward the player.
pub open spec fn think_spec(e: Enemy, px: int, py: int) -> Enemy {
    let dy1: int = if e.y > 18 || e.y > py {
        -15
    } else {
        e.dy as int
    };
    Enemy {
        dy: dy1 as isize,
        dx: steer_dx(e.dx as int, e.x as int, px, e.on_ground, speed_cap(e.etype)) as isize,
        ..e
    }
}

/// One sub-step of the tick for an enemy: like the player's, but a fall to
/// the hazard row simply tombstones the slot.
pub open spec fn enemy_quarter_spec(
    e: Enemy,
    q: int,
    boxes: Seq<(usize, usize, usize, usize)>,
) -> (Enemy, Option<(int, int)>) {
    let sx = sample_x(e.x as int, e.dx as int, q);
    let sy0 = sample_y(e.y as int, e.dy as int, q);
    if sy0 >= 23 {
        (Enemy { dead: true, ..e }, None)
    } else {
        let sy = if sy0 < 0 { 0int } else { sy0 };
        let dy1 = if sy0 < 0 { -e.dy } else { e.dy as int };
        let og = on_ground_at(sx, sy, boxes);
        let dy2 = if og && dy1 > 0 { 0int } else { dy1 };
        (Enemy { dy: dy2 as isize, on_ground: og, ..e }, Some((sx, sy)))
    }
}

/// Gravity for an enemy, the same rule the player obeys.
pub open spec fn enemy_gravity_spec(e: Enemy) -> Enemy {
    if e.dy < 30 && !e.on_ground {
        Enemy { dy: (e.dy + 5) as isize, ..e }
    } else {
        e
    }
}

impl Default for Enemy {
    /// A fresh slot: tombstoned, parked at the arena's center.
    fn default() -> (e: Self)
        ensures
            e == enemy_default_spec(),
            enemy_wf(e),
    {
        Enemy {
            x: 40,
            y: 12,
            score: 0,
            lives: 6,
            etype: EnemyType::Bounder,
            dx: 0,
            dy: 0,
            on_ground: false,
            dead: true,
        }
    }
}

impl Enemy {
    /// Whether the 4-cell-wide footprint anchored at the sample point stands
    /// on some platform rectangle.
    pub fn is_on_ground(
        &self,
        sx: usize,
        sy: usize,
        ground_bounding_boxes: [(usize, usize, usize, usize); 5],
    ) -> (r: bool)
        requires
            sx <= 1000,
            sy <= 1000,
        ensures
            r == on_ground_at(sx as int, sy as int, ground_bounding_boxes@),
    {
        ground_contact(sx, sy, &ground_bounding_boxes)
    }

    /// One of the four per-tick sub-steps: samples from the committed
    /// position, tombstones on reaching the hazard row, reflects at the
    /// ceiling, recomputes ground contact and stops a grounded fall.
    pub fn update_quarter_step(
        &mut self,
        quarter: isize,
        ground_bounding_boxes: [(usize, usize, usize, usize); 5],
    ) -> (r: Option<(isize, isize)>)
        requires
            enemy_wf(*old(self)),
            1 <= quarter <= 4,
        ensures
            enemy_wf(*final(self)),
            *final(self) == enemy_quarter_spec(
                *old(self),
                quarter as int,
                ground_bounding_boxes@,
            ).0,
            sample_view(r) == enemy_quarter_spec(*old(self), quarter as int, ground_bounding_boxes@).1,
            r is Some ==> 0 <= (r->Some_0).0 < 76 && 0 <= (r->Some_0).1 <= 22,
            r is None ==> final(self).dead,
            // After kinematics, an entity that stands on ground no longer falls.
            r is Some && final(self).on_ground && old(self).dy > 0 ==> final(self).dy == 0,
    {
        proof {
            let dy0 = self.dy;
            assert(-60 <= dy0 * quarter <= 120) by (nonlinear_arith)
                requires
                    -15 <= dy0 <= 30,
                    1 <= quarter <= 4,
            ;
        }
        let sx = wrap_x(self.x as isize + quarter_offset(self.dx, quarter));
        let mut sy = self.y as isize + quarter_offset(self.dy, quarter);

        if sy >= 23 {
            if self.die() {
                self.dead = true;
                return None;
            }
        } else if sy < 0 {
            self.dy = -self.dy;
            sy = 0;
        }

        self.on_ground = self.is_on_ground(sx, sy as usize, ground_bounding_boxes);

        if self.on_ground && self.dy > 0 {
            self.dy = 0;
        }
        Some((sx as isize, sy))
    }

    /// An enemy has a single hit point: a death blow always lands.
    pub fn die(&mut self) -> (r: bool)
        ensures
            *final(self) == *old(self),
            r == true,
    {
        true
    }

    /// The per-tick decision: observes the player's committed cell and sets
    /// this tick's intent, flapping when too low and steering toward the
    /// player under the class speed ceiling.
    pub fn think(&mut self, player_x: usize, player_y: usize)
        requires
            enemy_wf(*old(self)),
        ensures
            *final(self) == think_spec(*old(self), player_x as int, player_y as int),
            enemy_wf(*final(self)),
    {
        if self.y > 18 || self.y > player_y {
            self.flap();
        }
        match self.etype {
            EnemyType::Bounder => {
                if self.x > player_x {
                    self.accel_left(10);
                } else if self.x < player_x {
                    self.accel_right(10);
                }
                if self.dx > 10 {
                    self.dx = 10;
                } else if self.dx < -10 {
                    self.dx = -10;
                }
            },
            EnemyType::Hunter => {
                if self.x > player_x {
                    self.accel_left(25);
                } else if self.x < player_x {
                    self.accel_right(25);
                }
                if self.dx > 25 {
                    self.dx = 25;
                } else if self.dx < -25 {
                    self.dx = -25;
                }
            },
            EnemyType::ShadowLord => {
                if self.x > player_x {
                    self.accel_left(40);
                } else if self.x < player_x {
                    self.accel_right(40);
                }
                if self.dx > 40 {
                    self.dx = 40;
                } else if self.dx < -40 {
                    self.dx = -40;
                }
            },
        }
    }

    /// Thrust away from the player's side, while below the class ceiling.
    fn accel_left(&mut self, speed_limit: isize)
        requires
            -40 <= old(self).dx <= 40,
            0 <= speed_limit <= 40,
        ensures
            *final(self) == (Enemy {
                dx: (if old(self).dx < speed_limit {
                    old(self).dx - (if old(self).on_ground { 3int } else { 2int })
                } else {
                    old(self).dx as int
                }) as isize,
                ..*old(self)
            }),
    {
        if self.dx < speed_limit {
            if self.on_ground {
                self.dx = self.dx - 3;
            } else {
                self.dx = self.dx - 2;
            }
        }
    }

    /// Thrust toward the player's side, while below the class ceiling.
    fn accel_right(&mut self, speed_limit: isize)
        requires
            -40 <= old(self).dx <= 40,
            0 <= speed_limit <= 40,
        ensures
            *final(self) == (Enemy {
                dx: (if old(self).dx < speed_limit {
                    old(self).dx + (if old(self).on_ground { 3int } else { 2int })
                } else {
                    old(self).dx as int
                }) as isize,
                ..*old(self)
            }),
    {
        if self.dx < speed_limit {
            if self.on_ground {
                self.dx = self.dx + 3;
            } else {
                self.dx = self.dx + 2;
            }
        }
    }

    /// The enemy flap impulse: a stronger upward kick than the player's.
    fn flap(&mut self)
        ensures
            *final(self) == (Enemy { dy: -15isize, ..*old(self) }),
    {
        self.dy = -15;
    }

    /// Applies gravity after the tick's last sub-step: while airborne the
    /// fall speed grows by exactly 5 per tick and never exceeds 30.
    pub fn apply_gravity(&mut self)
        requires
            -15 <= old(self).dy <= 30,
            (old(self).dy as int) % 5 == 0,
        ensures
            *final(self) == enemy_gravity_spec(*old(self)),
            final(self).dy <= 30,
    {
        if self.dy < 30 && !self.on_ground {
            self.dy = self.dy + 5;
        }
    }
}

} // verus!
