//! The controllable rider: per-tick kinematics with sub-step collision
//! sampling, the life-and-respawn rule, and the key-driven velocity
//! adjustments.

use vstd::prelude::*;

use crate::arena::div_trunc_40;
use crate::arena::ground_contact;
use crate::arena::on_ground_at;
use crate::arena::quarter_offset;
use crate::arena::sample_view;
use crate::arena::sample_x;
use crate::arena::sample_y;
use crate::arena::sat_add;
use crate::arena::sat_cap;
use crate::arena::wrap_x;

verus! {

/// The player's committed state between ticks.  Positions are arena cells,
/// velocities are fixed-point: a velocity `v` moves `v / 10` cells per tick.
#[derive(Copy, Clone, Debug, PartialEq, Eq, Structural)]
pub struct Player {
    pub x: usize,
    pub y: usize,
    pub dx: isize,
    pub dy: isize,
    pub score: usize,
    pub lives: usize,
    pub on_ground: bool,
    pub dead: bool,
}

/// Well-formedness kept by every operation: the position stays inside the
/// arena, both velocities stay inside their clamped ranges, and the vertical
/// velocity moves on the 5-unit grid that flapping, gravity and landing use.
pub open spec fn player_wf(p: Player) -> bool {
    &&& p.x < 76
    &&& p.y <= 22
    &&& -42 <= p.dx <= 42
    &&& -15 <= p.dy <= 30
    &&& (p.dy as int) % 5 == 0
    &&& p.lives <= 6
}

/// The fresh player a new play session starts with.
pub open spec fn player_default_spec() -> Player {
    Player { x: 39, y: 20, dx: 0, dy: 0, score: 0, lives: 6, on_ground: true, dead: false }
}

/// Whether taking a death exhausts the life pool and must end the session.
pub open spec fn player_die_signal(p: Player) -> bool {
    p.lives <= 1
}

/// The death rule: one life is spent; while lives remain the player is
/// tombstoned at the arena's center awaiting respawn (with the small
/// survival bonus the score keeps on each death); once none remain the
/// state is left for the game-over transition.
pub open spec fn player_die_spec(p: Player) -> Player {
    if p.lives == 0 {
        p
    } else if p.lives == 1 {
        Player { lives: 0, ..p }
    } else {
        Player {
            x: 40,
            y: 12,
            dx: 0,
            dy: 0,
            score: sat_cap(p.score + 50) as usize,
            lives: (p.lives - 1) as usize,
            on_ground: p.on_ground,
            dead: true,
        }
    }
}

/// Leftward thrust, stronger on foot, clamped at the speed ceiling.
pub open spec fn player_accel_left_spec(p: Player) -> Player {
    if p.dx > -40 {
        Player { dx: (p.dx - if p.on_ground { 3int } else { 2int }) as isize, ..p }
    } else {
        p
    }
}

/// Rightward thrust, stronger on foot, clamped at the speed ceiling.
pub open spec fn player_accel_right_spec(p: Player) -> Player {
    if p.dx < 40 {
        Player { dx: (p.dx + if p.on_ground { 3int } else { 2int }) as isize, ..p }
    } else {
        p
    }
}

/// Gravity: an airborne entity falls 5 units faster each tick, up to the
/// terminal velocity of 30.
pub open spec fn player_gravity_spec(p: Player) -> Player {
    if p.dy < 30 && !p.on_ground {
        Player { dy: (p.dy + 5) as isize, ..p }
    } else {
        p
    }
}

/// One sub-step of the tick: the state after the sample's death, ceiling,
/// and landing checks, paired with the sample handed to combat (`None` when
/// the fall ended the session).
pub open spec fn player_quarter_spec(
    p: Player,
    q: int,
    boxes: Seq<(usize, usize, usize, usize)>,
) -> (Player, Option<(int, int)>) {
    let sx = sample_x(p.x as int, p.dx as int, q);
    let sy0 = sample_y(p.y as int, p.dy as int, q);
    if p.dead {
        (p, Some((sx, sy0)))
    } else if sy0 >= 23 {
        if player_die_signal(p) {
            (player_die_spec(p), None)
        } else {
            let p1 = player_die_spec(p);
            (Player { on_ground: on_ground_at(sx, sy0, boxes), ..p1 }, Some((sx, sy0)))
        }
    } else {
        let sy = if sy0 < 0 { 0int } else { sy0 };
        let dy1 = if sy0 < 0 { -p.dy } else { p.dy as int };
        let og = on_ground_at(sx, sy, boxes);
        let dy2 = if og && dy1 > 0 { 0int } else { dy1 };
        (Player { dy: dy2 as isize, on_ground: og, ..p }, Some((sx, sy)))
    }
}

impl Default for Player {
    /// The fresh player: centered on the main platform, six lives, at rest.
    fn default() -> (p: Self)
        ensures
            p == player_default_spec(),
            player_wf(p),
    {
        Player { x: 39, y: 20, score: 0, lives: 6, dx: 0, dy: 0, on_ground: true, dead: false }
    }
}

impl Player {
    /// Whether the 4-cell-wide footprint anchored at the sample point stands
    /// on some platform rectangle.
    pub fn is_on_ground(
        &self,
        sx: usize,
        sy: usize,
        ground_bounding_boxes: [(usize, usize, usize, usize); 5],
    ) -> (r: bool)
        requires
            sx <= 1000,
            sy <= 1000,
        ensures
            r == on_ground_at(sx as int, sy as int, ground_bounding_boxes@),
    {
        ground_contact(sx, sy, &ground_bounding_boxes)
    }

    /// One of the four per-tick sub-steps.  Both samples are computed from
    /// the committed position, the vertical sample is checked against the
    /// hazard row (death) and the ceiling (velocity reflection), ground
    /// contact is recomputed, and a grounded fall is stopped.  Returns the
    /// sample for combat, or `None` when the fall ended the session.
    pub fn update_quarter_step(
        &mut self,
        quarter: isize,
        ground_bounding_boxes: [(usize, usize, usize, usize); 5],
    ) -> (r: Option<(isize, isize)>)
        requires
            player_wf(*old(self)),
            1 <= quarter <= 4,
        ensures
            player_wf(*final(self)),
            *final(self) == player_quarter_spec(
                *old(self),
                quarter as int,
                ground_bounding_boxes@,
            ).0,
            sample_view(r) == player_quarter_spec(*old(self), quarter as int, ground_bounding_boxes@).1,
            r is Some ==> 0 <= (r->Some_0).0 < 76 && -1 <= (r->Some_0).1 <= 25,
            !final(self).dead && r is Some ==> 0 <= (r->Some_0).1 <= 22,
            // After kinematics, an entity that stands on ground no longer falls.
            !old(self).dead && r is Some && final(self).on_ground && old(self).dy > 0
                ==> final(self).dy == 0,
    {
        proof {
            let dy0 = self.dy;
            assert(-60 <= dy0 * quarter <= 120) by (nonlinear_arith)
                requires
                    -15 <= dy0 <= 30,
                    1 <= quarter <= 4,
            ;
        }
        let sx = wrap_x(self.x as isize + quarter_offset(self.dx, quarter));
        let mut sy = self.y as isize + quarter_offset(self.dy, quarter);

        if !self.dead {
            if sy >= 23 {
                if self.die() {
                    return None;
                }
            } else if sy < 0 {
                self.dy = -self.dy;
                sy = 0;
            }

            self.on_ground = self.is_on_ground(sx, sy as usize, ground_bounding_boxes);

            if self.on_ground && self.dy > 0 {
                self.dy = 0;
            }
        }
        Some((sx as isize, sy))
    }

    /// Spends one life.  Returns `true` when the pool is exhausted and the
    /// session must end; otherwise tombstones the player for respawn.
    pub fn die(&mut self) -> (game_over: bool)
        requires
            old(self).lives <= 6,
        ensures
            *final(self) == player_die_spec(*old(self)),
            game_over == player_die_signal(*old(self)),
    {
        if self.lives > 0 {
            self.lives -= 1;
        }
        if self.lives == 0 {
            true
        } else {
            self.x = 40;
            self.y = 12;
            self.dx = 0;
            self.dy = 0;
            self.score = sat_add(self.score, 50);
            self.dead = true;
            false
        }
    }

    /// Accelerates leftward, with more thrust on foot.
    pub fn accel_left(&mut self)
        requires
            player_wf(*old(self)),
        ensures
            *final(self) == player_accel_left_spec(*old(self)),
            player_wf(*final(self)),
    {
        if self.dx > -40 {
            if self.on_ground {
                self.dx = self.dx - 3;
            } else {
                self.dx = self.dx - 2;
            }
        }
    }

    /// Accelerates rightward, with more thrust on foot.
    pub fn accel_right(&mut self)
        requires
            player_wf(*old(self)),
        ensures
            *final(self) == player_accel_right_spec(*old(self)),
            player_wf(*final(self)),
    {
        if self.dx < 40 {
            if self.on_ground {
                self.dx = self.dx + 3;
            } else {
                self.dx = self.dx + 2;
            }
        }
    }

    /// The flap impulse: an instant upward velocity.
    pub fn flap(&mut self)
        ensures
            *final(self) == (Player { dy: -10isize, ..*old(self) }),
    {
        self.dy = -10;
    }

    /// Applies gravity after the tick's last sub-step: while airborne the
    /// fall speed grows by exactly 5 per tick and never exceeds 30.
    pub fn apply_gravity(&mut self)
        requires
            -15 <= old(self).dy <= 30,
            (old(self).dy as int) % 5 == 0,
        ensures
            *final(self) == player_gravity_spec(*old(self)),
            final(self).dy <= 30,
    {
        if self.dy < 30 && !self.on_ground {
            self.dy = self.dy + 5;
        }
    }
}

} // verus!
