//! The tick's mathematical model: an abstract view of the game and a pure
//! step function over it.
//!
//! `GameView` reads the whole game at the specification level, with the
//! enemy arena as a sequence.  The functions here compose the per-entity
//! and per-phase specifications into one function from pre-state to
//! post-state, which the orchestration methods (`Joust::tick`,
//! `Joust::update_all`, `Joust::move_all`) promise to equal.  The tick
//! reads no clock, randomness or input, so this also states that the
//! post-state is a pure function of the pre-state.

use vstd::prelude::*;

use crate::arena::first_free_spawn;
use crate::arena::ground_map;
use crate::arena::sat_cap;
use crate::combat_overlap;
use crate::enemy::class_reward;
use crate::enemy::enemy_gravity_spec;
use crate::enemy::enemy_quarter_spec;
use crate::enemy::think_spec;
use crate::enemy::Enemy;
use crate::player::player_die_signal;
use crate::player::player_die_spec;
use crate::player::player_gravity_spec;
use crate::player::player_quarter_spec;
use crate::player::Player;
use crate::spawned_enemy_spec;
use crate::Joust;
use crate::State;

verus! {

/// The game at the specification level.
#[verifier::ext_equal]
pub ghost struct GameView {
    pub player: Player,
    pub state: State,
    pub enemies: Seq<Enemy>,
    pub spawned_enemies: usize,
    pub wave: usize,
    pub ui_drawn: bool,
}

impl View for Joust {
    type V = GameView;

    open spec fn view(&self) -> GameView {
        GameView {
            player: self.player,
            state: self.state,
            enemies: self.enemies@,
            spawned_enemies: self.spawned_enemies,
            wave: self.wave,
            ui_drawn: self.ui_drawn,
        }
    }
}

/// Every slot of the sequence is tombstoned.
pub open spec fn all_dead(es: Seq<Enemy>) -> bool {
    forall|i: int| 0 <= i < es.len() ==> (#[trigger] es[i]).dead
}

/// The spawner phase: while the wave still owes an enemy and a slot and a
/// free spawn point exist, the next slot is activated there with the
/// index-determined class; otherwise nothing changes.
pub open spec fn spawn_phase(v: GameView) -> GameView {
    if v.spawned_enemies < v.wave && v.spawned_enemies < 10 {
        match first_free_spawn(
            v.player.x as int,
            v.player.y as int,
            v.player.dead,
            v.enemies,
            false,
        ) {
            Some(p) => GameView {
                enemies: v.enemies.update(
                    v.spawned_enemies as int,
                    spawned_enemy_spec(v.spawned_enemies as int, p),
                ),
                spawned_enemies: (v.spawned_enemies + 1) as usize,
                ..v
            },
            None => v,
        }
    } else {
        v
    }
}

/// The respawn phase: a tombstoned player comes back to life at the first
/// free spawn point, if any.
pub open spec fn respawn_phase(v: GameView) -> GameView {
    if v.player.dead {
        match first_free_spawn(
            v.player.x as int,
            v.player.y as int,
            v.player.dead,
            v.enemies,
            true,
        ) {
            Some(p) => GameView {
                player: Player { x: p.0, y: p.1, dead: false, ..v.player },
                ..v
            },
            None => v,
        }
    } else {
        v
    }
}

/// The wave phase: once the allotment is spent and every slot is dead, the
/// wave advances and the spawner re-arms.
pub open spec fn wave_phase(v: GameView) -> GameView {
    if (v.spawned_enemies == v.wave || v.spawned_enemies == 10) && all_dead(v.enemies) {
        GameView { wave: sat_cap(v.wave + 1) as usize, spawned_enemies: 0, ..v }
    } else {
        v
    }
}

/// The decision phase: every living enemy observes the player's committed
/// cell and sets its intent; tombstones are untouched.
pub open spec fn think_phase(v: GameView) -> GameView {
    GameView {
        enemies: Seq::new(
            v.enemies.len(),
            |i: int|
                if v.enemies[i].dead {
                    v.enemies[i]
                } else {
                    think_spec(v.enemies[i], v.player.x as int, v.player.y as int)
                },
        ),
        ..v
    }
}

/// One sub-step encounter, adjudicated by the y-comparison tie-break: the
/// post player, the post enemy, and the game-over signal.
pub open spec fn combat_spec(p: Player, e: Enemy, sx: int, sy: int, ex: int, ey: int) -> (
    Player,
    Enemy,
    bool,
) {
    if combat_overlap(sx, sy, ex, ey) && !p.dead {
        if sy < ey {
            (
                Player { score: sat_cap(p.score + class_reward(e.etype)) as usize, ..p },
                Enemy { dead: true, ..e },
                false,
            )
        } else if ey < sy {
            (player_die_spec(p), e, player_die_signal(p))
        } else {
            (
                Player { dx: (-p.dx) as isize, ..p },
                Enemy { dx: (-e.dx) as isize, ..e },
                false,
            )
        }
    } else {
        (p, e, false)
    }
}

/// One enemy slot at one quarter: a tombstone is skipped; a living enemy
/// takes its sub-step, fights the player at the samples, and on the last
/// quarter commits its sample and receives gravity.
pub open spec fn enemy_slot_step(p: Player, e: Enemy, sx: int, sy: int, q: int) -> (
    Player,
    Enemy,
    bool,
) {
    if e.dead {
        (p, e, false)
    } else {
        let (e1, sample) = enemy_quarter_spec(e, q, ground_map());
        match sample {
            None => (p, e1, false),
            Some((ex, ey)) => {
                let (p2, e2, go) = combat_spec(p, e1, sx, sy, ex, ey);
                if go {
                    (p2, e2, true)
                } else if q == 4 {
                    (p2, enemy_gravity_spec(Enemy { x: ex as usize, y: ey as usize, ..e2 }), false)
                } else {
                    (p2, e2, false)
                }
            },
        }
    }
}

/// The enemies' pass at one quarter, from slot `j` up: threads the player
/// through each slot's combat and stops at a game-over signal.
pub open spec fn enemies_pass(p: Player, es: Seq<Enemy>, sx: int, sy: int, q: int, j: int) -> (
    Player,
    Seq<Enemy>,
    bool,
)
    decreases 10 - j,
{
    if j < 0 || j >= 10 {
        (p, es, false)
    } else {
        let (p1, e1, go) = enemy_slot_step(p, es[j], sx, sy, q);
        let es1 = es.update(j, e1);
        if go {
            (p1, es1, true)
        } else {
            enemies_pass(p1, es1, sx, sy, q, j + 1)
        }
    }
}

/// One whole quarter: the player's sub-step, then the enemies' pass at the
/// player's sample.  The third component is the player's sample, which the
/// last quarter commits; the fourth is the game-over signal.
pub open spec fn quarter_pass(p: Player, es: Seq<Enemy>, q: int) -> (
    Player,
    Seq<Enemy>,
    (int, int),
    bool,
) {
    let (p1, sample) = player_quarter_spec(p, q, ground_map());
    match sample {
        None => (p1, es, (0, 0), true),
        Some((sx, sy)) => {
            let (p2, es2, go) = enemies_pass(p1, es, sx, sy, q, 0);
            (p2, es2, (sx, sy), go)
        },
    }
}

/// The quarters from `q` up, threading the player's last sample.
pub open spec fn sweep_from(p: Player, es: Seq<Enemy>, q: int, sx: int, sy: int) -> (
    Player,
    Seq<Enemy>,
    (int, int),
    bool,
)
    decreases 5 - q,
{
    if q < 1 || q >= 5 {
        (p, es, (sx, sy), false)
    } else {
        let (p1, es1, s1, go) = quarter_pass(p, es, q);
        if go {
            (p1, es1, s1, true)
        } else {
            sweep_from(p1, es1, q + 1, s1.0, s1.1)
        }
    }
}

/// The whole four-sample sweep: the four quarters, then the surviving
/// player commits the last sample and receives gravity.  The second
/// component is the game-over signal.
pub open spec fn sweep_spec(v: GameView) -> (GameView, bool) {
    let (p, es, s, go) = sweep_from(v.player, v.enemies, 1, 0, 0);
    if go {
        (GameView { player: p, enemies: es, ..v }, true)
    } else {
        let p2 = if !p.dead {
            player_gravity_spec(Player { x: s.0 as usize, y: s.1 as usize, ..p })
        } else {
            p
        };
        (GameView { player: p2, enemies: es, ..v }, false)
    }
}

/// One whole playing-mode step: spawner, respawn, wave rule, decisions,
/// then the sweep; a game-over signal ends the session.
pub open spec fn playing_step_spec(v: GameView) -> (GameView, bool) {
    let v1 = wave_phase(respawn_phase(spawn_phase(v)));
    let v2 = think_phase(v1);
    let (v3, go) = sweep_spec(v2);
    if go {
        (GameView { state: State::GameOver, ui_drawn: false, ..v3 }, true)
    } else {
        (v3, false)
    }
}

/// What one tick does to the game: outside `Playing` nothing; in `Playing`
/// the whole step.  A pure function of the pre-state.
pub open spec fn tick_spec(v: GameView) -> GameView {
    if v.state == State::Playing {
        playing_step_spec(v).0
    } else {
        v
    }
}

} // verus!
