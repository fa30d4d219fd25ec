//! Core of a side-view arena combat game in the style of Joust.
//!
//! A player-controlled rider and waves of AI-driven enemies fly over a small
//! grid arena, collide with platforms and with each other, and a state
//! machine steers the session from the title screen through play to the
//! game-over screen.  Everything here is pure integer state manipulation;
//! rendering, raw input decoding and the host interrupt loop live outside
//! this crate and talk to it through plain values.

use vstd::prelude::*;

pub mod arena;
pub mod enemy;
pub mod model;
pub mod player;

pub use arena::wrap_x;
pub use enemy::Enemy;
pub use enemy::EnemyType;
pub use player::Player;

use arena::first_free_spawn;
use arena::ground_bounding_boxes;
use arena::rects_overlap;
use arena::sat_add;
use arena::sat_cap;
use arena::spawn_point_blocked;
use arena::spawn_point_list;
use arena::spawn_points;
use enemy::class_reward;
use enemy::enemy_default_spec;
use enemy::enemy_wf;
use enemy::think_spec;
use player::player_accel_left_spec;
use player::player_accel_right_spec;
use player::player_default_spec;
use player::player_die_signal;
use player::player_die_spec;
use player::player_wf;

verus! {

/// Width of the character grid the game is played on.
pub const ARENA_WIDTH: usize = 80;

/// Height of the character grid the game is played on.
pub const ARENA_HEIGHT: usize = 25;

/// Modulo addition on a cyclic range of `LIMIT` values.
pub fn safe_add<const LIMIT: usize>(a: usize, b: usize) -> (r: usize)
    requires
        LIMIT > 0,
        a + b <= usize::MAX,
    ensures
        r == (a + b) % (LIMIT as int),
        r < LIMIT,
{
    (a + b) % LIMIT
}

/// The successor on a cyclic range of `LIMIT` values.
pub fn add1<const LIMIT: usize>(value: usize) -> (r: usize)
    requires
        LIMIT > 0,
        value < usize::MAX,
    ensures
        r == (value + 1) % (LIMIT as int),
{
    safe_add::<LIMIT>(value, 1)
}

/// The predecessor on a cyclic range of `LIMIT` values.
pub fn sub1<const LIMIT: usize>(value: usize) -> (r: usize)
    requires
        LIMIT > 0,
        value + LIMIT - 1 <= usize::MAX,
    ensures
        r == (value + LIMIT - 1) % (LIMIT as int),
{
    safe_add::<LIMIT>(value, LIMIT - 1)
}

/// The top-level mode of the session.
#[derive(Copy, Clone, Debug, PartialEq, Eq, Structural)]
pub enum State {
    TitleScreen,
    Playing,
    GameOver,
}

/// The named keys the game reads; anything else arrives as `Other`.
#[derive(Copy, Clone, Debug, PartialEq, Eq, Structural)]
pub enum RawKey {
    ArrowLeft,
    ArrowRight,
    Other,
}

/// A decoded input event, as the host boundary hands it in: either a named
/// key or a printable character.
#[derive(Copy, Clone, Debug, PartialEq, Eq, Structural)]
pub enum KeyEvent {
    RawKey(RawKey),
    Unicode(char),
}

/// The whole game: the player, the fixed arena of enemy slots, the wave
/// bookkeeping and the session mode.
#[derive(Copy, Clone, Debug, PartialEq, Eq)]
pub struct Joust {
    pub player: Player,
    pub state: State,
    pub enemies: [Enemy; 10],
    pub spawned_enemies: usize,
    pub wave: usize,
    pub ui_drawn: bool,
}

/// Well-formedness of the whole game: every entity is well-formed and the
/// wave bookkeeping obeys `spawned_enemies <= min(wave, capacity)`.
pub open spec fn joust_wf(g: Joust) -> bool {
    &&& player_wf(g.player)
    &&& forall|i: int| 0 <= i < 10 ==> enemy_wf(#[trigger] g.enemies@[i])
    &&& g.wave >= 1
    &&& g.spawned_enemies <= g.wave
    &&& g.spawned_enemies <= 10
}

/// In every well-formed game state the horizontal position of every entity
/// lies in `[0, 76)`, the playable column range: the wrap at the arena's
/// edge never places an entity outside it.  Every constructor and mutator
/// of `Joust` establishes or preserves `joust_wf`.
pub proof fn lemma_positions_in_arena(g: Joust)
    requires
        joust_wf(g),
    ensures
        g.player.x < 76,
        forall|i: int| 0 <= i < 10 ==> (#[trigger] g.enemies@[i]).x < 76,
{
}

/// In every well-formed game state the spawner's bookkeeping obeys its
/// budget: the count of enemies issued this wave never exceeds the wave
/// number nor the slot capacity.
pub proof fn lemma_spawn_budget(g: Joust)
    requires
        joust_wf(g),
    ensures
        g.spawned_enemies <= g.wave,
        g.spawned_enemies <= 10,
{
}

/// Every enemy slot is tombstoned.
pub open spec fn all_enemies_dead(g: Joust) -> bool {
    model::all_dead(g.enemies@)
}

/// A wave is complete when the spawner has issued its full allotment and
/// every tracked enemy slot is dead.
pub open spec fn wave_complete(g: Joust) -> bool {
    &&& g.spawned_enemies == g.wave || g.spawned_enemies == 10
    &&& all_enemies_dead(g)
}

/// The class the spawner assigns by spawn index within the wave.
pub open spec fn class_for(idx: int) -> EnemyType {
    if 3 <= idx < 5 {
        EnemyType::Hunter
    } else if idx >= 5 {
        EnemyType::ShadowLord
    } else {
        EnemyType::Bounder
    }
}

/// The enemy a spawn activates: a fresh slot brought to life at the spawn
/// point with the index-determined class.
pub open spec fn spawned_enemy_spec(idx: int, p: (usize, usize)) -> Enemy {
    Enemy { x: p.0, y: p.1, dead: false, etype: class_for(idx), ..enemy_default_spec() }
}

/// What entering `Playing` does: a fresh default player, every enemy slot
/// tombstoned, and the wave bookkeeping reset.
pub open spec fn entered_playing(pre: Joust, post: Joust) -> bool {
    &&& post.state == State::Playing
    &&& post.player == player_default_spec()
    &&& forall|i: int| 0 <= i < 10 ==> #[trigger] post.enemies@[i] == enemy_default_spec()
    &&& post.spawned_enemies == 0
    &&& post.wave == 1
    &&& post.ui_drawn == pre.ui_drawn
}

/// What a named key does: in play, the arrow keys accelerate the player;
/// everything else, and every mode but `Playing`, leaves the game unchanged.
pub open spec fn raw_key_effect(pre: Joust, key: RawKey, post: Joust) -> bool {
    if pre.state == State::Playing && key == RawKey::ArrowLeft {
        post == Joust { player: player_accel_left_spec(pre.player), ..pre }
    } else if pre.state == State::Playing && key == RawKey::ArrowRight {
        post == Joust { player: player_accel_right_spec(pre.player), ..pre }
    } else {
        post == pre
    }
}

/// What a printable key does: `z` starts a session from the title or
/// game-over screen, `x` flaps during play, `q` leaves the game-over screen
/// for the title; everything else leaves the game unchanged.
pub open spec fn unicode_key_effect(pre: Joust, key: char, post: Joust) -> bool {
    match pre.state {
        State::TitleScreen => if key == 'z' {
            entered_playing(pre, post)
        } else {
            post == pre
        },
        State::Playing => if key == 'x' {
            post == Joust { player: Player { dy: -10isize, ..pre.player }, ..pre }
        } else {
            post == pre
        },
        State::GameOver => if key == 'z' {
            entered_playing(pre, post)
        } else if key == 'q' {
            post == Joust { state: State::TitleScreen, ui_drawn: false, ..pre }
        } else {
            post == pre
        },
    }
}

/// The player's and an enemy's 4-by-3 footprints, anchored at the given
/// sub-step samples, overlap.
pub open spec fn combat_overlap(sx: int, sy: int, ex: int, ey: int) -> bool {
    rects_overlap((sx, sy), (sx + 3, sy + 2), (ex, ey), (ex + 3, ey + 2))
}

/// Adjudicates one sub-step encounter between the player and a living
/// enemy.  When the two footprints overlap, the strictly higher entity
/// (smaller `y`) wins: the player above kills the enemy and collects the
/// class reward; the enemy above sends the player down the death path,
/// whose signal is returned; at equal height both bounce, reversing their
/// horizontal velocities, and neither dies.
pub fn resolve_combat(
    player: &mut Player,
    enemy: &mut Enemy,
    sx: isize,
    sy: isize,
    ex: isize,
    ey: isize,
) -> (game_over: bool)
    requires
        player_wf(*old(player)),
        enemy_wf(*old(enemy)),
        -100 <= sx <= 100,
        -100 <= sy <= 100,
        -100 <= ex <= 100,
        -100 <= ey <= 100,
    ensures
        player_wf(*final(player)),
        enemy_wf(*final(enemy)),
        !(combat_overlap(sx as int, sy as int, ex as int, ey as int) && !old(player).dead) ==> {
            &&& *final(player) == *old(player)
            &&& *final(enemy) == *old(enemy)
            &&& !game_over
        },
        combat_overlap(sx as int, sy as int, ex as int, ey as int) && !old(player).dead && sy < ey
            ==> {
            &&& *final(enemy) == (Enemy { dead: true, ..*old(enemy) })
            &&& *final(player) == (Player {
                score: sat_cap(old(player).score + class_reward(old(enemy).etype)) as usize,
                ..*old(player)
            })
            &&& !game_over
        },
        combat_overlap(sx as int, sy as int, ex as int, ey as int) && !old(player).dead && ey < sy
            ==> {
            &&& *final(player) == player_die_spec(*old(player))
            &&& *final(enemy) == *old(enemy)
            &&& game_over == player_die_signal(*old(player))
        },
        combat_overlap(sx as int, sy as int, ex as int, ey as int) && !old(player).dead && ey == sy
            ==> {
            &&& *final(player) == (Player { dx: (-old(player).dx) as isize, ..*old(player) })
            &&& *final(enemy) == (Enemy { dx: (-old(enemy).dx) as isize, ..*old(enemy) })
            &&& !game_over
        },
        (*final(player), *final(enemy), game_over) == model::combat_spec(
            *old(player),
            *old(enemy),
            sx as int,
            sy as int,
            ex as int,
            ey as int,
        ),
{
    let overlap = !(sx > ex + 3 || ex > sx + 3) && !(sy + 2 < ey || ey + 2 < sy);
    if overlap && !player.dead {
        if sy < ey {
            if enemy.die() {
                enemy.dead = true;
            }
            let reward: usize = match enemy.etype {
                EnemyType::Bounder => 250,
                EnemyType::Hunter => 500,
                EnemyType::ShadowLord => 1000,
            };
            player.score = sat_add(player.score, reward);
        } else if ey < sy {
            if player.die() {
                return true;
            }
        } else {
            player.dx = -player.dx;
            enemy.dx = -enemy.dx;
        }
    }
    false
}

impl Default for Joust {
    /// A fresh session: title screen, default player, all slots tombstoned,
    /// first wave armed.
    fn default() -> (g: Self)
        ensures
            g.player == player_default_spec(),
            g.state == State::TitleScreen,
            forall|i: int| 0 <= i < 10 ==> #[trigger] g.enemies@[i] == enemy_default_spec(),
            g.spawned_enemies == 0,
            g.wave == 1,
            g.ui_drawn == false,
            joust_wf(g),
    {
        Joust {
            player: Player::default(),
            state: State::TitleScreen,
            enemies: [Enemy::default(); 10],
            spawned_enemies: 0,
            wave: 1,
            ui_drawn: false,
        }
    }
}

impl Joust {
    /// Advances the simulation by exactly one discrete time step.
    pub fn tick(&mut self)
        requires
            joust_wf(*old(self)),
        ensures
            joust_wf(*final(self)),
            old(self).state != State::Playing ==> *final(self) == *old(self),
            old(self).state == State::Playing ==> final(self).state == State::Playing || final(self).state == State::GameOver,
            old(self).state == State::Playing && final(self).state == State::Playing ==> final(self).ui_drawn == old(self).ui_drawn,
            old(self).state == State::Playing && final(self).state == State::GameOver ==> final(self).player.lives == 0 && final(self).ui_drawn == false,
            // While the wave still owes an enemy and a spawn point is free,
            // each playing-mode step issues exactly one spawn.
            old(self).state == State::Playing && old(self).spawned_enemies < old(self).wave
                && old(self).spawned_enemies < 10 && first_free_spawn(
                old(self).player.x as int,
                old(self).player.y as int,
                old(self).player.dead,
                old(self).enemies@,
                false,
            ) is Some ==> final(self).spawned_enemies == old(self).spawned_enemies + 1,
            // Once the allotment is spent and every tracked slot is dead,
            // the step advances the wave and re-arms the spawner.
            old(self).state == State::Playing && (old(self).spawned_enemies == old(self).wave
                || old(self).spawned_enemies == 10) && all_enemies_dead(*old(self))
                ==> final(self).wave == sat_cap(old(self).wave + 1)
                && final(self).spawned_enemies == 0,
            // The whole step equals its model: the post-state is a pure
            // function of the pre-state.
            final(self)@ == model::tick_spec(old(self)@),
    {
        self.update_all();
    }

    /// One playing-mode step: the spawner may introduce an enemy or respawn
    /// the player, a completed wave re-arms the spawner, every living enemy
    /// decides its intent, and the whole roster advances through the four
    /// sub-steps with inline combat.  Outside `Playing` nothing changes;
    /// exhausting the player's lives transitions the session to `GameOver`.
    pub fn update_all(&mut self)
        requires
            joust_wf(*old(self)),
        ensures
            joust_wf(*final(self)),
            old(self).state != State::Playing ==> *final(self) == *old(self),
            old(self).state == State::Playing ==> final(self).state == State::Playing || final(self).state == State::GameOver,
            old(self).state == State::Playing && final(self).state == State::Playing ==> final(self).ui_drawn == old(self).ui_drawn,
            old(self).state == State::Playing && final(self).state == State::GameOver ==> final(self).player.lives == 0 && final(self).ui_drawn == false,
            // While the wave still owes an enemy and a spawn point is free,
            // each playing-mode step issues exactly one spawn.
            old(self).state == State::Playing && old(self).spawned_enemies < old(self).wave
                && old(self).spawned_enemies < 10 && first_free_spawn(
                old(self).player.x as int,
                old(self).player.y as int,
                old(self).player.dead,
                old(self).enemies@,
                false,
            ) is Some ==> final(self).spawned_enemies == old(self).spawned_enemies + 1,
            // Once the allotment is spent and every tracked slot is dead,
            // the step advances the wave and re-arms the spawner.
            old(self).state == State::Playing && (old(self).spawned_enemies == old(self).wave
                || old(self).spawned_enemies == 10) && all_enemies_dead(*old(self))
                ==> final(self).wave == sat_cap(old(self).wave + 1)
                && final(self).spawned_enemies == 0,
            // The whole step equals its model: the post-state is a pure
            // function of the pre-state.
            final(self)@ == model::tick_spec(old(self)@),
    {
        match self.state {
            State::TitleScreen => {},
            State::Playing => {
                let ghost pre = *self;
                self.try_spawn_enemy();
                self.try_respawn_player();
                proof {
                    if pre.spawned_enemies < pre.wave && pre.spawned_enemies < 10
                        && first_free_spawn(
                        pre.player.x as int,
                        pre.player.y as int,
                        pre.player.dead,
                        pre.enemies@,
                        false,
                    ) is Some {
                        // The slot just activated keeps the wave from
                        // completing, so the spawn count survives the tick.
                        assert(!self.enemies@[pre.spawned_enemies as int].dead);
                        assert(!all_enemies_dead(*self));
                    }
                }
                self.maybe_advance_wave();
                proof {
                    assert(self@ == model::wave_phase(
                        model::respawn_phase(model::spawn_phase(pre@)),
                    ));
                }
                self.think_all();
                let ghost v2 = self@;
                let game_over = self.move_all();
                proof {
                    assert((self@, game_over) == model::sweep_spec(v2));
                }
                if game_over {
                    self.state_transition(State::GameOver);
                    proof {
                        assert(self@ =~= model::tick_spec(pre@));
                    }
                } else {
                    proof {
                        assert(self@ =~= model::tick_spec(pre@));
                    }
                }
            },
            State::GameOver => {},
        }
    }

    /// The shared four-sample sweep: the player and every living enemy are
    /// advanced through the tick's four sub-steps, combat is resolved at
    /// every sample, the last sample becomes each survivor's committed
    /// position, and gravity is then applied.  Returns `true` when the
    /// player's life pool ran out, which ends the session.
    pub fn move_all(&mut self) -> (game_over: bool)
        requires
            joust_wf(*old(self)),
        ensures
            joust_wf(*final(self)),
            final(self).state == old(self).state,
            final(self).ui_drawn == old(self).ui_drawn,
            final(self).wave == old(self).wave,
            final(self).spawned_enemies == old(self).spawned_enemies,
            game_over ==> final(self).player.lives == 0,
            !game_over && !final(self).player.dead && final(self).player.on_ground ==> final(self).player.dy <= 0,
            // A tombstoned slot is excluded from the sweep entirely.
            forall|k: int| 0 <= k < 10 && old(self).enemies@[k].dead ==> final(self).enemies@[k]
                == old(self).enemies@[k],
            // The whole sweep equals its model, the game-over signal included.
            final(self)@ == model::sweep_spec(old(self)@).0,
            game_over == model::sweep_spec(old(self)@).1,
    {
        let boxes = ground_bounding_boxes();
        let mut sx: isize = 0;
        let mut sy: isize = 0;
        let mut quarter: isize = 1;
        while quarter < 5
            invariant
                joust_wf(*self),
                boxes@ == arena::ground_map(),
                1 <= quarter <= 5,
                self.state == old(self).state,
                self.ui_drawn == old(self).ui_drawn,
                self.wave == old(self).wave,
                self.spawned_enemies == old(self).spawned_enemies,
                !self.player.dead ==> 0 <= sx < 76 && 0 <= sy <= 22,
                quarter > 1 && !self.player.dead && self.player.on_ground ==> self.player.dy <= 0,
                forall|k: int| 0 <= k < 10 && old(self).enemies@[k].dead ==> self.enemies@[k]
                    == old(self).enemies@[k],
                model::sweep_from(old(self)@.player, old(self)@.enemies, 1, 0, 0)
                    == model::sweep_from(self.player, self.enemies@, quarter as int, sx as int, sy as int),
            decreases 5 - quarter,
        {
            let ghost p_pre = self.player;
            let ghost es_pre = self.enemies@;
            let ghost sx0 = sx;
            let ghost sy0 = sy;
            match self.player.update_quarter_step(quarter, boxes) {
                None => {
                    proof {
                        assert(model::quarter_pass(p_pre, es_pre, quarter as int) == (
                            self.player,
                            es_pre,
                            (0int, 0int),
                            true,
                        ));
                        assert(model::sweep_from(p_pre, es_pre, quarter as int, sx0 as int, sy0 as int)
                            == (self.player, es_pre, (0int, 0int), true));
                        assert(self@ =~= model::sweep_spec(old(self)@).0);
                    }
                    return true;
                },
                Some((psx, psy)) => {
                    sx = psx;
                    sy = psy;
                    let ghost p_q = self.player;
                    let mut j: usize = 0;
                    while j < 10
                        invariant
                            joust_wf(*self),
                            boxes@ == arena::ground_map(),
                            1 <= quarter <= 4,
                            j <= 10,
                            self.state == old(self).state,
                            self.ui_drawn == old(self).ui_drawn,
                            self.wave == old(self).wave,
                            self.spawned_enemies == old(self).spawned_enemies,
                            -100 <= sx <= 100,
                            -100 <= sy <= 100,
                            !self.player.dead ==> 0 <= sx < 76 && 0 <= sy <= 22,
                            !self.player.dead && self.player.on_ground ==> self.player.dy <= 0,
                            forall|k: int| 0 <= k < 10 && old(self).enemies@[k].dead ==> self.enemies@[k]
                                == old(self).enemies@[k],
                            model::enemies_pass(p_q, es_pre, sx as int, sy as int, quarter as int, 0)
                                == model::enemies_pass(
                                self.player,
                                self.enemies@,
                                sx as int,
                                sy as int,
                                quarter as int,
                                j as int,
                            ),
                            player::player_quarter_spec(p_pre, quarter as int, arena::ground_map())
                                == (p_q, Option::<(int, int)>::Some((sx as int, sy as int))),
                            model::sweep_from(old(self)@.player, old(self)@.enemies, 1, 0, 0)
                                == model::sweep_from(p_pre, es_pre, quarter as int, sx0 as int, sy0 as int),
                        decreases 10 - j,
                    {
                        let ghost p_j = self.player;
                        let ghost es_j = self.enemies@;
                        if !self.enemies[j].dead {
                            let mut e = self.enemies[j];
                            match e.update_quarter_step(quarter, boxes) {
                                Some((ex, ey)) => {
                                    let go = resolve_combat(
                                        &mut self.player,
                                        &mut e,
                                        sx,
                                        sy,
                                        ex,
                                        ey,
                                    );
                                    if go {
                                        self.enemies[j] = e;
                                        proof {
                                            assert(model::enemies_pass(
                                                p_j,
                                                es_j,
                                                sx as int,
                                                sy as int,
                                                quarter as int,
                                                j as int,
                                            ) == (self.player, self.enemies@, true));
                                            assert(model::quarter_pass(p_pre, es_pre, quarter as int)
                                                == (
                                                self.player,
                                                self.enemies@,
                                                (sx as int, sy as int),
                                                true,
                                            ));
                                            assert(model::sweep_from(
                                                p_pre,
                                                es_pre,
                                                quarter as int,
                                                sx0 as int,
                                                sy0 as int,
                                            ) == (
                                                self.player,
                                                self.enemies@,
                                                (sx as int, sy as int),
                                                true,
                                            ));
                                            assert(self@ =~= model::sweep_spec(old(self)@).0);
                                        }
                                        return true;
                                    }
                                    if quarter == 4 {
                                        e.x = ex as usize;
                                        e.y = ey as usize;
                                        e.apply_gravity();
                                    }
                                    self.enemies[j] = e;
                                    proof {
                                        assert(model::enemy_slot_step(
                                            p_j,
                                            es_j[j as int],
                                            sx as int,
                                            sy as int,
                                            quarter as int,
                                        ) == (self.player, e, false));
                                        assert(model::enemies_pass(
                                            p_j,
                                            es_j,
                                            sx as int,
                                            sy as int,
                                            quarter as int,
                                            j as int,
                                        ) == model::enemies_pass(
                                            self.player,
                                            self.enemies@,
                                            sx as int,
                                            sy as int,
                                            quarter as int,
                                            j + 1,
                                        ));
                                    }
                                },
                                None => {
                                    self.enemies[j] = e;
                                    proof {
                                        assert(model::enemy_slot_step(
                                            p_j,
                                            es_j[j as int],
                                            sx as int,
                                            sy as int,
                                            quarter as int,
                                        ) == (self.player, e, false));
                                        assert(model::enemies_pass(
                                            p_j,
                                            es_j,
                                            sx as int,
                                            sy as int,
                                            quarter as int,
                                            j as int,
                                        ) == model::enemies_pass(
                                            self.player,
                                            self.enemies@,
                                            sx as int,
                                            sy as int,
                                            quarter as int,
                                            j + 1,
                                        ));
                                    }
                                },
                            }
                        } else {
                            proof {
                                assert(es_j.update(j as int, es_j[j as int]) =~= es_j);
                                assert(model::enemies_pass(
                                    p_j,
                                    es_j,
                                    sx as int,
                                    sy as int,
                                    quarter as int,
                                    j as int,
                                ) == model::enemies_pass(
                                    self.player,
                                    self.enemies@,
                                    sx as int,
                                    sy as int,
                                    quarter as int,
                                    j + 1,
                                ));
                            }
                        }
                        j += 1;
                    }
                    proof {
                        assert(model::enemies_pass(
                            self.player,
                            self.enemies@,
                            sx as int,
                            sy as int,
                            quarter as int,
                            10,
                        ) == (self.player, self.enemies@, false));
                        assert(model::quarter_pass(p_pre, es_pre, quarter as int) == (
                            self.player,
                            self.enemies@,
                            (sx as int, sy as int),
                            false,
                        ));
                        assert(model::sweep_from(p_pre, es_pre, quarter as int, sx0 as int, sy0 as int)
                            == model::sweep_from(
                            self.player,
                            self.enemies@,
                            quarter as int + 1,
                            sx as int,
                            sy as int,
                        ));
                    }
                },
            }
            quarter += 1;
        }
        proof {
            assert(model::sweep_from(self.player, self.enemies@, quarter as int, sx as int, sy as int)
                == (self.player, self.enemies@, (sx as int, sy as int), false));
        }
        if !self.player.dead {
            self.player.x = sx as usize;
            self.player.y = sy as usize;
            self.player.apply_gravity();
        }
        proof {
            assert(self@ =~= model::sweep_spec(old(self)@).0);
        }
        false
    }

    /// The half-open overlap test between two axis-aligned rectangles given
    /// by their corner cells: they overlap unless some axis separates them.
    pub fn do_overlap(
        &self,
        l1: (isize, isize),
        r1: (isize, isize),
        l2: (isize, isize),
        r2: (isize, isize),
    ) -> (r: bool)
        ensures
            r == rects_overlap(
                (l1.0 as int, l1.1 as int),
                (r1.0 as int, r1.1 as int),
                (l2.0 as int, l2.1 as int),
                (r2.0 as int, r2.1 as int),
            ),
    {
        if l1.0 > r2.0 || l2.0 > r1.0 {
            return false;
        }

        if r1.1 < l2.1 || r2.1 < l1.1 {
            return false;
        }

        true
    }

    /// Whether a living entity's padded footprint blocks the candidate
    /// spawn point.
    fn spawn_blocked(&self, point: (usize, usize), is_player: bool) -> (r: bool)
        requires
            joust_wf(*self),
            point.0 <= 100,
            point.1 <= 100,
        ensures
            r == spawn_point_blocked(
                self.player.x as int,
                self.player.y as int,
                self.player.dead,
                self.enemies@,
                point,
                is_player,
            ),
    {
        let mut j: usize = 0;
        while j < 10
            invariant
                joust_wf(*self),
                point.0 <= 100,
                point.1 <= 100,
                j <= 10,
                forall|k: int| 0 <= k < j ==> !(#[trigger] self.enemies@[k]).dead ==> !arena::blocks_spawn(
                    self.enemies@[k].x as int,
                    self.enemies@[k].y as int,
                    point,
                ),
            decreases 10 - j,
        {
            let e = self.enemies[j];
            if !e.dead {
                if self.do_overlap(
                    (e.x as isize, e.y as isize),
                    (e.x as isize + 5, e.y as isize + 5),
                    (point.0 as isize, point.1 as isize),
                    (point.0 as isize + 5, point.1 as isize + 3),
                ) {
                    return true;
                }
            }
            j += 1;
        }
        if !is_player && !self.player.dead {
            if self.do_overlap(
                (self.player.x as isize, self.player.y as isize),
                (self.player.x as isize + 5, self.player.y as isize + 5),
                (point.0 as isize, point.1 as isize),
                (point.0 as isize + 5, point.1 as isize + 3),
            ) {
                return true;
            }
        }
        false
    }

    /// Walks the fixed spawn point list in order and returns the first
    /// point no living footprint blocks; `is_player` exempts the player's
    /// own footprint, for respawning the player itself.
    pub fn get_spawn_point(&self, is_player: bool) -> (r: Option<(usize, usize)>)
        requires
            joust_wf(*self),
        ensures
            r == first_free_spawn(
                self.player.x as int,
                self.player.y as int,
                self.player.dead,
                self.enemies@,
                is_player,
            ),
    {
        let points = spawn_point_list();
        let mut idx: usize = 0;
        while idx < 4
            invariant
                joust_wf(*self),
                points@ == spawn_points(),
                idx <= 4,
                forall|k: int| 0 <= k < idx ==> spawn_point_blocked(
                    self.player.x as int,
                    self.player.y as int,
                    self.player.dead,
                    self.enemies@,
                    #[trigger] spawn_points()[k],
                    is_player,
                ),
            decreases 4 - idx,
        {
            let point = points[idx];
            if !self.spawn_blocked(point, is_player) {
                return Some(point);
            }
            idx += 1;
        }
        None
    }

    /// One spawner step: while the wave still owes enemies and a slot and a
    /// free spawn point exist, activates the next slot there with the
    /// index-determined class.  Spawning stops exactly when the wave's
    /// allotment (or the slot capacity) has been issued.
    pub fn try_spawn_enemy(&mut self)
        requires
            joust_wf(*old(self)),
        ensures
            joust_wf(*final(self)),
            !(old(self).spawned_enemies < old(self).wave && old(self).spawned_enemies < 10)
                ==> *final(self) == *old(self),
            (old(self).spawned_enemies < old(self).wave && old(self).spawned_enemies < 10)
                ==> ({
                let free = first_free_spawn(
                    old(self).player.x as int,
                    old(self).player.y as int,
                    old(self).player.dead,
                    old(self).enemies@,
                    false,
                );
                match free {
                    Option::None => *final(self) == *old(self),
                    Option::Some(p) => {
                        &&& final(self).enemies@ == old(self).enemies@.update(
                            old(self).spawned_enemies as int,
                            spawned_enemy_spec(old(self).spawned_enemies as int, p),
                        )
                        &&& final(self).spawned_enemies == old(self).spawned_enemies + 1
                        &&& final(self).player == old(self).player
                        &&& final(self).state == old(self).state
                        &&& final(self).wave == old(self).wave
                        &&& final(self).ui_drawn == old(self).ui_drawn
                    },
                }
            }),
            final(self)@ == model::spawn_phase(old(self)@),
    {
        if self.spawned_enemies < self.wave && self.spawned_enemies < 10 {
            if let Some((sx, sy)) = self.get_spawn_point(false) {
                let idx = self.spawned_enemies;
                let mut e = Enemy::default();
                e.dead = false;
                e.x = sx;
                e.y = sy;
                if idx >= 3 && idx < 5 {
                    e.etype = EnemyType::Hunter;
                } else if idx >= 5 {
                    e.etype = EnemyType::ShadowLord;
                }
                self.enemies[idx] = e;
                self.spawned_enemies = idx + 1;
            }
        }
        proof {
            assert(self@ =~= model::spawn_phase(old(self)@));
        }
    }

    /// One respawn step: a tombstoned player comes back to life at the
    /// first free spawn point, if any is free this tick.
    pub fn try_respawn_player(&mut self)
        requires
            joust_wf(*old(self)),
        ensures
            joust_wf(*final(self)),
            !old(self).player.dead ==> *final(self) == *old(self),
            old(self).player.dead ==> ({
                let free = first_free_spawn(
                    old(self).player.x as int,
                    old(self).player.y as int,
                    old(self).player.dead,
                    old(self).enemies@,
                    true,
                );
                match free {
                    Option::None => *final(self) == *old(self),
                    Option::Some(p) => *final(self) == (Joust {
                        player: Player { x: p.0, y: p.1, dead: false, ..old(self).player },
                        ..*old(self)
                    }),
                }
            }),
            final(self)@ == model::respawn_phase(old(self)@),
    {
        if self.player.dead {
            if let Some((sx, sy)) = self.get_spawn_point(true) {
                self.player.x = sx;
                self.player.y = sy;
                self.player.dead = false;
            }
        }
        proof {
            assert(self@ =~= model::respawn_phase(old(self)@));
        }
    }

    /// The wave rule: once the spawner has issued the wave's full allotment
    /// (or filled every slot) and every tracked enemy is dead, the wave
    /// counter advances and the spawner re-arms; otherwise nothing changes.
    pub fn maybe_advance_wave(&mut self)
        requires
            joust_wf(*old(self)),
        ensures
            joust_wf(*final(self)),
            wave_complete(*old(self)) ==> *final(self) == (Joust {
                wave: sat_cap(old(self).wave + 1) as usize,
                spawned_enemies: 0,
                ..*old(self)
            }),
            !wave_complete(*old(self)) ==> *final(self) == *old(self),
            final(self)@ == model::wave_phase(old(self)@),
    {
        if self.spawned_enemies == self.wave || self.spawned_enemies == 10 {
            let mut all_dead = true;
            let mut i: usize = 0;
            while i < 10
                invariant
                    i <= 10,
                    all_dead == (forall|k: int| 0 <= k < i ==> (#[trigger] self.enemies@[k]).dead),
                decreases 10 - i,
            {
                if !self.enemies[i].dead {
                    all_dead = false;
                }
                i += 1;
            }
            if all_dead {
                self.wave = sat_add(self.wave, 1);
                self.spawned_enemies = 0;
            }
        }
        proof {
            assert(self@ =~= model::wave_phase(old(self)@));
        }
    }

    /// The decision pass: every living enemy observes the player's
    /// committed cell and sets this tick's intent.
    pub fn think_all(&mut self)
        requires
            joust_wf(*old(self)),
        ensures
            joust_wf(*final(self)),
            forall|i: int| 0 <= i < 10 ==> #[trigger] final(self).enemies@[i] == (if old(self).enemies@[i].dead {
                old(self).enemies@[i]
            } else {
                think_spec(old(self).enemies@[i], old(self).player.x as int, old(self).player.y as int)
            }),
            final(self).player == old(self).player,
            final(self).state == old(self).state,
            final(self).spawned_enemies == old(self).spawned_enemies,
            final(self).wave == old(self).wave,
            final(self).ui_drawn == old(self).ui_drawn,
            final(self)@ == model::think_phase(old(self)@),
    {
        let px = self.player.x;
        let py = self.player.y;
        let mut i: usize = 0;
        while i < 10
            invariant
                joust_wf(*self),
                i <= 10,
                px == self.player.x,
                py == self.player.y,
                self.player == old(self).player,
                self.state == old(self).state,
                self.spawned_enemies == old(self).spawned_enemies,
                self.wave == old(self).wave,
                self.ui_drawn == old(self).ui_drawn,
                forall|k: int| 0 <= k < i ==> #[trigger] self.enemies@[k] == (if old(self).enemies@[k].dead {
                    old(self).enemies@[k]
                } else {
                    think_spec(old(self).enemies@[k], px as int, py as int)
                }),
                forall|k: int| i <= k < 10 ==> #[trigger] self.enemies@[k] == old(self).enemies@[k],
            decreases 10 - i,
        {
            if !self.enemies[i].dead {
                let mut e = self.enemies[i];
                e.think(px, py);
                self.enemies[i] = e;
            }
            i += 1;
        }
        proof {
            assert(self.enemies@ =~= model::think_phase(old(self)@).enemies);
            assert(self@ =~= model::think_phase(old(self)@));
        }
    }

    /// Changes the session mode.  Entering `Playing` resets the player,
    /// tombstones every enemy slot and re-arms the first wave; entering any
    /// other mode marks the mode's screen as not yet drawn.
    pub fn state_transition(&mut self, new_state: State)
        ensures
            final(self).state == new_state,
            new_state == State::Playing ==> entered_playing(*old(self), *final(self)),
            new_state != State::Playing ==> *final(self) == (Joust {
                state: new_state,
                ui_drawn: false,
                ..*old(self)
            }),
            new_state == State::Playing ==> joust_wf(*final(self)),
            joust_wf(*old(self)) ==> joust_wf(*final(self)),
    {
        if new_state == State::Playing {
            self.player = Player::default();
            self.enemies = [Enemy::default(); 10];
            self.spawned_enemies = 0;
            self.wave = 1;
        } else {
            self.ui_drawn = false;
        }
        self.state = new_state;
    }

    /// Consumes one decoded input event.
    pub fn key(&mut self, key: KeyEvent)
        requires
            joust_wf(*old(self)),
        ensures
            joust_wf(*final(self)),
            match key {
                KeyEvent::RawKey(rk) => raw_key_effect(*old(self), rk, *final(self)),
                KeyEvent::Unicode(c) => unicode_key_effect(*old(self), c, *final(self)),
            },
    {
        match key {
            KeyEvent::RawKey(code) => self.handle_raw(code),
            KeyEvent::Unicode(c) => self.handle_unicode(c),
        }
    }

    /// Applies a named key: the arrow keys steer the player during play.
    pub fn handle_raw(&mut self, key: RawKey)
        requires
            joust_wf(*old(self)),
        ensures
            joust_wf(*final(self)),
            raw_key_effect(*old(self), key, *final(self)),
    {
        if self.state == State::Playing {
            match key {
                RawKey::ArrowLeft => {
                    self.player.accel_left();
                },
                RawKey::ArrowRight => {
                    self.player.accel_right();
                },
                RawKey::Other => {},
            }
        }
    }

    /// Applies a printable key: starting a session, flapping, or leaving
    /// the game-over screen.
    pub fn handle_unicode(&mut self, key: char)
        requires
            joust_wf(*old(self)),
        ensures
            joust_wf(*final(self)),
            unicode_key_effect(*old(self), key, *final(self)),
    {
        match self.state {
            State::TitleScreen => {
                if key == 'z' {
                    self.state_transition(State::Playing);
                }
            },
            State::Playing => {
                if key == 'x' {
                    self.player.flap();
                }
            },
            State::GameOver => {
                if key == 'z' {
                    self.state_transition(State::Playing);
                }
                if key == 'q' {
                    self.state_transition(State::TitleScreen);
                }
            },
        }
    }
}

} // verus!
