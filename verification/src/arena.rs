//! Static arena geometry: the cyclic horizontal coordinate, the platform
//! map, the spawn point list, and the footprint overlap test shared by
//! ground detection, combat and spawning.

use vstd::prelude::*;

verus! {

/// Wraps a horizontal sample onto the cyclic arena, Euclidean style: the
/// result is the mathematical remainder of `v` modulo the move width, so a
/// small negative sample lands just left of the right edge instead of
/// underflowing.
pub fn wrap_x(v: isize) -> (r: usize)
    requires
        v >= -76,
    ensures
        r < 76,
        r as int == (v as int) % 76,
{
    if v < 0 {
        (v + 76) as usize
    } else {
        (v as usize) % 76
    }
}

/// Division by 40 that rounds toward zero, the way Rust's signed `/` does.
pub open spec fn div_trunc_40(a: int) -> int {
    if a >= 0 {
        a / 40
    } else {
        -((-a) / 40)
    }
}

/// The net sub-step displacement: `d * quarter / 40`, rounded toward zero.
/// A full tick (`quarter = 4`) therefore moves `d / 10` cells.
pub fn quarter_offset(d: isize, quarter: isize) -> (r: isize)
    requires
        -100 <= d <= 100,
        1 <= quarter <= 4,
    ensures
        r == div_trunc_40(d * quarter),
        -10 <= r <= 10,
{
    proof {
        assert(-400 <= d * quarter <= 400) by (nonlinear_arith)
            requires
                -100 <= d <= 100,
                1 <= quarter <= 4,
        ;
    }
    let prod: isize = d * quarter;
    if prod >= 0 {
        ((prod as usize) / 40) as isize
    } else {
        -((((-prod) as usize) / 40) as isize)
    }
}

/// The horizontal sub-step sample: the committed column plus the scaled
/// offset, wrapped onto the cyclic arena.
pub open spec fn sample_x(x: int, dx: int, q: int) -> int {
    (x + div_trunc_40(dx * q)) % 76
}

/// The vertical sub-step sample: the committed row plus the scaled offset,
/// before the hazard and ceiling checks.
pub open spec fn sample_y(y: int, dy: int, q: int) -> int {
    y + div_trunc_40(dy * q)
}

/// The sub-step sample a kinematics step hands to combat, read at the
/// mathematical-integer level.
pub open spec fn sample_view(r: Option<(isize, isize)>) -> Option<(int, int)> {
    match r {
        Some((a, b)) => Some((a as int, b as int)),
        None => None,
    }
}

/// One platform rectangle `(x1, y1, x2, y2)` supports a 4-cell-wide entity
/// anchored at `(sx, sy)` when the row below its 3-cell-high body falls in
/// `[y1, y2)` and its horizontal span falls in `[x1, x2)`.
pub open spec fn box_covers(b: (usize, usize, usize, usize), sx: int, sy: int) -> bool {
    &&& sy + 3 >= b.1
    &&& sy + 3 < b.3
    &&& sx >= b.0
    &&& sx + 3 < b.2
}

/// An anchor cell is on ground when some platform rectangle supports it.
pub open spec fn on_ground_at(sx: int, sy: int, boxes: Seq<(usize, usize, usize, usize)>) -> bool {
    exists|i: int| 0 <= i < boxes.len() && #[trigger] box_covers(boxes[i], sx, sy)
}

/// Checks the sample point against every platform rectangle.
pub fn ground_contact(sx: usize, sy: usize, boxes: &[(usize, usize, usize, usize); 5]) -> (r: bool)
    requires
        sx <= 1000,
        sy <= 1000,
    ensures
        r == on_ground_at(sx as int, sy as int, boxes@),
{
    let mut i: usize = 0;
    while i < 5
        invariant
            sx <= 1000,
            sy <= 1000,
            i <= 5,
            forall|k: int| 0 <= k < i ==> !box_covers(boxes@[k], sx as int, sy as int),
        decreases 5 - i,
    {
        let (x1, y1, x2, y2) = boxes[i];
        if sy + 3 >= y1 && sy + 3 < y2 && sx >= x1 && sx + 3 < x2 {
            proof {
                assert(box_covers(boxes@[i as int], sx as int, sy as int));
            }
            return true;
        }
        i += 1;
    }
    false
}

/// The five platform rectangles of the arena, as `(x1, y1, x2, y2)`.
pub open spec fn ground_map() -> Seq<(usize, usize, usize, usize)> {
    seq![
        (0usize, 12usize, 15usize, 13usize),
        (70usize, 12usize, 80usize, 13usize),
        (60usize, 11usize, 70usize, 12usize),
        (20usize, 23usize, 60usize, 24usize),
        (35usize, 7usize, 50usize, 8usize),
    ]
}

/// Builds the platform map handed to the kinematics each tick.
pub fn ground_bounding_boxes() -> (r: [(usize, usize, usize, usize); 5])
    ensures
        r@ == ground_map(),
{
    let r = [
        (0, 12, 15, 13),
        (70, 12, 80, 13),
        (60, 11, 70, 12),
        (20, 23, 60, 24),
        (35, 7, 50, 8),
    ];
    proof {
        assert(r@ =~= ground_map());
    }
    r
}

/// The candidate spawn cells, tried in order.
pub open spec fn spawn_points() -> Seq<(usize, usize)> {
    seq![(7usize, 9usize), (74usize, 9usize), (39usize, 20usize), (42usize, 4usize)]
}

/// Builds the ordered spawn point list.
pub fn spawn_point_list() -> (r: [(usize, usize); 4])
    ensures
        r@ == spawn_points(),
{
    let r = [(7, 9), (74, 9), (39, 20), (42, 4)];
    proof {
        assert(r@ =~= spawn_points());
    }
    r
}

/// Two axis-aligned rectangles, given by their low corners `l1`, `l2` and
/// high corners `r1`, `r2`, overlap when neither axis separates them.
pub open spec fn rects_overlap(l1: (int, int), r1: (int, int), l2: (int, int), r2: (int, int)) -> bool {
    &&& !(l1.0 > r2.0 || l2.0 > r1.0)
    &&& !(r1.1 < l2.1 || r2.1 < l1.1)
}

/// Whether a living entity anchored at `(ex, ey)` blocks a candidate spawn
/// point: the spawner tests a padded footprint, 5 cells on each axis for
/// the entity and a 5-by-3 pad for the point itself.
pub open spec fn blocks_spawn(ex: int, ey: int, p: (usize, usize)) -> bool {
    rects_overlap((ex, ey), (ex + 5, ey + 5), (p.0 as int, p.1 as int), (p.0 + 5, p.1 + 3))
}

/// Whether some living entity blocks the candidate spawn point; the
/// player's own footprint is exempted when the player itself is spawning.
pub open spec fn spawn_point_blocked(
    px: int,
    py: int,
    player_dead: bool,
    enemies: Seq<crate::enemy::Enemy>,
    p: (usize, usize),
    is_player: bool,
) -> bool {
    ||| exists|i: int| 0 <= i < enemies.len() && !(#[trigger] enemies[i]).dead && blocks_spawn(
        enemies[i].x as int,
        enemies[i].y as int,
        p,
    )
    ||| (!is_player && !player_dead && blocks_spawn(px, py, p))
}

/// The first spawn point, in list order, that no living footprint blocks.
pub open spec fn first_free_spawn(
    px: int,
    py: int,
    player_dead: bool,
    enemies: Seq<crate::enemy::Enemy>,
    is_player: bool,
) -> Option<(usize, usize)> {
    if !spawn_point_blocked(px, py, player_dead, enemies, spawn_points()[0], is_player) {
        Some(spawn_points()[0])
    } else if !spawn_point_blocked(px, py, player_dead, enemies, spawn_points()[1], is_player) {
        Some(spawn_points()[1])
    } else if !spawn_point_blocked(px, py, player_dead, enemies, spawn_points()[2], is_player) {
        Some(spawn_points()[2])
    } else if !spawn_point_blocked(px, py, player_dead, enemies, spawn_points()[3], is_player) {
        Some(spawn_points()[3])
    } else {
        None
    }
}

/// What saturating addition yields: the exact sum while it fits, and the
/// top of the range beyond.
pub open spec fn sat_cap(v: int) -> int {
    if v <= usize::MAX {
        v
    } else {
        usize::MAX as int
    }
}

/// Addition on scores and counters that sticks at the top of the range
/// instead of overflowing.
pub fn sat_add(a: usize, b: usize) -> (r: usize)
    ensures
        r == sat_cap(a + b),
{
    if a <= usize::MAX - b {
        a + b
    } else {
        usize::MAX
    }
}

} // verus!
