//! What a tick keeps true of the world.
//!
//! Three things hold of a world before a tick if they held after the tick
//! before: no enemy without health is left, the mark that says that a
//! boss is alive is set exactly while the one boss is there, and the
//! player's health is not negative.

use vstd::prelude::*;
use crate::bullet::Bullet;
use crate::enemy::Enemy;
use crate::game::{GameState, GameView, SpawnDice, barrage, struck};
use crate::limits::{LEVEL_CAP, bullets_harm};
use crate::geometry::Vec2;
use crate::player::Input;
use crate::pruning::{kept, lemma_kept_exactly_unmarked, lemma_kept_only_unmarked};
use crate::theorems::lemma_fought_frame;

verus! {

/// Every enemy has health left.
pub open spec fn all_alive(enemies: Seq<Enemy>) -> bool {
    forall|i: int| 0 <= i < enemies.len() ==> (#[trigger] enemies[i]).hp() > 0
}

/// There is at most one boss among `enemies`.
pub open spec fn one_boss_at_most(enemies: Seq<Enemy>) -> bool {
    forall|i: int, j: int|
        0 <= i < enemies.len() && 0 <= j < enemies.len() && (#[trigger] enemies[i]) is Boss && (
        #[trigger] enemies[j]) is Boss ==> i == j
}

/// There is a boss among `enemies`.
pub open spec fn has_boss(enemies: Seq<Enemy>) -> bool {
    exists|i: int| 0 <= i < enemies.len() && (#[trigger] enemies[i]) is Boss
}

/// The mark that a boss is alive is set exactly while a boss is there,
/// and no second boss is there.
pub open spec fn boss_gate_holds(g: GameView) -> bool {
    g.is_boss == has_boss(g.enemies) && one_boss_at_most(g.enemies)
}

/// An enemy's turn leaves its health, kind and bounty as they are.
pub proof fn lemma_updated_frame(e: Enemy, at: Vec2, now: u64, dt: u64, roll: u64)
    ensures
        e.updated(at, now, dt, roll).0.hp() == e.hp(),
        e.updated(at, now, dt, roll).0.points() == e.points(),
        e.updated(at, now, dt, roll).0.coins() == e.coins(),
        e.updated(at, now, dt, roll).0.damage() == e.damage(),
        e.updated(at, now, dt, roll).0 is Boss == e is Boss,
{
}

/// Projectiles that do not heal bring an enemy that had health to fall
/// exactly if they leave it without health; its kind stays.
pub proof fn lemma_barrage_fells_the_dead(e: Enemy, shots: Seq<Bullet>, spent: Seq<bool>, j: nat)
    requires
        bullets_harm(shots),
        e.hp() > 0,
        j <= shots.len(),
    ensures
        barrage(e, shots, spent, j).2 == (barrage(e, shots, spent, j).0.hp() == 0),
        0 <= barrage(e, shots, spent, j).0.hp() <= e.hp(),
        barrage(e, shots, spent, j).0 is Boss == e is Boss,
    decreases j,
{
    if j > 0 {
        lemma_barrage_fells_the_dead(e, shots, spent, (j - 1) as nat);
    }
}

/// What holds while the enemies take their turns: each keeps its kind,
/// those that had their turn fell exactly if they have no health left,
/// the others are untouched, and the boss mark is set exactly while a
/// boss is there that did not fall.
pub open spec fn fray_marks(
    s: GameView,
    w: GameView,
    fallen: Seq<bool>,
    k: int,
) -> bool {
    &&& w.enemies.len() == s.enemies.len()
    &&& fallen.len() == k
    &&& forall|i: int|
        0 <= i < s.enemies.len() ==> (#[trigger] w.enemies[i]) is Boss == s.enemies[i] is Boss
    &&& forall|i: int| 0 <= i < k ==> #[trigger] fallen[i] == (w.enemies[i].hp() == 0)
    &&& forall|i: int| k <= i < s.enemies.len() ==> #[trigger] w.enemies[i] == s.enemies[i]
    &&& w.is_boss == (exists|i: int|
        0 <= i < s.enemies.len() && (#[trigger] s.enemies[i]) is Boss && !(i < k && fallen[i]))
}

/// The marks are right after the first `k` turns.
pub proof fn lemma_fought_marks(s: GameView, now: u64, dt: u64, moves: Seq<u64>, k: nat)
    requires
        bullets_harm(s.player.bullets),
        all_alive(s.enemies),
        boss_gate_holds(s),
        k <= s.enemies.len(),
    ensures
        fray_marks(
            s,
            s.fought(now, dt, moves, k).0,
            s.fought(now, dt, moves, k).2,
            k as int,
        ),
    decreases k,
{
    if k > 0 {
        let i = (k - 1) as nat;
        lemma_fought_marks(s, now, dt, moves, i);
        lemma_fought_frame(s, now, dt, moves, i);
        let so_far = s.fought(now, dt, moves, i);
        let w = so_far.0;
        let at = w.player.player_pos;
        let shots = w.player.bullets;
        let e0 = w.enemies[i as int];
        lemma_updated_frame(e0, at, now, dt, moves[i as int]);
        let e1 = e0.updated(at, now, dt, moves[i as int]).0;
        lemma_barrage_fells_the_dead(e1, shots, so_far.1, shots.len());
        let after = w.engaged(i as int, now, dt, moves[i as int], so_far.1);
        let fallen = so_far.2.push(after.2);
        assert forall|n: int| 0 <= n < k implies #[trigger] fallen[n] == (after.0.enemies[n].hp()
            == 0) by {}
        let standing_after = exists|n: int|
            0 <= n < s.enemies.len() && (#[trigger] s.enemies[n]) is Boss && !(n < k && fallen[n]);
        // the one boss that there can be is this enemy, so none stands once it has fallen
        assert(s.enemies[i as int] is Boss && after.2 ==> !standing_after);
    }
}

/// Removing the fallen from enemies whose marks are right leaves only
/// enemies with health, and a boss exactly if the mark says so.
pub proof fn lemma_pruned_marks(s: GameView, w: GameView, fallen: Seq<bool>)
    requires
        one_boss_at_most(s.enemies),
        fray_marks(s, w, fallen, s.enemies.len() as int),
        forall|i: int| 0 <= i < w.enemies.len() ==> (#[trigger] w.enemies[i]).hp() >= 0,
    ensures
        all_alive(kept(w.enemies, fallen)),
        one_boss_at_most(kept(w.enemies, fallen)),
        w.is_boss == has_boss(kept(w.enemies, fallen)),
{
    let left = kept(w.enemies, fallen);
    lemma_kept_exactly_unmarked(w.enemies, fallen);
    assert forall|p: int| 0 <= p < left.len() implies (#[trigger] left[p]).hp() > 0 by {
        lemma_kept_only_unmarked(w.enemies, fallen, p);
    }
    assert forall|p: int, q: int|
        0 <= p < left.len() && 0 <= q < left.len() && (#[trigger] left[p]) is Boss && (
        #[trigger] left[q]) is Boss implies p == q by {
        lemma_kept_only_unmarked(w.enemies, fallen, p);
        lemma_kept_only_unmarked(w.enemies, fallen, q);
    }
    if has_boss(left) {
        let p = choose|p: int| 0 <= p < left.len() && (#[trigger] left[p]) is Boss;
        lemma_kept_only_unmarked(w.enemies, fallen, p);
    }
}

/// A new enemy on a level from one up has health, and a boss comes only
/// into a world without one.
pub proof fn lemma_spawned_marks(g: GameView, dice: SpawnDice)
    requires
        all_alive(g.enemies),
        boss_gate_holds(g),
        1 <= g.level <= LEVEL_CAP,
    ensures
        all_alive(g.populated(dice).enemies),
        boss_gate_holds(g.populated(dice)),
{
    let after = g.populated(dice);
    if after.enemies.len() > g.enemies.len() {
        let n = g.enemies.len() as int;
        assert forall|i: int| 0 <= i < n implies #[trigger] after.enemies[i] == g.enemies[i] by {}
        assert forall|i: int| 0 <= i < after.enemies.len() implies (#[trigger] after.enemies[i]).hp()
            > 0 by {}
        assert forall|i: int, j: int|
            0 <= i < after.enemies.len() && 0 <= j < after.enemies.len() && (
            #[trigger] after.enemies[i]) is Boss && (#[trigger] after.enemies[j]) is Boss implies i
            == j by {}
        if has_boss(g.enemies) {
            let b = choose|i: int| 0 <= i < g.enemies.len() && (#[trigger] g.enemies[i]) is Boss;
            assert(after.enemies[b] == g.enemies[b]);
        }
        assert(after.enemies[n] is Boss ==> has_boss(after.enemies));
    }
}

/// A tick of a game that is being played leaves no enemy without health
/// and keeps the boss mark right, if that was so before and nothing in
/// the world heals.
pub proof fn lemma_tick_keeps_the_marks(
    g: GameView,
    input: Input,
    now: u64,
    dt: u64,
    moves: Seq<u64>,
    dice: SpawnDice,
)
    requires
        g.game_state == GameState::Playing,
        all_alive(g.enemies),
        boss_gate_holds(g),
        bullets_harm(g.player.bullets),
        0 <= g.player.damage < i32::MAX,
        1 <= g.level <= LEVEL_CAP,
    ensures
        all_alive(g.stepped(input, now, dt, moves, dice).enemies),
        boss_gate_holds(g.stepped(input, now, dt, moves, dice)),
{
    let bought = g.shopped(input);
    let steered = GameView { player: bought.player.updated(input, now), ..bought };
    let shots = steered.player.bullets;
    assert forall|i: int| 0 <= i < shots.len() implies (#[trigger] shots[i]).damage >= 0 by {}
    let n = steered.enemies.len();
    lemma_fought_frame(steered, now, dt, moves, n);
    lemma_fought_marks(steered, now, dt, moves, n);
    let met = steered.fought(now, dt, moves, n);
    let w = met.0;
    let fallen = met.2;
    assert forall|i: int| 0 <= i < w.enemies.len() implies (#[trigger] w.enemies[i]).hp() >= 0 by {
        lemma_survivor_health(steered, now, dt, moves, n, i);
    }
    lemma_pruned_marks(steered, w, fallen);
    let pruned = w.shelled().pruned(met.1, fallen);
    lemma_spawned_marks(pruned, dice);
}

/// No turn leaves an enemy with negative health.
proof fn lemma_survivor_health(s: GameView, now: u64, dt: u64, moves: Seq<u64>, k: nat, i: int)
    requires
        bullets_harm(s.player.bullets),
        all_alive(s.enemies),
        k <= s.enemies.len(),
        0 <= i < s.enemies.len(),
    ensures
        s.fought(now, dt, moves, k).0.enemies.len() == s.enemies.len(),
        s.fought(now, dt, moves, k).0.enemies[i].hp() >= 0,
        i >= k ==> s.fought(now, dt, moves, k).0.enemies[i] == s.enemies[i],
    decreases k,
{
    lemma_fought_frame(s, now, dt, moves, k);
    if k > 0 {
        let n = (k - 1) as nat;
        lemma_survivor_health(s, now, dt, moves, n, i);
        lemma_survivor_health(s, now, dt, moves, n, n as int);
        lemma_fought_frame(s, now, dt, moves, n);
        let so_far = s.fought(now, dt, moves, n);
        let w = so_far.0;
        let e0 = w.enemies[n as int];
        lemma_updated_frame(e0, w.player.player_pos, now, dt, moves[n as int]);
        let e1 = e0.updated(w.player.player_pos, now, dt, moves[n as int]).0;
        lemma_barrage_fells_the_dead(e1, w.player.bullets, so_far.1, w.player.bullets.len());
    }
}

/// Projectiles leave a player who had health with health or with none,
/// never with less than none.
pub proof fn lemma_struck_health(hp: i32, pool: Seq<Bullet>, at: Vec2, k: nat)
    requires
        hp >= 0,
        crate::game::can_strike(hp, pool, at),
        k <= pool.len(),
    ensures
        struck(hp, pool, at, k) >= 0,
    decreases k,
{
    if k > 0 {
        lemma_struck_health(hp, pool, at, (k - 1) as nat);
        assert(pool[k - 1].touches(at) ==> struck(hp, pool, at, (k - 1) as nat) - pool[k - 1].damage
            <= i32::MAX);
    }
}

/// The turns of the enemies leave a player who had health with health or
/// with none.
pub proof fn lemma_fought_health(s: GameView, now: u64, dt: u64, moves: Seq<u64>, k: nat)
    requires
        s.player.hp >= 0,
        s.can_fight(now, dt, moves, k),
    ensures
        s.fought(now, dt, moves, k).0.player.hp >= 0,
    decreases k,
{
    if k > 0 {
        let i = (k - 1) as nat;
        assert forall|n: nat| n < i implies {
            let before = #[trigger] s.fought(now, dt, moves, n);
            before.0.can_engage(n as int, now, dt, moves[n as int], before.1)
        } by {}
        lemma_fought_health(s, now, dt, moves, i);
    }
}

/// The player's health is never negative after a tick that stays within
/// the machine's range, if it was not negative before. A game that is
/// still being played after its tick has a player with health.
pub proof fn lemma_tick_keeps_health(
    g: GameView,
    input: Input,
    now: u64,
    dt: u64,
    moves: Seq<u64>,
    dice: SpawnDice,
)
    requires
        0 <= g.player.hp,
        g.can_step(input, now, dt, moves, dice),
    ensures
        g.stepped(input, now, dt, moves, dice).player.hp >= 0,
        g.game_state == GameState::Playing && g.stepped(input, now, dt, moves, dice).game_state
            == GameState::Playing ==> g.stepped(input, now, dt, moves, dice).player.hp > 0,
{
    if g.game_state == GameState::Playing {
        let bought = g.shopped(input);
        let steered = GameView { player: bought.player.updated(input, now), ..bought };
        lemma_fought_health(steered, now, dt, moves, steered.enemies.len());
        lemma_fought_frame(steered, now, dt, moves, steered.enemies.len());
        let met = steered.fought(now, dt, moves, steered.enemies.len());
        let pool = crate::player::all_advanced(met.0.bullets);
        lemma_struck_health(met.0.player.hp, pool, met.0.player.player_pos, pool.len());
    }
}

} // verus!
