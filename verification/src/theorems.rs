//! What holds of every tick.

use vstd::prelude::*;
use crate::bullet::Bullet;
use crate::enemy::Enemy;
use crate::game::{
    GameState, GameView, KILLS_PER_LEVEL, SPAWN_RATE_STEP, SpawnDice, barrage, hit_or_gone,
    spent_or_gone,
};
use crate::geometry::Vec2;
use crate::limits::in_field;
use crate::player::{Input, PlayerView};
use crate::pruning::{
    lemma_kept_exactly_unmarked, lemma_kept_only_unmarked, placed, unmarked_before,
};

verus! {

/// A projectile that is used up stays used up, and as many projectiles
/// are marked after a barrage as before.
pub proof fn lemma_spent_stays_spent(e: Enemy, shots: Seq<Bullet>, spent: Seq<bool>, j: nat)
    requires
        spent.len() == shots.len(),
        j <= shots.len(),
    ensures
        barrage(e, shots, spent, j).1.len() == spent.len(),
        forall|n: int|
            0 <= n < spent.len() && spent[n] ==> #[trigger] barrage(e, shots, spent, j).1[n],
        forall|n: int|
            j <= n < spent.len() ==> #[trigger] barrage(e, shots, spent, j).1[n] == spent[n],
    decreases j,
{
    if j > 0 {
        lemma_spent_stays_spent(e, shots, spent, (j - 1) as nat);
    }
}

/// Projectiles that are used up do nothing to an enemy: none deals its
/// damage twice.
pub proof fn lemma_spent_shots_pass(e: Enemy, shots: Seq<Bullet>, spent: Seq<bool>, j: nat)
    requires
        spent.len() == shots.len(),
        j <= shots.len(),
        forall|n: int| 0 <= n < j ==> spent[n],
    ensures
        barrage(e, shots, spent, j) == (e, spent, false),
    decreases j,
{
    if j > 0 {
        lemma_spent_shots_pass(e, shots, spent, (j - 1) as nat);
    }
}

/// The turns of the enemies change health, bounty, kills, the boss's
/// place, the enemies and their projectiles, and nothing else. They
/// neither add nor remove an enemy or a projectile of the player.
pub proof fn lemma_fought_frame(s: GameView, now: u64, dt: u64, moves: Seq<u64>, k: nat)
    requires
        k <= s.enemies.len(),
    ensures
        s.fought(now, dt, moves, k).0 == (GameView {
            enemies: s.fought(now, dt, moves, k).0.enemies,
            bullets: s.fought(now, dt, moves, k).0.bullets,
            is_boss: s.fought(now, dt, moves, k).0.is_boss,
            killed_enemies: s.fought(now, dt, moves, k).0.killed_enemies,
            player: PlayerView {
                hp: s.fought(now, dt, moves, k).0.player.hp,
                points: s.fought(now, dt, moves, k).0.player.points,
                coins: s.fought(now, dt, moves, k).0.player.coins,
                ..s.player
            },
            ..s
        }),
        s.fought(now, dt, moves, k).0.enemies.len() == s.enemies.len(),
        s.fought(now, dt, moves, k).1.len() == s.player.bullets.len(),
        s.fought(now, dt, moves, k).2.len() == k,
        forall|i: int|
            k <= i < s.enemies.len() ==> #[trigger] s.fought(now, dt, moves, k).0.enemies[i]
                == s.enemies[i],
    decreases k,
{
    if k > 0 {
        let i = (k - 1) as nat;
        lemma_fought_frame(s, now, dt, moves, i);
        let so_far = s.fought(now, dt, moves, i);
        let w = so_far.0;
        let e1 = w.enemies[i as int].updated(w.player.player_pos, now, dt, moves[i as int]).0;
        lemma_spent_stays_spent(e1, w.player.bullets, so_far.1, w.player.bullets.len());
    }
}

/// The kills that a tick of a game that is being played has counted when
/// it comes to the level.
pub open spec fn kills_at_level_check(
    g: GameView,
    input: Input,
    now: u64,
    dt: u64,
    moves: Seq<u64>,
) -> i32 {
    let bought = g.shopped(input);
    let steered = GameView { player: bought.player.updated(input, now), ..bought };
    steered.fought(now, dt, moves, steered.enemies.len()).0.killed_enemies
}

/// The level rises by one in exactly the ticks that reach
/// `KILLS_PER_LEVEL` kills, and the count then starts again at zero. So a
/// tick leaves fewer than `KILLS_PER_LEVEL` kills, and after the kill
/// that brings the count to `KILLS_PER_LEVEL` the level has risen once.
pub proof fn lemma_level_rises_with_the_kills(
    g: GameView,
    input: Input,
    now: u64,
    dt: u64,
    moves: Seq<u64>,
    dice: SpawnDice,
)
    requires
        g.game_state == GameState::Playing,
        g.level < i32::MAX,
        g.spawn_rate < u32::MAX,
    ensures
        g.stepped(input, now, dt, moves, dice).killed_enemies < KILLS_PER_LEVEL,
        kills_at_level_check(g, input, now, dt, moves) >= KILLS_PER_LEVEL ==> {
            &&& g.stepped(input, now, dt, moves, dice).level == g.level + 1
            &&& g.stepped(input, now, dt, moves, dice).killed_enemies == 0
            &&& g.stepped(input, now, dt, moves, dice).spawn_rate == g.spawn_rate
                + SPAWN_RATE_STEP
        },
        kills_at_level_check(g, input, now, dt, moves) < KILLS_PER_LEVEL ==> {
            &&& g.stepped(input, now, dt, moves, dice).level == g.level
            &&& g.stepped(input, now, dt, moves, dice).killed_enemies == kills_at_level_check(
                g,
                input,
                now,
                dt,
                moves,
            )
            &&& g.stepped(input, now, dt, moves, dice).spawn_rate == g.spawn_rate
        },
{
    let bought = g.shopped(input);
    let steered = GameView { player: bought.player.updated(input, now), ..bought };
    lemma_fought_frame(steered, now, dt, moves, steered.enemies.len());
}

/// A level check that has just raised the level does not raise it again.
pub proof fn lemma_level_rises_once(g: GameView)
    requires
        g.level < i32::MAX,
        g.spawn_rate < u32::MAX,
    ensures
        g.leveled().leveled() == g.leveled(),
        g.killed_enemies == KILLS_PER_LEVEL ==> g.leveled().level == g.level + 1
            && g.leveled().killed_enemies == 0,
        g.killed_enemies < KILLS_PER_LEVEL ==> g.leveled() == g,
{
}

/// In a tick without input a player who stands in the play field stays
/// where it is, whatever time has passed and whatever is drawn.
pub proof fn lemma_idle_tick_keeps_the_player_in_place(
    g: GameView,
    input: Input,
    now: u64,
    dt: u64,
    moves: Seq<u64>,
    dice: SpawnDice,
)
    requires
        input.is_idle(),
        in_field(g.player.player_pos),
    ensures
        g.stepped(input, now, dt, moves, dice).player.player_pos == g.player.player_pos,
        g.stepped(input, now, dt, moves, dice).shop == g.shop,
{
    if g.game_state == GameState::Playing {
        let bought = g.shopped(input);
        let steered = GameView { player: bought.player.updated(input, now), ..bought };
        lemma_fought_frame(steered, now, dt, moves, steered.enemies.len());
    }
}

/// An enemy without speed, and an enemy that stands on the player, stays
/// where it is through its turn.
pub proof fn lemma_enemy_at_rest_stays(e: Enemy, at: Vec2, now: u64, dt: u64, roll: u64)
    requires
        e.pos() == at || match e {
            Enemy::Triangle(t) => t.speed == 0,
            Enemy::Hexagon(h) => h.speed == 0,
            Enemy::Boss(b) => b.speed == 0,
        },
    ensures
        e.updated(at, now, dt, roll).0.pos() == e.pos(),
{
    let speed = match e {
        Enemy::Triangle(t) => t.speed,
        Enemy::Hexagon(h) => h.speed,
        Enemy::Boss(b) => b.speed,
    };
    lemma_rest(e.pos(), at, speed);
}

/// A step of no length, and a step toward the place where one stands,
/// leads nowhere.
pub proof fn lemma_rest(pos: Vec2, target: Vec2, speed: i64)
    requires
        pos == target || speed == 0,
    ensures
        pos.approached(target, speed) == pos,
{
    let heading = pos.toward(target);
    let direction = heading.normalized();
    if pos == target {
        crate::geometry::lemma_leg_le_hypotenuse(0, 0);
        assert(heading.x * heading.x + heading.y * heading.y == 0) by (nonlinear_arith)
            requires
                heading.x == 0,
                heading.y == 0,
        ;
        assert(direction == Vec2 { x: 0, y: 0 });
        assert(0 * (speed as int) == 0);
    } else {
        assert((direction.x as int) * 0 == 0);
        assert((direction.y as int) * 0 == 0);
    }
}

/// A projectile without velocity stays where it is when it advances.
pub proof fn lemma_bullet_at_rest_stays(b: Bullet)
    requires
        b.vel == (Vec2 { x: 0, y: 0 }),
    ensures
        b.advanced() == b,
{
}

/// After the removal, the world holds exactly the enemies that did not
/// fall, the enemies' projectiles that neither touch the player nor have
/// left the play field, and the player's projectiles that were neither
/// used up nor have left the play field; each once and in the old order.
pub proof fn lemma_pruned_exactly(w: GameView, spent: Seq<bool>, fallen: Seq<bool>)
    requires
        spent.len() == w.player.bullets.len(),
        fallen.len() == w.enemies.len(),
    ensures
        w.pruned(spent, fallen).enemies.len() == unmarked_before(fallen, w.enemies.len() as int),
        forall|i: int|
            0 <= i < w.enemies.len() && !fallen[i] ==> placed(
                w.pruned(spent, fallen).enemies,
                #[trigger] w.enemies[i],
                unmarked_before(fallen, i),
            ),
        w.pruned(spent, fallen).bullets.len() == unmarked_before(
            hit_or_gone(w.bullets, w.player.player_pos),
            w.bullets.len() as int,
        ),
        forall|i: int|
            0 <= i < w.bullets.len() && !w.bullets[i].touches(w.player.player_pos)
                && !w.bullets[i].off_screen() ==> placed(
                w.pruned(spent, fallen).bullets,
                #[trigger] w.bullets[i],
                unmarked_before(hit_or_gone(w.bullets, w.player.player_pos), i),
            ),
        w.pruned(spent, fallen).player.bullets.len() == unmarked_before(
            spent_or_gone(w.player.bullets, spent),
            w.player.bullets.len() as int,
        ),
        forall|i: int|
            0 <= i < w.player.bullets.len() && !spent[i] && !w.player.bullets[i].off_screen()
                ==> placed(
                w.pruned(spent, fallen).player.bullets,
                #[trigger] w.player.bullets[i],
                unmarked_before(spent_or_gone(w.player.bullets, spent), i),
            ),
{
    lemma_kept_exactly_unmarked(w.enemies, fallen);
    lemma_kept_exactly_unmarked(w.bullets, hit_or_gone(w.bullets, w.player.player_pos));
    lemma_kept_exactly_unmarked(w.player.bullets, spent_or_gone(w.player.bullets, spent));
}

/// No projectile of `pool` has left the play field.
pub open spec fn all_on_field(pool: Seq<Bullet>) -> bool {
    forall|i: int| 0 <= i < pool.len() ==> !(#[trigger] pool[i]).off_screen()
}

/// After a tick of a game that is being played, the player stands in the
/// play field and no projectile that is left has left the play field or
/// touches the player's box unspent.
pub proof fn lemma_tick_tidies_the_field(
    g: GameView,
    input: Input,
    now: u64,
    dt: u64,
    moves: Seq<u64>,
    dice: SpawnDice,
)
    requires
        g.game_state == GameState::Playing,
    ensures
        in_field(g.stepped(input, now, dt, moves, dice).player.player_pos),
        all_on_field(g.stepped(input, now, dt, moves, dice).bullets),
        all_on_field(g.stepped(input, now, dt, moves, dice).player.bullets),
        forall|i: int|
            0 <= i < g.stepped(input, now, dt, moves, dice).bullets.len() ==> !(
            #[trigger] g.stepped(input, now, dt, moves, dice).bullets[i]).touches(
                g.stepped(input, now, dt, moves, dice).player.player_pos,
            ),
{
    let bought = g.shopped(input);
    let steered = GameView { player: bought.player.updated(input, now), ..bought };
    let n = steered.enemies.len();
    lemma_fought_frame(steered, now, dt, moves, n);
    let met = steered.fought(now, dt, moves, n);
    let shelled = met.0.shelled();
    let at = shelled.player.player_pos;
    let pruned = shelled.pruned(met.1, met.2);
    let flags = hit_or_gone(shelled.bullets, at);
    assert forall|i: int| 0 <= i < pruned.bullets.len() implies !(#[trigger] pruned.bullets[i]).off_screen()
        && !pruned.bullets[i].touches(at) by {
        lemma_kept_only_unmarked(shelled.bullets, flags, i);
    }
    let marks = spent_or_gone(shelled.player.bullets, met.1);
    assert forall|i: int| 0 <= i < pruned.player.bullets.len() implies !(
    #[trigger] pruned.player.bullets[i]).off_screen() by {
        lemma_kept_only_unmarked(shelled.player.bullets, marks, i);
    }
}

} // verus!
