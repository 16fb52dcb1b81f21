//! Worlds that a tick can take on without leaving the machine's range.
//!
//! A tick asks that no number that comes up on its way leaves the range of
//! its type. That is a statement about the whole course of the tick. This
//! module gives a condition on the world before the tick that is enough
//! for it and that a loop over the world can test: every number lies
//! below a cap that no game reaches by play.

use vstd::prelude::*;
use crate::boss::{BossState, spread_heading};
use crate::bullet::{Bullet, FIELD_HEIGHT, FIELD_WIDTH, lemma_aimed_velocity_bounded};
use crate::circle::circle_heading;
use crate::enemy::Enemy;
use crate::game::{
    Game, GameState, GameView, SpawnDice, barrage, hit_or_gone, spent_or_gone,
};
use crate::pruning::{came_from, lemma_kept_only_unmarked};
use crate::geometry::{Vec2, lemma_stride_bounded};
use crate::player::{Input, Player, PlayerView, all_advanced};
use crate::shop::{
    DAMAGE_GAIN, FIRE_RATE_GAIN, HEALTH_GAIN, SPEED_GAIN, Shop, lemma_next_cost_bounded,
};

verus! {

/// The highest level on which every bounty is a machine number.
pub const LEVEL_CAP: i32 = 2_147_483;

/// The most that a sound enemy covers per tick, and the width of the
/// margin around the play field in which sound enemies live.
pub const SPEED_CAP: i64 = 10_000_000_000;

/// The most that a sound projectile covers per tick along either axis.
pub const VEL_CAP: i64 = 20_000_000_000;

/// The longest time, in milliseconds, that a sound timer holds and that a
/// tick may take.
pub const TIME_CAP: u64 = 0x4000_0000_0000_0000;

/// The most contact damage of a sound enemy.
pub const DAMAGE_CAP: i32 = 0x3FFF_FFFF;

/// The highest price of a sound shop.
pub const COST_CAP: i32 = 0x2000_0000;

/// A shop whose prices are low enough for every next price to be a
/// machine number.
pub open spec fn shop_sound(s: Shop) -> bool {
    s.within(COST_CAP as int)
}

/// Whether `p` lies in the play field, border included.
pub open spec fn in_field(p: Vec2) -> bool {
    0 <= p.x <= FIELD_WIDTH && 0 <= p.y <= FIELD_HEIGHT
}

/// Whether `p` lies in the play field or in the margin of width
/// `SPEED_CAP` around it.
pub open spec fn in_arena(p: Vec2) -> bool {
    &&& -SPEED_CAP <= p.x <= FIELD_WIDTH + SPEED_CAP
    &&& -SPEED_CAP <= p.y <= FIELD_HEIGHT + SPEED_CAP
}

/// A projectile in the arena that is no faster than `VEL_CAP` and does
/// not heal.
pub open spec fn bullet_sound(b: Bullet) -> bool {
    in_arena(b.pos) && b.vel.within(VEL_CAP as int) && b.damage >= 0
}

pub open spec fn bullets_sound(pool: Seq<Bullet>) -> bool {
    forall|i: int| 0 <= i < pool.len() ==> bullet_sound(#[trigger] pool[i])
}

/// No projectile heals.
pub open spec fn bullets_harm(pool: Seq<Bullet>) -> bool {
    forall|i: int| 0 <= i < pool.len() ==> (#[trigger] pool[i]).damage >= 0
}

/// No projectile heals or is faster than `VEL_CAP`.
pub open spec fn bullets_tame(pool: Seq<Bullet>) -> bool {
    forall|i: int|
        0 <= i < pool.len() ==> (#[trigger] pool[i]).damage >= 0 && pool[i].vel.within(
            VEL_CAP as int,
        )
}

/// An enemy in the arena whose speeds, damage, bounty and times lie
/// between zero and their caps.
pub open spec fn enemy_sound(e: Enemy) -> bool {
    &&& in_arena(e.pos())
    &&& 0 <= e.damage() <= DAMAGE_CAP
    &&& 0 <= e.coins()
    &&& 0 <= e.points()
    &&& match e {
        Enemy::Triangle(t) => 0 <= t.speed <= SPEED_CAP,
        Enemy::Hexagon(h) => 0 <= h.speed <= SPEED_CAP && 0 <= h.bullet_speed <= VEL_CAP,
        Enemy::Boss(b) => {
            &&& 0 <= b.speed <= SPEED_CAP
            &&& 0 <= 2 * b.bullet_speed <= VEL_CAP
            &&& b.attack_timer <= TIME_CAP
            &&& b.shoot_cooldown <= TIME_CAP
            &&& b.circle_bullets_count <= u32::MAX
        },
    }
}

pub open spec fn enemies_sound(enemies: Seq<Enemy>) -> bool {
    forall|i: int| 0 <= i < enemies.len() ==> enemy_sound(#[trigger] enemies[i])
}

/// The points that all of `enemies` together are worth.
pub open spec fn total_points(enemies: Seq<Enemy>) -> int
    decreases enemies.len(),
{
    if enemies.len() == 0 {
        0
    } else {
        total_points(enemies.drop_last()) + enemies.last().points()
    }
}

/// The coins that all of `enemies` together are worth.
pub open spec fn total_coins(enemies: Seq<Enemy>) -> int
    decreases enemies.len(),
{
    if enemies.len() == 0 {
        0
    } else {
        total_coins(enemies.drop_last()) + enemies.last().coins()
    }
}

/// A player whose stats leave room for one upgrade each, whose
/// projectiles are sound, and who deals no negative damage.
pub open spec fn player_sound(p: PlayerView) -> bool {
    &&& p.hp + HEALTH_GAIN <= i32::MAX
    &&& 0 <= p.damage && p.damage + DAMAGE_GAIN <= i32::MAX
    &&& p.speed + SPEED_GAIN <= i64::MAX
    &&& p.fire_rate - FIRE_RATE_GAIN >= i64::MIN
    &&& -VEL_CAP <= p.player_bullet_speed <= VEL_CAP
    &&& bullets_sound(p.bullets)
}

/// An input whose pointer is within machine reach of the whole play field.
pub open spec fn input_sound(input: Input) -> bool {
    input.aim.x >= i64::MIN + FIELD_WIDTH && input.aim.y >= i64::MIN + FIELD_HEIGHT
}

/// A world in which every part is sound and in which the bounty of all
/// enemies together, and one kill for each, can still be counted.
pub open spec fn world_sound(g: GameView) -> bool {
    &&& player_sound(g.player)
    &&& shop_sound(g.shop)
    &&& enemies_sound(g.enemies)
    &&& bullets_sound(g.bullets)
    &&& 0 <= g.level <= LEVEL_CAP
    &&& g.spawn_rate < u32::MAX
    &&& g.killed_enemies + g.enemies.len() <= i32::MAX
    &&& g.player.points + total_points(g.enemies) <= i32::MAX
    &&& g.player.coins + total_coins(g.enemies) <= i32::MAX
}

/// A step toward a point of the play field, at a speed of at most
/// `SPEED_CAP`, stays in the arena.
pub proof fn lemma_approach_stays(pos: Vec2, target: Vec2, speed: i64)
    requires
        in_arena(pos),
        in_field(target),
        0 <= speed <= SPEED_CAP,
    ensures
        pos.can_approach(target, speed),
        in_arena(pos.approached(target, speed)),
        pos.approached(target, speed).can_reach(target),
{
    lemma_stride_bounded(pos, target, speed);
}

/// The bounty of sound enemies is not negative, and that of the first
/// `k` is no more than that of all.
pub proof fn lemma_totals_grow(enemies: Seq<Enemy>, k: int)
    requires
        enemies_sound(enemies),
        0 <= k <= enemies.len(),
    ensures
        0 <= total_points(enemies.take(k)) <= total_points(enemies),
        0 <= total_coins(enemies.take(k)) <= total_coins(enemies),
        k < enemies.len() ==> total_points(enemies.take(k + 1)) == total_points(enemies.take(k))
            + enemies[k].points(),
        k < enemies.len() ==> total_coins(enemies.take(k + 1)) == total_coins(enemies.take(k))
            + enemies[k].coins(),
    decreases enemies.len() - k,
{
    if k > 0 {
        assert(enemies.take(k).drop_last() =~= enemies.take(k - 1));
        lemma_totals_nonnegative(enemies.take(k - 1), enemies);
    }
    if k < enemies.len() {
        assert(enemies.take(k + 1).drop_last() =~= enemies.take(k));
        assert(enemies.take(k + 1).last() == enemies[k]);
        lemma_totals_grow(enemies, k + 1);
    }
}

/// The bounty of a prefix of sound enemies is not negative.
proof fn lemma_totals_nonnegative(part: Seq<Enemy>, enemies: Seq<Enemy>)
    requires
        enemies_sound(enemies),
        part.len() <= enemies.len(),
        forall|i: int| 0 <= i < part.len() ==> part[i] == enemies[i],
    ensures
        0 <= total_points(part),
        0 <= total_coins(part),
    decreases part.len(),
{
    if part.len() > 0 {
        lemma_totals_nonnegative(part.drop_last(), enemies);
    }
}

/// What the player's projectiles do to an enemy leaves its place, kind,
/// damage and bounty as they are, so that a sound enemy stays sound, and
/// marks as many projectiles as before.
pub proof fn lemma_barrage_frame(e: Enemy, shots: Seq<Bullet>, spent: Seq<bool>, j: nat)
    requires
        spent.len() == shots.len(),
        j <= shots.len(),
    ensures
        barrage(e, shots, spent, j).0.pos() == e.pos(),
        barrage(e, shots, spent, j).0.damage() == e.damage(),
        barrage(e, shots, spent, j).0.points() == e.points(),
        barrage(e, shots, spent, j).0.coins() == e.coins(),
        barrage(e, shots, spent, j).0 is Boss == e is Boss,
        barrage(e, shots, spent, j).1.len() == spent.len(),
        enemy_sound(e) ==> enemy_sound(barrage(e, shots, spent, j).0),
    decreases j,
{
    if j > 0 {
        lemma_barrage_frame(e, shots, spent, (j - 1) as nat);
    }
}

/// Projectiles that do not heal can all be let at any enemy.
pub proof fn lemma_barrage_fits(e: Enemy, shots: Seq<Bullet>, spent: Seq<bool>)
    requires
        bullets_harm(shots),
    ensures
        crate::game::can_barrage(e, shots, spent),
{
    assert forall|j: nat| j < shots.len() implies {
        let met = #[trigger] barrage(e, shots, spent, j);
        !met.1[j as int] && shots[j as int].touches(met.0.pos()) ==> met.0.hp() - shots[j as int].damage
            <= i32::MAX
    } by {}
}

/// A sound enemy can take its turn with the player anywhere in the play
/// field. The turn leaves it sound, with its kind, damage and bounty, and
/// what it sends off is sound.
pub proof fn lemma_enemy_update_sound(e: Enemy, at: Vec2, now: u64, dt: u64, roll: u64)
    requires
        enemy_sound(e),
        in_field(at),
        dt <= TIME_CAP,
    ensures
        e.can_update(at, now, dt),
        e.updated(at, now, dt, roll).0.damage() == e.damage(),
        e.updated(at, now, dt, roll).0.points() == e.points(),
        e.updated(at, now, dt, roll).0.coins() == e.coins(),
        e.updated(at, now, dt, roll).0 is Boss == e is Boss,
        enemy_sound(e.updated(at, now, dt, roll).0),
        bullets_sound(e.updated(at, now, dt, roll).1),
{
    let sent = e.updated(at, now, dt, roll).1;
    match e {
        Enemy::Triangle(t) => {
            lemma_approach_stays(t.pos, at, t.speed);
        },
        Enemy::Hexagon(h) => {
            lemma_approach_stays(h.pos, at, h.speed);
            let moved = h.moved(at);
            lemma_aimed_velocity_bounded(
                moved.pos,
                moved.pos.toward(at),
                moved.bullet_speed,
                moved.damage,
                crate::hexagonal::HEXAGON_BULLET_SIZE,
            );
            assert forall|i: int| 0 <= i < sent.len() implies bullet_sound(#[trigger] sent[i]) by {}
        },
        Enemy::Boss(b) => {
            lemma_approach_stays(b.pos, at, b.speed);
            let moved = b.moved(at);
            assert forall|i: int| 0 <= i < sent.len() implies bullet_sound(#[trigger] sent[i]) by {
                match moved.current_state {
                    BossState::Idle => {},
                    BossState::AttackNormal => {
                        lemma_aimed_velocity_bounded(
                            moved.pos,
                            spread_heading(i),
                            moved.bullet_speed,
                            moved.damage,
                            crate::boss::BOSS_BULLET_SIZE,
                        );
                    },
                    BossState::AttackCircle => {
                        lemma_aimed_velocity_bounded(
                            moved.pos,
                            circle_heading(i, moved.circle_bullets_count as int),
                            moved.bullet_speed,
                            moved.damage,
                            crate::boss::BOSS_BULLET_SIZE,
                        );
                    },
                    BossState::AttackMachine => {
                        lemma_aimed_velocity_bounded(
                            moved.pos,
                            moved.pos.toward(at),
                            (2 * moved.bullet_speed) as i64,
                            (2 * moved.damage) as i32,
                            crate::boss::BIG_BULLET_SIZE,
                        );
                        assert(sent[i] == moved.big_shot(at));
                    },
                }
            }
        },
    }
}

/// What holds of the world `w` that the first `k` turns of the enemies
/// make of the world `s`: only health, bounty, kills, the enemies that had
/// their turn and the enemies' projectiles have changed, the bounty by no
/// more than those enemies were worth, and enemies and projectiles are
/// sound.
pub open spec fn fray_keeps(
    s: GameView,
    w: GameView,
    spent: Seq<bool>,
    fallen: Seq<bool>,
    k: int,
) -> bool {
    &&& w.enemies.len() == s.enemies.len()
    &&& spent.len() == s.player.bullets.len()
    &&& fallen.len() == k
    &&& forall|i: int| k <= i < s.enemies.len() ==> #[trigger] w.enemies[i] == s.enemies[i]
    &&& w.player == (PlayerView {
        hp: w.player.hp,
        points: w.player.points,
        coins: w.player.coins,
        ..s.player
    })
    &&& s.player.points <= w.player.points <= s.player.points + total_points(s.enemies.take(k))
    &&& s.player.coins <= w.player.coins <= s.player.coins + total_coins(s.enemies.take(k))
    &&& s.killed_enemies <= w.killed_enemies <= s.killed_enemies + k
    &&& w.level == s.level
    &&& w.spawn_rate == s.spawn_rate
    &&& w.shop == s.shop
    &&& w.game_state == s.game_state
    &&& bullets_sound(w.bullets)
    &&& enemies_sound(w.enemies)
}

/// Whether the enemies of `s` can take their turns: the player stands in
/// the play field, nothing heals, and all bounty can still be counted.
pub open spec fn fray_ready(s: GameView, dt: u64) -> bool {
    &&& in_field(s.player.player_pos)
    &&& bullets_harm(s.player.bullets)
    &&& enemies_sound(s.enemies)
    &&& bullets_sound(s.bullets)
    &&& dt <= TIME_CAP
    &&& s.killed_enemies + s.enemies.len() <= i32::MAX
    &&& s.player.points + total_points(s.enemies) <= i32::MAX
    &&& s.player.coins + total_coins(s.enemies) <= i32::MAX
}

/// The first `k` enemies of a world that is ready can take their turns
/// within the machine's range.
pub proof fn lemma_fought_sound(s: GameView, now: u64, dt: u64, moves: Seq<u64>, k: nat)
    requires
        fray_ready(s, dt),
        k <= s.enemies.len(),
    ensures
        s.can_fight(now, dt, moves, k),
        fray_keeps(
            s,
            s.fought(now, dt, moves, k).0,
            s.fought(now, dt, moves, k).1,
            s.fought(now, dt, moves, k).2,
            k as int,
        ),
    decreases k,
{
    if k > 0 {
        let i = (k - 1) as nat;
        lemma_fought_sound(s, now, dt, moves, i);
        let so_far = s.fought(now, dt, moves, i);
        let w = so_far.0;
        let spent = so_far.1;
        let at = w.player.player_pos;
        let shots = w.player.bullets;
        lemma_enemy_update_sound(w.enemies[i as int], at, now, dt, moves[i as int]);
        let turn = w.enemies[i as int].updated(at, now, dt, moves[i as int]);
        let e1 = turn.0;
        lemma_barrage_fits(e1, shots, spent);
        lemma_barrage_frame(e1, shots, spent, shots.len());
        lemma_totals_grow(s.enemies, i as int);
        lemma_totals_grow(s.enemies, k as int);
        assert forall|n: nat| n < k implies {
            let before = #[trigger] s.fought(now, dt, moves, n);
            before.0.can_engage(n as int, now, dt, moves[n as int], before.1)
        } by {}
        let after = w.engaged(i as int, now, dt, moves[i as int], spent);
        let pool = after.0.bullets;
        assert forall|n: int| 0 <= n < pool.len() implies bullet_sound(#[trigger] pool[n]) by {}
    }
}

/// A sound player can ask a sound shop for any upgrades. The purchases
/// take no coins that are not there and leave points, place, projectiles
/// and their speed as they are.
pub proof fn lemma_shop_sound(g: GameView, input: Input)
    requires
        player_sound(g.player),
        shop_sound(g.shop),
    ensures
        g.can_shop(input),
        g.shopped(input) == (GameView {
            shop: g.shopped(input).shop,
            player: g.shopped(input).player,
            ..g
        }),
        g.shopped(input).player.bullets == g.player.bullets,
        g.shopped(input).player.points == g.player.points,
        g.shopped(input).player.coins <= g.player.coins,
        g.shopped(input).player.player_bullet_speed == g.player.player_bullet_speed,
        g.shopped(input).player.damage >= 0,
{
    lemma_next_cost_bounded(g.shop.health_upgrade_cost as int, g.shop.health_lvl as int);
    lemma_next_cost_bounded(g.shop.damage_upgrade_cost as int, g.shop.damage_lvl as int);
    lemma_next_cost_bounded(g.shop.speed_upgrade_cost as int, g.shop.speed_lvl as int);
    lemma_next_cost_bounded(g.shop.fire_rate_cost as int, g.shop.fire_rate_lvl as int);
}

/// A player whose projectiles are sound can take a tick with a sound
/// input. Afterwards the player stands in the play field, and health and
/// bounty are as before.
pub proof fn lemma_player_update_sound(p: PlayerView, input: Input, now: u64)
    requires
        bullets_sound(p.bullets),
        -VEL_CAP <= p.player_bullet_speed <= VEL_CAP,
        p.damage >= 0,
        input_sound(input),
    ensures
        p.can_update(input, now),
        in_field(p.updated(input, now).player_pos),
        bullets_harm(p.updated(input, now).bullets),
        bullets_tame(p.updated(input, now).bullets),
        p.updated(input, now).hp == p.hp,
        p.updated(input, now).points == p.points,
        p.updated(input, now).coins == p.coins,
{
    let moved = p.moved(input);
    let armed = if input.fire {
        moved.fired(input.aim, now)
    } else {
        moved
    };
    lemma_aimed_velocity_bounded(
        moved.player_pos,
        moved.player_pos.toward(input.aim),
        moved.player_bullet_speed,
        moved.damage,
        crate::player::PLAYER_BULLET_SIZE,
    );
    assert forall|i: int| 0 <= i < armed.bullets.len() implies (#[trigger] armed.bullets[i]).can_advance() by {}
    let shots = p.updated(input, now).bullets;
    assert forall|i: int| 0 <= i < shots.len() implies (#[trigger] shots[i]).damage >= 0
        && shots[i].vel.within(VEL_CAP as int) by {
        if i < p.bullets.len() {
            assert(bullet_sound(p.bullets[i]));
        }
    }
}

/// Sound projectiles can advance and strike the player.
pub proof fn lemma_shell_sound(w: GameView)
    requires
        bullets_sound(w.bullets),
    ensures
        w.can_shell(),
{
    let pool = w.bullets;
    assert forall|i: int| 0 <= i < pool.len() implies (#[trigger] pool[i]).can_advance() by {}
    let flown = all_advanced(pool);
    assert forall|k: int|
        0 <= k < flown.len() && (#[trigger] flown[k]).touches(w.player.player_pos) implies crate::game::struck(
        w.player.hp,
        flown,
        w.player.player_pos,
        k as nat,
    ) - flown[k].damage <= i32::MAX by {}
}

/// A sound world can take a tick with a sound input, whatever is drawn:
/// no number that comes up on the way leaves the machine's range.
pub proof fn lemma_sound_world_can_step(
    g: GameView,
    input: Input,
    now: u64,
    dt: u64,
    moves: Seq<u64>,
    dice: SpawnDice,
)
    requires
        world_sound(g),
        input_sound(input),
        dt <= TIME_CAP,
    ensures
        g.can_step(input, now, dt, moves, dice),
{
    lemma_shop_sound(g, input);
    let bought = g.shopped(input);
    lemma_player_update_sound(bought.player, input, now);
    let steered = GameView { player: bought.player.updated(input, now), ..bought };
    lemma_fought_sound(steered, now, dt, moves, steered.enemies.len());
    let met = steered.fought(now, dt, moves, steered.enemies.len());
    lemma_shell_sound(met.0);
}

/// A tick of a sound world leaves every enemy and every projectile
/// sound and the player in the play field. So a world can lose its
/// soundness only where a count, a stat or a price reaches its cap.
pub proof fn lemma_tick_keeps_the_shape(
    g: GameView,
    input: Input,
    now: u64,
    dt: u64,
    moves: Seq<u64>,
    dice: SpawnDice,
)
    requires
        world_sound(g),
        input_sound(input),
        dt <= TIME_CAP,
        dice.wf(),
        g.game_state == GameState::Playing,
    ensures
        enemies_sound(g.stepped(input, now, dt, moves, dice).enemies),
        bullets_sound(g.stepped(input, now, dt, moves, dice).bullets),
        bullets_sound(g.stepped(input, now, dt, moves, dice).player.bullets),
        in_field(g.stepped(input, now, dt, moves, dice).player.player_pos),
{
    lemma_shop_sound(g, input);
    let bought = g.shopped(input);
    lemma_player_update_sound(bought.player, input, now);
    let steered = GameView { player: bought.player.updated(input, now), ..bought };
    let n = steered.enemies.len();
    lemma_fought_sound(steered, now, dt, moves, n);
    let met = steered.fought(now, dt, moves, n);
    let w = met.0;
    let shelled = w.shelled();
    let pruned = shelled.pruned(met.1, met.2);
    let at = shelled.player.player_pos;
    assert forall|i: int| 0 <= i < pruned.enemies.len() implies enemy_sound(
        #[trigger] pruned.enemies[i],
    ) by {
        lemma_kept_only_unmarked(w.enemies, met.2, i);
    }
    let flags = hit_or_gone(shelled.bullets, at);
    assert forall|i: int| 0 <= i < pruned.bullets.len() implies bullet_sound(
        #[trigger] pruned.bullets[i],
    ) by {
        lemma_kept_only_unmarked(shelled.bullets, flags, i);
        let from = choose|from: int| #[trigger] came_from(shelled.bullets, flags, from, i);
        assert(bullet_sound(w.bullets[from]));
    }
    let marks = spent_or_gone(shelled.player.bullets, met.1);
    assert forall|i: int| 0 <= i < pruned.player.bullets.len() implies bullet_sound(
        #[trigger] pruned.player.bullets[i],
    ) by {
        lemma_kept_only_unmarked(shelled.player.bullets, marks, i);
        let from = choose|from: int| #[trigger] came_from(shelled.player.bullets, marks, from, i);
        assert(!marks[from]);
    }
    let populated = pruned.populated(dice);
    assert forall|i: int| 0 <= i < populated.enemies.len() implies enemy_sound(
        #[trigger] populated.enemies[i],
    ) by {
        if i < pruned.enemies.len() {
            assert(populated.enemies[i] == pruned.enemies[i]);
        }
    }
}

/// Whether `p` lies in the play field or in the margin around it.
pub fn is_in_arena(p: Vec2) -> (ok: bool)
    ensures
        ok == in_arena(p),
{
    -SPEED_CAP <= p.x && p.x <= FIELD_WIDTH + SPEED_CAP && -SPEED_CAP <= p.y && p.y <= FIELD_HEIGHT
        + SPEED_CAP
}

pub fn bullet_is_sound(b: &Bullet) -> (ok: bool)
    ensures
        ok == bullet_sound(*b),
{
    is_in_arena(b.pos) && -VEL_CAP <= b.vel.x && b.vel.x <= VEL_CAP && -VEL_CAP <= b.vel.y
        && b.vel.y <= VEL_CAP && b.damage >= 0
}

pub fn bullets_are_sound(pool: &Vec<Bullet>) -> (ok: bool)
    ensures
        ok == bullets_sound(pool@),
{
    let n = pool.len();
    let mut i: usize = 0;
    while i < n
        invariant
            i <= n,
            n == pool.len(),
            forall|k: int| 0 <= k < i ==> bullet_sound(#[trigger] pool@[k]),
        decreases n - i,
    {
        if !bullet_is_sound(&pool[i]) {
            return false;
        }
        i += 1;
    }
    true
}

pub fn enemy_is_sound(e: &Enemy) -> (ok: bool)
    ensures
        ok == enemy_sound(*e),
{
    let common = is_in_arena(*e.get_pos()) && e.get_coins() >= 0 && e.get_points() >= 0;
    let own = match e {
        Enemy::Triangle(t) => 0 <= t.speed && t.speed <= SPEED_CAP && 0 <= t.damage && t.damage
            <= DAMAGE_CAP,
        Enemy::Hexagon(h) => 0 <= h.speed && h.speed <= SPEED_CAP && 0 <= h.damage && h.damage
            <= DAMAGE_CAP && 0 <= h.bullet_speed && h.bullet_speed <= VEL_CAP,
        Enemy::Boss(b) => 0 <= b.speed && b.speed <= SPEED_CAP && 0 <= b.damage && b.damage
            <= DAMAGE_CAP && 0 <= b.bullet_speed && b.bullet_speed <= VEL_CAP / 2 && b.attack_timer
            <= TIME_CAP && b.shoot_cooldown <= TIME_CAP && b.circle_bullets_count <= 0xFFFF_FFFF,
    };
    common && own
}

/// Whether all of `enemies` are sound; if so, with the points and the
/// coins that they are worth together.
pub fn sound_totals(enemies: &Vec<Enemy>) -> (worth: Option<(i128, i128)>)
    ensures
        worth is Some == enemies_sound(enemies@),
        worth matches Some((points, coins)) ==> {
            &&& points == total_points(enemies@)
            &&& coins == total_coins(enemies@)
            &&& 0 <= points <= enemies.len() * 0x8000_0000
            &&& 0 <= coins <= enemies.len() * 0x8000_0000
        },
{
    let n = enemies.len();
    let mut points: i128 = 0;
    let mut coins: i128 = 0;
    let mut i: usize = 0;
    while i < n
        invariant
            i <= n,
            n == enemies.len(),
            forall|k: int| 0 <= k < i ==> enemy_sound(#[trigger] enemies@[k]),
            points == total_points(enemies@.take(i as int)),
            coins == total_coins(enemies@.take(i as int)),
            0 <= points <= i * 0x8000_0000,
            0 <= coins <= i * 0x8000_0000,
        decreases n - i,
    {
        if !enemy_is_sound(&enemies[i]) {
            return None;
        }
        proof {
            assert(enemies@.take(i + 1).drop_last() =~= enemies@.take(i as int));
        }
        points = points + enemies[i].get_points() as i128;
        coins = coins + enemies[i].get_coins() as i128;
        i += 1;
    }
    proof {
        assert(enemies@.take(n as int) =~= enemies@);
    }
    Some((points, coins))
}

pub fn player_is_sound(p: &Player) -> (ok: bool)
    ensures
        ok == player_sound(p@),
{
    p.hp <= i32::MAX - HEALTH_GAIN && 0 <= p.damage && p.damage <= i32::MAX - DAMAGE_GAIN && p.speed
        <= i64::MAX - SPEED_GAIN && p.fire_rate >= i64::MIN + FIRE_RATE_GAIN && -VEL_CAP
        <= p.player_bullet_speed && p.player_bullet_speed <= VEL_CAP && bullets_are_sound(
        &p.bullets,
    )
}

pub fn shop_is_sound(s: &Shop) -> (ok: bool)
    ensures
        ok == shop_sound(*s),
{
    0 <= s.health_upgrade_cost && s.health_upgrade_cost <= COST_CAP && 1 <= s.health_lvl
        && s.health_lvl < i32::MAX && 0 <= s.damage_upgrade_cost && s.damage_upgrade_cost
        <= COST_CAP && 1 <= s.damage_lvl && s.damage_lvl < i32::MAX && 0 <= s.speed_upgrade_cost
        && s.speed_upgrade_cost <= COST_CAP && 1 <= s.speed_lvl && s.speed_lvl < i32::MAX && 0
        <= s.fire_rate_cost && s.fire_rate_cost <= COST_CAP && 1 <= s.fire_rate_lvl
        && s.fire_rate_lvl < i32::MAX
}

pub fn input_is_sound(input: &Input) -> (ok: bool)
    ensures
        ok == input_sound(*input),
{
    input.aim.x >= i64::MIN + FIELD_WIDTH && input.aim.y >= i64::MIN + FIELD_HEIGHT
}

impl Game {
    /// Whether the world is sound, so that it can take a tick.
    pub fn is_sound(&self) -> (ok: bool)
        ensures
            ok == world_sound(self@),
    {
        if !player_is_sound(&self.player) || !shop_is_sound(&self.shop) || !bullets_are_sound(
            &self.bullets,
        ) {
            return false;
        }
        if self.level < 0 || self.level > LEVEL_CAP || self.spawn_rate == u32::MAX {
            return false;
        }
        match sound_totals(&self.enemies) {
            None => false,
            Some((points, coins)) => {
                self.killed_enemies as i128 + self.enemies.len() as i128 <= i32::MAX as i128
                    && self.player.points as i128 + points <= i32::MAX as i128
                    && self.player.coins as i128 + coins <= i32::MAX as i128
            },
        }
    }

    /// One tick at time `now`, `dt` after the one before, if the world
    /// and the input are sound and `dt` is at most `TIME_CAP`; else
    /// nothing happens. Says whether the tick was taken.
    pub fn try_update(&mut self, input: &Input, now: u64, dt: u64) -> (done: bool)
        ensures
            done == (world_sound(old(self)@) && input_sound(*input) && dt <= TIME_CAP),
            !done ==> final(self)@ == old(self)@,
            done ==> exists|moves: Seq<u64>, dice: SpawnDice|
                old(self)@.fair(moves, dice) && final(self)@ == #[trigger] old(self)@.stepped(
                    *input,
                    now,
                    dt,
                    moves,
                    dice,
                ),
    {
        if self.is_sound() && input_is_sound(input) && dt <= TIME_CAP {
            proof {
                assert forall|moves: Seq<u64>, dice: SpawnDice|
                    self@.fair(moves, dice) implies #[trigger] self@.can_step(
                    *input,
                    now,
                    dt,
                    moves,
                    dice,
                ) by {
                    lemma_sound_world_can_step(self@, *input, now, dt, moves, dice);
                }
            }
            self.update(input, now, dt);
            true
        } else {
            false
        }
    }
}

} // verus!
