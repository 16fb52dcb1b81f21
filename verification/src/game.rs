//! The world and its tick.
//!
//! One tick takes the world through a fixed order of phases: purchases,
//! the player, the enemies with the player's projectiles, the enemies'
//! projectiles, the removal of what fell or left, a possible new enemy,
//! the level, and the end of the game. Whatever is drawn at random comes
//! in as plain numbers, so that a tick is a function of its arguments.

use vstd::prelude::*;
use crate::boss::{ATTACK_STATES, Boss};
use crate::bullet::Bullet;
use crate::enemy::Enemy;
use crate::geometry::Vec2;
use crate::health::remaining;
use crate::hexagonal::HexagonEnemy;
use crate::player::{Input, Player, PlayerView, all_advanced};
use crate::pruning::{keep_unmarked, kept};
use crate::shop::Shop;
use crate::rng::random_below;
use crate::triangle::TriangleEnemy;

verus! {

/// Kills that raise the level.
pub const KILLS_PER_LEVEL: i32 = 30;

/// Chance, in percent per tick, that a new game tries to bring in an enemy.
pub const FIRST_SPAWN_RATE: u32 = 2;

/// What the chance of a new enemy grows by with each level, in percent.
pub const SPAWN_RATE_STEP: u32 = 1;

/// Width of the strip along which enemies appear.
pub const SPAWN_WIDTH: i64 = 1_500_000;

/// Height of the strip along which enemies appear.
pub const SPAWN_HEIGHT: i64 = 1_000_000;

#[derive(Clone, Copy, Debug, PartialEq, Eq, Structural)]
pub enum GameState {
    Playing,
    GameOver,
    Menu,
}

/// The numbers that decide whether, where and which enemy appears.
#[derive(Clone, Copy, Debug, PartialEq, Eq, Structural)]
pub struct SpawnDice {
    /// Below 100. An enemy is tried for if this is below the spawn rate.
    pub chance: u64,
    /// Below 4: top, right, bottom, left.
    pub side: u64,
    /// Below `SPAWN_WIDTH`: where along the top or the bottom.
    pub x: u64,
    /// Below `SPAWN_HEIGHT`: where along the left or the right.
    pub y: u64,
    /// Below 3: triangle, hexagon, boss.
    pub kind: u64,
    /// Below 10. A boss comes only on zero.
    pub boss: u64,
}

impl SpawnDice {
    pub open spec fn wf(self) -> bool {
        &&& self.chance < 100
        &&& self.side < 4
        &&& self.x < SPAWN_WIDTH
        &&& self.y < SPAWN_HEIGHT
        &&& self.kind < 3
        &&& self.boss < 10
    }

    /// The point on the edge of the spawn strip that the dice name.
    pub open spec fn place(self) -> Vec2 {
        if self.side == 0 {
            Vec2 { x: self.x as i64, y: 0 }
        } else if self.side == 1 {
            Vec2 { x: SPAWN_WIDTH, y: self.y as i64 }
        } else if self.side == 2 {
            Vec2 { x: self.x as i64, y: SPAWN_HEIGHT }
        } else {
            Vec2 { x: 0, y: self.y as i64 }
        }
    }

    /// The point on the edge of the spawn strip that the dice name.
    pub fn position(&self) -> (p: Vec2)
        requires
            self.wf(),
        ensures
            p == self.place(),
            0 <= p.x <= SPAWN_WIDTH,
            0 <= p.y <= SPAWN_HEIGHT,
    {
        if self.side == 0 {
            Vec2 { x: self.x as i64, y: 0 }
        } else if self.side == 1 {
            Vec2 { x: SPAWN_WIDTH, y: self.y as i64 }
        } else if self.side == 2 {
            Vec2 { x: self.x as i64, y: SPAWN_HEIGHT }
        } else {
            Vec2 { x: 0, y: self.y as i64 }
        }
    }

    /// Dice drawn at random.
    pub fn roll() -> (dice: SpawnDice)
        ensures
            dice.wf(),
    {
        SpawnDice {
            chance: random_below(100),
            side: random_below(4),
            x: random_below(SPAWN_WIDTH as u64),
            y: random_below(SPAWN_HEIGHT as u64),
            kind: random_below(3),
            boss: random_below(10),
        }
    }
}

pub struct Game {
    pub player: Player,
    pub shop: Shop,
    pub enemies: Vec<Enemy>,
    /// The projectiles that enemies have fired.
    pub bullets: Vec<Bullet>,
    /// Whether a boss is alive.
    pub is_boss: bool,
    pub level: i32,
    /// Kills since the level last rose.
    pub killed_enemies: i32,
    /// Chance per tick of trying for a new enemy, in percent.
    pub spawn_rate: u32,
    pub game_state: GameState,
}

/// A world as a mathematical value.
pub struct GameView {
    pub player: PlayerView,
    pub shop: Shop,
    pub enemies: Seq<Enemy>,
    pub bullets: Seq<Bullet>,
    pub is_boss: bool,
    pub level: i32,
    pub killed_enemies: i32,
    pub spawn_rate: u32,
    pub game_state: GameState,
}

impl View for Game {
    type V = GameView;

    open spec fn view(&self) -> GameView {
        GameView {
            player: self.player@,
            shop: self.shop,
            enemies: self.enemies@,
            bullets: self.bullets@,
            is_boss: self.is_boss,
            level: self.level,
            killed_enemies: self.killed_enemies,
            spawn_rate: self.spawn_rate,
            game_state: self.game_state,
        }
    }
}

/// What the first `j` of the player's projectiles `shots` do to the enemy
/// `e`: the enemy afterwards, the projectiles used up so far, and whether
/// the enemy's health was brought to zero. A projectile that is used up
/// already passes through; one that touches the enemy deals its damage
/// and is used up, also where the enemy has no health left.
pub open spec fn barrage(e: Enemy, shots: Seq<Bullet>, spent: Seq<bool>, j: nat) -> (
    Enemy,
    Seq<bool>,
    bool,
)
    decreases j,
{
    if j == 0 {
        (e, spent, false)
    } else {
        let (e1, spent1, felled1) = barrage(e, shots, spent, (j - 1) as nat);
        let shot = shots[j - 1];
        if !spent1[j - 1] && shot.touches(e1.pos()) {
            let e2 = e1.damaged(shot.damage);
            (e2, spent1.update(j - 1, true), felled1 || e2.hp() == 0)
        } else {
            (e1, spent1, felled1)
        }
    }
}

/// Whether every hit of `shots` on `e` leaves a health within the
/// machine's range.
pub open spec fn can_barrage(e: Enemy, shots: Seq<Bullet>, spent: Seq<bool>) -> bool {
    forall|j: nat|
        j < shots.len() ==> {
            let met = #[trigger] barrage(e, shots, spent, j);
            !met.1[j as int] && shots[j as int].touches(met.0.pos()) ==> met.0.hp() - shots[j as int].damage
                <= i32::MAX
        }
}

/// The player's health after the first `k` of the projectiles `pool` have
/// each, in their order, dealt their damage if they touch the player.
pub open spec fn struck(hp: i32, pool: Seq<Bullet>, player_pos: Vec2, k: nat) -> i32
    decreases k,
{
    if k == 0 {
        hp
    } else {
        let before = struck(hp, pool, player_pos, (k - 1) as nat);
        if pool[k - 1].touches(player_pos) {
            remaining(before as int, pool[k - 1].damage as int) as i32
        } else {
            before
        }
    }
}

/// Whether every hit of `pool` on a player with `hp` at `player_pos`
/// leaves a health within the machine's range.
pub open spec fn can_strike(hp: i32, pool: Seq<Bullet>, player_pos: Vec2) -> bool {
    forall|k: int|
        0 <= k < pool.len() && (#[trigger] pool[k]).touches(player_pos) ==> struck(
            hp,
            pool,
            player_pos,
            k as nat,
        ) - pool[k].damage <= i32::MAX
}

/// For each projectile of `pool`, whether it is used up on a player at
/// `player_pos` or has left the play field.
pub open spec fn hit_or_gone(pool: Seq<Bullet>, player_pos: Vec2) -> Seq<bool> {
    Seq::new(pool.len(), |i: int| pool[i].touches(player_pos) || pool[i].off_screen())
}

/// For each of the player's projectiles, whether it is used up or has
/// left the play field.
pub open spec fn spent_or_gone(shots: Seq<Bullet>, spent: Seq<bool>) -> Seq<bool> {
    Seq::new(shots.len(), |j: int| spent[j] || shots[j].off_screen())
}

impl GameView {
    /// The world after the purchases that `input` asks for, in the order
    /// health, damage, speed, fire rate.
    pub open spec fn shopped(self, input: Input) -> GameView {
        let a = if input.buy_health {
            self.shop.health_bought(self.player)
        } else {
            (self.shop, self.player)
        };
        let b = if input.buy_damage {
            a.0.damage_bought(a.1)
        } else {
            a
        };
        let c = if input.buy_speed {
            b.0.speed_bought(b.1)
        } else {
            b
        };
        let d = if input.buy_fire_rate {
            c.0.fire_rate_bought(c.1)
        } else {
            c
        };
        GameView { shop: d.0, player: d.1, ..self }
    }

    /// Whether the purchases that `input` asks for stay within the
    /// machine's range.
    pub open spec fn can_shop(self, input: Input) -> bool {
        let a = if input.buy_health {
            self.shop.health_bought(self.player)
        } else {
            (self.shop, self.player)
        };
        let b = if input.buy_damage {
            a.0.damage_bought(a.1)
        } else {
            a
        };
        let c = if input.buy_speed {
            b.0.speed_bought(b.1)
        } else {
            b
        };
        &&& input.buy_health ==> self.shop.can_sell_health(self.player)
        &&& input.buy_damage ==> a.0.can_sell_damage(a.1)
        &&& input.buy_speed ==> b.0.can_sell_speed(b.1)
        &&& input.buy_fire_rate ==> c.0.can_sell_fire_rate(c.1)
    }

    /// The world after enemy `i` had its turn: it is updated, hurts a
    /// player whom it touches, and meets the player's projectiles. With
    /// it come the projectiles used up so far and whether the enemy fell.
    /// An enemy that fell pays its bounty, counts as a kill and, if it is
    /// a boss, leaves its place to the next boss.
    pub open spec fn engaged(self, i: int, now: u64, dt: u64, roll: u64, spent: Seq<bool>) -> (
        GameView,
        Seq<bool>,
        bool,
    ) {
        let at = self.player.player_pos;
        let (e1, sent) = self.enemies[i].updated(at, now, dt, roll);
        let hp = if e1.touches(at) {
            remaining(self.player.hp as int, e1.damage() as int) as i32
        } else {
            self.player.hp
        };
        let (e2, spent2, felled) = barrage(
            e1,
            self.player.bullets,
            spent,
            self.player.bullets.len(),
        );
        let world = GameView {
            enemies: self.enemies.update(i, e2),
            bullets: self.bullets + sent,
            player: PlayerView {
                hp,
                points: if felled {
                    (self.player.points + e2.points()) as i32
                } else {
                    self.player.points
                },
                coins: if felled {
                    (self.player.coins + e2.coins()) as i32
                } else {
                    self.player.coins
                },
                ..self.player
            },
            killed_enemies: if felled {
                (self.killed_enemies + 1) as i32
            } else {
                self.killed_enemies
            },
            is_boss: if felled && e2 is Boss {
                false
            } else {
                self.is_boss
            },
            ..self
        };
        (world, spent2, felled)
    }

    /// Whether the turn of enemy `i` stays within the machine's range.
    pub open spec fn can_engage(self, i: int, now: u64, dt: u64, roll: u64, spent: Seq<bool>) -> bool {
        let at = self.player.player_pos;
        let e1 = self.enemies[i].updated(at, now, dt, roll).0;
        let shots = self.player.bullets;
        let met = barrage(e1, shots, spent, shots.len());
        &&& self.enemies[i].can_update(at, now, dt)
        &&& e1.touches(at) ==> self.player.hp - e1.damage() <= i32::MAX
        &&& can_barrage(e1, shots, spent)
        &&& met.2 ==> {
            &&& i32::MIN <= self.player.points + met.0.points() <= i32::MAX
            &&& i32::MIN <= self.player.coins + met.0.coins() <= i32::MAX
            &&& self.killed_enemies + 1 <= i32::MAX
        }
    }

    /// Whether the turns of the first `k` enemies stay within the
    /// machine's range.
    pub open spec fn can_fight(self, now: u64, dt: u64, moves: Seq<u64>, k: nat) -> bool {
        forall|i: nat|
            i < k ==> {
                let so_far = #[trigger] self.fought(now, dt, moves, i);
                so_far.0.can_engage(i as int, now, dt, moves[i as int], so_far.1)
            }
    }

    /// The world after the first `k` enemies had their turns, the
    /// player's projectiles used up meanwhile, and for each of those
    /// enemies whether it fell. `moves[i]` is the draw of enemy `i`.
    pub open spec fn fought(self, now: u64, dt: u64, moves: Seq<u64>, k: nat) -> (
        GameView,
        Seq<bool>,
        Seq<bool>,
    )
        decreases k,
    {
        if k == 0 {
            (self, Seq::new(self.player.bullets.len(), |j: int| false), Seq::empty())
        } else {
            let (world, spent, fallen) = self.fought(now, dt, moves, (k - 1) as nat);
            let (world2, spent2, felled) = world.engaged(k - 1, now, dt, moves[k - 1], spent);
            (world2, spent2, fallen.push(felled))
        }
    }

    /// The world after the enemies' projectiles have advanced and those
    /// that touch the player have dealt their damage.
    pub open spec fn shelled(self) -> GameView {
        let pool = all_advanced(self.bullets);
        GameView {
            bullets: pool,
            player: PlayerView {
                hp: struck(self.player.hp, pool, self.player.player_pos, pool.len()),
                ..self.player
            },
            ..self
        }
    }

    /// Whether the enemies' projectiles can advance and strike within the
    /// machine's range.
    pub open spec fn can_shell(self) -> bool {
        &&& crate::player::all_can_advance(self.bullets)
        &&& can_strike(self.player.hp, all_advanced(self.bullets), self.player.player_pos)
    }

    /// The world without the enemies that fell, without the enemies'
    /// projectiles that hit the player or left the field, and without the
    /// player's projectiles that were used up or left the field.
    pub open spec fn pruned(self, spent: Seq<bool>, fallen: Seq<bool>) -> GameView {
        GameView {
            enemies: kept(self.enemies, fallen),
            bullets: kept(self.bullets, hit_or_gone(self.bullets, self.player.player_pos)),
            player: PlayerView {
                bullets: kept(self.player.bullets, spent_or_gone(self.player.bullets, spent)),
                ..self.player
            },
            ..self
        }
    }

    /// The world after the enemy that `dice` names has appeared: a
    /// triangle, a hexagon, or a boss, which comes only while no boss is
    /// alive and only on a boss draw of zero.
    pub open spec fn spawned(self, dice: SpawnDice) -> GameView {
        if dice.kind == 0 {
            GameView {
                enemies: self.enemies.push(
                    Enemy::Triangle(TriangleEnemy::spawned(dice.place(), self.level)),
                ),
                ..self
            }
        } else if dice.kind == 1 {
            GameView {
                enemies: self.enemies.push(
                    Enemy::Hexagon(HexagonEnemy::spawned(dice.place(), self.level)),
                ),
                ..self
            }
        } else if !self.is_boss && dice.boss == 0 {
            GameView {
                enemies: self.enemies.push(Enemy::Boss(Boss::spawned(dice.place(), self.level))),
                is_boss: true,
                ..self
            }
        } else {
            self
        }
    }

    /// Whether the stats of the enemy that `dice` names are machine numbers.
    pub open spec fn can_spawn(self, dice: SpawnDice) -> bool {
        if dice.kind == 0 {
            i32::MIN <= 50 * self.level <= i32::MAX
        } else if dice.kind == 1 {
            i32::MIN <= 100 * self.level <= i32::MAX
        } else {
            !self.is_boss && dice.boss == 0 ==> 0 <= 1000 * self.level <= i32::MAX
        }
    }

    /// The world after the spawn phase: an enemy is tried for when the
    /// chance draw is below the spawn rate.
    pub open spec fn populated(self, dice: SpawnDice) -> GameView {
        if dice.chance < self.spawn_rate {
            self.spawned(dice)
        } else {
            self
        }
    }

    /// The world after the level check: at `KILLS_PER_LEVEL` kills the
    /// level rises by one, the kills start again at zero and enemies come
    /// more often.
    pub open spec fn leveled(self) -> GameView {
        if self.killed_enemies >= KILLS_PER_LEVEL {
            GameView {
                level: (self.level + 1) as i32,
                killed_enemies: 0,
                spawn_rate: (self.spawn_rate + SPAWN_RATE_STEP) as u32,
                ..self
            }
        } else {
            self
        }
    }

    /// The world at the end of a tick: the game is over once the player
    /// has no health left.
    pub open spec fn judged(self) -> GameView {
        if self.player.hp <= 0 {
            GameView { game_state: GameState::GameOver, ..self }
        } else {
            self
        }
    }

    /// Whether a new enemy and the level check stay within the machine's
    /// range.
    pub open spec fn can_populate(self, dice: SpawnDice) -> bool {
        &&& dice.chance < self.spawn_rate ==> self.can_spawn(dice)
        &&& self.killed_enemies >= KILLS_PER_LEVEL ==> self.level < i32::MAX && self.spawn_rate
            < u32::MAX
    }

    /// Whether one tick of a game that is being played stays within the
    /// machine's range: no health, bounty, price, time or coordinate that
    /// comes up on the way leaves it.
    pub open spec fn can_play(
        self,
        input: Input,
        now: u64,
        dt: u64,
        moves: Seq<u64>,
        dice: SpawnDice,
    ) -> bool {
        let bought = self.shopped(input);
        let steered = GameView { player: bought.player.updated(input, now), ..bought };
        let met = steered.fought(now, dt, moves, steered.enemies.len());
        &&& self.can_shop(input)
        &&& bought.player.can_update(input, now)
        &&& steered.can_fight(now, dt, moves, steered.enemies.len())
        &&& met.0.can_shell()
        &&& met.0.shelled().pruned(met.1, met.2).can_populate(dice)
    }

    /// Whether the draws are in range: one below `ATTACK_STATES` for each
    /// enemy, and well-formed spawn dice.
    pub open spec fn fair(self, moves: Seq<u64>, dice: SpawnDice) -> bool {
        &&& moves.len() == self.enemies.len()
        &&& forall|i: int| 0 <= i < moves.len() ==> moves[i] < ATTACK_STATES
        &&& dice.wf()
    }

    /// Whether one tick stays within the machine's range.
    pub open spec fn can_step(
        self,
        input: Input,
        now: u64,
        dt: u64,
        moves: Seq<u64>,
        dice: SpawnDice,
    ) -> bool {
        self.game_state == GameState::Playing ==> self.can_play(input, now, dt, moves, dice)
    }

    /// One tick of a game that is being played.
    pub open spec fn played(
        self,
        input: Input,
        now: u64,
        dt: u64,
        moves: Seq<u64>,
        dice: SpawnDice,
    ) -> GameView {
        let bought = self.shopped(input);
        let steered = GameView { player: bought.player.updated(input, now), ..bought };
        let (met, spent, fallen) = steered.fought(now, dt, moves, steered.enemies.len());
        met.shelled().pruned(spent, fallen).populated(dice).leveled().judged()
    }

    /// One tick. In the menu only the start key does anything; once the
    /// game is over nothing does.
    pub open spec fn stepped(
        self,
        input: Input,
        now: u64,
        dt: u64,
        moves: Seq<u64>,
        dice: SpawnDice,
    ) -> GameView {
        match self.game_state {
            GameState::Menu => if input.start {
                GameView { game_state: GameState::Playing, ..self }
            } else {
                self
            },
            GameState::GameOver => self,
            GameState::Playing => self.played(input, now, dt, moves, dice),
        }
    }
}

/// Lets the player's projectiles `shots` that are not used up yet meet
/// `enemy`, marks in `spent` those that touch it, and says whether the
/// enemy's health was brought to zero.
pub fn volley(enemy: &mut Enemy, shots: &Vec<Bullet>, spent: &mut Vec<bool>) -> (felled: bool)
    requires
        old(spent).len() == shots.len(),
        can_barrage(*old(enemy), shots@, old(spent)@),
    ensures
        (*final(enemy), final(spent)@, felled) == barrage(
            *old(enemy),
            shots@,
            old(spent)@,
            shots@.len(),
        ),
        final(spent).len() == shots.len(),
{
    let m = shots.len();
    let mut felled = false;
    let mut j: usize = 0;
    while j < m
        invariant
            j <= m,
            m == shots.len(),
            spent.len() == m,
            can_barrage(*old(enemy), shots@, old(spent)@),
            (*enemy, spent@, felled) == barrage(*old(enemy), shots@, old(spent)@, j as nat),
        decreases m - j,
    {
        if !spent[j] {
            if shots[j].check_collision_with_enemy(enemy) {
                if shots[j].apply_damage_to_enemy(enemy) == 0 {
                    felled = true;
                }
                spent.set(j, true);
            }
        }
        j += 1;
    }
    felled
}

/// One draw below `ATTACK_STATES` for each of `n` enemies.
pub fn roll_moves(n: usize) -> (moves: Vec<u64>)
    ensures
        moves.len() == n,
        forall|i: int| 0 <= i < n ==> moves@[i] < ATTACK_STATES,
{
    let mut moves: Vec<u64> = Vec::new();
    let mut i: usize = 0;
    while i < n
        invariant
            i <= n,
            moves.len() == i,
            forall|k: int| 0 <= k < i ==> moves@[k] < ATTACK_STATES,
        decreases n - i,
    {
        moves.push(random_below(ATTACK_STATES));
        i += 1;
    }
    moves
}

impl Game {
    /// A new game in the menu, on level one, with no enemy yet.
    pub fn new(now: u64) -> (g: Game)
        ensures
            g@ == (GameView {
                player: Player::new_view(now),
                shop: Shop::new_spec(),
                enemies: Seq::empty(),
                bullets: Seq::empty(),
                is_boss: false,
                level: 1,
                killed_enemies: 0,
                spawn_rate: FIRST_SPAWN_RATE,
                game_state: GameState::Menu,
            }),
    {
        Game {
            player: Player::new(now),
            shop: Shop::new(),
            enemies: Vec::new(),
            bullets: Vec::new(),
            is_boss: false,
            level: 1,
            killed_enemies: 0,
            spawn_rate: FIRST_SPAWN_RATE,
            game_state: GameState::Menu,
        }
    }

    /// Brings in the enemy that `dice` names.
    pub fn spawn_enemy_with(&mut self, dice: &SpawnDice)
        requires
            dice.wf(),
            old(self)@.can_spawn(*dice),
        ensures
            final(self)@ == old(self)@.spawned(*dice),
    {
        let place = dice.position();
        if dice.kind == 0 {
            let enemy = TriangleEnemy::new(place, self.level);
            self.enemies.push(Enemy::Triangle(enemy));
        } else if dice.kind == 1 {
            let enemy = HexagonEnemy::new(place, self.level);
            self.enemies.push(Enemy::Hexagon(enemy));
        } else if !self.is_boss {
            if dice.boss == 0 {
                let enemy = Boss::new(place, self.level);
                self.enemies.push(Enemy::Boss(enemy));
                self.is_boss = true;
            }
        }
    }

    /// Brings in an enemy of a random kind at a random point of the edge.
    pub fn spawn_enemy(&mut self)
        requires
            0 <= 1000 * old(self).level <= i32::MAX,
        ensures
            exists|dice: SpawnDice| dice.wf() && final(self)@ == #[trigger] old(self)@.spawned(dice),
    {
        let dice = SpawnDice::roll();
        self.spawn_enemy_with(&dice);
    }

    /// The purchases that `input` asks for.
    pub fn handle_shop_buy(&mut self, input: &Input)
        requires
            old(self)@.can_shop(*input),
        ensures
            final(self)@ == old(self)@.shopped(*input),
    {
        if input.buy_health {
            self.shop.try_buy_health_upgrade(&mut self.player);
        }
        if input.buy_damage {
            self.shop.try_buy_damage_upgrade(&mut self.player);
        }
        if input.buy_speed {
            self.shop.try_buy_speed_upgrade(&mut self.player);
        }
        if input.buy_fire_rate {
            self.shop.try_buy_fire_rate_upgrade(&mut self.player);
        }
    }

    /// Raises the level once `KILLS_PER_LEVEL` kills are reached.
    pub fn check_level(&mut self)
        requires
            old(self).killed_enemies >= KILLS_PER_LEVEL ==> old(self).level < i32::MAX && old(
                self,
            ).spawn_rate < u32::MAX,
        ensures
            final(self)@ == old(self)@.leveled(),
    {
        if self.killed_enemies >= KILLS_PER_LEVEL {
            self.level += 1;
            self.killed_enemies = 0;
            self.spawn_rate += SPAWN_RATE_STEP;
        }
    }

    /// Advances the enemies' projectiles, lets those that touch the
    /// player deal their damage, and marks each that did so or that has
    /// left the play field.
    pub fn handle_player_bullet_logic(&mut self) -> (gone: Vec<bool>)
        requires
            old(self)@.can_shell(),
        ensures
            final(self)@ == old(self)@.shelled(),
            gone@ == hit_or_gone(final(self).bullets@, final(self).player.player_pos),
    {
        let mut gone: Vec<bool> = Vec::new();
        let n = self.bullets.len();
        let ghost pool = all_advanced(old(self).bullets@);
        let ghost at = self.player.player_pos;
        let mut i: usize = 0;
        while i < n
            invariant
                i <= n,
                n == self.bullets.len(),
                n == old(self).bullets.len(),
                pool == all_advanced(old(self).bullets@),
                at == old(self).player.player_pos,
                old(self)@.can_shell(),
                gone@.len() == i,
                forall|k: int| 0 <= k < i ==> self.bullets@[k] == pool[k],
                forall|k: int| i <= k < n ==> self.bullets@[k] == old(self).bullets@[k],
                forall|k: int| 0 <= k < i ==> gone@[k] == (pool[k].touches(at) || pool[k].off_screen()),
                self@ == (GameView {
                    bullets: self.bullets@,
                    player: PlayerView {
                        hp: struck(old(self).player.hp, pool, at, i as nat),
                        ..old(self).player@
                    },
                    ..old(self)@
                }),
            decreases n - i,
        {
            let mut bullet = self.bullets[i];
            bullet.update();
            assert(bullet == pool[i as int]);
            let mut mark = false;
            if bullet.check_collision_with_player(&self.player) {
                bullet.apply_damage(&mut self.player);
                mark = true;
            }
            if bullet.is_off_screen() {
                mark = true;
            }
            self.bullets.set(i, bullet);
            gone.push(mark);
            i += 1;
        }
        proof {
            assert(self.bullets@ =~= pool);
        }
        gone
    }

    /// The turn of enemy `i`: it is updated, hurts a player whom it
    /// touches, and meets the player's projectiles. Says whether it fell.
    pub fn engage(&mut self, i: usize, now: u64, dt: u64, roll: u64, spent: &mut Vec<bool>) -> (felled:
        bool)
        requires
            i < old(self).enemies.len(),
            roll < ATTACK_STATES,
            old(spent).len() == old(self).player.bullets.len(),
            old(self)@.can_engage(i as int, now, dt, roll, old(spent)@),
        ensures
            (final(self)@, final(spent)@, felled) == old(self)@.engaged(
                i as int,
                now,
                dt,
                roll,
                old(spent)@,
            ),
            final(self).enemies.len() == old(self).enemies.len(),
            final(self).player.bullets@ == old(self).player.bullets@,
            final(spent).len() == old(spent).len(),
    {
        let mut enemy = self.enemies[i];
        enemy.update_with(&self.player, now, dt, roll, &mut self.bullets);
        if enemy.check_collision(&self.player) {
            enemy.apply_damage(&mut self.player);
        }
        let felled = volley(&mut enemy, &self.player.bullets, spent);
        if felled {
            if enemy.is_boss() {
                self.is_boss = false;
            }
            self.killed_enemies += 1;
            self.player.points += enemy.get_points();
            self.player.coins += enemy.get_coins();
        }
        self.enemies.set(i, enemy);
        felled
    }

    /// The turns of all enemies. Returns, for each enemy, whether it
    /// fell, and for each of the player's projectiles, whether it was
    /// used up or has left the play field.
    pub fn handle_enemy_bullet_logic(&mut self, now: u64, dt: u64, moves: &Vec<u64>) -> (marks: (
        Vec<bool>,
        Vec<bool>,
    ))
        requires
            moves.len() == old(self).enemies.len(),
            forall|i: int| 0 <= i < moves.len() ==> moves@[i] < ATTACK_STATES,
            old(self)@.can_fight(now, dt, moves@, old(self).enemies@.len()),
        ensures
            final(self)@ == old(self)@.fought(now, dt, moves@, old(self).enemies@.len()).0,
            marks.0@ == old(self)@.fought(now, dt, moves@, old(self).enemies@.len()).2,
            marks.1@ == spent_or_gone(
                final(self).player.bullets@,
                old(self)@.fought(now, dt, moves@, old(self).enemies@.len()).1,
            ),
            final(self).player.bullets@ == old(self).player.bullets@,
            final(self).enemies.len() == old(self).enemies.len(),
            marks.0.len() == old(self).enemies.len(),
            marks.1.len() == old(self).player.bullets.len(),
    {
        let n = self.enemies.len();
        let m = self.player.bullets.len();
        let mut spent: Vec<bool> = Vec::new();
        let mut j: usize = 0;
        while j < m
            invariant
                j <= m,
                spent.len() == j,
                forall|k: int| 0 <= k < j ==> !spent@[k],
            decreases m - j,
        {
            spent.push(false);
            j += 1;
        }
        let mut fallen: Vec<bool> = Vec::new();
        let mut i: usize = 0;
        while i < n
            invariant
                i <= n,
                n == self.enemies.len(),
                n == old(self).enemies.len(),
                n == moves.len(),
                m == self.player.bullets.len(),
                spent.len() == m,
                self.player.bullets@ == old(self).player.bullets@,
                forall|k: int| 0 <= k < moves.len() ==> moves@[k] < ATTACK_STATES,
                old(self)@.can_fight(now, dt, moves@, n as nat),
                (self@, spent@, fallen@) == old(self)@.fought(now, dt, moves@, i as nat),
                fallen.len() == i,
            decreases n - i,
        {
            assert(old(self)@.fought(now, dt, moves@, i as nat).0.can_engage(
                i as int,
                now,
                dt,
                moves@[i as int],
                spent@,
            ));
            let felled = self.engage(i, now, dt, moves[i], &mut spent);
            fallen.push(felled);
            i += 1;
        }
        let mut gone: Vec<bool> = Vec::new();
        let mut j: usize = 0;
        while j < m
            invariant
                j <= m,
                m == self.player.bullets.len(),
                spent.len() == m,
                gone.len() == j,
                forall|k: int|
                    0 <= k < j ==> gone@[k] == (spent@[k] || self.player.bullets@[k].off_screen()),
            decreases m - j,
        {
            gone.push(spent[j] || self.player.bullets[j].is_off_screen());
            j += 1;
        }
        (fallen, gone)
    }

    /// One tick at time `now`, `dt` after the one before, with the draws
    /// given: `moves[i]` for the next state of enemy `i` if it is a boss,
    /// and `dice` for the enemy that may appear.
    pub fn update_with(&mut self, input: &Input, now: u64, dt: u64, moves: &Vec<u64>, dice: &SpawnDice)
        requires
            old(self)@.fair(moves@, *dice),
            old(self)@.can_step(*input, now, dt, moves@, *dice),
        ensures
            final(self)@ == old(self)@.stepped(*input, now, dt, moves@, *dice),
    {
        match self.game_state {
            GameState::Menu => {
                if input.start {
                    self.game_state = GameState::Playing;
                }
            },
            GameState::GameOver => {},
            GameState::Playing => {
                self.handle_shop_buy(input);
                self.player.update(input, now);
                let (fallen, spent) = self.handle_enemy_bullet_logic(now, dt, moves);
                let gone = self.handle_player_bullet_logic();
                self.player.bullets = keep_unmarked(&self.player.bullets, &spent);
                self.bullets = keep_unmarked(&self.bullets, &gone);
                self.enemies = keep_unmarked(&self.enemies, &fallen);
                if dice.chance < self.spawn_rate as u64 {
                    self.spawn_enemy_with(dice);
                }
                self.check_level();
                if self.player.is_dead() {
                    self.game_state = GameState::GameOver;
                }
            },
        }
    }

    /// One tick at time `now`, `dt` after the one before. What is left to
    /// chance is drawn at random.
    pub fn update(&mut self, input: &Input, now: u64, dt: u64)
        requires
            forall|moves: Seq<u64>, dice: SpawnDice|
                old(self)@.fair(moves, dice) ==> #[trigger] old(self)@.can_step(
                    *input,
                    now,
                    dt,
                    moves,
                    dice,
                ),
        ensures
            exists|moves: Seq<u64>, dice: SpawnDice|
                old(self)@.fair(moves, dice) && final(self)@ == #[trigger] old(self)@.stepped(
                    *input,
                    now,
                    dt,
                    moves,
                    dice,
                ),
    {
        let moves = roll_moves(self.enemies.len());
        let dice = SpawnDice::roll();
        self.update_with(input, now, dt, &moves, &dice);
    }
}

} // verus!
