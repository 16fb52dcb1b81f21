//! The boss and its attack patterns.
//!
//! A boss walks at the player and, tick by tick, tries the attack of its
//! current state and then draws the state of the next tick. All attacks
//! share one timer: an attack comes off only once the timer has reached
//! the cooldown, and then winds the timer back to zero.

use vstd::prelude::*;
use crate::bullet::{Bullet, HITBOX_SIZE, hitbox};
use crate::circle::{circle_heading, heading};
use crate::geometry::{Rect, UNIT, Vec2};
use crate::health::{reduce, remaining};
use crate::player::Player;
use crate::rng::random_below;

verus! {

/// Distance from a boss's position to the corner of its collision box.
pub const BOSS_REACH: i64 = 25_000;

/// Side of the projectiles of the spread and of the circle.
pub const BOSS_BULLET_SIZE: i64 = 20_000;

/// Side of the one big projectile.
pub const BIG_BULLET_SIZE: i64 = 50_000;

/// Number of attack states that a boss draws from.
pub const ATTACK_STATES: u64 = 3;

#[derive(Clone, Copy, Debug, PartialEq, Eq, Structural)]
pub enum BossState {
    Idle,
    AttackNormal,
    AttackCircle,
    AttackMachine,
}

impl BossState {
    /// The attack state that the draw `roll` stands for.
    pub open spec fn picked(roll: u64) -> BossState {
        if roll == 0 {
            BossState::AttackNormal
        } else if roll == 1 {
            BossState::AttackCircle
        } else {
            BossState::AttackMachine
        }
    }

    /// The attack state that the draw `roll` stands for.
    pub fn from_roll(roll: u64) -> (state: BossState)
        requires
            roll < ATTACK_STATES,
        ensures
            state == Self::picked(roll),
            state != BossState::Idle,
    {
        if roll == 0 {
            BossState::AttackNormal
        } else if roll == 1 {
            BossState::AttackCircle
        } else {
            BossState::AttackMachine
        }
    }
}

#[derive(Clone, Copy, Debug, PartialEq, Eq, Structural)]
pub struct Boss {
    pub size: i64,
    pub pos: Vec2,
    pub hp: i32,
    pub max_hp: i32,
    pub speed: i64,
    pub damage: i32,
    pub bullet_speed: i64,
    /// Time that the timer must reach before an attack, in milliseconds.
    pub shoot_cooldown: u64,
    /// Time gathered since the last attack, in milliseconds.
    pub attack_timer: u64,
    pub current_state: BossState,
    pub coins: i32,
    pub points: i32,
    /// Number of projectiles of one circle.
    pub circle_bullets_count: usize,
}

/// The four headings of the spread: down, up, left, right.
pub open spec fn spread_heading(i: int) -> Vec2 {
    if i == 0 {
        Vec2 { x: 0, y: UNIT }
    } else if i == 1 {
        Vec2 { x: 0, y: (-UNIT) as i64 }
    } else if i == 2 {
        Vec2 { x: (-UNIT) as i64, y: 0 }
    } else {
        Vec2 { x: UNIT, y: 0 }
    }
}

impl Boss {
    /// The boss that appears at `pos` while the game is on `level`.
    pub open spec fn spawned(pos: Vec2, level: i32) -> Boss {
        Boss {
            size: 50_000,
            pos,
            hp: (100 * level) as i32,
            max_hp: (100 * level) as i32,
            speed: 1000,
            damage: (8 * level) as i32,
            bullet_speed: (4000 * level) as i64,
            shoot_cooldown: 3000,
            attack_timer: 0,
            current_state: BossState::Idle,
            coins: (1000 * level) as i32,
            points: (100 * level) as i32,
            circle_bullets_count: (8 * level) as usize,
        }
    }

    /// The boss's collision box: a square of its own size around its position.
    pub open spec fn body(self) -> Rect {
        Rect::square_spec(self.pos, BOSS_REACH, self.size)
    }

    /// Whether the boss touches a player who stands at `player_pos`.
    pub open spec fn touches(self, player_pos: Vec2) -> bool {
        self.body().overlaps_spec(hitbox(player_pos))
    }

    pub open spec fn moved(self, player_pos: Vec2) -> Boss {
        Boss { pos: self.pos.approached(player_pos, self.speed), ..self }
    }

    /// Whether the timer reaches the cooldown once `dt` is added.
    pub open spec fn charged(self, dt: u64) -> bool {
        self.attack_timer + dt >= self.shoot_cooldown
    }

    /// The boss after `dt` went onto the timer: back at zero if that
    /// reached the cooldown.
    pub open spec fn wound(self, dt: u64) -> Boss {
        Boss {
            attack_timer: if self.charged(dt) {
                0
            } else {
                (self.attack_timer + dt) as u64
            },
            ..self
        }
    }

    /// Projectile `i` of the spread.
    pub open spec fn spread_shot(self, i: int) -> Bullet {
        Bullet::aimed(self.pos, spread_heading(i), self.bullet_speed, self.damage, BOSS_BULLET_SIZE)
    }

    /// The spread: one projectile along each axis direction.
    pub open spec fn spread(self) -> Seq<Bullet> {
        Seq::new(4, |i: int| self.spread_shot(i))
    }

    /// Projectile `i` of a circle of `n`.
    pub open spec fn circle_shot(self, i: int, n: int) -> Bullet {
        Bullet::aimed(
            self.pos,
            circle_heading(i, n),
            self.bullet_speed,
            self.damage,
            BOSS_BULLET_SIZE,
        )
    }

    /// The circle: `n` projectiles whose headings divide the full turn
    /// into `n` equal parts.
    pub open spec fn circle(self, n: nat) -> Seq<Bullet> {
        Seq::new(n, |i: int| self.circle_shot(i, n as int))
    }

    /// The big projectile: twice as fast and twice as harmful, at `target`.
    pub open spec fn big_shot(self, target: Vec2) -> Bullet {
        Bullet::launched(
            self.pos,
            target,
            (2 * self.bullet_speed) as i64,
            (2 * self.damage) as i32,
            BIG_BULLET_SIZE,
        )
    }

    /// What the attack of the current state sends off once the timer is
    /// charged.
    pub open spec fn volley(self, player_pos: Vec2) -> Seq<Bullet> {
        match self.current_state {
            BossState::Idle => Seq::empty(),
            BossState::AttackNormal => self.spread(),
            BossState::AttackCircle => self.circle(self.circle_bullets_count as nat),
            BossState::AttackMachine => seq![self.big_shot(player_pos)],
        }
    }

    /// The boss after the attempt at its current attack, with what the
    /// attempt sent off. An idle boss neither attacks nor gathers time.
    pub open spec fn attacked(self, player_pos: Vec2, dt: u64) -> (Boss, Seq<Bullet>) {
        if self.current_state == BossState::Idle {
            (self, Seq::empty())
        } else if self.charged(dt) {
            (self.wound(dt), self.volley(player_pos))
        } else {
            (self.wound(dt), Seq::empty())
        }
    }

    /// The boss one tick later and what it sent off meanwhile: a step
    /// toward the player, the attempt at the current attack, and then the
    /// state that `roll` picks.
    pub open spec fn updated(self, player_pos: Vec2, dt: u64, roll: u64) -> (Boss, Seq<Bullet>) {
        let (after, shots) = self.moved(player_pos).attacked(player_pos, dt);
        (Boss { current_state: BossState::picked(roll), ..after }, shots)
    }

    /// Whether the attempt at the current attack stays within the
    /// machine's range.
    pub open spec fn can_attack(self, player_pos: Vec2, dt: u64) -> bool {
        match self.current_state {
            BossState::Idle => true,
            BossState::AttackNormal => {
                &&& self.attack_timer + dt <= u64::MAX
                &&& self.charged(dt) ==> self.bullet_speed > i64::MIN
            },
            BossState::AttackCircle => {
                &&& self.attack_timer + dt <= u64::MAX
                &&& self.charged(dt) ==> self.bullet_speed > i64::MIN && self.circle_bullets_count
                    <= u32::MAX
            },
            BossState::AttackMachine => {
                &&& self.attack_timer + dt <= u64::MAX
                &&& self.charged(dt) ==> {
                    &&& self.pos.can_reach(player_pos)
                    &&& i64::MIN < 2 * self.bullet_speed <= i64::MAX
                    &&& i32::MIN <= 2 * self.damage <= i32::MAX
                }
            },
        }
    }

    /// Whether one tick with the player at `player_pos` stays within the
    /// machine's range.
    pub open spec fn can_update(self, player_pos: Vec2, dt: u64) -> bool {
        &&& self.pos.can_approach(player_pos, self.speed)
        &&& self.moved(player_pos).can_attack(player_pos, dt)
    }

    pub open spec fn damaged(self, damage: i32) -> Boss {
        Boss { hp: remaining(self.hp as int, damage as int) as i32, ..self }
    }

    /// After an attempt at an attack the timer is below the cooldown or
    /// back at zero, and nothing was sent off unless the timer was charged.
    /// No tick leaves a boss idle.
    pub proof fn lemma_attack_is_timed(self, player_pos: Vec2, dt: u64, roll: u64)
        requires
            self.attack_timer + dt <= u64::MAX,
        ensures
            self.wound(dt).attack_timer < self.shoot_cooldown || self.wound(dt).attack_timer == 0,
            !self.charged(dt) ==> self.attacked(player_pos, dt).1.len() == 0,
            self.charged(dt) && self.current_state == BossState::AttackNormal ==> self.attacked(
                player_pos,
                dt,
            ).1.len() == 4,
            self.charged(dt) && self.current_state == BossState::AttackCircle ==> self.attacked(
                player_pos,
                dt,
            ).1.len() == self.circle_bullets_count,
            self.charged(dt) && self.current_state == BossState::AttackMachine ==> self.attacked(
                player_pos,
                dt,
            ).1.len() == 1,
            self.updated(player_pos, dt, roll).0.current_state != BossState::Idle,
    {
    }

    pub fn new(pos: Vec2, level: i32) -> (b: Boss)
        requires
            0 <= 1000 * level <= i32::MAX,
        ensures
            b == Self::spawned(pos, level),
    {
        Boss {
            size: 50_000,
            pos,
            hp: 100 * level,
            max_hp: 100 * level,
            speed: 1000,
            damage: 8 * level,
            bullet_speed: 4000 * (level as i64),
            shoot_cooldown: 3000,
            attack_timer: 0,
            current_state: BossState::Idle,
            coins: 1000 * level,
            points: 100 * level,
            circle_bullets_count: 8 * (level as usize),
        }
    }

    /// Takes up the attack state that the draw `roll` stands for.
    pub fn choose_move(&mut self, roll: u64)
        requires
            roll < ATTACK_STATES,
        ensures
            *final(self) == (Boss { current_state: BossState::picked(roll), ..*old(self) }),
    {
        self.current_state = BossState::from_roll(roll);
    }

    /// Takes up one of the three attack states, drawn at random.
    pub fn choose_random_move(&mut self)
        ensures
            exists|roll: u64|
                roll < ATTACK_STATES && *final(self) == (Boss {
                    current_state: #[trigger] BossState::picked(roll),
                    ..*old(self)
                }),
            final(self).current_state != BossState::Idle,
    {
        let roll = random_below(ATTACK_STATES);
        self.choose_move(roll);
    }

    fn move_towards_player(&mut self, target: &Player)
        requires
            old(self).pos.can_approach(target.player_pos, old(self).speed),
        ensures
            *final(self) == old(self).moved(target.player_pos),
    {
        self.pos = self.pos.step_toward(target.player_pos, self.speed);
    }

    /// Adds `dt` to the timer and says whether it has reached the
    /// cooldown; if so the timer starts again at zero.
    fn wind_up(&mut self, dt: u64) -> (fire: bool)
        requires
            old(self).attack_timer + dt <= u64::MAX,
        ensures
            fire == old(self).charged(dt),
            *final(self) == old(self).wound(dt),
    {
        self.attack_timer = self.attack_timer + dt;
        if self.attack_timer >= self.shoot_cooldown {
            self.attack_timer = 0;
            true
        } else {
            false
        }
    }

    /// The spread, once the timer is charged: four projectiles, one along
    /// each axis direction.
    fn shoot_pattern(&mut self, dt: u64) -> (bullets: Vec<Bullet>)
        requires
            old(self).attack_timer + dt <= u64::MAX,
            old(self).charged(dt) ==> old(self).bullet_speed > i64::MIN,
        ensures
            *final(self) == old(self).wound(dt),
            bullets@ == if old(self).charged(dt) {
                old(self).spread()
            } else {
                Seq::<Bullet>::empty()
            },
    {
        let mut bullets = Vec::new();
        if self.wind_up(dt) {
            let headings = [
                Vec2 { x: 0, y: UNIT },
                Vec2 { x: 0, y: -UNIT },
                Vec2 { x: -UNIT, y: 0 },
                Vec2 { x: UNIT, y: 0 },
            ];
            let mut i: usize = 0;
            while i < 4
                invariant
                    i <= 4,
                    bullets@.len() == i,
                    self.bullet_speed > i64::MIN,
                    forall|k: int| 0 <= k < 4 ==> headings@[k] == spread_heading(k),
                    forall|k: int| 0 <= k < i ==> bullets@[k] == self.spread_shot(k),
                decreases 4 - i,
            {
                let bullet = Bullet::with_heading(
                    self.pos,
                    headings[i],
                    self.bullet_speed,
                    self.damage,
                    BOSS_BULLET_SIZE,
                );
                bullets.push(bullet);
                i += 1;
            }
        }
        bullets
    }

    /// The circle, once the timer is charged: `bullets_in_burst`
    /// projectiles whose headings divide the full turn evenly.
    fn shoot_pattern_circle(&mut self, dt: u64, bullets_in_burst: usize) -> (bullets: Vec<Bullet>)
        requires
            old(self).attack_timer + dt <= u64::MAX,
            old(self).charged(dt) ==> old(self).bullet_speed > i64::MIN && bullets_in_burst
                <= u32::MAX,
        ensures
            *final(self) == old(self).wound(dt),
            bullets@ == if old(self).charged(dt) {
                old(self).circle(bullets_in_burst as nat)
            } else {
                Seq::<Bullet>::empty()
            },
    {
        let mut bullets = Vec::new();
        if self.wind_up(dt) {
            let mut i: usize = 0;
            while i < bullets_in_burst
                invariant
                    i <= bullets_in_burst <= u32::MAX,
                    bullets@.len() == i,
                    self.bullet_speed > i64::MIN,
                    forall|k: int|
                        0 <= k < i ==> bullets@[k] == self.circle_shot(k, bullets_in_burst as int),
                decreases bullets_in_burst - i,
            {
                let bullet = Bullet::with_heading(
                    self.pos,
                    heading(i, bullets_in_burst),
                    self.bullet_speed,
                    self.damage,
                    BOSS_BULLET_SIZE,
                );
                bullets.push(bullet);
                i += 1;
            }
        }
        bullets
    }

    /// The big projectile at `target`, once the timer is charged.
    fn shoot_big_bullet(&mut self, dt: u64, target: Vec2) -> (bullets: Vec<Bullet>)
        requires
            old(self).attack_timer + dt <= u64::MAX,
            old(self).charged(dt) ==> {
                &&& old(self).pos.can_reach(target)
                &&& i64::MIN < 2 * old(self).bullet_speed <= i64::MAX
                &&& i32::MIN <= 2 * old(self).damage <= i32::MAX
            },
        ensures
            *final(self) == old(self).wound(dt),
            bullets@ == if old(self).charged(dt) {
                seq![old(self).big_shot(target)]
            } else {
                Seq::<Bullet>::empty()
            },
    {
        let mut bullets = Vec::new();
        if self.wind_up(dt) {
            let bullet = Bullet::new(
                self.pos,
                target,
                self.bullet_speed * 2,
                self.damage * 2,
                BIG_BULLET_SIZE,
            );
            bullets.push(bullet);
        }
        bullets
    }

    /// A step toward the player and the attempt at the current attack,
    /// whose projectiles join `game_bullets`.
    fn advance(&mut self, player: &Player, dt: u64, game_bullets: &mut Vec<Bullet>)
        requires
            old(self).can_update(player.player_pos, dt),
        ensures
            *final(self) == old(self).moved(player.player_pos).attacked(player.player_pos, dt).0,
            final(game_bullets)@ == old(game_bullets)@ + old(self).moved(
                player.player_pos,
            ).attacked(player.player_pos, dt).1,
    {
        self.move_towards_player(player);
        match self.current_state {
            BossState::AttackNormal => {
                let mut bullets = self.shoot_pattern(dt);
                game_bullets.append(&mut bullets);
            },
            BossState::AttackCircle => {
                let mut bullets = self.shoot_pattern_circle(dt, self.circle_bullets_count);
                game_bullets.append(&mut bullets);
            },
            BossState::AttackMachine => {
                let mut bullets = self.shoot_big_bullet(dt, player.player_pos);
                game_bullets.append(&mut bullets);
            },
            BossState::Idle => {},
        }
    }

    /// One tick in which `dt` milliseconds have passed, with `next_move`
    /// as the draw for the next state.
    pub fn update_with(
        &mut self,
        player: &Player,
        dt: u64,
        next_move: u64,
        game_bullets: &mut Vec<Bullet>,
    )
        requires
            old(self).can_update(player.player_pos, dt),
            next_move < ATTACK_STATES,
        ensures
            *final(self) == old(self).updated(player.player_pos, dt, next_move).0,
            final(game_bullets)@ == old(game_bullets)@ + old(self).updated(
                player.player_pos,
                dt,
                next_move,
            ).1,
    {
        self.advance(player, dt, game_bullets);
        self.choose_move(next_move);
    }

    /// One tick in which `dt` milliseconds have passed. The next state is
    /// drawn at random.
    pub fn update(&mut self, player: &Player, dt: u64, game_bullets: &mut Vec<Bullet>)
        requires
            old(self).can_update(player.player_pos, dt),
        ensures
            exists|roll: u64|
                roll < ATTACK_STATES && *final(self) == (#[trigger] old(self).updated(
                    player.player_pos,
                    dt,
                    roll,
                )).0 && final(game_bullets)@ == old(game_bullets)@ + old(self).updated(
                    player.player_pos,
                    dt,
                    roll,
                ).1,
            final(self).current_state != BossState::Idle,
    {
        let roll = random_below(ATTACK_STATES);
        self.update_with(player, dt, roll, game_bullets);
    }

    pub fn check_collision(&self, player: &Player) -> (hit: bool)
        ensures
            hit == self.touches(player.player_pos),
    {
        let enemy_rect = Rect::square(self.pos, BOSS_REACH, self.size);
        let player_rect = Rect::square(player.player_pos, crate::bullet::HITBOX_REACH, HITBOX_SIZE);
        enemy_rect.overlaps(&player_rect)
    }

    /// Deals the boss's contact damage to the player.
    pub fn apply_damage(&self, player: &mut Player)
        requires
            old(player).hp - self.damage <= i32::MAX,
        ensures
            final(player)@ == old(player)@.damaged(self.damage),
    {
        player.take_damage(self.damage);
    }

    /// Takes `damage` from the boss's health, which stops at zero, and
    /// returns what is left.
    pub fn take_damage(&mut self, damage: i32) -> (left: i32)
        requires
            old(self).hp - damage <= i32::MAX,
        ensures
            *final(self) == old(self).damaged(damage),
            left == final(self).hp,
            left == remaining(old(self).hp as int, damage as int),
            left >= 0,
    {
        self.hp = reduce(self.hp, damage);
        self.hp
    }

    pub fn is_boss(&self) -> (yes: bool)
        ensures
            yes,
    {
        true
    }

    pub fn get_pos(&self) -> (pos: &Vec2)
        ensures
            *pos == self.pos,
    {
        &self.pos
    }

    pub fn get_hp(&self) -> (hp: i32)
        ensures
            hp == self.hp,
    {
        self.hp
    }

    pub fn get_coins(&self) -> (coins: i32)
        ensures
            coins == self.coins,
    {
        self.coins
    }

    pub fn get_points(&self) -> (points: i32)
        ensures
            points == self.points,
    {
        self.points
    }

    pub fn get_size(&self) -> (size: i64)
        ensures
            size == self.size,
    {
        self.size
    }
}

} // verus!
