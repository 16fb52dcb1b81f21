//! The ranged enemy: walks at the player and shoots at it now and then.

use vstd::prelude::*;
use crate::bullet::{Bullet, HITBOX_REACH, hitbox};
use crate::geometry::{Rect, Vec2};
use crate::health::{reduce, remaining};
use crate::player::Player;

verus! {

/// Side of the projectiles that a ranged enemy shoots.
pub const HEXAGON_BULLET_SIZE: i64 = 10_000;

#[derive(Clone, Copy, Debug, PartialEq, Eq, Structural)]
pub struct HexagonEnemy {
    pub size: i64,
    pub pos: Vec2,
    pub hp: i32,
    pub speed: i64,
    pub damage: i32,
    pub bullet_speed: i64,
    /// Time of the last shot, in milliseconds since the start.
    pub last_shot_time: u64,
    /// Time that must pass between two shots, in milliseconds.
    pub shoot_cooldown: u64,
    pub coins: i32,
    pub points: i32,
}

impl HexagonEnemy {
    /// The enemy that appears at `pos` while the game is on `level`.
    pub open spec fn spawned(pos: Vec2, level: i32) -> HexagonEnemy {
        HexagonEnemy {
            size: 62_500,
            pos,
            hp: (3 * level) as i32,
            speed: (1500 * level) as i64,
            damage: (2 * level) as i32,
            bullet_speed: (4000 * level) as i64,
            last_shot_time: 0,
            shoot_cooldown: 3500,
            coins: (100 * level) as i32,
            points: (50 * level) as i32,
        }
    }

    /// The enemy's collision box: a square of its own size whose corner
    /// lies `HITBOX_REACH` before its position.
    pub open spec fn body(self) -> Rect {
        Rect::square_spec(self.pos, HITBOX_REACH, self.size)
    }

    /// Whether the enemy touches a player who stands at `player_pos`.
    pub open spec fn touches(self, player_pos: Vec2) -> bool {
        self.body().overlaps_spec(hitbox(player_pos))
    }

    pub open spec fn moved(self, player_pos: Vec2) -> HexagonEnemy {
        HexagonEnemy { pos: self.pos.approached(player_pos, self.speed), ..self }
    }

    /// Whether more than the cooldown has passed since the last shot.
    pub open spec fn ready(self, now: u64) -> bool {
        now >= self.last_shot_time && now - self.last_shot_time > self.shoot_cooldown
    }

    /// The projectile that the enemy sends at `target`.
    pub open spec fn shot(self, target: Vec2) -> Bullet {
        Bullet::launched(self.pos, target, self.bullet_speed, self.damage, HEXAGON_BULLET_SIZE)
    }

    /// The enemy one tick later, at time `now` with the player at
    /// `player_pos`, and the projectiles that it sends off meanwhile: after
    /// its step, one at the player if the cooldown has passed.
    pub open spec fn updated(self, player_pos: Vec2, now: u64) -> (HexagonEnemy, Seq<Bullet>) {
        let moved = self.moved(player_pos);
        if moved.ready(now) {
            (HexagonEnemy { last_shot_time: now, ..moved }, seq![moved.shot(player_pos)])
        } else {
            (moved, Seq::empty())
        }
    }

    /// Whether one tick at time `now` with the player at `player_pos`
    /// stays within the machine's range.
    pub open spec fn can_update(self, player_pos: Vec2, now: u64) -> bool {
        let moved = self.moved(player_pos);
        &&& self.pos.can_approach(player_pos, self.speed)
        &&& moved.ready(now) ==> moved.pos.can_reach(player_pos) && self.bullet_speed > i64::MIN
    }

    pub open spec fn damaged(self, damage: i32) -> HexagonEnemy {
        HexagonEnemy { hp: remaining(self.hp as int, damage as int) as i32, ..self }
    }

    pub fn new(pos: Vec2, level: i32) -> (e: HexagonEnemy)
        requires
            i32::MIN <= 100 * level <= i32::MAX,
        ensures
            e == Self::spawned(pos, level),
    {
        HexagonEnemy {
            size: 62_500,
            pos,
            hp: 3 * level,
            speed: 1500 * (level as i64),
            damage: 2 * level,
            bullet_speed: 4000 * (level as i64),
            last_shot_time: 0,
            shoot_cooldown: 3500,
            coins: 100 * level,
            points: 50 * level,
        }
    }

    fn move_towards_player(&mut self, player_pos: &Vec2)
        requires
            old(self).pos.can_approach(*player_pos, old(self).speed),
        ensures
            *final(self) == old(self).moved(*player_pos),
    {
        self.pos = self.pos.step_toward(*player_pos, self.speed);
    }

    /// One projectile from the enemy's position toward `target`.
    fn shoot(&self, target: Vec2) -> (bullets: Vec<Bullet>)
        requires
            self.pos.can_reach(target),
            self.bullet_speed > i64::MIN,
        ensures
            bullets@ == seq![self.shot(target)],
    {
        let mut bullets = Vec::new();
        let bullet = Bullet::new(
            self.pos,
            target,
            self.bullet_speed,
            self.damage,
            HEXAGON_BULLET_SIZE,
        );
        bullets.push(bullet);
        bullets
    }

    /// One tick at time `now`: a step toward the player, then a shot at
    /// the player if the cooldown has passed. The shot joins `game_bullets`.
    pub fn update(&mut self, player: &Player, now: u64, game_bullets: &mut Vec<Bullet>)
        requires
            old(self).can_update(player.player_pos, now),
        ensures
            *final(self) == old(self).updated(player.player_pos, now).0,
            final(game_bullets)@ == old(game_bullets)@ + old(self).updated(player.player_pos, now).1,
    {
        self.move_towards_player(&player.player_pos);
        if now >= self.last_shot_time && now - self.last_shot_time > self.shoot_cooldown {
            let mut bullets = self.shoot(player.player_pos);
            game_bullets.append(&mut bullets);
            self.last_shot_time = now;
        }
    }

    pub fn check_collision(&self, player: &Player) -> (hit: bool)
        ensures
            hit == self.touches(player.player_pos),
    {
        let enemy_rect = Rect::square(self.pos, HITBOX_REACH, self.size);
        let player_rect = Rect::square(player.player_pos, HITBOX_REACH, crate::bullet::HITBOX_SIZE);
        enemy_rect.overlaps(&player_rect)
    }

    /// Deals the enemy's contact damage to the player.
    pub fn apply_damage(&self, player: &mut Player)
        requires
            old(player).hp - self.damage <= i32::MAX,
        ensures
            final(player)@ == old(player)@.damaged(self.damage),
    {
        player.take_damage(self.damage);
    }

    /// Takes `damage` from the enemy's health, which stops at zero, and
    /// returns what is left.
    pub fn take_damage(&mut self, damage: i32) -> (left: i32)
        requires
            old(self).hp - damage <= i32::MAX,
        ensures
            *final(self) == old(self).damaged(damage),
            left == final(self).hp,
            left == remaining(old(self).hp as int, damage as int),
            left >= 0,
    {
        self.hp = reduce(self.hp, damage);
        self.hp
    }

    pub fn get_pos(&self) -> (pos: &Vec2)
        ensures
            *pos == self.pos,
    {
        &self.pos
    }

    pub fn get_hp(&self) -> (hp: i32)
        ensures
            hp == self.hp,
    {
        self.hp
    }

    pub fn get_coins(&self) -> (coins: i32)
        ensures
            coins == self.coins,
    {
        self.coins
    }

    pub fn get_points(&self) -> (points: i32)
        ensures
            points == self.points,
    {
        self.points
    }

    pub fn get_size(&self) -> (size: i64)
        ensures
            size == self.size,
    {
        self.size
    }
}

} // verus!
