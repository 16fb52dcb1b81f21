//! The fast, weak enemy that only runs at the player.

use vstd::prelude::*;
use crate::bullet::{HITBOX_REACH, hitbox};
use crate::geometry::{Rect, Vec2};
use crate::health::{reduce, remaining};
use crate::player::Player;

verus! {

#[derive(Clone, Copy, Debug, PartialEq, Eq, Structural)]
pub struct TriangleEnemy {
    pub size: i64,
    pub pos: Vec2,
    pub hp: i32,
    pub speed: i64,
    pub damage: i32,
    pub coins: i32,
    pub points: i32,
}

impl TriangleEnemy {
    /// The enemy that appears at `pos` while the game is on `level`.
    pub open spec fn spawned(pos: Vec2, level: i32) -> TriangleEnemy {
        TriangleEnemy {
            size: 30_000,
            pos,
            hp: level,
            speed: (3000 * level) as i64,
            damage: level,
            coins: (50 * level) as i32,
            points: (10 * level) as i32,
        }
    }

    /// The enemy's collision box: a square of its own size whose corner
    /// lies `HITBOX_REACH` before its position.
    pub open spec fn body(self) -> Rect {
        Rect::square_spec(self.pos, HITBOX_REACH, self.size)
    }

    /// Whether the enemy touches a player who stands at `player_pos`.
    pub open spec fn touches(self, player_pos: Vec2) -> bool {
        self.body().overlaps_spec(hitbox(player_pos))
    }

    /// The enemy one tick later, with the player at `player_pos`.
    pub open spec fn updated(self, player_pos: Vec2) -> TriangleEnemy {
        TriangleEnemy { pos: self.pos.approached(player_pos, self.speed), ..self }
    }

    pub open spec fn damaged(self, damage: i32) -> TriangleEnemy {
        TriangleEnemy { hp: remaining(self.hp as int, damage as int) as i32, ..self }
    }

    pub fn new(pos: Vec2, level: i32) -> (e: TriangleEnemy)
        requires
            i32::MIN <= 50 * level <= i32::MAX,
        ensures
            e == Self::spawned(pos, level),
    {
        TriangleEnemy {
            size: 30_000,
            pos,
            hp: level,
            speed: 3000 * (level as i64),
            damage: level,
            coins: 50 * level,
            points: 10 * level,
        }
    }

    fn move_towards_player(&mut self, player_pos: &Vec2)
        requires
            old(self).pos.can_approach(*player_pos, old(self).speed),
        ensures
            *final(self) == old(self).updated(*player_pos),
    {
        self.pos = self.pos.step_toward(*player_pos, self.speed);
    }

    /// One tick: a step toward the player.
    pub fn update(&mut self, player: &Player)
        requires
            old(self).pos.can_approach(player.player_pos, old(self).speed),
        ensures
            *final(self) == old(self).updated(player.player_pos),
    {
        self.move_towards_player(&player.player_pos);
    }

    pub fn check_collision(&self, player: &Player) -> (hit: bool)
        ensures
            hit == self.touches(player.player_pos),
    {
        let enemy_rect = Rect::square(self.pos, HITBOX_REACH, self.size);
        let player_rect = Rect::square(player.player_pos, HITBOX_REACH, crate::bullet::HITBOX_SIZE);
        enemy_rect.overlaps(&player_rect)
    }

    /// Deals the enemy's contact damage to the player.
    pub fn apply_damage(&self, player: &mut Player)
        requires
            old(player).hp - self.damage <= i32::MAX,
        ensures
            final(player)@ == old(player)@.damaged(self.damage),
    {
        player.take_damage(self.damage);
    }

    /// Takes `damage` from the enemy's health, which stops at zero, and
    /// returns what is left.
    pub fn take_damage(&mut self, damage: i32) -> (left: i32)
        requires
            old(self).hp - damage <= i32::MAX,
        ensures
            *final(self) == old(self).damaged(damage),
            left == final(self).hp,
            left == remaining(old(self).hp as int, damage as int),
            left >= 0,
    {
        self.hp = reduce(self.hp, damage);
        self.hp
    }

    pub fn get_pos(&self) -> (pos: &Vec2)
        ensures
            *pos == self.pos,
    {
        &self.pos
    }

    pub fn get_hp(&self) -> (hp: i32)
        ensures
            hp == self.hp,
    {
        self.hp
    }

    pub fn get_coins(&self) -> (coins: i32)
        ensures
            coins == self.coins,
    {
        self.coins
    }

    pub fn get_points(&self) -> (points: i32)
        ensures
            points == self.points,
    {
        self.points
    }

    pub fn get_size(&self) -> (size: i64)
        ensures
            size == self.size,
    {
        self.size
    }
}

} // verus!
