//! The three kinds of enemy behind one set of operations.

use vstd::prelude::*;
use crate::boss::{ATTACK_STATES, Boss};
use crate::bullet::Bullet;
use crate::geometry::Vec2;
use crate::health::remaining;
use crate::hexagonal::HexagonEnemy;
use crate::player::Player;
use crate::rng::random_below;
use crate::triangle::TriangleEnemy;

verus! {

#[derive(Clone, Copy, Debug, PartialEq, Eq, Structural)]
pub enum Enemy {
    Triangle(TriangleEnemy),
    Hexagon(HexagonEnemy),
    Boss(Boss),
}

impl Enemy {
    pub open spec fn pos(self) -> Vec2 {
        match self {
            Enemy::Triangle(e) => e.pos,
            Enemy::Hexagon(e) => e.pos,
            Enemy::Boss(e) => e.pos,
        }
    }

    pub open spec fn hp(self) -> i32 {
        match self {
            Enemy::Triangle(e) => e.hp,
            Enemy::Hexagon(e) => e.hp,
            Enemy::Boss(e) => e.hp,
        }
    }

    /// The contact damage.
    pub open spec fn damage(self) -> i32 {
        match self {
            Enemy::Triangle(e) => e.damage,
            Enemy::Hexagon(e) => e.damage,
            Enemy::Boss(e) => e.damage,
        }
    }

    pub open spec fn coins(self) -> i32 {
        match self {
            Enemy::Triangle(e) => e.coins,
            Enemy::Hexagon(e) => e.coins,
            Enemy::Boss(e) => e.coins,
        }
    }

    pub open spec fn points(self) -> i32 {
        match self {
            Enemy::Triangle(e) => e.points,
            Enemy::Hexagon(e) => e.points,
            Enemy::Boss(e) => e.points,
        }
    }

    /// Whether the enemy touches a player who stands at `player_pos`.
    pub open spec fn touches(self, player_pos: Vec2) -> bool {
        match self {
            Enemy::Triangle(e) => e.touches(player_pos),
            Enemy::Hexagon(e) => e.touches(player_pos),
            Enemy::Boss(e) => e.touches(player_pos),
        }
    }

    /// Whether one tick at time `now`, `dt` after the one before, with the
    /// player at `player_pos` stays within the machine's range.
    pub open spec fn can_update(self, player_pos: Vec2, now: u64, dt: u64) -> bool {
        match self {
            Enemy::Triangle(e) => e.pos.can_approach(player_pos, e.speed),
            Enemy::Hexagon(e) => e.can_update(player_pos, now),
            Enemy::Boss(e) => e.can_update(player_pos, dt),
        }
    }

    /// The enemy one tick later and the projectiles that it sent off
    /// meanwhile. The tick happens at time `now`, `dt` after the one
    /// before; `roll` is the draw for a boss's next state.
    pub open spec fn updated(self, player_pos: Vec2, now: u64, dt: u64, roll: u64) -> (
        Enemy,
        Seq<Bullet>,
    ) {
        match self {
            Enemy::Triangle(e) => (Enemy::Triangle(e.updated(player_pos)), Seq::empty()),
            Enemy::Hexagon(e) => (
                Enemy::Hexagon(e.updated(player_pos, now).0),
                e.updated(player_pos, now).1,
            ),
            Enemy::Boss(e) => (
                Enemy::Boss(e.updated(player_pos, dt, roll).0),
                e.updated(player_pos, dt, roll).1,
            ),
        }
    }

    pub open spec fn damaged(self, damage: i32) -> Enemy {
        match self {
            Enemy::Triangle(e) => Enemy::Triangle(e.damaged(damage)),
            Enemy::Hexagon(e) => Enemy::Hexagon(e.damaged(damage)),
            Enemy::Boss(e) => Enemy::Boss(e.damaged(damage)),
        }
    }

    /// One tick at time `now`, `dt` after the one before, with
    /// `next_move` as the draw for a boss's next state. New projectiles
    /// join `game_bullets`.
    pub fn update_with(
        &mut self,
        player: &Player,
        now: u64,
        dt: u64,
        next_move: u64,
        game_bullets: &mut Vec<Bullet>,
    )
        requires
            old(self).can_update(player.player_pos, now, dt),
            next_move < ATTACK_STATES,
        ensures
            *final(self) == old(self).updated(player.player_pos, now, dt, next_move).0,
            final(game_bullets)@ == old(game_bullets)@ + old(self).updated(
                player.player_pos,
                now,
                dt,
                next_move,
            ).1,
    {
        match self {
            Enemy::Triangle(e) => {
                e.update(player);
            },
            Enemy::Hexagon(e) => {
                e.update(player, now, game_bullets);
            },
            Enemy::Boss(e) => {
                e.update_with(player, dt, next_move, game_bullets);
            },
        }
    }

    /// One tick at time `now`, `dt` after the one before. A boss draws
    /// its next state at random.
    pub fn update(&mut self, player: &Player, now: u64, dt: u64, game_bullets: &mut Vec<Bullet>)
        requires
            old(self).can_update(player.player_pos, now, dt),
        ensures
            exists|roll: u64|
                roll < ATTACK_STATES && *final(self) == (#[trigger] old(self).updated(
                    player.player_pos,
                    now,
                    dt,
                    roll,
                )).0 && final(game_bullets)@ == old(game_bullets)@ + old(self).updated(
                    player.player_pos,
                    now,
                    dt,
                    roll,
                ).1,
    {
        let roll = if self.is_boss() {
            random_below(ATTACK_STATES)
        } else {
            0
        };
        self.update_with(player, now, dt, roll, game_bullets);
    }

    pub fn check_collision(&self, player: &Player) -> (hit: bool)
        ensures
            hit == self.touches(player.player_pos),
    {
        match self {
            Enemy::Triangle(e) => e.check_collision(player),
            Enemy::Hexagon(e) => e.check_collision(player),
            Enemy::Boss(e) => e.check_collision(player),
        }
    }

    /// Deals the enemy's contact damage to the player.
    pub fn apply_damage(&self, player: &mut Player)
        requires
            old(player).hp - self.damage() <= i32::MAX,
        ensures
            final(player)@ == old(player)@.damaged(self.damage()),
    {
        match self {
            Enemy::Triangle(e) => e.apply_damage(player),
            Enemy::Hexagon(e) => e.apply_damage(player),
            Enemy::Boss(e) => e.apply_damage(player),
        }
    }

    /// Takes `damage` from the enemy's health, which stops at zero, and
    /// returns what is left.
    pub fn take_damage(&mut self, damage: i32) -> (left: i32)
        requires
            old(self).hp() - damage <= i32::MAX,
        ensures
            *final(self) == old(self).damaged(damage),
            left == final(self).hp(),
            left == remaining(old(self).hp() as int, damage as int),
            left >= 0,
    {
        match self {
            Enemy::Triangle(e) => e.take_damage(damage),
            Enemy::Hexagon(e) => e.take_damage(damage),
            Enemy::Boss(e) => e.take_damage(damage),
        }
    }

    pub fn is_boss(&self) -> (yes: bool)
        ensures
            yes == (self is Boss),
    {
        match self {
            Enemy::Boss(e) => e.is_boss(),
            _ => false,
        }
    }

    pub fn get_pos(&self) -> (pos: &Vec2)
        ensures
            *pos == self.pos(),
    {
        match self {
            Enemy::Triangle(e) => e.get_pos(),
            Enemy::Hexagon(e) => e.get_pos(),
            Enemy::Boss(e) => e.get_pos(),
        }
    }

    pub fn get_hp(&self) -> (hp: i32)
        ensures
            hp == self.hp(),
    {
        match self {
            Enemy::Triangle(e) => e.get_hp(),
            Enemy::Hexagon(e) => e.get_hp(),
            Enemy::Boss(e) => e.get_hp(),
        }
    }

    pub fn get_coins(&self) -> (coins: i32)
        ensures
            coins == self.coins(),
    {
        match self {
            Enemy::Triangle(e) => e.get_coins(),
            Enemy::Hexagon(e) => e.get_coins(),
            Enemy::Boss(e) => e.get_coins(),
        }
    }

    pub fn get_points(&self) -> (points: i32)
        ensures
            points == self.points(),
    {
        match self {
            Enemy::Triangle(e) => e.get_points(),
            Enemy::Hexagon(e) => e.get_points(),
            Enemy::Boss(e) => e.get_points(),
        }
    }
}

} // verus!
