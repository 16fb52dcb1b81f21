//! Projectiles: points that move by a fixed displacement every tick.

use vstd::prelude::*;
use crate::enemy::Enemy;
use crate::health::remaining;
use crate::player::Player;
use crate::geometry::{
    Rect, Vec2, lemma_leg_le_hypotenuse, lemma_scaled_part_bounded, lemma_unit_part_bounded,
    magnitude,
};

verus! {

/// Width of the play field, in coordinate units.
pub const FIELD_WIDTH: i64 = 1_600_000;

/// Height of the play field, in coordinate units.
pub const FIELD_HEIGHT: i64 = 1_100_000;

/// Distance from an entity's position to the corner of its collision box.
pub const HITBOX_REACH: i64 = 10_000;

/// Side of the collision box of a projectile and of the player.
pub const HITBOX_SIZE: i64 = 20_000;

/// The collision box that projectiles and the player carry around `center`.
pub open spec fn hitbox(center: Vec2) -> Rect {
    Rect::square_spec(center, HITBOX_REACH, HITBOX_SIZE)
}

/// Whether `p` lies outside the play field. Points on the border are inside.
pub open spec fn off_field(p: Vec2) -> bool {
    p.x < 0 || p.x > FIELD_WIDTH || p.y < 0 || p.y > FIELD_HEIGHT
}

#[derive(Clone, Copy, Debug, PartialEq, Eq, Structural)]
pub struct Bullet {
    pub pos: Vec2,
    pub vel: Vec2,
    pub damage: i32,
    pub size: i64,
}

impl Bullet {
    /// The projectile that leaves `pos` along `heading` at `speed` per tick.
    /// A zero heading gives a projectile that stays where it is.
    pub open spec fn aimed(pos: Vec2, heading: Vec2, speed: i64, damage: i32, size: i64) -> Bullet {
        Bullet { pos, vel: heading.normalized().scaled(speed), damage, size }
    }

    /// The projectile that leaves `pos` toward `target` at `speed` per tick.
    pub open spec fn launched(pos: Vec2, target: Vec2, speed: i64, damage: i32, size: i64) -> Bullet {
        Self::aimed(pos, pos.toward(target), speed, damage, size)
    }

    /// The projectile one tick later.
    pub open spec fn advanced(self) -> Bullet {
        Bullet { pos: self.pos.shifted(self.vel), ..self }
    }

    /// Whether the next position has machine coordinates.
    pub open spec fn can_advance(self) -> bool {
        self.pos.can_shift(self.vel)
    }

    /// Whether the projectile has left the play field.
    pub open spec fn off_screen(self) -> bool {
        off_field(self.pos)
    }

    /// Whether the projectile's collision box meets the one around `center`.
    pub open spec fn touches(self, center: Vec2) -> bool {
        hitbox(self.pos).overlaps_spec(hitbox(center))
    }

    /// A projectile that leaves `pos` along `heading`.
    pub fn with_heading(pos: Vec2, heading: Vec2, speed: i64, damage: i32, size: i64) -> (b: Bullet)
        requires
            speed > i64::MIN,
        ensures
            b == Self::aimed(pos, heading, speed, damage, size),
            b.vel.within(magnitude(speed)),
            (heading.x == 0 && heading.y == 0) ==> b.vel == (Vec2 { x: 0, y: 0 }),
    {
        let direction = heading.normalize();
        proof {
            lemma_scaled_part_bounded(direction.x as int, speed as int);
            lemma_scaled_part_bounded(direction.y as int, speed as int);
        }
        Bullet { pos, vel: direction.scale(speed), damage, size }
    }

    /// A projectile that leaves `pos` toward `target`. Where the two
    /// coincide the projectile has no velocity.
    pub fn new(pos: Vec2, target: Vec2, speed: i64, damage: i32, size_of_bullet: i64) -> (b: Bullet)
        requires
            pos.can_reach(target),
            speed > i64::MIN,
        ensures
            b == Self::launched(pos, target, speed, damage, size_of_bullet),
            b.vel.within(magnitude(speed)),
            pos == target ==> b.vel == (Vec2 { x: 0, y: 0 }),
    {
        Self::with_heading(pos, pos.offset_to(target), speed, damage, size_of_bullet)
    }

    /// Moves the projectile by its velocity.
    pub fn update(&mut self)
        requires
            old(self).can_advance(),
        ensures
            *final(self) == old(self).advanced(),
            final(self).pos.x == old(self).pos.x + old(self).vel.x,
            final(self).pos.y == old(self).pos.y + old(self).vel.y,
    {
        self.pos = self.pos.translate(self.vel);
    }

    pub fn is_off_screen(&self) -> (off: bool)
        ensures
            off == self.off_screen(),
    {
        self.pos.x < 0 || self.pos.x > FIELD_WIDTH || self.pos.y < 0 || self.pos.y > FIELD_HEIGHT
    }

    pub fn check_collision_with_player(&self, player: &Player) -> (hit: bool)
        ensures
            hit == self.touches(player.player_pos),
    {
        let player_rect = Rect::square(player.player_pos, HITBOX_REACH, HITBOX_SIZE);
        let bullet_rect = Rect::square(self.pos, HITBOX_REACH, HITBOX_SIZE);
        bullet_rect.overlaps(&player_rect)
    }

    /// Deals the projectile's damage to the player.
    pub fn apply_damage(&self, player: &mut Player)
        requires
            old(player).hp - self.damage <= i32::MAX,
        ensures
            final(player)@ == old(player)@.damaged(self.damage),
    {
        player.take_damage(self.damage);
    }

    /// Deals the projectile's damage to `enemy` and returns the health
    /// that the enemy has left.
    pub fn apply_damage_to_enemy(&self, enemy: &mut Enemy) -> (left: i32)
        requires
            old(enemy).hp() - self.damage <= i32::MAX,
        ensures
            *final(enemy) == old(enemy).damaged(self.damage),
            left == final(enemy).hp(),
            left == remaining(old(enemy).hp() as int, self.damage as int),
            left >= 0,
    {
        enemy.take_damage(self.damage);
        enemy.get_hp()
    }

    /// Whether the projectile's collision box meets the box of the same
    /// size around the enemy's position, whatever the enemy's own size.
    pub fn check_collision_with_enemy(&self, enemy: &Enemy) -> (hit: bool)
        ensures
            hit == self.touches(enemy.pos()),
    {
        let enemy_pos = enemy.get_pos();
        let enemy_rect = Rect::square(*enemy_pos, HITBOX_REACH, HITBOX_SIZE);
        let bullet_rect = Rect::square(self.pos, HITBOX_REACH, HITBOX_SIZE);
        bullet_rect.overlaps(&enemy_rect)
    }
}

/// A projectile is no faster along either axis than the speed it was
/// launched with.
pub proof fn lemma_aimed_velocity_bounded(pos: Vec2, heading: Vec2, speed: i64, damage: i32, size: i64)
    requires
        speed > i64::MIN,
    ensures
        Bullet::aimed(pos, heading, speed, damage, size).vel.within(magnitude(speed)),
        Bullet::aimed(pos, heading, speed, damage, size).vel.x == Vec2::scaled_part(
            heading.normalized().x as int,
            speed as int,
        ),
        Bullet::aimed(pos, heading, speed, damage, size).vel.y == Vec2::scaled_part(
            heading.normalized().y as int,
            speed as int,
        ),
        heading.normalized().within(crate::geometry::UNIT as int),
{
    lemma_leg_le_hypotenuse(heading.x as int, heading.y as int);
    lemma_leg_le_hypotenuse(heading.y as int, heading.x as int);
    assert(heading.y * heading.y + heading.x * heading.x == heading.x * heading.x + heading.y
        * heading.y);
    let len = heading.length_spec();
    lemma_unit_part_bounded(heading.x as int, len);
    lemma_unit_part_bounded(heading.y as int, len);
    let direction = heading.normalized();
    lemma_scaled_part_bounded(direction.x as int, speed as int);
    lemma_scaled_part_bounded(direction.y as int, speed as int);
}

/// The position of a projectile that advances `n` times.
pub open spec fn position_after(b: Bullet, n: nat) -> (int, int) {
    (b.pos.x + n * b.vel.x, b.pos.y + n * b.vel.y)
}

/// A projectile that advances `n` times without leaving the machine's
/// range ends at its origin plus `n` times its velocity, and keeps its
/// velocity, damage and size.
pub proof fn lemma_position_after_ticks(path: Seq<Bullet>, n: nat)
    requires
        path.len() > n,
        forall|i: int| 0 <= i < n ==> (#[trigger] path[i]).can_advance(),
        forall|i: int| 0 <= i < n ==> path[i + 1] == (#[trigger] path[i]).advanced(),
    ensures
        (path[n as int].pos.x as int, path[n as int].pos.y as int) == position_after(path[0], n),
        path[n as int].vel == path[0].vel,
        path[n as int].damage == path[0].damage,
        path[n as int].size == path[0].size,
    decreases n,
{
    if n > 0 {
        let m = (n - 1) as nat;
        lemma_position_after_ticks(path, m);
        assert(n * path[0].vel.x == m * path[0].vel.x + path[0].vel.x) by (nonlinear_arith)
            requires
                n == m + 1,
        ;
        assert(n * path[0].vel.y == m * path[0].vel.y + path[0].vel.y) by (nonlinear_arith)
            requires
                n == m + 1,
        ;
    }
}

} // verus!
