//! The player: movement, rate-limited firing and health.

use vstd::prelude::*;
use crate::bullet::{Bullet, FIELD_HEIGHT, FIELD_WIDTH};
use crate::geometry::Vec2;
use crate::health::{reduce, remaining};

verus! {

/// Side of the projectiles that the player fires.
pub const PLAYER_BULLET_SIZE: i64 = 10_000;

/// What the player asks for during one tick.
#[derive(Clone, Copy, Debug, PartialEq, Eq, Structural)]
pub struct Input {
    pub up: bool,
    pub down: bool,
    pub left: bool,
    pub right: bool,
    pub fire: bool,
    /// Where the pointer is: the target of a shot.
    pub aim: Vec2,
    pub buy_health: bool,
    pub buy_damage: bool,
    pub buy_speed: bool,
    pub buy_fire_rate: bool,
    /// Leave the menu and start playing.
    pub start: bool,
}

impl Input {
    /// No key is held.
    pub open spec fn is_idle(self) -> bool {
        &&& !self.up && !self.down && !self.left && !self.right && !self.fire
        &&& !self.buy_health && !self.buy_damage && !self.buy_speed && !self.buy_fire_rate
        &&& !self.start
    }

    /// No key held, pointer at the origin.
    pub fn idle() -> (input: Input)
        ensures
            input.is_idle(),
            input.aim == (Vec2 { x: 0, y: 0 }),
    {
        Input {
            up: false,
            down: false,
            left: false,
            right: false,
            fire: false,
            aim: Vec2 { x: 0, y: 0 },
            buy_health: false,
            buy_damage: false,
            buy_speed: false,
            buy_fire_rate: false,
            start: false,
        }
    }
}

#[derive(Clone, Debug)]
pub struct Player {
    pub hp: i32,
    /// Distance covered per tick along each axis whose key is held.
    pub speed: i64,
    pub damage: i32,
    pub player_pos: Vec2,
    pub bullets: Vec<Bullet>,
    /// Time of the last shot, in milliseconds.
    pub last_shot_time: u64,
    /// Least time between two shots, in milliseconds.
    pub fire_rate: i64,
    pub player_bullet_speed: i64,
    pub coins: i32,
    pub points: i32,
}

/// A player as a mathematical value.
pub struct PlayerView {
    pub hp: i32,
    pub speed: i64,
    pub damage: i32,
    pub player_pos: Vec2,
    pub bullets: Seq<Bullet>,
    pub last_shot_time: u64,
    pub fire_rate: i64,
    pub player_bullet_speed: i64,
    pub coins: i32,
    pub points: i32,
}

impl View for Player {
    type V = PlayerView;

    open spec fn view(&self) -> PlayerView {
        PlayerView {
            hp: self.hp,
            speed: self.speed,
            damage: self.damage,
            player_pos: self.player_pos,
            bullets: self.bullets@,
            last_shot_time: self.last_shot_time,
            fire_rate: self.fire_rate,
            player_bullet_speed: self.player_bullet_speed,
            coins: self.coins,
            points: self.points,
        }
    }
}

/// `v` brought into the closed interval from `lo` to `hi`.
pub open spec fn clamped(v: int, lo: int, hi: int) -> int {
    if v < lo {
        lo
    } else if v > hi {
        hi
    } else {
        v
    }
}

/// Where a coordinate goes when the key toward smaller values is `back`
/// and the key toward larger values is `forth`.
pub open spec fn steered(at: int, speed: int, back: bool, forth: bool) -> int {
    at - (if back { speed } else { 0 }) + (if forth { speed } else { 0 })
}

/// Milliseconds from `since` to `now`; zero where `now` is the earlier.
pub open spec fn elapsed(now: u64, since: u64) -> int {
    if now >= since {
        now - since
    } else {
        0
    }
}

/// Every projectile of `shots` one tick later.
pub open spec fn all_advanced(shots: Seq<Bullet>) -> Seq<Bullet> {
    Seq::new(shots.len(), |i: int| shots[i].advanced())
}

/// Every projectile of `shots` can advance within the machine's range.
pub open spec fn all_can_advance(shots: Seq<Bullet>) -> bool {
    forall|i: int| 0 <= i < shots.len() ==> (#[trigger] shots[i]).can_advance()
}

impl PlayerView {
    pub open spec fn damaged(self, damage: i32) -> PlayerView {
        PlayerView { hp: remaining(self.hp as int, damage as int) as i32, ..self }
    }

    /// The position after one tick of steering, kept inside the play field.
    pub open spec fn steered_pos(self, input: Input) -> Vec2 {
        Vec2 {
            x: clamped(
                steered(self.player_pos.x as int, self.speed as int, input.left, input.right),
                0,
                FIELD_WIDTH as int,
            ) as i64,
            y: clamped(
                steered(self.player_pos.y as int, self.speed as int, input.up, input.down),
                0,
                FIELD_HEIGHT as int,
            ) as i64,
        }
    }

    pub open spec fn moved(self, input: Input) -> PlayerView {
        PlayerView { player_pos: self.steered_pos(input), ..self }
    }

    /// Whether enough time has passed since the last shot.
    pub open spec fn ready_to_fire(self, now: u64) -> bool {
        elapsed(now, self.last_shot_time) >= self.fire_rate
    }

    /// The projectile that a shot at `target` adds.
    pub open spec fn shot(self, target: Vec2) -> Bullet {
        Bullet::launched(
            self.player_pos,
            target,
            self.player_bullet_speed,
            self.damage,
            PLAYER_BULLET_SIZE,
        )
    }

    /// The player after asking to fire at `target` at time `now`.
    pub open spec fn fired(self, target: Vec2, now: u64) -> PlayerView {
        if self.ready_to_fire(now) {
            PlayerView {
                bullets: self.bullets.push(self.shot(target)),
                last_shot_time: now,
                ..self
            }
        } else {
            self
        }
    }

    pub open spec fn with_bullets_advanced(self) -> PlayerView {
        PlayerView { bullets: all_advanced(self.bullets), ..self }
    }

    /// One tick of the player: steer, fire if asked, advance the shots.
    pub open spec fn updated(self, input: Input, now: u64) -> PlayerView {
        let moved = self.moved(input);
        let armed = if input.fire {
            moved.fired(input.aim, now)
        } else {
            moved
        };
        armed.with_bullets_advanced()
    }

    /// Whether a request to fire at `target` at time `now` stays within
    /// the machine's range.
    pub open spec fn can_fire(self, target: Vec2, now: u64) -> bool {
        self.ready_to_fire(now) ==> self.player_pos.can_reach(target) && self.player_bullet_speed
            > i64::MIN
    }

    /// Whether one tick with `input` at time `now` stays within the
    /// machine's range.
    pub open spec fn can_update(self, input: Input, now: u64) -> bool {
        let moved = self.moved(input);
        let armed = if input.fire {
            moved.fired(input.aim, now)
        } else {
            moved
        };
        &&& input.fire ==> moved.can_fire(input.aim, now)
        &&& all_can_advance(armed.bullets)
    }
}

impl Player {
    /// A fresh player, whose last shot counts as fired at `now`.
    pub open spec fn new_view(now: u64) -> PlayerView {
        PlayerView {
            hp: 100,
            speed: 6000,
            damage: 1,
            player_pos: Vec2 { x: 400_000, y: 300_000 },
            bullets: Seq::empty(),
            last_shot_time: now,
            fire_rate: 500,
            player_bullet_speed: 15_000,
            coins: 1000,
            points: 0,
        }
    }

    /// A fresh player, whose last shot counts as fired at `now`.
    pub fn new(now: u64) -> (p: Player)
        ensures
            p@ == Self::new_view(now),
    {
        Player {
            hp: 100,
            damage: 1,
            speed: 6000,
            player_pos: Vec2 { x: 400_000, y: 300_000 },
            bullets: Vec::new(),
            last_shot_time: now,
            fire_rate: 500,
            player_bullet_speed: 15_000,
            coins: 1000,
            points: 0,
        }
    }

    /// Takes `damage` from the player's health, which stops at zero.
    pub fn take_damage(&mut self, damage: i32)
        requires
            old(self).hp - damage <= i32::MAX,
        ensures
            final(self)@ == old(self)@.damaged(damage),
            final(self).hp == remaining(old(self).hp as int, damage as int),
            final(self).hp >= 0,
    {
        self.hp = reduce(self.hp, damage);
    }

    pub fn is_dead(&self) -> (dead: bool)
        ensures
            dead == (self.hp <= 0),
    {
        self.hp <= 0
    }

    /// Whether enough time has passed since the last shot.
    pub fn ready_to_fire(&self, now: u64) -> (ready: bool)
        ensures
            ready == self@.ready_to_fire(now),
    {
        if self.fire_rate <= 0 {
            true
        } else if now >= self.last_shot_time {
            now - self.last_shot_time >= self.fire_rate as u64
        } else {
            false
        }
    }

    /// Fires at `target` if the fire rate allows it at time `now`.
    pub fn fire(&mut self, target: Vec2, now: u64)
        requires
            old(self)@.can_fire(target, now),
        ensures
            final(self)@ == old(self)@.fired(target, now),
    {
        if self.ready_to_fire(now) {
            let bullet = Bullet::new(
                self.player_pos,
                target,
                self.player_bullet_speed,
                self.damage,
                PLAYER_BULLET_SIZE,
            );
            self.bullets.push(bullet);
            self.last_shot_time = now;
        }
    }

    /// Steers by the held keys and keeps the player inside the play field.
    pub fn steer(&mut self, input: &Input)
        ensures
            final(self)@ == old(self)@.moved(*input),
            0 <= final(self).player_pos.x <= FIELD_WIDTH,
            0 <= final(self).player_pos.y <= FIELD_HEIGHT,
    {
        let speed: i128 = self.speed as i128;
        let mut x: i128 = self.player_pos.x as i128;
        let mut y: i128 = self.player_pos.y as i128;
        if input.up {
            y = y - speed;
        }
        if input.down {
            y = y + speed;
        }
        if input.left {
            x = x - speed;
        }
        if input.right {
            x = x + speed;
        }
        if x < 0 {
            x = 0;
        } else if x > FIELD_WIDTH as i128 {
            x = FIELD_WIDTH as i128;
        }
        if y < 0 {
            y = 0;
        } else if y > FIELD_HEIGHT as i128 {
            y = FIELD_HEIGHT as i128;
        }
        self.player_pos = Vec2 { x: x as i64, y: y as i64 };
    }

    /// Advances every projectile of the player by one tick.
    pub fn advance_bullets(&mut self)
        requires
            all_can_advance(old(self).bullets@),
        ensures
            final(self)@ == old(self)@.with_bullets_advanced(),
    {
        let n = self.bullets.len();
        let mut i: usize = 0;
        while i < n
            invariant
                i <= n,
                n == self.bullets.len(),
                n == old(self).bullets.len(),
                self@ == (PlayerView { bullets: self.bullets@, ..old(self)@ }),
                forall|k: int| 0 <= k < i ==> self.bullets@[k] == old(self).bullets@[k].advanced(),
                forall|k: int| i <= k < n ==> self.bullets@[k] == old(self).bullets@[k],
                all_can_advance(old(self).bullets@),
            decreases n - i,
        {
            let mut bullet = self.bullets[i];
            bullet.update();
            self.bullets.set(i, bullet);
            i += 1;
        }
        assert(self.bullets@ =~= all_advanced(old(self).bullets@));
    }

    /// One tick of the player: steer, fire if asked, advance the shots.
    pub fn update(&mut self, input: &Input, now: u64)
        requires
            old(self)@.can_update(*input, now),
        ensures
            final(self)@ == old(self)@.updated(*input, now),
            0 <= final(self).player_pos.x <= FIELD_WIDTH,
            0 <= final(self).player_pos.y <= FIELD_HEIGHT,
    {
        self.steer(input);
        if input.fire {
            self.fire(input.aim, now);
        }
        self.advance_bullets();
    }
}

} // verus!
