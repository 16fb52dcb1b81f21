//! The upgrade shop: four tracks, each with a price that grows with its level.

use vstd::prelude::*;
use crate::geometry::div_toward_zero;
use crate::player::{Player, PlayerView};

verus! {

/// Health that one health upgrade adds.
pub const HEALTH_GAIN: i32 = 5;

/// Damage that one damage upgrade adds.
pub const DAMAGE_GAIN: i32 = 1;

/// Speed that one speed upgrade adds.
pub const SPEED_GAIN: i64 = 1000;

/// Milliseconds that one fire-rate upgrade takes off the time between shots.
pub const FIRE_RATE_GAIN: i64 = 50;

/// The price after a purchase at price `cost` on level `lvl`: the price per
/// level, rounded toward zero, times the next level.
pub open spec fn next_cost(cost: int, lvl: int) -> int {
    div_toward_zero(cost, lvl) * (lvl + 1)
}

/// Whether a purchase at `cost` on level `lvl` stays within the machine's
/// range for a buyer who holds `coins`.
pub open spec fn can_charge(cost: i32, lvl: i32, coins: i32) -> bool {
    &&& 1 <= lvl < i32::MAX
    &&& coins - cost <= i32::MAX
    &&& i32::MIN <= next_cost(cost as int, lvl as int) <= i32::MAX
}

/// A track's price is a positive whole multiple of its level. Every track
/// of a new shop is so, and every purchase keeps it so.
pub open spec fn track_wf(cost: int, lvl: int) -> bool {
    lvl >= 1 && cost > 0 && cost % lvl == 0
}

/// On a well-formed track a purchase raises the price, and leaves the track
/// well-formed.
pub proof fn lemma_cost_increases(cost: int, lvl: int)
    requires
        track_wf(cost, lvl),
    ensures
        next_cost(cost, lvl) > cost,
        next_cost(cost, lvl) == cost + cost / lvl,
        track_wf(next_cost(cost, lvl), lvl + 1),
{
    let q = cost / lvl;
    assert(cost == q * lvl && q >= 1) by (nonlinear_arith)
        requires
            q == cost / lvl,
            cost % lvl == 0,
            lvl >= 1,
            cost > 0,
    ;
    assert(q * (lvl + 1) == q * lvl + q) by (nonlinear_arith);
    assert((q * (lvl + 1)) % (lvl + 1) == 0) by (nonlinear_arith)
        requires
            lvl >= 1,
    ;
}

/// The next price is at most twice the price.
pub proof fn lemma_next_cost_bounded(cost: int, lvl: int)
    requires
        0 <= cost,
        1 <= lvl,
    ensures
        0 <= next_cost(cost, lvl) <= 2 * cost,
{
    let q = cost / lvl;
    assert(0 <= q && q * lvl <= cost && q <= cost) by (nonlinear_arith)
        requires
            q == cost / lvl,
            0 <= cost,
            1 <= lvl,
    ;
    assert(q * (lvl + 1) == q * lvl + q) by (nonlinear_arith);
}

#[derive(Clone, Copy, Debug, PartialEq, Eq, Structural)]
pub struct Shop {
    pub health_upgrade_cost: i32,
    pub damage_upgrade_cost: i32,
    pub speed_upgrade_cost: i32,
    pub fire_rate_cost: i32,
    pub health_lvl: i32,
    pub damage_lvl: i32,
    pub speed_lvl: i32,
    pub fire_rate_lvl: i32,
}

/// What a purchase leaves of price, level and coins: `None` where the
/// buyer cannot afford it.
fn charge(cost: i32, lvl: i32, coins: i32) -> (sold: Option<(i32, i32, i32)>)
    requires
        coins >= cost ==> can_charge(cost, lvl, coins),
    ensures
        coins < cost <==> sold is None,
        sold matches Some((new_cost, new_lvl, new_coins)) ==> {
            &&& new_cost == next_cost(cost as int, lvl as int)
            &&& new_lvl == lvl + 1
            &&& new_coins == coins - cost
        },
{
    if coins >= cost {
        let per_level: i32 = cost / lvl;
        Some((per_level * (lvl + 1), lvl + 1, coins - cost))
    } else {
        None
    }
}

impl Shop {
    /// Every track is well-formed.
    pub open spec fn wf(self) -> bool {
        &&& track_wf(self.health_upgrade_cost as int, self.health_lvl as int)
        &&& track_wf(self.damage_upgrade_cost as int, self.damage_lvl as int)
        &&& track_wf(self.speed_upgrade_cost as int, self.speed_lvl as int)
        &&& track_wf(self.fire_rate_cost as int, self.fire_rate_lvl as int)
    }

    /// Whether a request for a health upgrade stays within the machine's range.
    pub open spec fn can_sell_health(self, p: PlayerView) -> bool {
        p.coins >= self.health_upgrade_cost ==> {
            &&& can_charge(self.health_upgrade_cost, self.health_lvl, p.coins)
            &&& p.hp + HEALTH_GAIN <= i32::MAX
        }
    }

    /// Whether a request for a damage upgrade stays within the machine's range.
    pub open spec fn can_sell_damage(self, p: PlayerView) -> bool {
        p.coins >= self.damage_upgrade_cost ==> {
            &&& can_charge(self.damage_upgrade_cost, self.damage_lvl, p.coins)
            &&& p.damage + DAMAGE_GAIN <= i32::MAX
        }
    }

    /// Whether a request for a speed upgrade stays within the machine's range.
    pub open spec fn can_sell_speed(self, p: PlayerView) -> bool {
        p.coins >= self.speed_upgrade_cost ==> {
            &&& can_charge(self.speed_upgrade_cost, self.speed_lvl, p.coins)
            &&& p.speed + SPEED_GAIN <= i64::MAX
        }
    }

    /// Whether a request for a fire-rate upgrade stays within the machine's range.
    pub open spec fn can_sell_fire_rate(self, p: PlayerView) -> bool {
        p.coins >= self.fire_rate_cost ==> {
            &&& can_charge(self.fire_rate_cost, self.fire_rate_lvl, p.coins)
            &&& p.fire_rate - FIRE_RATE_GAIN >= i64::MIN
        }
    }

    /// Shop and player after the player asks for a health upgrade.
    pub open spec fn health_bought(self, p: PlayerView) -> (Shop, PlayerView) {
        if p.coins >= self.health_upgrade_cost {
            (
                Shop {
                    health_upgrade_cost: next_cost(
                        self.health_upgrade_cost as int,
                        self.health_lvl as int,
                    ) as i32,
                    health_lvl: (self.health_lvl + 1) as i32,
                    ..self
                },
                PlayerView {
                    coins: (p.coins - self.health_upgrade_cost) as i32,
                    hp: (p.hp + HEALTH_GAIN) as i32,
                    ..p
                },
            )
        } else {
            (self, p)
        }
    }

    /// Shop and player after the player asks for a damage upgrade.
    pub open spec fn damage_bought(self, p: PlayerView) -> (Shop, PlayerView) {
        if p.coins >= self.damage_upgrade_cost {
            (
                Shop {
                    damage_upgrade_cost: next_cost(
                        self.damage_upgrade_cost as int,
                        self.damage_lvl as int,
                    ) as i32,
                    damage_lvl: (self.damage_lvl + 1) as i32,
                    ..self
                },
                PlayerView {
                    coins: (p.coins - self.damage_upgrade_cost) as i32,
                    damage: (p.damage + DAMAGE_GAIN) as i32,
                    ..p
                },
            )
        } else {
            (self, p)
        }
    }

    /// Shop and player after the player asks for a speed upgrade.
    pub open spec fn speed_bought(self, p: PlayerView) -> (Shop, PlayerView) {
        if p.coins >= self.speed_upgrade_cost {
            (
                Shop {
                    speed_upgrade_cost: next_cost(
                        self.speed_upgrade_cost as int,
                        self.speed_lvl as int,
                    ) as i32,
                    speed_lvl: (self.speed_lvl + 1) as i32,
                    ..self
                },
                PlayerView {
                    coins: (p.coins - self.speed_upgrade_cost) as i32,
                    speed: (p.speed + SPEED_GAIN) as i64,
                    ..p
                },
            )
        } else {
            (self, p)
        }
    }

    /// Shop and player after the player asks for a fire-rate upgrade.
    pub open spec fn fire_rate_bought(self, p: PlayerView) -> (Shop, PlayerView) {
        if p.coins >= self.fire_rate_cost {
            (
                Shop {
                    fire_rate_cost: next_cost(
                        self.fire_rate_cost as int,
                        self.fire_rate_lvl as int,
                    ) as i32,
                    fire_rate_lvl: (self.fire_rate_lvl + 1) as i32,
                    ..self
                },
                PlayerView {
                    coins: (p.coins - self.fire_rate_cost) as i32,
                    fire_rate: (p.fire_rate - FIRE_RATE_GAIN) as i64,
                    ..p
                },
            )
        } else {
            (self, p)
        }
    }

    /// The shop of a new game.
    pub open spec fn new_spec() -> Shop {
        Shop {
            health_upgrade_cost: 50,
            damage_upgrade_cost: 500,
            speed_upgrade_cost: 200,
            fire_rate_cost: 400,
            health_lvl: 1,
            damage_lvl: 1,
            speed_lvl: 1,
            fire_rate_lvl: 1,
        }
    }

    /// Every price lies between zero and `cap`, and every level from one
    /// up leaves room for the next.
    pub open spec fn within(self, cap: int) -> bool {
        &&& 0 <= self.health_upgrade_cost <= cap && 1 <= self.health_lvl < i32::MAX
        &&& 0 <= self.damage_upgrade_cost <= cap && 1 <= self.damage_lvl < i32::MAX
        &&& 0 <= self.speed_upgrade_cost <= cap && 1 <= self.speed_lvl < i32::MAX
        &&& 0 <= self.fire_rate_cost <= cap && 1 <= self.fire_rate_lvl < i32::MAX
    }

    /// A purchase on a well-formed shop raises the price of its track,
    /// takes the track to the next level and leaves the shop well-formed.
    pub proof fn lemma_purchase_raises_the_price(self, p: PlayerView)
        requires
            self.wf(),
            self.can_sell_health(p),
            self.can_sell_damage(p),
            self.can_sell_speed(p),
            self.can_sell_fire_rate(p),
        ensures
            self.health_bought(p).0.wf(),
            self.damage_bought(p).0.wf(),
            self.speed_bought(p).0.wf(),
            self.fire_rate_bought(p).0.wf(),
            p.coins >= self.health_upgrade_cost ==> self.health_bought(p).0.health_upgrade_cost
                > self.health_upgrade_cost && self.health_bought(p).0.health_lvl == self.health_lvl
                + 1,
            p.coins >= self.damage_upgrade_cost ==> self.damage_bought(p).0.damage_upgrade_cost
                > self.damage_upgrade_cost && self.damage_bought(p).0.damage_lvl == self.damage_lvl
                + 1,
            p.coins >= self.speed_upgrade_cost ==> self.speed_bought(p).0.speed_upgrade_cost
                > self.speed_upgrade_cost && self.speed_bought(p).0.speed_lvl == self.speed_lvl + 1,
            p.coins >= self.fire_rate_cost ==> self.fire_rate_bought(p).0.fire_rate_cost
                > self.fire_rate_cost && self.fire_rate_bought(p).0.fire_rate_lvl
                == self.fire_rate_lvl + 1,
    {
        lemma_cost_increases(self.health_upgrade_cost as int, self.health_lvl as int);
        lemma_cost_increases(self.damage_upgrade_cost as int, self.damage_lvl as int);
        lemma_cost_increases(self.speed_upgrade_cost as int, self.speed_lvl as int);
        lemma_cost_increases(self.fire_rate_cost as int, self.fire_rate_lvl as int);
    }

    pub fn new() -> (s: Shop)
        ensures
            s == Self::new_spec(),
            s.wf(),
    {
        Shop {
            health_upgrade_cost: 50,
            damage_upgrade_cost: 500,
            speed_upgrade_cost: 200,
            fire_rate_cost: 400,
            health_lvl: 1,
            damage_lvl: 1,
            speed_lvl: 1,
            fire_rate_lvl: 1,
        }
    }

    /// Sells a health upgrade if the player can pay for it; else nothing changes.
    pub fn try_buy_health_upgrade(&mut self, player: &mut Player)
        requires
            old(self).can_sell_health(old(player)@),
        ensures
            (*final(self), final(player)@) == old(self).health_bought(old(player)@),
            old(player).coins < old(self).health_upgrade_cost ==> *final(self) == *old(self)
                && final(player)@ == old(player)@,
    {
        match charge(self.health_upgrade_cost, self.health_lvl, player.coins) {
            Some((cost, lvl, coins)) => {
                player.coins = coins;
                player.hp = player.hp + HEALTH_GAIN;
                self.health_upgrade_cost = cost;
                self.health_lvl = lvl;
            },
            None => {},
        }
    }

    /// Sells a damage upgrade if the player can pay for it; else nothing changes.
    pub fn try_buy_damage_upgrade(&mut self, player: &mut Player)
        requires
            old(self).can_sell_damage(old(player)@),
        ensures
            (*final(self), final(player)@) == old(self).damage_bought(old(player)@),
            old(player).coins < old(self).damage_upgrade_cost ==> *final(self) == *old(self)
                && final(player)@ == old(player)@,
    {
        match charge(self.damage_upgrade_cost, self.damage_lvl, player.coins) {
            Some((cost, lvl, coins)) => {
                player.coins = coins;
                player.damage = player.damage + DAMAGE_GAIN;
                self.damage_upgrade_cost = cost;
                self.damage_lvl = lvl;
            },
            None => {},
        }
    }

    /// Sells a speed upgrade if the player can pay for it; else nothing changes.
    pub fn try_buy_speed_upgrade(&mut self, player: &mut Player)
        requires
            old(self).can_sell_speed(old(player)@),
        ensures
            (*final(self), final(player)@) == old(self).speed_bought(old(player)@),
            old(player).coins < old(self).speed_upgrade_cost ==> *final(self) == *old(self)
                && final(player)@ == old(player)@,
    {
        match charge(self.speed_upgrade_cost, self.speed_lvl, player.coins) {
            Some((cost, lvl, coins)) => {
                player.coins = coins;
                player.speed = player.speed + SPEED_GAIN;
                self.speed_upgrade_cost = cost;
                self.speed_lvl = lvl;
            },
            None => {},
        }
    }

    /// Sells a fire-rate upgrade if the player can pay for it; else nothing changes.
    pub fn try_buy_fire_rate_upgrade(&mut self, player: &mut Player)
        requires
            old(self).can_sell_fire_rate(old(player)@),
        ensures
            (*final(self), final(player)@) == old(self).fire_rate_bought(old(player)@),
            old(player).coins < old(self).fire_rate_cost ==> *final(self) == *old(self)
                && final(player)@ == old(player)@,
    {
        match charge(self.fire_rate_cost, self.fire_rate_lvl, player.coins) {
            Some((cost, lvl, coins)) => {
                player.coins = coins;
                player.fire_rate = player.fire_rate - FIRE_RATE_GAIN;
                self.fire_rate_cost = cost;
                self.fire_rate_lvl = lvl;
            },
            None => {},
        }
    }
}

} // verus!
