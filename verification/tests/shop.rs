use bullet_hell::player::Player;
use bullet_hell::shop::Shop;

#[test]
fn shop_new_has_the_starting_prices() {
    let s = Shop::new();
    assert_eq!(s.health_upgrade_cost, 50);
    assert_eq!(s.damage_upgrade_cost, 500);
    assert_eq!(s.speed_upgrade_cost, 200);
    assert_eq!(s.fire_rate_cost, 400);
    assert_eq!(s.health_lvl, 1);
    assert_eq!(s.damage_lvl, 1);
    assert_eq!(s.speed_lvl, 1);
    assert_eq!(s.fire_rate_lvl, 1);
}

#[test]
fn shop_purchase_with_coins_equal_to_cost_succeeds() {
    let mut s = Shop::new();
    let mut p = Player::new(0);
    p.coins = 50;
    s.try_buy_health_upgrade(&mut p);
    assert_eq!(p.coins, 0);
    assert_eq!(p.hp, 105);
    assert_eq!(s.health_upgrade_cost, 100);
    assert_eq!(s.health_lvl, 2);
}

#[test]
fn shop_purchase_with_one_coin_short_changes_nothing() {
    let mut s = Shop::new();
    let mut p = Player::new(7);
    p.coins = 49;
    let shop_before = s;
    s.try_buy_health_upgrade(&mut p);
    assert_eq!(s, shop_before);
    assert_eq!(p.coins, 49);
    assert_eq!(p.hp, 100);
    assert_eq!(p.damage, 1);
    assert_eq!(p.speed, 6000);
    assert_eq!(p.fire_rate, 500);
    assert_eq!(p.points, 0);
    assert_eq!(p.last_shot_time, 7);
    assert!(p.bullets.is_empty());

    p.coins = 499;
    s.try_buy_damage_upgrade(&mut p);
    p.coins = 199;
    s.try_buy_speed_upgrade(&mut p);
    p.coins = 399;
    s.try_buy_fire_rate_upgrade(&mut p);
    assert_eq!(s, shop_before);
    assert_eq!(p.coins, 399);
    assert_eq!((p.hp, p.damage, p.speed, p.fire_rate), (100, 1, 6000, 500));
}

#[test]
fn shop_damage_upgrade_adds_one_damage() {
    let mut s = Shop::new();
    let mut p = Player::new(0);
    s.try_buy_damage_upgrade(&mut p);
    assert_eq!(p.coins, 500);
    assert_eq!(p.damage, 2);
    assert_eq!(s.damage_upgrade_cost, 1000);
    assert_eq!(s.damage_lvl, 2);
    s.try_buy_damage_upgrade(&mut p);
    assert_eq!(p.coins, 500);
    assert_eq!(p.damage, 2);
}

#[test]
fn shop_speed_upgrade_adds_one_pixel_per_tick() {
    let mut s = Shop::new();
    let mut p = Player::new(0);
    s.try_buy_speed_upgrade(&mut p);
    assert_eq!(p.coins, 800);
    assert_eq!(p.speed, 7000);
    assert_eq!(s.speed_upgrade_cost, 400);
    assert_eq!(s.speed_lvl, 2);
}

#[test]
fn shop_fire_rate_upgrade_takes_fifty_milliseconds_off() {
    let mut s = Shop::new();
    let mut p = Player::new(0);
    s.try_buy_fire_rate_upgrade(&mut p);
    assert_eq!(p.coins, 600);
    assert_eq!(p.fire_rate, 450);
    assert_eq!(s.fire_rate_cost, 800);
    assert_eq!(s.fire_rate_lvl, 2);
}

#[test]
fn shop_price_grows_by_the_first_price_with_each_level() {
    let mut s = Shop::new();
    let mut p = Player::new(0);
    p.coins = 1_000_000;
    let mut expected = 50;
    for lvl in 1..=40 {
        assert_eq!(s.health_upgrade_cost, expected);
        assert_eq!(s.health_lvl, lvl);
        let before = s.health_upgrade_cost;
        s.try_buy_health_upgrade(&mut p);
        assert!(s.health_upgrade_cost > before);
        expected += 50;
    }
    assert_eq!(p.hp, 100 + 40 * 5);
}

#[test]
fn shop_next_price_divides_before_it_multiplies() {
    let mut s = Shop::new();
    let mut p = Player::new(0);
    s.health_upgrade_cost = 5;
    s.health_lvl = 3;
    s.try_buy_health_upgrade(&mut p);
    // 5 / 3 * 4
    assert_eq!(s.health_upgrade_cost, 4);
    assert_eq!(s.health_lvl, 4);
    assert_eq!(p.coins, 995);
    s.speed_upgrade_cost = 1;
    s.speed_lvl = 2;
    s.try_buy_speed_upgrade(&mut p);
    assert_eq!(s.speed_upgrade_cost, 0);
    assert_eq!(s.speed_lvl, 3);
    assert_eq!(p.coins, 994);
}

#[test]
fn shop_fire_rate_may_fall_below_zero() {
    let mut s = Shop::new();
    let mut p = Player::new(0);
    p.coins = i32::MAX;
    for _ in 0..11 {
        s.try_buy_fire_rate_upgrade(&mut p);
    }
    assert_eq!(p.fire_rate, -50);
    assert_eq!(s.fire_rate_lvl, 12);
    assert_eq!(s.fire_rate_cost, 400 * 12);
}
