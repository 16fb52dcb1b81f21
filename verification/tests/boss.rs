use bullet_hell::boss::{Boss, BossState};
use bullet_hell::bullet::Bullet;
use bullet_hell::circle::heading;
use bullet_hell::enemy::Enemy;
use bullet_hell::geometry::Vec2;
use bullet_hell::player::Player;

fn player_at(x: i64, y: i64) -> Player {
    let mut p = Player::new(0);
    p.player_pos = Vec2::new(x, y);
    p
}

fn angle(v: Vec2) -> f64 {
    (v.y as f64).atan2(v.x as f64)
}

#[test]
fn boss_new_scales_with_the_level() {
    let b = Boss::new(Vec2::new(1, 2), 1);
    assert_eq!(b.size, 50_000);
    assert_eq!(b.pos, Vec2::new(1, 2));
    assert_eq!((b.hp, b.max_hp, b.speed, b.damage, b.bullet_speed), (100, 100, 1000, 8, 4000));
    assert_eq!((b.shoot_cooldown, b.attack_timer), (3000, 0));
    assert_eq!(b.current_state, BossState::Idle);
    assert_eq!((b.coins, b.points, b.circle_bullets_count), (1000, 100, 8));
    let b = Boss::new(Vec2::new(1, 2), 4);
    assert_eq!((b.hp, b.max_hp, b.speed, b.damage, b.bullet_speed), (400, 400, 1000, 32, 16_000));
    assert_eq!((b.coins, b.points, b.circle_bullets_count), (4000, 400, 32));
}

#[test]
fn boss_state_from_roll() {
    assert_eq!(BossState::from_roll(0), BossState::AttackNormal);
    assert_eq!(BossState::from_roll(1), BossState::AttackCircle);
    assert_eq!(BossState::from_roll(2), BossState::AttackMachine);
}

#[test]
fn boss_state_prints_its_name() {
    assert_eq!(format!("{:?}", BossState::Idle), "Idle");
    assert_eq!(format!("{:?}", BossState::AttackNormal), "AttackNormal");
    assert_eq!(format!("{:?}", BossState::AttackCircle), "AttackCircle");
    assert_eq!(format!("{:?}", BossState::AttackMachine), "AttackMachine");
}

#[test]
fn boss_choose_move_changes_only_the_state() {
    let mut b = Boss::new(Vec2::new(1, 2), 2);
    let before = b;
    b.choose_move(1);
    assert_eq!(b.current_state, BossState::AttackCircle);
    b.current_state = BossState::Idle;
    assert_eq!(b, before);
}

#[test]
fn boss_choose_random_move_never_goes_idle() {
    let mut b = Boss::new(Vec2::new(1, 2), 2);
    let mut seen = [false; 3];
    for _ in 0..300 {
        b.choose_random_move();
        match b.current_state {
            BossState::Idle => panic!("idle after a draw"),
            BossState::AttackNormal => seen[0] = true,
            BossState::AttackCircle => seen[1] = true,
            BossState::AttackMachine => seen[2] = true,
        }
    }
    assert_eq!(seen, [true, true, true]);
}

#[test]
fn boss_idle_tick_moves_and_draws_but_gathers_no_time() {
    let mut b = Boss::new(Vec2::new(0, 0), 1);
    let mut pool: Vec<Bullet> = Vec::new();
    b.update_with(&player_at(0, 500_000), 5000, 0, &mut pool);
    assert!(pool.is_empty());
    assert_eq!(b.pos, Vec2::new(0, 1000));
    assert_eq!(b.attack_timer, 0);
    assert_eq!(b.current_state, BossState::AttackNormal);
}

#[test]
fn boss_attack_waits_for_the_cooldown() {
    let mut b = Boss::new(Vec2::new(0, 0), 1);
    b.current_state = BossState::AttackNormal;
    let p = player_at(0, 500_000);
    let mut pool: Vec<Bullet> = Vec::new();
    b.update_with(&p, 1000, 0, &mut pool);
    assert!(pool.is_empty());
    assert_eq!(b.attack_timer, 1000);
    b.update_with(&p, 1999, 0, &mut pool);
    assert!(pool.is_empty());
    assert_eq!(b.attack_timer, 2999);
    b.update_with(&p, 1, 0, &mut pool);
    assert_eq!(pool.len(), 4);
    assert_eq!(b.attack_timer, 0);
}

#[test]
fn boss_timer_carries_over_a_change_of_state() {
    let mut b = Boss::new(Vec2::new(0, 0), 1);
    b.current_state = BossState::AttackNormal;
    let p = player_at(0, 500_000);
    let mut pool: Vec<Bullet> = Vec::new();
    b.update_with(&p, 2000, 2, &mut pool);
    assert!(pool.is_empty());
    assert_eq!(b.current_state, BossState::AttackMachine);
    b.update_with(&p, 1000, 1, &mut pool);
    assert_eq!(pool.len(), 1);
    assert_eq!(b.attack_timer, 0);
    assert_eq!(b.current_state, BossState::AttackCircle);
}

#[test]
fn boss_spread_sends_one_bullet_along_each_axis_direction() {
    let mut b = Boss::new(Vec2::new(500_000, 500_000), 2);
    b.current_state = BossState::AttackNormal;
    let mut pool: Vec<Bullet> = Vec::new();
    b.update_with(&player_at(500_000, 900_000), 3000, 0, &mut pool);
    let from = Vec2::new(500_000, 501_000);
    assert_eq!(b.pos, from);
    let shot = |x: i64, y: i64| Bullet { pos: from, vel: Vec2::new(x, y), damage: 16, size: 20_000 };
    assert_eq!(pool, vec![shot(0, 8000), shot(0, -8000), shot(-8000, 0), shot(8000, 0)]);
}

#[test]
fn boss_circle_of_eight_is_evenly_spaced() {
    let mut b = Boss::new(Vec2::new(500_000, 500_000), 1);
    assert_eq!(b.circle_bullets_count, 8);
    b.current_state = BossState::AttackCircle;
    let mut pool: Vec<Bullet> = Vec::new();
    b.update_with(&player_at(500_000, 500_000), 2999, 1, &mut pool);
    assert!(pool.is_empty());
    b.update_with(&player_at(500_000, 500_000), 1, 1, &mut pool);
    assert_eq!(pool.len(), 8);
    let step = 2.0 * std::f64::consts::PI / 8.0;
    for i in 0..8 {
        assert_eq!(pool[i].pos, Vec2::new(500_000, 500_000));
        assert_eq!(pool[i].damage, 8);
        assert_eq!(pool[i].size, 20_000);
        let next = pool[(i + 1) % 8].vel;
        let mut turn = angle(next) - angle(pool[i].vel);
        if turn < 0.0 {
            turn += 2.0 * std::f64::consts::PI;
        }
        assert!((turn - step).abs() < 0.005, "{} {}", i, turn);
        let speed = ((pool[i].vel.x.pow(2) + pool[i].vel.y.pow(2)) as f64).sqrt();
        assert!((speed - 4000.0).abs() < 8.0, "{} {}", i, speed);
    }
    assert_eq!(pool[0].vel, Vec2::new(4000, 0));
    assert_eq!(pool[2].vel, Vec2::new(0, 4000));
    assert_eq!(pool[4].vel, Vec2::new(-4000, 0));
    assert_eq!(pool[6].vel, Vec2::new(0, -4000));
    assert_eq!(pool[1].vel, Vec2::new(2828, 2828));
    assert_eq!(pool[3].vel, Vec2::new(-2828, 2828));
    assert_eq!(pool[5].vel, Vec2::new(-2828, -2828));
    assert_eq!(pool[7].vel, Vec2::new(2828, -2828));
}

#[test]
fn boss_circle_grows_with_the_level() {
    let mut b = Boss::new(Vec2::new(500_000, 500_000), 3);
    b.current_state = BossState::AttackCircle;
    let mut pool: Vec<Bullet> = Vec::new();
    b.update_with(&player_at(0, 0), 3000, 1, &mut pool);
    assert_eq!(pool.len(), 24);
    let step = 2.0 * std::f64::consts::PI / 24.0;
    for i in 0..24 {
        let want = step * i as f64;
        let mut got = angle(pool[i].vel);
        if got < -0.001 {
            got += 2.0 * std::f64::consts::PI;
        }
        assert!((want - got).abs() < 0.005, "{} {} {}", i, want, got);
    }
}

#[test]
fn boss_circle_of_none_sends_nothing_and_still_winds_back() {
    let mut b = Boss::new(Vec2::new(500_000, 500_000), 0);
    b.current_state = BossState::AttackCircle;
    let mut pool: Vec<Bullet> = Vec::new();
    b.update_with(&player_at(0, 0), 3000, 1, &mut pool);
    assert!(pool.is_empty());
    assert_eq!(b.attack_timer, 0);
}

#[test]
fn circle_heading_is_close_to_sine_and_cosine() {
    for n in [1usize, 2, 3, 5, 8, 12, 16, 100, 360, 1000] {
        for i in 0..n {
            let h = heading(i, n);
            let a = 2.0 * std::f64::consts::PI * i as f64 / n as f64;
            assert!((h.x as f64 / 1000.0 - a.cos()).abs() < 0.003, "{} {}", i, n);
            assert!((h.y as f64 / 1000.0 - a.sin()).abs() < 0.003, "{} {}", i, n);
        }
    }
}

#[test]
fn circle_heading_exact_values() {
    assert_eq!(heading(0, 8), Vec2::new(1000, 0));
    assert_eq!(heading(1, 8), Vec2::new(705, 705));
    assert_eq!(heading(2, 8), Vec2::new(0, 1000));
    assert_eq!(heading(3, 8), Vec2::new(-705, 705));
    assert_eq!(heading(4, 8), Vec2::new(-1000, 0));
    assert_eq!(heading(5, 8), Vec2::new(-705, -705));
    assert_eq!(heading(6, 8), Vec2::new(0, -1000));
    assert_eq!(heading(7, 8), Vec2::new(705, -705));
    assert_eq!(heading(0, 1), Vec2::new(1000, 0));
    // a third of a turn: one quarter turn and a third of the next
    // cosine 4000 * 8 / 37 = 864, sine 4000 * 5 / 40 = 500
    assert_eq!(heading(1, 3), Vec2::new(-500, 864));
    assert_eq!(heading(4_294_967_294, 4_294_967_295), Vec2::new(999, 0));
}

#[test]
fn circle_heading_turns_by_a_quarter_every_quarter_of_the_way() {
    for n in [4usize, 8, 16, 24, 400] {
        for i in 0..(n - n / 4) {
            let a = heading(i, n);
            let b = heading(i + n / 4, n);
            assert_eq!(b, Vec2::new(-a.y, a.x));
        }
    }
}

#[test]
fn boss_big_bullet_is_twice_as_fast_and_twice_as_harmful() {
    let mut b = Boss::new(Vec2::new(500_000, 500_000), 2);
    b.current_state = BossState::AttackMachine;
    let p = player_at(500_000, 900_000);
    let mut pool: Vec<Bullet> = Vec::new();
    b.update_with(&p, 3000, 0, &mut pool);
    assert_eq!(
        pool,
        vec![Bullet { pos: Vec2::new(500_000, 501_000), vel: Vec2::new(0, 16_000), damage: 32, size: 50_000 }]
    );
    assert_eq!(b.current_state, BossState::AttackNormal);
}

#[test]
fn boss_update_at_random_leaves_an_attack_state() {
    let p = player_at(500_000, 900_000);
    for _ in 0..50 {
        let mut b = Boss::new(Vec2::new(500_000, 500_000), 1);
        let mut pool: Vec<Bullet> = Vec::new();
        b.update(&p, 16, &mut pool);
        assert!(b.current_state != BossState::Idle);
        assert_eq!(b.pos, Vec2::new(500_000, 501_000));
        assert!(pool.is_empty());
        let mut e = Enemy::Boss(Boss::new(Vec2::new(500_000, 500_000), 1));
        e.update(&p, 16, 16, &mut pool);
        match e {
            Enemy::Boss(inner) => assert!(inner.current_state != BossState::Idle),
            _ => panic!("a boss stays a boss"),
        }
    }
}

#[test]
fn boss_collision_box_is_centered() {
    let b = Boss::new(Vec2::new(100_000, 100_000), 1);
    // the boss spans 75 to 125 pixels
    assert!(b.check_collision(&player_at(135_000, 135_000)));
    assert!(!b.check_collision(&player_at(135_001, 100_000)));
    assert!(b.check_collision(&player_at(65_000, 65_000)));
    assert!(!b.check_collision(&player_at(100_000, 64_999)));
}

#[test]
fn boss_take_damage_and_getters() {
    let mut b = Boss::new(Vec2::new(5, 6), 1);
    assert!(b.is_boss());
    assert_eq!(b.take_damage(30), 70);
    assert_eq!(b.get_hp(), 70);
    assert_eq!(b.max_hp, 100);
    assert_eq!(b.take_damage(71), 0);
    assert_eq!(b.take_damage(i32::MAX), 0);
    assert_eq!(*b.get_pos(), Vec2::new(5, 6));
    assert_eq!(b.get_coins(), 1000);
    assert_eq!(b.get_points(), 100);
    assert_eq!(b.get_size(), 50_000);
    let mut p = player_at(0, 0);
    b.apply_damage(&mut p);
    assert_eq!(p.hp, 92);
    assert!(Enemy::Boss(b).is_boss());
}
