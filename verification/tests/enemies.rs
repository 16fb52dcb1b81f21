use bullet_hell::bullet::Bullet;
use bullet_hell::enemy::Enemy;
use bullet_hell::geometry::Vec2;
use bullet_hell::hexagonal::HexagonEnemy;
use bullet_hell::player::Player;
use bullet_hell::triangle::TriangleEnemy;

fn player_at(x: i64, y: i64) -> Player {
    let mut p = Player::new(0);
    p.player_pos = Vec2::new(x, y);
    p
}

#[test]
fn triangle_new_scales_with_the_level() {
    let e = TriangleEnemy::new(Vec2::new(1, 2), 1);
    assert_eq!(e.size, 30_000);
    assert_eq!(e.pos, Vec2::new(1, 2));
    assert_eq!((e.hp, e.speed, e.damage, e.coins, e.points), (1, 3000, 1, 50, 10));
    let e = TriangleEnemy::new(Vec2::new(1, 2), 7);
    assert_eq!((e.hp, e.speed, e.damage, e.coins, e.points), (7, 21_000, 7, 350, 70));
}

#[test]
fn triangle_update_steps_toward_the_player() {
    let mut e = TriangleEnemy::new(Vec2::new(0, 0), 1);
    let p = player_at(300_000, 400_000);
    e.update(&p);
    assert_eq!(e.pos, Vec2::new(1800, 2400));
    e.update(&p);
    assert_eq!(e.pos, Vec2::new(3600, 4800));
}

#[test]
fn triangle_on_the_player_does_not_move() {
    let mut e = TriangleEnemy::new(Vec2::new(300_000, 400_000), 3);
    let p = player_at(300_000, 400_000);
    e.update(&p);
    assert_eq!(e.pos, Vec2::new(300_000, 400_000));
}

#[test]
fn triangle_take_damage_stops_at_zero() {
    let mut e = TriangleEnemy::new(Vec2::new(0, 0), 10);
    assert_eq!(e.take_damage(3), 7);
    assert_eq!(e.take_damage(7), 0);
    assert_eq!(e.take_damage(1), 0);
    let mut e = TriangleEnemy::new(Vec2::new(0, 0), 10);
    assert_eq!(e.take_damage(i32::MAX), 0);
    assert_eq!(e.get_hp(), 0);
}

#[test]
fn triangle_collision_box_starts_ten_pixels_before_its_position() {
    let e = TriangleEnemy::new(Vec2::new(100_000, 100_000), 1);
    // the enemy's box spans 90 to 120 pixels, the player's box 20 pixels around the player
    assert!(e.check_collision(&player_at(100_000, 100_000)));
    assert!(e.check_collision(&player_at(130_000, 130_000)));
    assert!(!e.check_collision(&player_at(130_001, 100_000)));
    assert!(e.check_collision(&player_at(80_000, 80_000)));
    assert!(!e.check_collision(&player_at(79_999, 100_000)));
}

#[test]
fn triangle_apply_damage_hurts_the_player_every_time() {
    let e = TriangleEnemy::new(Vec2::new(0, 0), 30);
    let mut p = player_at(0, 0);
    e.apply_damage(&mut p);
    assert_eq!(p.hp, 70);
    e.apply_damage(&mut p);
    e.apply_damage(&mut p);
    e.apply_damage(&mut p);
    assert_eq!(p.hp, 0);
}

#[test]
fn triangle_getters_return_the_fields() {
    let e = TriangleEnemy::new(Vec2::new(5, 6), 2);
    assert_eq!(*e.get_pos(), Vec2::new(5, 6));
    assert_eq!(e.get_hp(), 2);
    assert_eq!(e.get_coins(), 100);
    assert_eq!(e.get_points(), 20);
    assert_eq!(e.get_size(), 30_000);
}

#[test]
fn hexagon_new_scales_with_the_level() {
    let e = HexagonEnemy::new(Vec2::new(1, 2), 1);
    assert_eq!(e.size, 62_500);
    assert_eq!((e.hp, e.speed, e.damage, e.bullet_speed), (3, 1500, 2, 4000));
    assert_eq!((e.last_shot_time, e.shoot_cooldown, e.coins, e.points), (0, 3500, 100, 50));
    let e = HexagonEnemy::new(Vec2::new(1, 2), 3);
    assert_eq!((e.hp, e.speed, e.damage, e.bullet_speed), (9, 4500, 6, 12_000));
    assert_eq!((e.coins, e.points), (300, 150));
}

#[test]
fn hexagon_shoots_only_after_its_cooldown() {
    let mut e = HexagonEnemy::new(Vec2::new(0, 0), 1);
    let p = player_at(0, 900_000);
    let mut pool: Vec<Bullet> = Vec::new();
    e.update(&p, 3500, &mut pool);
    assert!(pool.is_empty());
    assert_eq!(e.last_shot_time, 0);
    e.update(&p, 3501, &mut pool);
    assert_eq!(pool.len(), 1);
    assert_eq!(e.last_shot_time, 3501);
    e.update(&p, 7001, &mut pool);
    assert_eq!(pool.len(), 1);
    e.update(&p, 7002, &mut pool);
    assert_eq!(pool.len(), 2);
}

#[test]
fn hexagon_after_one_cooldown_of_ticks_has_fired_exactly_once_at_the_player() {
    let start = Vec2::new(100_000, 100_000);
    let mut e = HexagonEnemy::new(start, 1);
    let p = player_at(700_000, 900_000);
    let mut pool: Vec<Bullet> = Vec::new();
    let tick = 16u64;
    let mut ticks = 0u64;
    let mut fired_from = None;
    while ticks * tick <= 3500 {
        ticks += 1;
        let before = pool.len();
        e.update(&p, ticks * tick, &mut pool);
        if pool.len() > before {
            fired_from = Some(e.pos);
        }
    }
    assert_eq!(ticks, 219);
    assert_eq!(pool.len(), 1);
    let from = fired_from.unwrap();
    assert_eq!(from, e.pos);
    assert_eq!(pool[0], Bullet::new(from, p.player_pos, 4000, 2, 10_000));
    // the shot flies along the line from the enemy to the player
    let want = ((900_000 - from.y) as f64).atan2((700_000 - from.x) as f64);
    let got = (pool[0].vel.y as f64).atan2(pool[0].vel.x as f64);
    assert!((want - got).abs() < 0.002);
    let speed = ((pool[0].vel.x.pow(2) + pool[0].vel.y.pow(2)) as f64).sqrt();
    assert!((speed - 4000.0).abs() < 8.0);
}

#[test]
fn hexagon_shoots_from_where_it_has_moved_to() {
    let mut e = HexagonEnemy::new(Vec2::new(0, 0), 2);
    let p = player_at(0, 900_000);
    let mut pool: Vec<Bullet> = Vec::new();
    e.update(&p, 4000, &mut pool);
    assert_eq!(e.pos, Vec2::new(0, 3000));
    assert_eq!(pool[0].pos, Vec2::new(0, 3000));
    assert_eq!(pool[0].vel, Vec2::new(0, 8000));
    assert_eq!(pool[0].damage, 4);
    assert_eq!(pool[0].size, 10_000);
}

#[test]
fn hexagon_with_clock_behind_its_last_shot_does_not_shoot() {
    let mut e = HexagonEnemy::new(Vec2::new(0, 0), 1);
    e.last_shot_time = 10_000;
    let mut pool: Vec<Bullet> = Vec::new();
    e.update(&player_at(0, 900_000), 100, &mut pool);
    assert!(pool.is_empty());
    assert_eq!(e.last_shot_time, 10_000);
}

#[test]
fn hexagon_collision_box_is_as_large_as_the_enemy() {
    let e = HexagonEnemy::new(Vec2::new(100_000, 100_000), 1);
    // the enemy's box spans 90 to 152.5 pixels
    assert!(e.check_collision(&player_at(162_500, 162_500)));
    assert!(!e.check_collision(&player_at(162_501, 100_000)));
    assert!(e.check_collision(&player_at(80_000, 100_000)));
    assert!(!e.check_collision(&player_at(100_000, 79_999)));
}

#[test]
fn hexagon_take_damage_and_getters() {
    let mut e = HexagonEnemy::new(Vec2::new(5, 6), 2);
    assert_eq!(e.take_damage(1), 5);
    assert_eq!(e.get_hp(), 5);
    assert_eq!(e.take_damage(50), 0);
    assert_eq!(*e.get_pos(), Vec2::new(5, 6));
    assert_eq!(e.get_coins(), 200);
    assert_eq!(e.get_points(), 100);
    assert_eq!(e.get_size(), 62_500);
    let mut p = player_at(0, 0);
    e.apply_damage(&mut p);
    assert_eq!(p.hp, 96);
}

#[test]
fn enemy_dispatches_to_its_kind() {
    let mut t = Enemy::Triangle(TriangleEnemy::new(Vec2::new(0, 0), 2));
    let mut h = Enemy::Hexagon(HexagonEnemy::new(Vec2::new(0, 0), 2));
    assert!(!t.is_boss());
    assert!(!h.is_boss());
    assert_eq!((t.get_hp(), t.get_coins(), t.get_points()), (2, 100, 20));
    assert_eq!((h.get_hp(), h.get_coins(), h.get_points()), (6, 200, 100));
    let p = player_at(0, 500_000);
    let mut pool: Vec<Bullet> = Vec::new();
    t.update_with(&p, 4000, 16, 0, &mut pool);
    assert!(pool.is_empty());
    assert_eq!(*t.get_pos(), Vec2::new(0, 6000));
    h.update_with(&p, 4000, 16, 0, &mut pool);
    assert_eq!(pool.len(), 1);
    assert_eq!(*h.get_pos(), Vec2::new(0, 3000));
    assert_eq!(t.take_damage(1), 1);
    assert_eq!(h.take_damage(10), 0);
    let mut q = player_at(0, 0);
    t.apply_damage(&mut q);
    h.apply_damage(&mut q);
    assert_eq!(q.hp, 94);
    assert!(!t.check_collision(&p));
    assert!(t.check_collision(&player_at(0, 20_000)));
}

#[test]
fn enemy_update_at_random_moves_like_update_with() {
    let p = player_at(0, 500_000);
    let mut a = Enemy::Triangle(TriangleEnemy::new(Vec2::new(0, 0), 1));
    let mut b = a;
    let mut pool_a: Vec<Bullet> = Vec::new();
    let mut pool_b: Vec<Bullet> = Vec::new();
    a.update(&p, 10, 10, &mut pool_a);
    b.update_with(&p, 10, 10, 2, &mut pool_b);
    assert_eq!(a, b);
    assert_eq!(pool_a, pool_b);
}
