use bullet_hell::boss::{Boss, BossState};
use bullet_hell::bullet::Bullet;
use bullet_hell::enemy::Enemy;
use bullet_hell::game::{roll_moves, volley, Game, GameState, SpawnDice};
use bullet_hell::pruning::keep_unmarked;
use bullet_hell::geometry::Vec2;
use bullet_hell::hexagonal::HexagonEnemy;
use bullet_hell::player::Input;
use bullet_hell::triangle::TriangleEnemy;

fn no_spawn() -> SpawnDice {
    SpawnDice { chance: 99, side: 0, x: 0, y: 0, kind: 0, boss: 1 }
}

fn spawn(side: u64, x: u64, y: u64, kind: u64, boss: u64) -> SpawnDice {
    SpawnDice { chance: 0, side, x, y, kind, boss }
}

fn playing() -> Game {
    let mut g = Game::new(0);
    g.game_state = GameState::Playing;
    g
}

fn still(x: i64, y: i64, damage: i32) -> Bullet {
    Bullet { pos: Vec2::new(x, y), vel: Vec2::new(0, 0), damage, size: 10_000 }
}

fn tick(g: &mut Game, input: &Input, now: u64, dt: u64) {
    let moves = vec![0u64; g.enemies.len()];
    g.update_with(input, now, dt, &moves, &no_spawn());
}

#[test]
fn game_new_starts_in_the_menu() {
    let g = Game::new(5);
    assert_eq!(g.game_state, GameState::Menu);
    assert_eq!(g.level, 1);
    assert_eq!(g.killed_enemies, 0);
    assert_eq!(g.spawn_rate, 2);
    assert!(!g.is_boss);
    assert!(g.enemies.is_empty());
    assert!(g.bullets.is_empty());
    assert_eq!(g.player.hp, 100);
    assert_eq!(g.player.last_shot_time, 5);
    assert_eq!(g.shop.health_upgrade_cost, 50);
}

#[test]
fn game_in_the_menu_waits_for_the_start_key() {
    let mut g = Game::new(0);
    let mut input = Input::idle();
    input.right = true;
    input.fire = true;
    input.buy_health = true;
    g.update_with(&input, 1000, 16, &vec![], &spawn(0, 5, 5, 0, 0));
    assert_eq!(g.game_state, GameState::Menu);
    assert_eq!(g.player.player_pos, Vec2::new(400_000, 300_000));
    assert_eq!(g.player.coins, 1000);
    assert!(g.enemies.is_empty());
    assert!(g.player.bullets.is_empty());
    input.start = true;
    g.update_with(&input, 1016, 16, &vec![], &spawn(0, 5, 5, 0, 0));
    assert_eq!(g.game_state, GameState::Playing);
    assert_eq!(g.player.player_pos, Vec2::new(400_000, 300_000));
    assert!(g.enemies.is_empty());
}

#[test]
fn game_over_stays_over() {
    let mut g = playing();
    g.game_state = GameState::GameOver;
    g.enemies.push(Enemy::Triangle(TriangleEnemy::new(Vec2::new(0, 0), 1)));
    let mut input = Input::idle();
    input.start = true;
    input.left = true;
    g.update_with(&input, 1000, 16, &vec![0], &spawn(0, 5, 5, 0, 0));
    assert_eq!(g.game_state, GameState::GameOver);
    assert_eq!(g.enemies.len(), 1);
    assert_eq!(*g.enemies[0].get_pos(), Vec2::new(0, 0));
    assert_eq!(g.player.player_pos, Vec2::new(400_000, 300_000));
}

#[test]
fn spawn_places_the_enemy_on_the_side_that_was_drawn() {
    let mut g = playing();
    g.spawn_enemy_with(&spawn(0, 123_000, 456_000, 0, 5));
    g.spawn_enemy_with(&spawn(1, 123_000, 456_000, 0, 5));
    g.spawn_enemy_with(&spawn(2, 123_000, 456_000, 0, 5));
    g.spawn_enemy_with(&spawn(3, 123_000, 456_000, 0, 5));
    assert_eq!(*g.enemies[0].get_pos(), Vec2::new(123_000, 0));
    assert_eq!(*g.enemies[1].get_pos(), Vec2::new(1_500_000, 456_000));
    assert_eq!(*g.enemies[2].get_pos(), Vec2::new(123_000, 1_000_000));
    assert_eq!(*g.enemies[3].get_pos(), Vec2::new(0, 456_000));
    assert_eq!(spawn(2, 7, 9, 0, 0).position(), Vec2::new(7, 1_000_000));
}

#[test]
fn spawn_brings_the_kind_that_was_drawn_at_the_current_level() {
    let mut g = playing();
    g.level = 3;
    g.spawn_enemy_with(&spawn(0, 10, 20, 0, 5));
    g.spawn_enemy_with(&spawn(0, 10, 20, 1, 5));
    g.spawn_enemy_with(&spawn(0, 10, 20, 2, 0));
    assert_eq!(g.enemies[0], Enemy::Triangle(TriangleEnemy::new(Vec2::new(10, 0), 3)));
    assert_eq!(g.enemies[1], Enemy::Hexagon(HexagonEnemy::new(Vec2::new(10, 0), 3)));
    assert_eq!(g.enemies[2], Enemy::Boss(Boss::new(Vec2::new(10, 0), 3)));
    assert!(g.is_boss);
}

#[test]
fn spawn_brings_a_boss_only_on_zero_and_only_one_at_a_time() {
    let mut g = playing();
    for boss in 1..10 {
        g.spawn_enemy_with(&spawn(0, 10, 20, 2, boss));
    }
    assert!(g.enemies.is_empty());
    assert!(!g.is_boss);
    g.spawn_enemy_with(&spawn(0, 10, 20, 2, 0));
    assert_eq!(g.enemies.len(), 1);
    assert!(g.is_boss);
    g.spawn_enemy_with(&spawn(0, 10, 20, 2, 0));
    assert_eq!(g.enemies.len(), 1);
    g.spawn_enemy_with(&spawn(0, 10, 20, 0, 0));
    assert_eq!(g.enemies.len(), 2);
    assert!(g.is_boss);
}

#[test]
fn spawn_at_random_stays_on_the_edge() {
    let mut g = playing();
    for _ in 0..200 {
        g.spawn_enemy();
    }
    assert!(!g.enemies.is_empty());
    let mut bosses = 0;
    for e in &g.enemies {
        let p = *e.get_pos();
        assert!(p.x >= 0 && p.x <= 1_500_000 && p.y >= 0 && p.y <= 1_000_000);
        assert!(p.x == 0 || p.x == 1_500_000 || p.y == 0 || p.y == 1_000_000);
        if e.is_boss() {
            bosses += 1;
        }
    }
    assert!(bosses <= 1);
    assert_eq!(g.is_boss, bosses == 1);
}

#[test]
fn spawn_dice_at_random_are_in_range() {
    let mut seen_side = [false; 4];
    let mut seen_kind = [false; 3];
    for _ in 0..2000 {
        let d = SpawnDice::roll();
        assert!(d.chance < 100);
        assert!(d.side < 4);
        assert!(d.x < 1_500_000);
        assert!(d.y < 1_000_000);
        assert!(d.kind < 3);
        assert!(d.boss < 10);
        seen_side[d.side as usize] = true;
        seen_kind[d.kind as usize] = true;
    }
    assert_eq!(seen_side, [true; 4]);
    assert_eq!(seen_kind, [true; 3]);
}

#[test]
fn roll_moves_gives_one_draw_per_enemy() {
    assert!(roll_moves(0).is_empty());
    let moves = roll_moves(500);
    assert_eq!(moves.len(), 500);
    assert!(moves.iter().all(|m| *m < 3));
    assert!(moves.iter().any(|m| *m == 0));
    assert!(moves.iter().any(|m| *m == 2));
}

#[test]
fn tick_spawns_only_when_the_chance_is_below_the_rate() {
    let mut g = playing();
    let mut dice = spawn(0, 10, 20, 0, 0);
    dice.chance = 2;
    g.update_with(&Input::idle(), 16, 16, &vec![], &dice);
    assert!(g.enemies.is_empty());
    dice.chance = 1;
    g.update_with(&Input::idle(), 32, 16, &vec![], &dice);
    assert_eq!(g.enemies.len(), 1);
    // the newcomer has not moved yet
    assert_eq!(*g.enemies[0].get_pos(), Vec2::new(10, 0));
}

#[test]
fn tick_buys_what_the_keys_ask_for_in_order() {
    let mut g = playing();
    let mut input = Input::idle();
    input.buy_health = true;
    input.buy_damage = true;
    input.buy_speed = true;
    input.buy_fire_rate = true;
    tick(&mut g, &input, 16, 16);
    // 1000 coins: health 50, damage 500, speed 200, and 250 are too few for the fire rate
    assert_eq!(g.player.coins, 250);
    assert_eq!(g.player.hp, 105);
    assert_eq!(g.player.damage, 2);
    assert_eq!(g.player.speed, 7000);
    assert_eq!(g.player.fire_rate, 500);
    assert_eq!(g.shop.health_upgrade_cost, 100);
    assert_eq!(g.shop.damage_upgrade_cost, 1000);
    assert_eq!(g.shop.speed_upgrade_cost, 400);
    assert_eq!(g.shop.fire_rate_cost, 400);
    assert_eq!(g.shop.fire_rate_lvl, 1);
}

#[test]
fn handle_shop_buy_alone() {
    let mut g = playing();
    let mut input = Input::idle();
    input.buy_fire_rate = true;
    g.handle_shop_buy(&input);
    assert_eq!(g.player.coins, 600);
    assert_eq!(g.player.fire_rate, 450);
    g.handle_shop_buy(&Input::idle());
    assert_eq!(g.player.coins, 600);
}

#[test]
fn tick_contact_damage_repeats_every_tick_and_leaves_the_enemy() {
    let mut g = playing();
    g.enemies.push(Enemy::Triangle(TriangleEnemy::new(g.player.player_pos, 7)));
    tick(&mut g, &Input::idle(), 16, 16);
    assert_eq!(g.player.hp, 93);
    tick(&mut g, &Input::idle(), 32, 16);
    assert_eq!(g.player.hp, 86);
    assert_eq!(g.enemies.len(), 1);
    assert_eq!(g.killed_enemies, 0);
}

#[test]
fn tick_ends_the_game_when_health_runs_out() {
    let mut g = playing();
    g.enemies.push(Enemy::Triangle(TriangleEnemy::new(g.player.player_pos, 60)));
    tick(&mut g, &Input::idle(), 16, 16);
    assert_eq!(g.player.hp, 40);
    assert_eq!(g.game_state, GameState::Playing);
    tick(&mut g, &Input::idle(), 32, 16);
    assert_eq!(g.player.hp, 0);
    assert_eq!(g.game_state, GameState::GameOver);
    tick(&mut g, &Input::idle(), 48, 16);
    assert_eq!(g.player.hp, 0);
    assert_eq!(g.enemies.len(), 1);
}

#[test]
fn tick_kill_pays_the_bounty_once_and_removes_the_enemy() {
    let mut g = playing();
    let at = Vec2::new(1_000_000, 800_000);
    let mut enemy = TriangleEnemy::new(at, 2);
    enemy.speed = 0;
    g.enemies.push(Enemy::Triangle(enemy));
    // three shots on the enemy, each enough to bring its health to zero
    g.player.bullets.push(still(at.x, at.y, 5));
    g.player.bullets.push(still(at.x + 1000, at.y, 5));
    g.player.bullets.push(still(at.x, at.y - 1000, 5));
    // and one far away
    g.player.bullets.push(still(100_000, 100_000, 5));
    tick(&mut g, &Input::idle(), 16, 16);
    assert!(g.enemies.is_empty());
    assert_eq!(g.killed_enemies, 1);
    assert_eq!(g.player.coins, 1000 + 100);
    assert_eq!(g.player.points, 20);
    assert_eq!(g.player.bullets, vec![still(100_000, 100_000, 5)]);
}

#[test]
fn tick_wounded_enemy_stays() {
    let mut g = playing();
    let at = Vec2::new(1_000_000, 800_000);
    let mut enemy = HexagonEnemy::new(at, 2);
    enemy.speed = 0;
    g.enemies.push(Enemy::Hexagon(enemy));
    g.player.bullets.push(still(at.x, at.y, 5));
    tick(&mut g, &Input::idle(), 16, 16);
    assert_eq!(g.enemies.len(), 1);
    assert_eq!(g.enemies[0].get_hp(), 1);
    assert!(g.player.bullets.is_empty());
    assert_eq!(g.killed_enemies, 0);
    assert_eq!(g.player.points, 0);
}

#[test]
fn tick_shot_is_used_up_on_the_first_enemy_that_it_touches() {
    let mut g = playing();
    let at = Vec2::new(1_000_000, 800_000);
    let mut first = TriangleEnemy::new(at, 3);
    first.speed = 0;
    let mut second = TriangleEnemy::new(at, 3);
    second.speed = 0;
    g.enemies.push(Enemy::Triangle(first));
    g.enemies.push(Enemy::Triangle(second));
    g.player.bullets.push(still(at.x, at.y, 2));
    tick(&mut g, &Input::idle(), 16, 16);
    assert_eq!(g.enemies.len(), 2);
    assert_eq!(g.enemies[0].get_hp(), 1);
    assert_eq!(g.enemies[1].get_hp(), 3);
    assert!(g.player.bullets.is_empty());
}

#[test]
fn tick_removes_several_enemies_and_keeps_the_order_of_the_rest() {
    let mut g = playing();
    for i in 0..6i64 {
        let mut e = TriangleEnemy::new(Vec2::new(200_000 * i + 100_000, 900_000), 1);
        e.speed = 0;
        e.points = i as i32;
        g.enemies.push(Enemy::Triangle(e));
    }
    for i in [1i64, 2, 4] {
        g.player.bullets.push(still(200_000 * i + 100_000, 900_000, 1));
    }
    tick(&mut g, &Input::idle(), 16, 16);
    let left: Vec<i32> = g.enemies.iter().map(|e| e.get_points()).collect();
    assert_eq!(left, vec![0, 3, 5]);
    assert_eq!(g.killed_enemies, 3);
    assert_eq!(g.player.points, 1 + 2 + 4);
    assert_eq!(g.player.coins, 1000 + 150);
    assert!(g.player.bullets.is_empty());
}

#[test]
fn tick_killing_the_boss_frees_its_place() {
    let mut g = playing();
    let at = Vec2::new(1_000_000, 800_000);
    let mut boss = Boss::new(at, 1);
    boss.speed = 0;
    boss.hp = 1;
    g.enemies.push(Enemy::Boss(boss));
    g.is_boss = true;
    g.player.bullets.push(still(at.x, at.y, 1));
    tick(&mut g, &Input::idle(), 16, 16);
    assert!(g.enemies.is_empty());
    assert!(!g.is_boss);
    assert_eq!(g.player.coins, 2000);
    assert_eq!(g.player.points, 100);
}

#[test]
fn tick_killing_another_enemy_leaves_the_boss_its_place() {
    let mut g = playing();
    let at = Vec2::new(1_000_000, 800_000);
    let mut boss = Boss::new(Vec2::new(100_000, 100_000), 1);
    boss.speed = 0;
    g.enemies.push(Enemy::Boss(boss));
    g.is_boss = true;
    let mut e = TriangleEnemy::new(at, 1);
    e.speed = 0;
    g.enemies.push(Enemy::Triangle(e));
    g.player.bullets.push(still(at.x, at.y, 1));
    tick(&mut g, &Input::idle(), 16, 16);
    assert_eq!(g.enemies.len(), 1);
    assert!(g.is_boss);
}

#[test]
fn tick_player_shots_leave_when_they_are_off_the_field() {
    let mut g = playing();
    g.player.bullets.push(Bullet { pos: Vec2::new(10_000, 500_000), vel: Vec2::new(-6000, 0), damage: 1, size: 10_000 });
    tick(&mut g, &Input::idle(), 16, 16);
    assert_eq!(g.player.bullets.len(), 1);
    assert_eq!(g.player.bullets[0].pos, Vec2::new(4000, 500_000));
    tick(&mut g, &Input::idle(), 32, 16);
    assert!(g.player.bullets.is_empty());
}

#[test]
fn tick_shot_on_the_border_stays() {
    let mut g = playing();
    g.player.bullets.push(Bullet { pos: Vec2::new(6000, 500_000), vel: Vec2::new(-6000, 0), damage: 1, size: 10_000 });
    g.bullets.push(Bullet { pos: Vec2::new(1_594_000, 1_094_000), vel: Vec2::new(6000, 6000), damage: 1, size: 10_000 });
    tick(&mut g, &Input::idle(), 16, 16);
    assert_eq!(g.player.bullets[0].pos, Vec2::new(0, 500_000));
    assert_eq!(g.bullets[0].pos, Vec2::new(1_600_000, 1_100_000));
    tick(&mut g, &Input::idle(), 32, 16);
    assert!(g.player.bullets.is_empty());
    assert!(g.bullets.is_empty());
}

#[test]
fn tick_enemy_shots_hurt_once_and_leave() {
    let mut g = playing();
    let at = g.player.player_pos;
    g.bullets.push(Bullet { pos: Vec2::new(at.x - 30_000, at.y), vel: Vec2::new(10_000, 0), damage: 9, size: 10_000 });
    g.bullets.push(Bullet { pos: Vec2::new(at.x - 300_000, at.y), vel: Vec2::new(10_000, 0), damage: 9, size: 10_000 });
    g.bullets.push(Bullet { pos: Vec2::new(at.x, at.y + 10_000), vel: Vec2::new(0, -5000), damage: 4, size: 10_000 });
    tick(&mut g, &Input::idle(), 16, 16);
    assert_eq!(g.player.hp, 100 - 9 - 4);
    assert_eq!(g.bullets.len(), 1);
    assert_eq!(g.bullets[0].pos, Vec2::new(at.x - 290_000, at.y));
    tick(&mut g, &Input::idle(), 32, 16);
    assert_eq!(g.player.hp, 87);
    assert_eq!(g.bullets.len(), 1);
}

#[test]
fn handle_player_bullet_logic_marks_hits_and_leavers() {
    let mut g = playing();
    let at = g.player.player_pos;
    g.bullets.push(Bullet { pos: at, vel: Vec2::new(0, 0), damage: 1, size: 10_000 });
    g.bullets.push(Bullet { pos: Vec2::new(0, 0), vel: Vec2::new(-1, 0), damage: 1, size: 10_000 });
    g.bullets.push(Bullet { pos: Vec2::new(0, 0), vel: Vec2::new(1, 0), damage: 1, size: 10_000 });
    let gone = g.handle_player_bullet_logic();
    assert_eq!(gone, vec![true, true, false]);
    assert_eq!(g.bullets.len(), 3);
    assert_eq!(g.bullets[1].pos, Vec2::new(-1, 0));
    assert_eq!(g.player.hp, 99);
}

#[test]
fn handle_enemy_bullet_logic_marks_the_fallen_and_the_spent() {
    let mut g = playing();
    let at = Vec2::new(1_000_000, 800_000);
    let mut weak = TriangleEnemy::new(at, 1);
    weak.speed = 0;
    let mut far = TriangleEnemy::new(Vec2::new(100_000, 900_000), 1);
    far.speed = 0;
    g.enemies.push(Enemy::Triangle(far));
    g.enemies.push(Enemy::Triangle(weak));
    g.player.bullets.push(still(at.x, at.y, 1));
    g.player.bullets.push(still(500_000, 500_000, 1));
    g.player.bullets.push(still(-5, 500_000, 1));
    let (fallen, gone) = g.handle_enemy_bullet_logic(16, 16, &vec![0, 0]);
    assert_eq!(fallen, vec![false, true]);
    assert_eq!(gone, vec![true, false, true]);
    assert_eq!(g.enemies.len(), 2);
    assert_eq!(g.player.bullets.len(), 3);
    assert_eq!(g.killed_enemies, 1);
}

#[test]
fn volley_passes_spent_shots_through() {
    let at = Vec2::new(1_000_000, 800_000);
    let mut enemy = Enemy::Triangle(TriangleEnemy::new(at, 10));
    let shots = vec![still(at.x, at.y, 3), still(at.x, at.y, 3), still(0, 0, 3), still(at.x, at.y, 4)];
    let mut spent = vec![true, false, false, false];
    assert!(!volley(&mut enemy, &shots, &mut spent));
    assert_eq!(enemy.get_hp(), 3);
    assert_eq!(spent, vec![true, true, false, true]);
    assert!(volley(&mut enemy, &vec![still(at.x, at.y, 3)], &mut vec![false]));
    assert_eq!(enemy.get_hp(), 0);
    // an enemy without health still uses shots up
    let mut used = vec![false];
    assert!(volley(&mut enemy, &vec![still(at.x, at.y, 3)], &mut used));
    assert_eq!(used, vec![true]);
}

#[test]
fn engage_runs_the_turn_of_one_enemy() {
    let mut g = playing();
    let mut e = HexagonEnemy::new(Vec2::new(400_000, 0), 1);
    e.hp = 1;
    g.enemies.push(Enemy::Hexagon(e));
    g.player.bullets.push(still(400_000, 1500, 1));
    let mut spent = vec![false];
    let felled = g.engage(0, 4000, 16, 0, &mut spent);
    assert!(felled);
    assert_eq!(spent, vec![true]);
    assert_eq!(*g.enemies[0].get_pos(), Vec2::new(400_000, 1500));
    assert_eq!(g.bullets.len(), 1);
    assert_eq!(g.bullets[0].vel, Vec2::new(0, 4000));
    assert_eq!(g.player.points, 50);
    assert_eq!(g.player.coins, 1100);
    assert_eq!(g.killed_enemies, 1);
}

#[test]
fn keep_unmarked_keeps_the_order() {
    let items = vec![10, 11, 12, 13, 14];
    assert_eq!(keep_unmarked(&items, &vec![false, true, false, true, true]), vec![10, 12]);
    assert_eq!(keep_unmarked(&items, &vec![true; 5]), Vec::<i32>::new());
    assert_eq!(keep_unmarked(&items, &vec![false; 5]), items);
    assert_eq!(keep_unmarked(&Vec::<i32>::new(), &vec![]), Vec::<i32>::new());
}

#[test]
fn level_rises_after_exactly_thirty_kills() {
    let mut g = playing();
    let at = Vec2::new(1_000_000, 800_000);
    for kill in 1..=30 {
        let mut e = TriangleEnemy::new(at, 1);
        e.speed = 0;
        g.enemies.push(Enemy::Triangle(e));
        g.player.bullets.push(still(at.x, at.y, 1));
        tick(&mut g, &Input::idle(), 16 * kill, 16);
        if kill < 30 {
            assert_eq!(g.killed_enemies, kill as i32);
            assert_eq!(g.level, 1);
            assert_eq!(g.spawn_rate, 2);
        }
    }
    assert_eq!(g.level, 2);
    assert_eq!(g.killed_enemies, 0);
    assert_eq!(g.spawn_rate, 3);
    tick(&mut g, &Input::idle(), 1000, 16);
    assert_eq!(g.level, 2);
    assert_eq!(g.killed_enemies, 0);
}

#[test]
fn level_rises_once_when_one_tick_brings_more_than_thirty_kills() {
    let mut g = playing();
    g.killed_enemies = 28;
    let at = Vec2::new(1_000_000, 800_000);
    for i in 0..5i64 {
        let mut e = TriangleEnemy::new(Vec2::new(at.x, at.y - 50_000 * i), 1);
        e.speed = 0;
        g.enemies.push(Enemy::Triangle(e));
        g.player.bullets.push(still(at.x, at.y - 50_000 * i, 1));
    }
    tick(&mut g, &Input::idle(), 16, 16);
    assert_eq!(g.level, 2);
    assert_eq!(g.killed_enemies, 0);
    assert_eq!(g.spawn_rate, 3);
}

#[test]
fn check_level_alone() {
    let mut g = playing();
    g.killed_enemies = 29;
    g.check_level();
    assert_eq!((g.level, g.killed_enemies, g.spawn_rate), (1, 29, 2));
    g.killed_enemies = 30;
    g.check_level();
    assert_eq!((g.level, g.killed_enemies, g.spawn_rate), (2, 0, 3));
}

#[test]
fn tick_new_enemy_comes_at_the_level_before_the_rise() {
    let mut g = playing();
    g.killed_enemies = 30;
    g.update_with(&Input::idle(), 16, 16, &vec![], &spawn(3, 0, 77, 1, 0));
    assert_eq!(g.level, 2);
    assert_eq!(g.enemies[0], Enemy::Hexagon(HexagonEnemy::new(Vec2::new(0, 77), 1)));
}

#[test]
fn tick_with_no_time_and_no_input_keeps_the_player_and_what_does_not_move() {
    let mut g = playing();
    let mut still_enemy = TriangleEnemy::new(Vec2::new(900_000, 900_000), 1);
    still_enemy.speed = 0;
    g.enemies.push(Enemy::Triangle(still_enemy));
    g.enemies.push(Enemy::Triangle(TriangleEnemy::new(Vec2::new(400_000, 800_000), 1)));
    let mut boss = Boss::new(Vec2::new(1_200_000, 200_000), 1);
    boss.speed = 0;
    boss.current_state = BossState::AttackNormal;
    boss.attack_timer = 100;
    g.enemies.push(Enemy::Boss(boss));
    g.bullets.push(still(50_000, 50_000, 1));
    let player_before = g.player.player_pos;
    g.update_with(&Input::idle(), 0, 0, &vec![0, 0, 0], &no_spawn());
    assert_eq!(g.player.player_pos, player_before);
    assert_eq!(*g.enemies[0].get_pos(), Vec2::new(900_000, 900_000));
    assert_eq!(*g.enemies[2].get_pos(), Vec2::new(1_200_000, 200_000));
    assert_eq!(g.bullets[0].pos, Vec2::new(50_000, 50_000));
    match g.enemies[2] {
        Enemy::Boss(b) => assert_eq!(b.attack_timer, 100),
        _ => panic!("a boss stays a boss"),
    }
    // an enemy with a speed moves by it, however little time has passed
    assert_eq!(*g.enemies[1].get_pos(), Vec2::new(400_000, 797_000));
}

#[test]
fn tick_boss_in_the_world_fires_its_circle() {
    let mut g = playing();
    let mut boss = Boss::new(Vec2::new(1_200_000, 200_000), 1);
    boss.current_state = BossState::AttackCircle;
    g.enemies.push(Enemy::Boss(boss));
    g.is_boss = true;
    g.update_with(&Input::idle(), 3000, 3000, &vec![2], &no_spawn());
    assert_eq!(g.bullets.len(), 8);
    match g.enemies[0] {
        Enemy::Boss(b) => {
            assert_eq!(b.current_state, BossState::AttackMachine);
            assert_eq!(b.attack_timer, 0);
        },
        _ => panic!("a boss stays a boss"),
    }
    // the new projectiles have advanced once in the tick in which they were fired
    assert!(g.bullets.iter().all(|b| b.pos != g.bullets[0].pos || b.vel == g.bullets[0].vel));
    assert_eq!(g.bullets[0].vel, Vec2::new(4000, 0));
    assert_eq!(g.bullets[0].pos.x, g.enemies[0].get_pos().x + 4000);
}

#[test]
fn tick_player_fires_at_the_pointer() {
    let mut g = playing();
    let mut input = Input::idle();
    input.fire = true;
    input.aim = Vec2::new(1_400_000, 300_000);
    tick(&mut g, &input, 499, 16);
    assert!(g.player.bullets.is_empty());
    tick(&mut g, &input, 500, 16);
    assert_eq!(g.player.bullets.len(), 1);
    assert_eq!(g.player.bullets[0].vel, Vec2::new(15_000, 0));
    assert_eq!(g.player.bullets[0].pos, Vec2::new(415_000, 300_000));
}

#[test]
fn update_at_random_runs_a_long_game() {
    let mut g = Game::new(0);
    let mut input = Input::idle();
    input.start = true;
    g.update(&input, 0, 16);
    assert_eq!(g.game_state, GameState::Playing);
    input.start = false;
    input.fire = true;
    input.aim = Vec2::new(800_000, 500_000);
    let mut now = 0u64;
    let mut most = 0usize;
    for i in 0..3000u64 {
        now += 16;
        input.left = i % 7 == 0;
        input.down = i % 5 == 0;
        g.update(&input, now, 16);
        most = most.max(g.enemies.len());
        assert!(g.player.hp >= 0);
        assert!(g.killed_enemies >= 0 && g.killed_enemies < 30);
        assert!(g.level >= 1);
        assert!(g.enemies.iter().filter(|e| e.is_boss()).count() <= 1);
        for b in g.bullets.iter().chain(g.player.bullets.iter()) {
            assert!(!b.is_off_screen());
        }
        let p = g.player.player_pos;
        assert!(p.x >= 0 && p.x <= 1_600_000 && p.y >= 0 && p.y <= 1_100_000);
        assert_eq!(g.game_state == GameState::GameOver, g.player.hp == 0);
        if g.game_state == GameState::GameOver {
            break;
        }
    }
    assert!(most > 0);
}

#[test]
fn world_hexagon_fires_once_after_its_cooldown() {
    let mut g = playing();
    g.spawn_enemy_with(&spawn(3, 0, 500_000, 1, 5));
    assert_eq!(g.enemies[0], Enemy::Hexagon(HexagonEnemy::new(Vec2::new(0, 500_000), 1)));
    let at = g.player.player_pos;
    for i in 1..=218u64 {
        tick(&mut g, &Input::idle(), 16 * i, 16);
        assert!(g.bullets.is_empty(), "tick {}", i);
    }
    let before = *g.enemies[0].get_pos();
    tick(&mut g, &Input::idle(), 16 * 219, 16);
    assert_eq!(g.bullets.len(), 1);
    let from = before.step_toward(at, 1500);
    assert_eq!(*g.enemies[0].get_pos(), from);
    let mut shot = Bullet::new(from, at, 4000, 2, 10_000);
    shot.update();
    assert_eq!(g.bullets[0], shot);
    for i in 220..=230u64 {
        tick(&mut g, &Input::idle(), 16 * i, 16);
        assert_eq!(g.bullets.len(), 1);
    }
    assert_eq!(g.player.hp, 100);
}
