use rand::SeedableRng;
use tagger::bullet::{Bullet, BulletEntity, BULLET_RADIUS, BULLET_SPEED};
use tagger::game::{
    detect_collisions, setup_game, shoot_system, tick_count_down_timer, Collider, Contact, Rgb,
    Sound,
};
use tagger::orb::{spawn_orb, Orb};
use tagger::player::{DashState, Key, PlayerId, Role, DASH_SPEED, MAX_SPEED};
use tagger::random::Random;
use tagger::{AppState, GameState};

const W: i64 = 800_000;
const H: i64 = 800_000;

fn tagger_blue() -> Rgb {
    Rgb { r: 94, g: 165, b: 255 }
}

fn runner_green() -> Rgb {
    Rgb { r: 107, g: 186, b: 93 }
}

#[test]
fn setup_places_players_and_round() {
    let world = setup_game(W, H);
    assert_eq!(world.p1.x, -200_000);
    assert_eq!(world.p1.y, -370_000);
    assert_eq!(world.p2.x, 200_000);
    assert_eq!(world.p2.y, -370_000);
    assert_eq!(world.p1.role, Role::Tagger);
    assert_eq!(world.p2.role, Role::Runner);
    assert_eq!(world.p1.fill, tagger_blue());
    assert_eq!(world.p2.fill, runner_green());
    assert_eq!(world.p1.player.keys.action, Key::Space);
    assert_eq!(world.p2.player.keys.action, Key::Return);
    assert_eq!(world.countdown_text, "01:00");
    assert_eq!(world.countdown.0.duration_ms, 90_000);
    assert_eq!(world.dash_timer.0.duration_ms, 100);
    assert_eq!(world.cooldown_timer.0.duration_ms, 1_000);
    assert!(world.bullets.is_empty());
    assert!(world.orbs.is_empty());
}

#[test]
fn holding_forward_accelerates() {
    let mut world = setup_game(W, H);
    let pressed = vec![Key::W];
    tagger::game::input_system(&mut world, &pressed, 16);
    // 1600 millipixels per second gained per millisecond, held for 16 ms
    assert_eq!(world.p1.player.velocity, 25_600);
    // the other player's keys were not pressed
    assert_eq!(world.p2.player.velocity, 0);
}

#[test]
fn velocity_clamps_at_max_speed() {
    let mut world = setup_game(W, H);
    world.p1.player.velocity = 399_000;
    let pressed = vec![Key::W];
    tagger::game::input_system(&mut world, &pressed, 16);
    assert_eq!(world.p1.player.velocity, MAX_SPEED);
}

#[test]
fn idle_velocity_is_damped() {
    let mut world = setup_game(W, H);
    world.p1.player.velocity = 300_000;
    let pressed: Vec<Key> = Vec::new();
    tagger::game::input_system(&mut world, &pressed, 100);
    // times (1000 - 8 * 100) / 1000
    assert_eq!(world.p1.player.velocity, 60_000);
}

#[test]
fn damping_rounds_toward_zero() {
    let mut world = setup_game(W, H);
    world.p1.player.velocity = -12_345;
    let pressed: Vec<Key> = Vec::new();
    tagger::game::input_system(&mut world, &pressed, 1);
    // -12_345 * 992 = -12_246_240; truncated, not floored
    assert_eq!(world.p1.player.velocity, -12_246);
}

#[test]
fn turning_moves_the_heading() {
    let mut world = setup_game(W, H);
    let pressed = vec![Key::D, Key::Left];
    tagger::game::input_system(&mut world, &pressed, 10);
    // player 1 turns right: 3500 microradians per millisecond
    assert_eq!(world.p1.player.rotation, -35_000);
    // player 2 turns left
    assert_eq!(world.p2.player.rotation, 35_000);
}

#[test]
fn dashing_player_keeps_speed_but_turns() {
    let mut world = setup_game(W, H);
    world.p2.dash = DashState::Dashing;
    world.p2.player.velocity = DASH_SPEED;
    let pressed = vec![Key::Up, Key::Right];
    tagger::game::input_system(&mut world, &pressed, 16);
    assert_eq!(world.p2.player.velocity, DASH_SPEED);
    assert_eq!(world.p2.player.rotation, -56_000);
}

#[test]
fn movement_integrates_and_clamps_to_window() {
    let mut world = setup_game(W, H);
    world.p1.player.velocity = 400_000;
    // straight up at full speed for one second
    tagger::player::move_players(&mut world, 0, 1000, 0, 0, 1000);
    assert_eq!(world.p1.y, -370_000 + 400_000);
    assert_eq!(world.p1.x, -200_000);
    assert_eq!(world.p2.y, -370_000);

    // pushing past the side wall stops at the wall
    let mut world = setup_game(W, H);
    world.p2.player.velocity = 400_000;
    world.p2.x = 390_000;
    tagger::player::move_players(&mut world, 0, 0, 1000, 0, 1000);
    assert_eq!(world.p2.x, 400_000);

    // the top bar keeps players 50 pixels under the upper edge
    let mut world = setup_game(W, H);
    world.p1.player.velocity = 400_000;
    world.p1.y = 340_000;
    tagger::player::move_players(&mut world, 0, 1000, 0, 0, 1000);
    assert_eq!(world.p1.y, 350_000);
}

#[test]
fn tagger_action_spawns_a_bullet() {
    let mut world = setup_game(W, H);
    let mut sounds: Vec<Sound> = Vec::new();
    shoot_system(&mut world, &vec![Key::Space], 0, 1000, &mut sounds);
    assert_eq!(world.bullets.len(), 1);
    let b = world.bullets[0];
    assert_eq!(b.id, 0);
    assert_eq!(b.x, -200_000);
    assert_eq!(b.y, -370_000);
    assert_eq!(
        b.bullet,
        Bullet {
            shooter: PlayerId::P1,
            dir_x: 0,
            dir_y: 1000,
            radius: BULLET_RADIUS,
            speed: BULLET_SPEED,
        }
    );
    assert_eq!(world.next_id, 1);
    assert_eq!(sounds, vec![Sound::Shoot]);

    // the runner's action key does not shoot
    let mut world = setup_game(W, H);
    let mut sounds: Vec<Sound> = Vec::new();
    shoot_system(&mut world, &vec![Key::Return], 0, 1000, &mut sounds);
    assert!(world.bullets.is_empty());
    assert!(sounds.is_empty());
}

#[test]
fn bullets_fly_and_despawn_past_the_edge() {
    let mut world = setup_game(W, H);
    world.bullets.push(BulletEntity {
        id: 0,
        x: 0,
        y: 0,
        bullet: Bullet {
            shooter: PlayerId::P1,
            dir_x: 600,
            dir_y: 800,
            radius: BULLET_RADIUS,
            speed: BULLET_SPEED,
        },
    });
    world.next_id = 1;
    tagger::bullet::move_bullets(&mut world, 50);
    assert_eq!(world.bullets.len(), 1);
    assert_eq!(world.bullets[0].x, 24_000);
    assert_eq!(world.bullets[0].y, 32_000);

    // one more second carries it past the window edge plus its radius
    tagger::bullet::move_bullets(&mut world, 1000);
    assert!(world.bullets.is_empty());
}

#[test]
fn bullet_hit_swaps_roles() {
    let mut world = setup_game(W, H);
    let mut sounds: Vec<Sound> = Vec::new();
    shoot_system(&mut world, &vec![Key::Space], 0, 1000, &mut sounds);
    world.dash_timer.0.tick(40);
    sounds.clear();

    let events = vec![Contact { a: Collider::Player(PlayerId::P2), b: Collider::Bullet(0) }];
    detect_collisions(&mut world, &events, &mut sounds);

    assert_eq!(world.p1.role, Role::Runner);
    assert_eq!(world.p2.role, Role::Tagger);
    assert_eq!(world.p1.fill, runner_green());
    assert_eq!(world.p2.fill, tagger_blue());
    assert_eq!(world.p1_text, runner_green());
    assert_eq!(world.p2_text, tagger_blue());
    assert_eq!(world.p2.dash, DashState::Ready);
    assert!(world.bullets.is_empty());
    assert_eq!(world.dash_timer.0.elapsed_ms, 0);
    assert_eq!(sounds, vec![Sound::Catch]);
}

#[test]
fn dashing_runner_shrugs_off_bullets() {
    let mut world = setup_game(W, H);
    let mut sounds: Vec<Sound> = Vec::new();
    shoot_system(&mut world, &vec![Key::Space], 0, 1000, &mut sounds);
    sounds.clear();
    world.p2.dash = DashState::Dashing;

    let events = vec![Contact { a: Collider::Player(PlayerId::P2), b: Collider::Bullet(0) }];
    detect_collisions(&mut world, &events, &mut sounds);

    assert_eq!(world.p1.role, Role::Tagger);
    assert_eq!(world.p2.role, Role::Runner);
    assert_eq!(world.bullets.len(), 1);
    assert!(sounds.is_empty());
}

#[test]
fn bullet_from_a_dethroned_tagger_does_nothing() {
    // after a swap the old bullet's shooter is a runner, so a second hit
    // neither swaps back nor despawns the bullet
    let mut world = setup_game(W, H);
    let mut sounds: Vec<Sound> = Vec::new();
    shoot_system(&mut world, &vec![Key::Space], 0, 1000, &mut sounds);
    shoot_system(&mut world, &vec![Key::Space], 0, 1000, &mut sounds);
    sounds.clear();
    let events = vec![
        Contact { a: Collider::Player(PlayerId::P2), b: Collider::Bullet(0) },
        Contact { a: Collider::Player(PlayerId::P1), b: Collider::Bullet(1) },
    ];
    detect_collisions(&mut world, &events, &mut sounds);
    // the first contact swapped; the second bullet was shot by player 1,
    // by then a runner, so it stayed
    assert_eq!(world.p1.role, Role::Runner);
    assert_eq!(world.p2.role, Role::Tagger);
    assert_eq!(world.bullets.len(), 1);
    assert_eq!(world.bullets[0].id, 1);
    assert_eq!(sounds, vec![Sound::Catch]);
}

#[test]
fn orb_pickup_reverses_velocity() {
    let mut world = setup_game(W, H);
    world.orbs.push(Orb { id: 3, x: 0, y: 0, spin: 1 });
    world.next_id = 4;
    world.p2.player.velocity = 120_000;
    let mut sounds: Vec<Sound> = Vec::new();
    let events = vec![Contact { a: Collider::Orb(3), b: Collider::Player(PlayerId::P2) }];
    detect_collisions(&mut world, &events, &mut sounds);
    assert_eq!(world.p2.player.velocity, -MAX_SPEED);
    assert!(world.orbs.is_empty());
    assert_eq!(sounds, vec![Sound::Orb]);

    // a stationary tagger is thrown backwards
    let mut world = setup_game(W, H);
    world.orbs.push(Orb { id: 3, x: 0, y: 0, spin: 1 });
    world.next_id = 4;
    let mut sounds: Vec<Sound> = Vec::new();
    let events = vec![Contact { a: Collider::Player(PlayerId::P1), b: Collider::Orb(3) }];
    detect_collisions(&mut world, &events, &mut sounds);
    assert_eq!(world.p1.player.velocity, -MAX_SPEED);
    assert!(world.orbs.is_empty());
    assert_eq!(sounds, vec![Sound::Orb]);
}

#[test]
fn orb_swallows_a_bullet() {
    let mut world = setup_game(W, H);
    world.orbs.push(Orb { id: 7, x: 100_000, y: 0, spin: -1 });
    world.next_id = 8;
    world.bullets.push(BulletEntity {
        id: 8,
        x: 100_000,
        y: 0,
        bullet: Bullet {
            shooter: PlayerId::P1,
            dir_x: 1000,
            dir_y: 0,
            radius: BULLET_RADIUS,
            speed: BULLET_SPEED,
        },
    });
    world.next_id = 9;
    let mut sounds: Vec<Sound> = Vec::new();
    let events = vec![Contact { a: Collider::Orb(7), b: Collider::Bullet(8) }];
    detect_collisions(&mut world, &events, &mut sounds);
    assert!(world.bullets.is_empty());
    assert_eq!(world.orbs.len(), 1);
    assert!(sounds.is_empty());
}

#[test]
fn dash_cycle_runs_ready_dashing_cooling_ready() {
    let mut world = setup_game(W, H);
    let mut sounds: Vec<Sound> = Vec::new();
    tagger::game::dash_system(&mut world, &vec![Key::Return], &mut sounds);
    assert_eq!(world.p2.dash, DashState::Dashing);
    assert_eq!(world.p2.player.velocity, DASH_SPEED);
    assert_eq!(sounds, vec![Sound::Dash]);

    // dashing or cooling, the action key does nothing
    sounds.clear();
    tagger::game::dash_system(&mut world, &vec![Key::Return], &mut sounds);
    assert!(sounds.is_empty());

    // the dash ends after its 100 ms
    tagger::game::dash_timer_system(&mut world, 60);
    assert_eq!(world.p2.dash, DashState::Dashing);
    tagger::game::dash_timer_system(&mut world, 40);
    assert_eq!(world.p2.dash, DashState::Cooling);
    assert_eq!(world.dash_timer.0.elapsed_ms, 0);

    // the cooldown ends after its full second
    tagger::game::cooldown_timer_system(&mut world, 999);
    assert_eq!(world.p2.dash, DashState::Cooling);
    tagger::game::cooldown_timer_system(&mut world, 1);
    assert_eq!(world.p2.dash, DashState::Ready);
    assert_eq!(world.cooldown_timer.0.elapsed_ms, 0);
}

#[test]
fn tagger_cannot_dash() {
    let mut world = setup_game(W, H);
    let mut sounds: Vec<Sound> = Vec::new();
    tagger::game::dash_system(&mut world, &vec![Key::Space], &mut sounds);
    assert_eq!(world.p1.dash, DashState::Ready);
    assert_eq!(world.p1.player.velocity, 0);
    assert!(sounds.is_empty());
}

#[test]
fn countdown_display_follows_the_clock() {
    let mut world = setup_game(W, H);
    let mut app = AppState::new(GameState::MainMenu);
    app.push(GameState::Game);
    let mut sounds: Vec<Sound> = Vec::new();

    let winner = tick_count_down_timer(&mut world, &mut app, 1000, &mut sounds);
    assert!(winner.is_none());
    assert_eq!(world.countdown_text, "01:29");
    assert_eq!(world.countdown_color, Rgb { r: 255, g: 255, b: 255 });
    assert!(sounds.is_empty());

    let winner = tick_count_down_timer(&mut world, &mut app, 29_001, &mut sounds);
    assert!(winner.is_none());
    assert_eq!(world.countdown_text, "00:59");
    assert!(sounds.is_empty());
}

#[test]
fn countdown_turns_red_and_beeps_when_short() {
    let mut world = setup_game(W, H);
    let mut app = AppState::new(GameState::MainMenu);
    app.push(GameState::Game);
    let mut sounds: Vec<Sound> = Vec::new();

    let winner = tick_count_down_timer(&mut world, &mut app, 74_000, &mut sounds);
    assert!(winner.is_none());
    assert_eq!(world.countdown_text, "00:16");
    assert_eq!(world.countdown_color, Rgb { r: 255, g: 0, b: 0 });
    assert_eq!(sounds, vec![Sound::Timer]);

    // no new second, no new beep
    sounds.clear();
    let winner = tick_count_down_timer(&mut world, &mut app, 0, &mut sounds);
    assert!(winner.is_none());
    assert!(sounds.is_empty());
}

#[test]
fn the_runner_at_the_end_wins() {
    let mut world = setup_game(W, H);
    let mut app = AppState::new(GameState::MainMenu);
    app.push(GameState::Game);
    let mut sounds: Vec<Sound> = Vec::new();

    let winner = tick_count_down_timer(&mut world, &mut app, 90_000, &mut sounds);
    let winner = winner.expect("the exhausted clock names a winner");
    assert_eq!(winner.0, "Player_2");
    assert_eq!(world.countdown_text, "00:00");
    assert_eq!(app.current(), GameState::MainMenu);

    // once finished, further ticks do not crown a second winner
    let again = tick_count_down_timer(&mut world, &mut app, 16, &mut sounds);
    assert!(again.is_none());
}

#[test]
fn the_swapped_runner_wins_instead() {
    let mut world = setup_game(W, H);
    let mut app = AppState::new(GameState::MainMenu);
    app.push(GameState::Game);
    let mut sounds: Vec<Sound> = Vec::new();
    shoot_system(&mut world, &vec![Key::Space], 0, 1000, &mut sounds);
    let events = vec![Contact { a: Collider::Player(PlayerId::P2), b: Collider::Bullet(0) }];
    detect_collisions(&mut world, &events, &mut sounds);

    let winner = tick_count_down_timer(&mut world, &mut app, 90_000, &mut sounds);
    assert_eq!(winner.expect("a winner").0, "Player_1");
}

#[test]
fn orbs_fill_the_field_with_minimum_spacing() {
    let mut world = setup_game(W, H);
    let mut random = Random(rand::rngs::StdRng::seed_from_u64(7));
    spawn_orb(&mut random, &mut world);

    // an 800 by 800 window wants (800_000 * 750_000) / 266_000^2 = 8 orbs
    assert_eq!(world.orbs.len(), 8);
    assert_eq!(world.next_id, 8);
    for (k, o) in world.orbs.iter().enumerate() {
        assert_eq!(o.id, k as u64);
        assert!(o.spin == 1 || o.spin == -1);
        assert!(-324_000 <= o.x && o.x < 324_000);
        assert!(-274_000 <= o.y && o.y < 274_000);
    }
    for i in 0..world.orbs.len() {
        for j in (i + 1)..world.orbs.len() {
            let dx = world.orbs[i].x - world.orbs[j].x;
            let dy = world.orbs[i].y - world.orbs[j].y;
            assert!(dx * dx + dy * dy >= 152_000i64 * 152_000);
        }
    }

    // a full field stays as it is
    let before = world.orbs.clone();
    spawn_orb(&mut random, &mut world);
    assert_eq!(world.orbs, before);
    assert_eq!(world.next_id, 8);
}
