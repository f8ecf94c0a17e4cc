//! The two players: their key bindings, their scalar velocity and heading,
//! the per-frame input and movement systems, and the dash that the runner
//! can fire off with its action key.
use vstd::prelude::*;

use crate::game::{tagger_col, runner_col, Layer, Rgb};
use crate::timer::GameTimer;
use crate::units::{clamp_i64, div_trunc, mul_div_trunc, spec_clamp};

verus! {

/// Top speed under normal steering, in millipixels per second.
pub const MAX_SPEED: i64 = 400_000;

/// Forward acceleration while a key is held: millipixels per second gained
/// per millisecond.
pub const LIN_VEL: i64 = 1_600;

/// Turning rate: microradians per millisecond.
pub const ANG_VEL: i64 = 3_500;

/// Fraction of the velocity shed per second while no key is held, in
/// thousandths per millisecond of elapsed time.
pub const DUMP_VEL: i64 = 8;

/// The speed a dash launches the runner to, in millipixels per second.
pub const DASH_SPEED: i64 = 1_600_000;

/// How long a dash lasts, in milliseconds.
pub const DASH_DUR: u64 = 100;

/// How long the runner must wait after a dash, in milliseconds.
pub const COOLDOWN_DUR: u64 = 1_000;

/// The heading is capped at this magnitude (microradians); a turn past it is
/// lost, much as single-precision angles stop absorbing small increments far
/// earlier.
pub const ROT_LIMIT: i64 = 4_000_000_000_000_000_000;

/// Times the dash; reset once the dash ends.
#[derive(Debug, Clone, Copy, PartialEq, Eq, Structural)]
pub struct DashTimer(pub GameTimer);

impl DashTimer {
    pub fn new(duration_ms: u64) -> (t: DashTimer)
        ensures
            t.0.wf(),
            t.0.duration_ms == duration_ms,
            t.0.elapsed_ms == 0,
            !t.0.just_finished,
    {
        DashTimer(GameTimer::new(duration_ms))
    }
}

/// Times the wait after a dash; reset once the wait ends.
#[derive(Debug, Clone, Copy, PartialEq, Eq, Structural)]
pub struct CooldownTimer(pub GameTimer);

impl CooldownTimer {
    pub fn new(duration_ms: u64) -> (t: CooldownTimer)
        ensures
            t.0.wf(),
            t.0.duration_ms == duration_ms,
            t.0.elapsed_ms == 0,
            !t.0.just_finished,
    {
        CooldownTimer(GameTimer::new(duration_ms))
    }
}

/// The runner's dash cycle: ready, mid-dash, or waiting out the cooldown.
/// At most one of the latter two ever holds of a player, and only of the
/// runner.
#[derive(Debug, Clone, Copy, PartialEq, Eq, Structural)]
pub enum DashState {
    Ready,
    Dashing,
    Cooling,
}

/// Which of the two mutually exclusive roles a player holds.
#[derive(Debug, Clone, Copy, PartialEq, Eq, Structural)]
pub enum Role {
    Tagger,
    Runner,
}

/// Which of the two players an entity or an event speaks of.
#[derive(Debug, Clone, Copy, PartialEq, Eq, Structural)]
pub enum PlayerId {
    P1,
    P2,
}

/// The keys a player steers with.
#[derive(Debug, Clone, Copy, PartialEq, Eq, Structural)]
pub enum Key {
    W,
    A,
    S,
    D,
    Space,
    Up,
    Down,
    Left,
    Right,
    Return,
}

/// One player's key bindings.
#[derive(Debug, Clone, Copy, PartialEq, Eq, Structural)]
pub struct Keys {
    pub up: Key,
    pub down: Key,
    pub left: Key,
    pub right: Key,
    pub action: Key,
}

/// A player's own motion state: a scalar velocity along its heading
/// (millipixels per second), the heading itself (microradians), and the keys
/// it listens to. The position lives on the entity, in `PlayerState`.
#[derive(Debug, Clone, Copy, PartialEq, Eq, Structural)]
pub struct Player {
    pub velocity: i64,
    pub rotation: i64,
    pub keys: Keys,
}

impl Player {
    pub fn new(keys: Keys) -> (p: Player)
        ensures
            p == (Player { velocity: 0, rotation: 0, keys }),
    {
        Player { velocity: 0, rotation: 0, keys }
    }
}

/// The velocity never exceeds the dash speed and the heading stays within
/// its cap.
pub open spec fn player_wf(p: Player) -> bool {
    &&& -DASH_SPEED <= p.velocity <= DASH_SPEED
    &&& -ROT_LIMIT <= p.rotation <= ROT_LIMIT
}

/// Everything a player carries in the world: motion state, position in
/// millipixels, role, dash cycle, fill colour and physics layer.
#[derive(Debug, Clone, Copy, PartialEq, Eq, Structural)]
pub struct PlayerState {
    pub player: Player,
    pub x: i64,
    pub y: i64,
    pub role: Role,
    pub dash: DashState,
    pub fill: Rgb,
    pub layer: Layer,
}

/// Whether `k` is among the keys the keyboard reports.
pub fn key_pressed(pressed: &Vec<Key>, k: Key) -> (r: bool)
    ensures
        r == pressed@.contains(k),
{
    let mut i: usize = 0;
    while i < pressed.len()
        invariant
            i <= pressed@.len(),
            forall|j: int| 0 <= j < i ==> pressed@[j] != k,
        decreases pressed@.len() - i,
    {
        if pressed[i] == k {
            return true;
        }
        i = i + 1;
    }
    false
}

/// The velocity after one frame of steering: acceleration for each held key,
/// damping when neither is held, then the clamp to top speed.
pub open spec fn spec_velocity_after(v: int, up: bool, down: bool, dt: int) -> int {
    let pushed = v + (if up {
        LIN_VEL * dt
    } else {
        0
    }) + (if down {
        -LIN_VEL * dt
    } else {
        0
    });
    let damped = if !up && !down {
        div_trunc(pushed * (1000 - DUMP_VEL * dt), 1000)
    } else {
        pushed
    };
    spec_clamp(damped, -MAX_SPEED as int, MAX_SPEED as int)
}

/// The heading after one frame of steering, capped at the heading limit.
pub open spec fn spec_rotation_after(rot: int, left: bool, right: bool, dt: int) -> int {
    let turned = rot + (if right {
        -ANG_VEL * dt
    } else {
        0
    }) + (if left {
        ANG_VEL * dt
    } else {
        0
    });
    spec_clamp(turned, -ROT_LIMIT as int, ROT_LIMIT as int)
}

/// The whole of one player's input frame as a value: steering applied to
/// the velocity unless a dash runs, turning applied to the heading.
pub open spec fn spec_move_inputs(p: Player, pressed: Seq<Key>, dashing: bool, dt: int) -> Player {
    Player {
        velocity: (if dashing {
            p.velocity as int
        } else {
            spec_velocity_after(
                p.velocity as int,
                pressed.contains(p.keys.up),
                pressed.contains(p.keys.down),
                dt,
            )
        }) as i64,
        rotation: spec_rotation_after(
            p.rotation as int,
            pressed.contains(p.keys.left),
            pressed.contains(p.keys.right),
            dt,
        ) as i64,
        keys: p.keys,
    }
}

/// One frame of input handling for one player. A dashing player cannot
/// steer its speed, but can still turn.
pub fn handle_move_inputs(player: &mut Player, pressed: &Vec<Key>, dashing: bool, dt_ms: u32)
    requires
        player_wf(*old(player)),
    ensures
        player_wf(*final(player)),
        *final(player) == spec_move_inputs(*old(player), pressed@, dashing, dt_ms as int),
        final(player).keys == old(player).keys,
        final(player).velocity as int == if dashing {
            old(player).velocity as int
        } else {
            spec_velocity_after(
                old(player).velocity as int,
                pressed@.contains(old(player).keys.up),
                pressed@.contains(old(player).keys.down),
                dt_ms as int,
            )
        },
        final(player).rotation == spec_rotation_after(
            old(player).rotation as int,
            pressed@.contains(old(player).keys.left),
            pressed@.contains(old(player).keys.right),
            dt_ms as int,
        ),
{
    let up = key_pressed(pressed, player.keys.up);
    let down = key_pressed(pressed, player.keys.down);
    let left = key_pressed(pressed, player.keys.left);
    let right = key_pressed(pressed, player.keys.right);
    let dti: i64 = dt_ms as i64;

    if !dashing {
        let mut v: i64 = player.velocity;
        if up {
            v = v + LIN_VEL * dti;
        }
        if down {
            v = v - LIN_VEL * dti;
        }
        if !up && !down {
            let factor = 1000 - DUMP_VEL * dti;
            proof {
                assert(-i64::MAX <= v as int * factor as int <= i64::MAX) by (nonlinear_arith)
                    requires
                        -1_600_000 <= v as int <= 1_600_000,
                        -34_359_738_360 <= factor as int <= 1000,
                ;
            }
            v = mul_div_trunc(v, factor, 1000);
        }
        v = clamp_i64(v, -MAX_SPEED, MAX_SPEED);
        player.velocity = v;
    }

    let mut r: i64 = player.rotation;
    if right {
        r = r - ANG_VEL * dti;
    }
    if left {
        r = r + ANG_VEL * dti;
    }
    r = clamp_i64(r, -ROT_LIMIT, ROT_LIMIT);
    player.rotation = r;
}

/// Where an integration step puts a coordinate before the window clamps it.
pub open spec fn spec_step(pos: int, dir: int, vel: int, dt: int) -> int {
    pos + div_trunc(dir * vel * dt, 1_000_000)
}

/// A player cannot leave the window sideways.
pub open spec fn spec_clamp_x(x: int, half_w: int) -> int {
    if x > half_w {
        half_w
    } else if x < -half_w {
        -half_w
    } else {
        x
    }
}

/// A player stays above the bottom edge and below the 50-pixel top bar.
pub open spec fn spec_clamp_y(y: int, half_h: int) -> int {
    if y < -half_h {
        -half_h
    } else if y > half_h - 50_000 {
        half_h - 50_000
    } else {
        y
    }
}

/// One frame of movement for one player: integrate the position along the
/// given heading vector (thousandths of a unit vector), then clamp it to the
/// playing field.
pub fn move_player(
    x: &mut i64,
    y: &mut i64,
    velocity: i64,
    dir_x: i64,
    dir_y: i64,
    half_w: i64,
    half_h: i64,
    dt_ms: u32,
)
    requires
        -DASH_SPEED <= velocity <= DASH_SPEED,
        -1000 <= dir_x <= 1000,
        -1000 <= dir_y <= 1000,
        0 <= half_w <= 500_000_000,
        25_000 <= half_h <= 500_000_000,
        -half_w <= *old(x) <= half_w,
        -half_h <= *old(y) <= half_h,
    ensures
        *final(x) == spec_clamp_x(
            spec_step(*old(x) as int, dir_x as int, velocity as int, dt_ms as int),
            half_w as int,
        ),
        *final(y) == spec_clamp_y(
            spec_step(*old(y) as int, dir_y as int, velocity as int, dt_ms as int),
            half_h as int,
        ),
        -half_w <= *final(x) <= half_w,
        -half_h <= *final(y) <= half_h - 50_000,
{
    let dti: i64 = dt_ms as i64;
    proof {
        assert(-1_600_000_000 <= dir_x as int * velocity as int <= 1_600_000_000)
            by (nonlinear_arith)
            requires
                -1000 <= dir_x as int <= 1000,
                -1_600_000 <= velocity as int <= 1_600_000,
        ;
        assert(-1_600_000_000 <= dir_y as int * velocity as int <= 1_600_000_000)
            by (nonlinear_arith)
            requires
                -1000 <= dir_y as int <= 1000,
                -1_600_000 <= velocity as int <= 1_600_000,
        ;
    }
    let px = dir_x * velocity;
    let py = dir_y * velocity;
    proof {
        assert(-0x6000_0000_0000_0000 <= px as int * dti as int <= 0x6000_0000_0000_0000)
            by (nonlinear_arith)
            requires
                -1_600_000_000 <= px as int <= 1_600_000_000,
                0 <= dti as int <= 4_294_967_295,
        ;
        assert(-0x6000_0000_0000_0000 <= py as int * dti as int <= 0x6000_0000_0000_0000)
            by (nonlinear_arith)
            requires
                -1_600_000_000 <= py as int <= 1_600_000_000,
                0 <= dti as int <= 4_294_967_295,
        ;
    }
    let sx = *x + mul_div_trunc(px, dti, 1_000_000);
    if sx > half_w {
        *x = half_w;
    } else if sx < -half_w {
        *x = -half_w;
    } else {
        *x = sx;
    }

    let sy = *y + mul_div_trunc(py, dti, 1_000_000);
    if sy < -half_h {
        *y = -half_h;
    } else if sy > half_h - 50_000 {
        *y = half_h - 50_000;
    } else {
        *y = sy;
    }
}

/// Where the first player starts: the tagger, a quarter window to the left,
/// 30 pixels above the bottom edge.
pub open spec fn spec_initial_p1(window_w: int, window_h: int) -> PlayerState {
    PlayerState {
        player: Player {
            velocity: 0,
            rotation: 0,
            keys: Keys {
                up: Key::W,
                down: Key::S,
                left: Key::A,
                right: Key::D,
                action: Key::Space,
            },
        },
        x: (-(window_w / 4)) as i64,
        y: (30_000 - window_h / 2) as i64,
        role: Role::Tagger,
        dash: DashState::Ready,
        fill: Rgb { r: 94, g: 165, b: 255 },
        layer: Layer::Tagger,
    }
}

/// Where the second player starts: the runner, mirrored to the right.
pub open spec fn spec_initial_p2(window_w: int, window_h: int) -> PlayerState {
    PlayerState {
        player: Player {
            velocity: 0,
            rotation: 0,
            keys: Keys {
                up: Key::Up,
                down: Key::Down,
                left: Key::Left,
                right: Key::Right,
                action: Key::Return,
            },
        },
        x: (window_w / 4) as i64,
        y: (30_000 - window_h / 2) as i64,
        role: Role::Runner,
        dash: DashState::Ready,
        fill: Rgb { r: 107, g: 186, b: 93 },
        layer: Layer::Runner,
    }
}

/// Set up the two players for a round: the first is the tagger on the left,
/// the second the runner on the right, both 30 pixels above the bottom edge,
/// each with its own key bindings.
pub fn spawn_players(window_w: i64, window_h: i64) -> (ps: (PlayerState, PlayerState))
    requires
        0 <= window_w <= 1_000_000_000,
        80_000 <= window_h <= 1_000_000_000,
    ensures
        ps.0 == spec_initial_p1(window_w as int, window_h as int),
        ps.1 == spec_initial_p2(window_w as int, window_h as int),
{
    let x_dist = window_w / 4;
    let y_pos = 30_000 - window_h / 2;
    let p1 = PlayerState {
        player: Player::new(
            Keys { up: Key::W, down: Key::S, left: Key::A, right: Key::D, action: Key::Space },
        ),
        x: -x_dist,
        y: y_pos,
        role: Role::Tagger,
        dash: DashState::Ready,
        fill: tagger_col(),
        layer: Layer::Tagger,
    };
    let p2 = PlayerState {
        player: Player::new(
            Keys {
                up: Key::Up,
                down: Key::Down,
                left: Key::Left,
                right: Key::Right,
                action: Key::Return,
            },
        ),
        x: x_dist,
        y: y_pos,
        role: Role::Runner,
        dash: DashState::Ready,
        fill: runner_col(),
        layer: Layer::Runner,
    };
    (p1, p2)
}

/// The tagger's action key fires a bullet from the tagger's position along
/// its heading; the caller passes the fresh id the bullet is to carry.
pub fn handle_action_button_for_tagger(
    player: &Player,
    just_pressed: &Vec<Key>,
    x: i64,
    y: i64,
    dir_x: i64,
    dir_y: i64,
    shooter: PlayerId,
    id: u64,
) -> (r: Option<crate::bullet::BulletEntity>)
    ensures
        r is Some <==> just_pressed@.contains(player.keys.action),
        r matches Some(b) ==> b == (crate::bullet::BulletEntity {
            id,
            x,
            y,
            bullet: crate::bullet::Bullet {
                shooter,
                dir_x,
                dir_y,
                radius: crate::bullet::BULLET_RADIUS,
                speed: crate::bullet::BULLET_SPEED,
            },
        }),
{
    if key_pressed(just_pressed, player.keys.action) {
        Some(crate::bullet::spawn_bullet(x, y, dir_x, dir_y, shooter, id))
    } else {
        None
    }
}

/// The runner's action key starts a dash when neither a dash nor a cooldown
/// is running: the dash state is set and the velocity jumps to dash speed.
/// Returns whether a dash started.
pub fn handle_action_button_for_runner(
    player: &mut Player,
    dash: &mut DashState,
    just_pressed: &Vec<Key>,
) -> (started: bool)
    ensures
        started == (*old(dash) == DashState::Ready && just_pressed@.contains(
            old(player).keys.action,
        )),
        started ==> *final(player) == (Player { velocity: DASH_SPEED, ..*old(player) })
            && *final(dash) == DashState::Dashing,
        !started ==> *final(player) == *old(player) && *final(dash) == *old(dash),
{
    if matches!(*dash, DashState::Ready) && key_pressed(just_pressed, player.keys.action) {
        *dash = DashState::Dashing;
        player.velocity = DASH_SPEED;
        true
    } else {
        false
    }
}

/// What the dash timer system leaves behind: while a dash runs the timer
/// ticks, and on the tick that ends it the runner moves to the cooldown and
/// the timer is wound back.
pub open spec fn spec_dash_tick(dash: DashState, timer: DashTimer, dt: u64) -> (DashState,
    DashTimer) {
    if dash != DashState::Dashing {
        (dash, timer)
    } else {
        let ticked = timer.0.spec_tick(dt);
        if ticked.just_finished {
            (
                DashState::Cooling,
                DashTimer(
                    GameTimer {
                        duration_ms: ticked.duration_ms,
                        elapsed_ms: 0,
                        just_finished: false,
                    },
                ),
            )
        } else {
            (DashState::Dashing, DashTimer(ticked))
        }
    }
}

/// Tick the dash timer while a dash runs; when it finishes, the runner
/// enters the cooldown and the timer is reset.
pub fn handle_dash_timer_for_runner(dash: &mut DashState, timer: &mut DashTimer, dt_ms: u64)
    requires
        old(timer).0.wf(),
    ensures
        final(timer).0.wf(),
        (*final(dash), *final(timer)) == spec_dash_tick(*old(dash), *old(timer), dt_ms),
{
    if matches!(*dash, DashState::Dashing) {
        timer.0.tick(dt_ms);
        if timer.0.just_finished() {
            *dash = DashState::Cooling;
            timer.0.reset();
            proof {
                assert(timer.0 == (GameTimer {
                    duration_ms: timer.0.duration_ms,
                    elapsed_ms: 0,
                    just_finished: false,
                }));
            }
        }
    }
}

/// What the cooldown timer system leaves behind, in the same shape as the
/// dash timer's step.
pub open spec fn spec_cooldown_tick(dash: DashState, timer: CooldownTimer, dt: u64) -> (DashState,
    CooldownTimer) {
    if dash != DashState::Cooling {
        (dash, timer)
    } else {
        let ticked = timer.0.spec_tick(dt);
        if ticked.just_finished {
            (
                DashState::Ready,
                CooldownTimer(
                    GameTimer {
                        duration_ms: ticked.duration_ms,
                        elapsed_ms: 0,
                        just_finished: false,
                    },
                ),
            )
        } else {
            (DashState::Cooling, CooldownTimer(ticked))
        }
    }
}

/// One frame of movement for both players: each position is integrated
/// along its heading vector and clamped to the playing field; nothing else
/// of the world changes.
pub fn move_players(
    world: &mut crate::game::GameWorld,
    dir1_x: i64,
    dir1_y: i64,
    dir2_x: i64,
    dir2_y: i64,
    dt_ms: u32,
)
    requires
        crate::game::world_wf(*old(world)),
        -1000 <= dir1_x <= 1000,
        -1000 <= dir1_y <= 1000,
        -1000 <= dir2_x <= 1000,
        -1000 <= dir2_y <= 1000,
    ensures
        crate::game::world_wf(*final(world)),
        final(world).p1 == (PlayerState {
            x: spec_clamp_x(
                spec_step(
                    old(world).p1.x as int,
                    dir1_x as int,
                    old(world).p1.player.velocity as int,
                    dt_ms as int,
                ),
                old(world).window_w as int / 2,
            ) as i64,
            y: spec_clamp_y(
                spec_step(
                    old(world).p1.y as int,
                    dir1_y as int,
                    old(world).p1.player.velocity as int,
                    dt_ms as int,
                ),
                old(world).window_h as int / 2,
            ) as i64,
            ..old(world).p1
        }),
        final(world).p2 == (PlayerState {
            x: spec_clamp_x(
                spec_step(
                    old(world).p2.x as int,
                    dir2_x as int,
                    old(world).p2.player.velocity as int,
                    dt_ms as int,
                ),
                old(world).window_w as int / 2,
            ) as i64,
            y: spec_clamp_y(
                spec_step(
                    old(world).p2.y as int,
                    dir2_y as int,
                    old(world).p2.player.velocity as int,
                    dt_ms as int,
                ),
                old(world).window_h as int / 2,
            ) as i64,
            ..old(world).p2
        }),
        final(world).bullets@ == old(world).bullets@,
        final(world).orbs@ == old(world).orbs@,
        final(world).next_id == old(world).next_id,
        final(world).p1_text == old(world).p1_text,
        final(world).p2_text == old(world).p2_text,
        final(world).countdown_text == old(world).countdown_text,
        final(world).countdown_color == old(world).countdown_color,
        final(world).dash_timer == old(world).dash_timer,
        final(world).cooldown_timer == old(world).cooldown_timer,
        final(world).countdown == old(world).countdown,
        final(world).window_w == old(world).window_w,
        final(world).window_h == old(world).window_h,
{
    let half_w = world.window_w / 2;
    let half_h = world.window_h / 2;
    let v1 = world.p1.player.velocity;
    move_player(&mut world.p1.x, &mut world.p1.y, v1, dir1_x, dir1_y, half_w, half_h, dt_ms);
    let v2 = world.p2.player.velocity;
    move_player(&mut world.p2.x, &mut world.p2.y, v2, dir2_x, dir2_y, half_w, half_h, dt_ms);
}

/// Tick the cooldown timer while a cooldown runs; when it finishes, the
/// runner may dash again and the timer is reset.
pub fn handle_cooldown_timer_for_runner(
    dash: &mut DashState,
    timer: &mut CooldownTimer,
    dt_ms: u64,
)
    requires
        old(timer).0.wf(),
    ensures
        final(timer).0.wf(),
        (*final(dash), *final(timer)) == spec_cooldown_tick(*old(dash), *old(timer), dt_ms),
{
    if matches!(*dash, DashState::Cooling) {
        timer.0.tick(dt_ms);
        if timer.0.just_finished() {
            *dash = DashState::Ready;
            timer.0.reset();
        }
    }
}

} // verus!
