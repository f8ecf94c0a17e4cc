//! The round itself: the world the gameplay systems act on, the shared
//! colour palette, the physics layers, the countdown with its win
//! detection, and the systems that react to contacts between players,
//! bullets and orbs.
use vstd::prelude::*;

use crate::bullet::{bullet_ids_unique, bullet_in_bounds, bullet_wf, lemma_filter_bullets,
    BulletEntity};
use crate::orb::{lemma_filter_orbs, orb_ids_unique, orb_in_field, orbs_pairwise_separated, Orb};
use crate::player::{
    player_wf, CooldownTimer, DashState, DashTimer, Key, Player, PlayerId, PlayerState, Role,
};
use crate::timer::GameTimer;
use vstd::string::StringExecFns;

verus! {

/// Length of a round in milliseconds.
pub const GAME_DUR: u64 = 90_000;

/// An 8-bit-per-channel colour; the renderer divides each channel by 255.
#[derive(Debug, Clone, Copy, PartialEq, Eq, Structural)]
pub struct Rgb {
    pub r: u8,
    pub g: u8,
    pub b: u8,
}

/// The tagger's blue.
pub fn tagger_col() -> (c: Rgb)
    ensures
        c == (Rgb { r: 94, g: 165, b: 255 }),
{
    Rgb { r: 94, g: 165, b: 255 }
}

/// The runner's green.
pub fn runner_col() -> (c: Rgb)
    ensures
        c == (Rgb { r: 107, g: 186, b: 93 }),
{
    Rgb { r: 107, g: 186, b: 93 }
}

/// The orbs' purple body.
pub fn orb_fill_color() -> (c: Rgb)
    ensures
        c == (Rgb { r: 181, g: 90, b: 214 }),
{
    Rgb { r: 181, g: 90, b: 214 }
}

/// The orbs' dark outline, also the buttons' hover colour.
pub fn orb_outline_color() -> (c: Rgb)
    ensures
        c == (Rgb { r: 138, g: 30, b: 97 }),
{
    Rgb { r: 138, g: 30, b: 97 }
}

/// The colour of the countdown once time runs short.
pub fn red() -> (c: Rgb)
    ensures
        c == (Rgb { r: 255, g: 0, b: 0 }),
{
    Rgb { r: 255, g: 0, b: 0 }
}

pub fn white() -> (c: Rgb)
    ensures
        c == (Rgb { r: 255, g: 255, b: 255 }),
{
    Rgb { r: 255, g: 255, b: 255 }
}

/// The physics layer a body collides on; each role keeps to its own layer so
/// that bullets pass through their shooter.
#[derive(Debug, Clone, Copy, PartialEq, Eq, Structural)]
pub enum Layer {
    Tagger,
    Runner,
}

/// The audio clips the game plays; the systems report which ones a frame
/// triggered and the host mixes them.
#[derive(Debug, Clone, Copy, PartialEq, Eq, Structural)]
pub enum Sound {
    Orb,
    Catch,
    Timer,
    Dash,
    Shoot,
}

/// The round's countdown.
#[derive(Debug, Clone, Copy, PartialEq, Eq, Structural)]
pub struct CountDownTimer(pub crate::timer::GameTimer);

impl CountDownTimer {
    pub fn new(duration_ms: u64) -> (t: CountDownTimer)
        ensures
            t.0.wf(),
            t.0.duration_ms == duration_ms,
            t.0.elapsed_ms == 0,
            !t.0.just_finished,
    {
        CountDownTimer(crate::timer::GameTimer::new(duration_ms))
    }
}

/// The fill colour each role wears.
pub open spec fn role_color(r: Role) -> Rgb {
    match r {
        Role::Tagger => Rgb { r: 94, g: 165, b: 255 },
        Role::Runner => Rgb { r: 107, g: 186, b: 93 },
    }
}

/// The physics layer each role collides on.
pub open spec fn role_layer(r: Role) -> Layer {
    match r {
        Role::Tagger => Layer::Tagger,
        Role::Runner => Layer::Runner,
    }
}

/// A player entity that fits its world: speed and heading within bounds,
/// position inside the window, colour and layer those of its role, and a
/// tagger never mid-dash or cooling down.
pub open spec fn player_state_wf(p: PlayerState, w: int, h: int) -> bool {
    &&& player_wf(p.player)
    &&& -(w / 2) <= p.x <= w / 2
    &&& -(h / 2) <= p.y <= h / 2
    &&& p.fill == role_color(p.role)
    &&& p.layer == role_layer(p.role)
    &&& (p.role == Role::Tagger ==> p.dash == DashState::Ready)
}

/// The full state of a running round. The engine owns the windows, bodies
/// and sprites; this is everything the rules need of them.
pub struct GameWorld {
    pub p1: PlayerState,
    pub p2: PlayerState,
    pub bullets: Vec<BulletEntity>,
    pub orbs: Vec<Orb>,
    pub next_id: u64,
    pub p1_text: Rgb,
    pub p2_text: Rgb,
    pub countdown_text: String,
    pub countdown_color: Rgb,
    pub dash_timer: DashTimer,
    pub cooldown_timer: CooldownTimer,
    pub countdown: CountDownTimer,
    pub window_w: i64,
    pub window_h: i64,
}

/// The world's invariant, held by every gameplay system: the window within
/// the sizes the arithmetic supports; the two players in opposite roles,
/// each well-formed, with the top-bar name colours tracking the roles;
/// bullets and orbs well-formed, in bounds, with unique ids below the id
/// counter; orbs pairwise separated; the timers sound and of the fixed
/// durations.
pub open spec fn world_wf(w: GameWorld) -> bool {
    &&& 0 <= w.window_w <= 1_000_000_000
    &&& 80_000 <= w.window_h <= 1_000_000_000
    &&& w.p1.role != w.p2.role
    &&& player_state_wf(w.p1, w.window_w as int, w.window_h as int)
    &&& player_state_wf(w.p2, w.window_w as int, w.window_h as int)
    &&& w.p1_text == role_color(w.p1.role)
    &&& w.p2_text == role_color(w.p2.role)
    &&& forall|i: int|
        0 <= i < w.bullets@.len() ==> bullet_wf(#[trigger] w.bullets@[i].bullet)
            && bullet_in_bounds(
            w.bullets@[i],
            w.window_w as int / 2,
            w.window_h as int / 2,
        ) && w.bullets@[i].id < w.next_id
    &&& forall|i: int, j: int|
        0 <= i < j < w.bullets@.len() ==> (#[trigger] w.bullets@[i].id) != (
        #[trigger] w.bullets@[j].id)
    &&& forall|i: int|
        0 <= i < w.orbs@.len() ==> orb_in_field(
            #[trigger] w.orbs@[i],
            w.window_w as int,
            w.window_h as int,
        ) && w.orbs@[i].id < w.next_id && (w.orbs@[i].spin == 1 || w.orbs@[i].spin == -1)
    &&& orbs_pairwise_separated(w.orbs@)
    &&& orb_ids_unique(w.orbs@)
    &&& w.orbs@.len() <= crate::orb::desired_orb_count(w.window_w as int, w.window_h as int)
    &&& w.dash_timer.0.wf()
    &&& w.cooldown_timer.0.wf()
    &&& w.countdown.0.wf()
    &&& w.dash_timer.0.duration_ms == crate::player::DASH_DUR
    &&& w.cooldown_timer.0.duration_ms == crate::player::COOLDOWN_DUR
    &&& w.countdown.0.duration_ms == GAME_DUR
}

/// The player currently holding the tagger role.
pub open spec fn tagger_of(w: GameWorld) -> PlayerId {
    if w.p1.role == Role::Tagger {
        PlayerId::P1
    } else {
        PlayerId::P2
    }
}

/// The player currently holding the runner role.
pub open spec fn runner_of(w: GameWorld) -> PlayerId {
    if w.p1.role == Role::Runner {
        PlayerId::P1
    } else {
        PlayerId::P2
    }
}

/// The state of the given player.
pub open spec fn player_of(w: GameWorld, p: PlayerId) -> PlayerState {
    match p {
        PlayerId::P1 => w.p1,
        PlayerId::P2 => w.p2,
    }
}

/// Start a round: the players at their corners, no bullets, no orbs yet, a
/// fresh countdown showing "01:00" in white, and the dash and cooldown
/// timers wound back.
pub fn setup_game(window_w: i64, window_h: i64) -> (w: GameWorld)
    requires
        0 <= window_w <= 1_000_000_000,
        80_000 <= window_h <= 1_000_000_000,
    ensures
        world_wf(w),
        w.p1 == crate::player::spec_initial_p1(window_w as int, window_h as int),
        w.p2 == crate::player::spec_initial_p2(window_w as int, window_h as int),
        w.bullets@.len() == 0,
        w.orbs@.len() == 0,
        w.next_id == 0,
        w.p1_text == role_color(Role::Tagger),
        w.p2_text == role_color(Role::Runner),
        w.countdown_text@ == "01:00"@,
        w.countdown_color == (Rgb { r: 255, g: 255, b: 255 }),
        w.dash_timer.0.elapsed_ms == 0 && !w.dash_timer.0.just_finished,
        w.cooldown_timer.0.elapsed_ms == 0 && !w.cooldown_timer.0.just_finished,
        w.countdown.0.elapsed_ms == 0 && !w.countdown.0.just_finished,
        w.window_w == window_w,
        w.window_h == window_h,
{
    let (p1, p2) = crate::player::spawn_players(window_w, window_h);
    GameWorld {
        p1,
        p2,
        bullets: Vec::new(),
        orbs: Vec::new(),
        next_id: 0,
        p1_text: tagger_col(),
        p2_text: runner_col(),
        countdown_text: String::from_str("01:00"),
        countdown_color: white(),
        dash_timer: DashTimer::new(crate::player::DASH_DUR),
        cooldown_timer: CooldownTimer::new(crate::player::COOLDOWN_DUR),
        countdown: CountDownTimer::new(GAME_DUR),
        window_w,
        window_h,
    }
}

/// One frame of input handling: each player steers by its own keys; a
/// dashing player cannot change its speed.
pub fn input_system(world: &mut GameWorld, pressed: &Vec<Key>, dt_ms: u32)
    requires
        world_wf(*old(world)),
    ensures
        world_wf(*final(world)),
        final(world).p1 == (PlayerState {
            player: crate::player::spec_move_inputs(
                old(world).p1.player,
                pressed@,
                old(world).p1.dash == DashState::Dashing,
                dt_ms as int,
            ),
            ..old(world).p1
        }),
        final(world).p2 == (PlayerState {
            player: crate::player::spec_move_inputs(
                old(world).p2.player,
                pressed@,
                old(world).p2.dash == DashState::Dashing,
                dt_ms as int,
            ),
            ..old(world).p2
        }),
        final(world).bullets@ == old(world).bullets@,
        final(world).orbs@ == old(world).orbs@,
        final(world).next_id == old(world).next_id,
        final(world).p1_text == old(world).p1_text,
        final(world).p2_text == old(world).p2_text,
        final(world).countdown_text == old(world).countdown_text,
        final(world).countdown_color == old(world).countdown_color,
        final(world).dash_timer == old(world).dash_timer,
        final(world).cooldown_timer == old(world).cooldown_timer,
        final(world).countdown == old(world).countdown,
        final(world).window_w == old(world).window_w,
        final(world).window_h == old(world).window_h,
{
    let d1 = matches!(world.p1.dash, DashState::Dashing);
    crate::player::handle_move_inputs(&mut world.p1.player, pressed, d1, dt_ms);
    let d2 = matches!(world.p2.dash, DashState::Dashing);
    crate::player::handle_move_inputs(&mut world.p2.player, pressed, d2, dt_ms);
}

/// The tagger's action this frame: a press of its action key plays the
/// shot sound and spawns a bullet at the tagger along the given heading
/// vector (the tagger's own, in thousandths).
pub fn shoot_system(
    world: &mut GameWorld,
    just_pressed: &Vec<Key>,
    dir_x: i64,
    dir_y: i64,
    sounds: &mut Vec<Sound>,
)
    requires
        world_wf(*old(world)),
        -1000 <= dir_x <= 1000,
        -1000 <= dir_y <= 1000,
        old(world).next_id < u64::MAX,
    ensures
        world_wf(*final(world)),
        ({
            let tp = player_of(*old(world), tagger_of(*old(world)));
            let shooting = just_pressed@.contains(tp.player.keys.action);
            &&& (shooting ==> final(world).bullets@ == old(world).bullets@.push(
                BulletEntity {
                    id: old(world).next_id,
                    x: tp.x,
                    y: tp.y,
                    bullet: crate::bullet::Bullet {
                        shooter: tagger_of(*old(world)),
                        dir_x,
                        dir_y,
                        radius: crate::bullet::BULLET_RADIUS,
                        speed: crate::bullet::BULLET_SPEED,
                    },
                },
            ) && final(world).next_id == old(world).next_id + 1 && final(sounds)@ == old(sounds)@.push(
                Sound::Shoot,
            ))
            &&& (!shooting ==> final(world).bullets@ == old(world).bullets@ && final(world).next_id
                == old(world).next_id && final(sounds)@ == old(sounds)@)
        }),
        final(world).p1 == old(world).p1,
        final(world).p2 == old(world).p2,
        final(world).orbs@ == old(world).orbs@,
        final(world).p1_text == old(world).p1_text,
        final(world).p2_text == old(world).p2_text,
        final(world).countdown_text == old(world).countdown_text,
        final(world).countdown_color == old(world).countdown_color,
        final(world).dash_timer == old(world).dash_timer,
        final(world).cooldown_timer == old(world).cooldown_timer,
        final(world).countdown == old(world).countdown,
        final(world).window_w == old(world).window_w,
        final(world).window_h == old(world).window_h,
{
    let (tid, tx, ty) = if matches!(world.p1.role, Role::Tagger) {
        (PlayerId::P1, world.p1.x, world.p1.y)
    } else {
        (PlayerId::P2, world.p2.x, world.p2.y)
    };
    let tagger_player = if matches!(tid, PlayerId::P1) {
        &world.p1.player
    } else {
        &world.p2.player
    };
    let fired = crate::player::handle_action_button_for_tagger(
        tagger_player,
        just_pressed,
        tx,
        ty,
        dir_x,
        dir_y,
        tid,
        world.next_id,
    );
    match fired {
        Option::Some(b) => {
            world.bullets.push(b);
            world.next_id = world.next_id + 1;
            sounds.push(Sound::Shoot);
            proof {
                let bs = world.bullets@;
                let obs = old(world).bullets@;
                assert forall|i: int|
                    0 <= i < bs.len() implies bullet_wf(#[trigger] bs[i].bullet)
                    && bullet_in_bounds(
                    bs[i],
                    world.window_w as int / 2,
                    world.window_h as int / 2,
                ) && bs[i].id < world.next_id by {
                    if i < bs.len() - 1 {
                        assert(bs[i] == obs[i]);
                        assert(bullet_wf(obs[i].bullet));
                    } else {
                        assert(bs[i] == b);
                    }
                }
                assert forall|i: int, j: int| 0 <= i < j < bs.len() implies (#[trigger] bs[i].id)
                    != (#[trigger] bs[j].id) by {
                    if j < bs.len() - 1 {
                        assert(bs[i] == obs[i] && bs[j] == obs[j]);
                    } else {
                        assert(bs[i] == obs[i]);
                        assert(bullet_wf(obs[i].bullet));
                        assert(obs[i].id < old(world).next_id);
                    }
                }
            }
        },
        Option::None => {},
    }
}

/// The runner's action this frame: a press of its action key while neither
/// dash nor cooldown runs plays the dash sound and launches the dash.
pub fn dash_system(world: &mut GameWorld, just_pressed: &Vec<Key>, sounds: &mut Vec<Sound>)
    requires
        world_wf(*old(world)),
    ensures
        world_wf(*final(world)),
        ({
            let rid = runner_of(*old(world));
            let rp = player_of(*old(world), rid);
            let started = rp.dash == DashState::Ready && just_pressed@.contains(
                rp.player.keys.action,
            );
            let started_state = PlayerState {
                player: crate::player::Player {
                    velocity: crate::player::DASH_SPEED,
                    ..rp.player
                },
                dash: DashState::Dashing,
                ..rp
            };
            &&& (started && rid == PlayerId::P1 ==> final(world).p1 == started_state
                && final(world).p2 == old(world).p2)
            &&& (started && rid == PlayerId::P2 ==> final(world).p2 == started_state
                && final(world).p1 == old(world).p1)
            &&& (started ==> final(sounds)@ == old(sounds)@.push(Sound::Dash))
            &&& (!started ==> final(world).p1 == old(world).p1 && final(world).p2 == old(world).p2
                && final(sounds)@ == old(sounds)@)
        }),
        final(world).bullets@ == old(world).bullets@,
        final(world).orbs@ == old(world).orbs@,
        final(world).next_id == old(world).next_id,
        final(world).p1_text == old(world).p1_text,
        final(world).p2_text == old(world).p2_text,
        final(world).countdown_text == old(world).countdown_text,
        final(world).countdown_color == old(world).countdown_color,
        final(world).dash_timer == old(world).dash_timer,
        final(world).cooldown_timer == old(world).cooldown_timer,
        final(world).countdown == old(world).countdown,
        final(world).window_w == old(world).window_w,
        final(world).window_h == old(world).window_h,
{
    let started = if matches!(world.p1.role, Role::Runner) {
        crate::player::handle_action_button_for_runner(
            &mut world.p1.player,
            &mut world.p1.dash,
            just_pressed,
        )
    } else {
        crate::player::handle_action_button_for_runner(
            &mut world.p2.player,
            &mut world.p2.dash,
            just_pressed,
        )
    };
    if started {
        sounds.push(Sound::Dash);
    }
}

/// Tick the dash timer while the runner dashes; the tick that ends the dash
/// moves the runner into the cooldown and winds the timer back.
pub fn dash_timer_system(world: &mut GameWorld, dt_ms: u64)
    requires
        world_wf(*old(world)),
    ensures
        world_wf(*final(world)),
        ({
            let rid = runner_of(*old(world));
            let rp = player_of(*old(world), rid);
            let stepped = crate::player::spec_dash_tick(rp.dash, old(world).dash_timer, dt_ms);
            &&& final(world).dash_timer == stepped.1
            &&& (rid == PlayerId::P1 ==> final(world).p1 == (PlayerState {
                dash: stepped.0,
                ..rp
            }) && final(world).p2 == old(world).p2)
            &&& (rid == PlayerId::P2 ==> final(world).p2 == (PlayerState {
                dash: stepped.0,
                ..rp
            }) && final(world).p1 == old(world).p1)
        }),
        final(world).bullets@ == old(world).bullets@,
        final(world).orbs@ == old(world).orbs@,
        final(world).next_id == old(world).next_id,
        final(world).p1_text == old(world).p1_text,
        final(world).p2_text == old(world).p2_text,
        final(world).countdown_text == old(world).countdown_text,
        final(world).countdown_color == old(world).countdown_color,
        final(world).cooldown_timer == old(world).cooldown_timer,
        final(world).countdown == old(world).countdown,
        final(world).window_w == old(world).window_w,
        final(world).window_h == old(world).window_h,
{
    if matches!(world.p1.role, Role::Runner) {
        crate::player::handle_dash_timer_for_runner(
            &mut world.p1.dash,
            &mut world.dash_timer,
            dt_ms,
        );
    } else {
        crate::player::handle_dash_timer_for_runner(
            &mut world.p2.dash,
            &mut world.dash_timer,
            dt_ms,
        );
    }
}

/// Tick the cooldown timer while the runner cools down; the tick that ends
/// it frees the runner to dash again and winds the timer back.
pub fn cooldown_timer_system(world: &mut GameWorld, dt_ms: u64)
    requires
        world_wf(*old(world)),
    ensures
        world_wf(*final(world)),
        ({
            let rid = runner_of(*old(world));
            let rp = player_of(*old(world), rid);
            let stepped = crate::player::spec_cooldown_tick(
                rp.dash,
                old(world).cooldown_timer,
                dt_ms,
            );
            &&& final(world).cooldown_timer == stepped.1
            &&& (rid == PlayerId::P1 ==> final(world).p1 == (PlayerState {
                dash: stepped.0,
                ..rp
            }) && final(world).p2 == old(world).p2)
            &&& (rid == PlayerId::P2 ==> final(world).p2 == (PlayerState {
                dash: stepped.0,
                ..rp
            }) && final(world).p1 == old(world).p1)
        }),
        final(world).bullets@ == old(world).bullets@,
        final(world).orbs@ == old(world).orbs@,
        final(world).next_id == old(world).next_id,
        final(world).p1_text == old(world).p1_text,
        final(world).p2_text == old(world).p2_text,
        final(world).countdown_text == old(world).countdown_text,
        final(world).countdown_color == old(world).countdown_color,
        final(world).dash_timer == old(world).dash_timer,
        final(world).countdown == old(world).countdown,
        final(world).window_w == old(world).window_w,
        final(world).window_h == old(world).window_h,
{
    if matches!(world.p1.role, Role::Runner) {
        crate::player::handle_cooldown_timer_for_runner(
            &mut world.p1.dash,
            &mut world.cooldown_timer,
            dt_ms,
        );
    } else {
        crate::player::handle_cooldown_timer_for_runner(
            &mut world.p2.dash,
            &mut world.cooldown_timer,
            dt_ms,
        );
    }
}

/// One body of a reported contact: a player, a bullet or an orb, the latter
/// two named by the id the world knows them by.
#[derive(Debug, Clone, Copy, PartialEq, Eq, Structural)]
pub enum Collider {
    Player(PlayerId),
    Bullet(u64),
    Orb(u64),
}

/// A contact the physics engine reported this frame.
#[derive(Debug, Clone, Copy, PartialEq, Eq, Structural)]
pub struct Contact {
    pub a: Collider,
    pub b: Collider,
}

/// Whether a bullet of this id is (still) in the world.
pub open spec fn bullet_exists(bs: Seq<BulletEntity>, id: u64) -> bool {
    exists|j: int| 0 <= j < bs.len() && (#[trigger] bs[j]).id == id
}

/// The bullet of this id; meaningful only while one exists and the ids are
/// unique.
pub open spec fn bullet_with_id(bs: Seq<BulletEntity>, id: u64) -> BulletEntity {
    bs[choose|j: int| 0 <= j < bs.len() && (#[trigger] bs[j]).id == id]
}

/// Whether an orb of this id is (still) in the world.
pub open spec fn orb_exists(os: Seq<Orb>, id: u64) -> bool {
    exists|j: int| 0 <= j < os.len() && (#[trigger] os[j]).id == id
}

/// Everything of the world a contact can change: the players, the bullet
/// and orb lists, the top-bar name colours and the two dash-cycle timers.
#[verifier::ext_equal]
pub ghost struct WorldSnap {
    pub p1: PlayerState,
    pub p2: PlayerState,
    pub bullets: Seq<BulletEntity>,
    pub orbs: Seq<Orb>,
    pub p1_text: Rgb,
    pub p2_text: Rgb,
    pub dash_timer: DashTimer,
    pub cooldown_timer: CooldownTimer,
}

pub open spec fn snap(w: GameWorld) -> WorldSnap {
    WorldSnap {
        p1: w.p1,
        p2: w.p2,
        bullets: w.bullets@,
        orbs: w.orbs@,
        p1_text: w.p1_text,
        p2_text: w.p2_text,
        dash_timer: w.dash_timer,
        cooldown_timer: w.cooldown_timer,
    }
}

pub open spec fn snap_player(s: WorldSnap, p: PlayerId) -> PlayerState {
    match p {
        PlayerId::P1 => s.p1,
        PlayerId::P2 => s.p2,
    }
}

pub open spec fn snap_with_player(s: WorldSnap, p: PlayerId, ps: PlayerState) -> WorldSnap {
    match p {
        PlayerId::P1 => WorldSnap { p1: ps, ..s },
        PlayerId::P2 => WorldSnap { p2: ps, ..s },
    }
}

/// An orb pickup throws the player back: the velocity jumps to full speed
/// against its current sign.
pub open spec fn spec_bounce(ps: PlayerState) -> PlayerState {
    PlayerState {
        player: Player {
            velocity: if ps.player.velocity < 0 {
                crate::player::MAX_SPEED
            } else {
                (-crate::player::MAX_SPEED) as i64
            },
            ..ps.player
        },
        ..ps
    }
}

/// The top-bar name colours swap with the roles.
pub open spec fn spec_toggle_text(c: Rgb) -> Rgb {
    if c == role_color(Role::Tagger) {
        role_color(Role::Runner)
    } else {
        role_color(Role::Tagger)
    }
}

/// The role swap on a bullet hit: the runner becomes the tagger (its dash
/// and cooldown stripped), the shooter becomes the runner, fills, layers and
/// name colours follow, both dash-cycle timers rewind, and the bullet
/// despawns.
pub open spec fn spec_swap_roles(
    s: WorldSnap,
    runner: PlayerId,
    shooter: PlayerId,
    bullet_id: u64,
) -> WorldSnap {
    let rp = snap_player(s, runner);
    let sp = snap_player(s, shooter);
    let new_tagger = PlayerState {
        role: Role::Tagger,
        dash: DashState::Ready,
        fill: role_color(Role::Tagger),
        layer: Layer::Tagger,
        ..rp
    };
    let new_runner = PlayerState {
        role: Role::Runner,
        fill: role_color(Role::Runner),
        layer: Layer::Runner,
        ..sp
    };
    let s1 = snap_with_player(snap_with_player(s, runner, new_tagger), shooter, new_runner);
    WorldSnap {
        bullets: s.bullets.filter(|b: BulletEntity| b.id != bullet_id),
        p1_text: spec_toggle_text(s.p1_text),
        p2_text: spec_toggle_text(s.p2_text),
        dash_timer: DashTimer(
            GameTimer {
                duration_ms: s.dash_timer.0.duration_ms,
                elapsed_ms: 0,
                just_finished: false,
            },
        ),
        cooldown_timer: CooldownTimer(
            GameTimer {
                duration_ms: s.cooldown_timer.0.duration_ms,
                elapsed_ms: 0,
                just_finished: false,
            },
        ),
        ..s1
    }
}

/// What a contact does to the runner (while not dashing): a bullet shot by
/// the standing tagger swaps the roles; an orb throws the runner back and
/// despawns; anything else does nothing.
pub open spec fn spec_runner_collide(s: WorldSnap, p: PlayerId, other: Collider) -> (
    WorldSnap,
    Seq<Sound>,
) {
    match other {
        Collider::Bullet(id) => {
            if bullet_exists(s.bullets, id) && snap_player(
                s,
                bullet_with_id(s.bullets, id).bullet.shooter,
            ).role == Role::Tagger {
                (
                    spec_swap_roles(s, p, bullet_with_id(s.bullets, id).bullet.shooter, id),
                    seq![Sound::Catch],
                )
            } else {
                (s, Seq::empty())
            }
        },
        Collider::Orb(id) => {
            if orb_exists(s.orbs, id) {
                (
                    WorldSnap {
                        orbs: s.orbs.filter(|o: Orb| o.id != id),
                        ..snap_with_player(s, p, spec_bounce(snap_player(s, p)))
                    },
                    seq![Sound::Orb],
                )
            } else {
                (s, Seq::empty())
            }
        },
        Collider::Player(_) => (s, Seq::empty()),
    }
}

/// What a contact does to the tagger: an orb throws it back and despawns;
/// anything else does nothing.
pub open spec fn spec_tagger_collide(s: WorldSnap, p: PlayerId, other: Collider) -> (
    WorldSnap,
    Seq<Sound>,
) {
    match other {
        Collider::Orb(id) => {
            if orb_exists(s.orbs, id) {
                (
                    WorldSnap {
                        orbs: s.orbs.filter(|o: Orb| o.id != id),
                        ..snap_with_player(s, p, spec_bounce(snap_player(s, p)))
                    },
                    seq![Sound::Orb],
                )
            } else {
                (s, Seq::empty())
            }
        },
        _ => (s, Seq::empty()),
    }
}

/// What a contact does to a player: the runner reacts unless mid-dash, the
/// tagger reacts to orbs.
pub open spec fn spec_player_collide(s: WorldSnap, p: PlayerId, other: Collider) -> (
    WorldSnap,
    Seq<Sound>,
) {
    let ps = snap_player(s, p);
    if ps.role == Role::Runner && ps.dash != DashState::Dashing {
        spec_runner_collide(s, p, other)
    } else if ps.role == Role::Tagger {
        spec_tagger_collide(s, p, other)
    } else {
        (s, Seq::empty())
    }
}

/// Remove a body from the world, whichever list it lives in. Removing a
/// body that is already gone does nothing.
pub open spec fn spec_despawn(s: WorldSnap, c: Collider) -> WorldSnap {
    match c {
        Collider::Bullet(id) => WorldSnap {
            bullets: s.bullets.filter(|b: BulletEntity| b.id != id),
            ..s
        },
        Collider::Orb(id) => WorldSnap { orbs: s.orbs.filter(|o: Orb| o.id != id), ..s },
        Collider::Player(_) => s,
    }
}

/// One reported contact, dispatched as the collision system does: a contact
/// involving a player goes to that player's handler; otherwise a live orb
/// despawns whatever hit it, and a live bullet despawns itself.
pub open spec fn spec_collide(s: WorldSnap, a: Collider, b: Collider) -> (WorldSnap, Seq<Sound>) {
    match a {
        Collider::Player(p) => spec_player_collide(s, p, b),
        Collider::Orb(id) => match b {
            Collider::Player(p) => spec_player_collide(s, p, a),
            _ => if orb_exists(s.orbs, id) {
                (spec_despawn(s, b), Seq::empty())
            } else {
                (s, Seq::empty())
            },
        },
        Collider::Bullet(id) => match b {
            Collider::Player(p) => spec_player_collide(s, p, a),
            _ => if bullet_exists(s.bullets, id) {
                (spec_despawn(s, a), Seq::empty())
            } else {
                (s, Seq::empty())
            },
        },
    }
}

/// A frame's worth of contacts, applied in the order they were reported.
pub open spec fn spec_collide_all(s: WorldSnap, evs: Seq<Contact>) -> (WorldSnap, Seq<Sound>)
    decreases evs.len(),
{
    if evs.len() == 0 {
        (s, Seq::empty())
    } else {
        let prev = spec_collide_all(s, evs.drop_last());
        let step = spec_collide(prev.0, evs.last().a, evs.last().b);
        (step.0, prev.1 + step.1)
    }
}

/// Whether an orb of this id is still in the world.
fn orb_exists_exec(orbs: &Vec<Orb>, id: u64) -> (r: bool)
    ensures
        r == orb_exists(orbs@, id),
{
    let mut i: usize = 0;
    while i < orbs.len()
        invariant
            i <= orbs@.len(),
            forall|j: int| 0 <= j < i ==> (#[trigger] orbs@[j]).id != id,
        decreases orbs@.len() - i,
    {
        if orbs[i].id == id {
            return true;
        }
        i = i + 1;
    }
    false
}

/// Look a bullet up by its id.
fn find_bullet(bullets: &Vec<BulletEntity>, id: u64) -> (r: Option<BulletEntity>)
    requires
        bullet_ids_unique(bullets@),
    ensures
        r is Some <==> bullet_exists(bullets@, id),
        r matches Some(b) ==> b == bullet_with_id(bullets@, id) && b.id == id,
{
    let mut i: usize = 0;
    while i < bullets.len()
        invariant
            i <= bullets@.len(),
            bullet_ids_unique(bullets@),
            forall|j: int| 0 <= j < i ==> (#[trigger] bullets@[j]).id != id,
        decreases bullets@.len() - i,
    {
        if bullets[i].id == id {
            proof {
                let bs = bullets@;
                assert(0 <= i as int && (i as int) < bs.len() && bs[i as int].id == id);
                let j = choose|j: int| 0 <= j < bs.len() && (#[trigger] bs[j]).id == id;
                if j < i as int {
                    assert(bs[j].id != id);
                } else if j > i as int {
                    assert(bs[i as int].id != bs[j].id);
                }
                assert(bullet_with_id(bs, id) == bs[i as int]);
            }
            return Some(bullets[i]);
        }
        i = i + 1;
    }
    None
}

/// Drop the bullet of this id, a no-op if it is already gone.
fn remove_bullet_by_id(bullets: &mut Vec<BulletEntity>, id: u64)
    ensures
        final(bullets)@ == old(bullets)@.filter(|b: BulletEntity| b.id != id),
{
    let ghost keep = |b: BulletEntity| b.id != id;
    let mut result: Vec<BulletEntity> = Vec::new();
    let mut i: usize = 0;
    proof {
        assert(old(bullets)@.take(0int).filter(keep) =~= Seq::<BulletEntity>::empty()) by {
            reveal(Seq::filter);
            assert(old(bullets)@.take(0int) =~= Seq::<BulletEntity>::empty());
        }
    }
    while i < bullets.len()
        invariant
            i <= bullets@.len(),
            bullets@ == old(bullets)@,
            keep == (|b: BulletEntity| b.id != id),
            result@ == bullets@.take(i as int).filter(keep),
        decreases bullets@.len() - i,
    {
        let e = bullets[i];
        if e.id != id {
            result.push(e);
        }
        proof {
            let taken = bullets@.take(i as int);
            assert(bullets@.take(i + 1int) =~= taken.push(e));
            assert(taken.push(e).filter(keep) == result@) by {
                reveal(Seq::filter);
                let m = taken.push(e);
                assert(m.drop_last() =~= taken);
                assert(m.last() == e);
            }
        }
        i = i + 1;
    }
    proof {
        assert(bullets@.take(bullets@.len() as int) =~= bullets@);
    }
    *bullets = result;
}

/// Drop the orb of this id, a no-op if it is already gone.
fn remove_orb_by_id(orbs: &mut Vec<Orb>, id: u64)
    ensures
        final(orbs)@ == old(orbs)@.filter(|o: Orb| o.id != id),
{
    let ghost keep = |o: Orb| o.id != id;
    let mut result: Vec<Orb> = Vec::new();
    let mut i: usize = 0;
    proof {
        assert(old(orbs)@.take(0int).filter(keep) =~= Seq::<Orb>::empty()) by {
            reveal(Seq::filter);
            assert(old(orbs)@.take(0int) =~= Seq::<Orb>::empty());
        }
    }
    while i < orbs.len()
        invariant
            i <= orbs@.len(),
            orbs@ == old(orbs)@,
            keep == (|o: Orb| o.id != id),
            result@ == orbs@.take(i as int).filter(keep),
        decreases orbs@.len() - i,
    {
        let e = orbs[i];
        if e.id != id {
            result.push(e);
        }
        proof {
            let taken = orbs@.take(i as int);
            assert(orbs@.take(i + 1int) =~= taken.push(e));
            assert(taken.push(e).filter(keep) == result@) by {
                reveal(Seq::filter);
                let m = taken.push(e);
                assert(m.drop_last() =~= taken);
                assert(m.last() == e);
            }
        }
        i = i + 1;
    }
    proof {
        assert(orbs@.take(orbs@.len() as int) =~= orbs@);
    }
    *orbs = result;
}

/// The world after dropping the bullet of this id still satisfies the
/// invariant.
proof fn lemma_remove_bullet_wf(w: GameWorld, v: GameWorld, id: u64)
    requires
        world_wf(w),
        v == (GameWorld { bullets: v.bullets, ..w }),
        v.bullets@ == w.bullets@.filter(|b: BulletEntity| b.id != id),
    ensures
        world_wf(v),
{
    let keep = |b: BulletEntity| b.id != id;
    lemma_filter_bullets(w.bullets@, keep);
    let out = w.bullets@.filter(keep);
    assert forall|i: int| 0 <= i < out.len() implies bullet_wf(#[trigger] out[i].bullet)
        && bullet_in_bounds(out[i], w.window_w as int / 2, w.window_h as int / 2) && out[i].id
        < w.next_id by {
        assert(w.bullets@.contains(out[i]));
        let j = choose|j: int| 0 <= j < w.bullets@.len() && w.bullets@[j] == out[i];
        assert(bullet_wf(w.bullets@[j].bullet));
    }
}

/// The world after dropping the orb of this id still satisfies the
/// invariant.
proof fn lemma_remove_orb_wf(w: GameWorld, v: GameWorld, id: u64)
    requires
        world_wf(w),
        v == (GameWorld { orbs: v.orbs, ..w }),
        v.orbs@ == w.orbs@.filter(|o: Orb| o.id != id),
    ensures
        world_wf(v),
{
    let keep = |o: Orb| o.id != id;
    lemma_filter_orbs(w.orbs@, keep);
    w.orbs@.lemma_filter_len(keep);
    let out = w.orbs@.filter(keep);
    assert forall|i: int| 0 <= i < out.len() implies orb_in_field(
        #[trigger] out[i],
        w.window_w as int,
        w.window_h as int,
    ) && out[i].id < w.next_id && (out[i].spin == 1 || out[i].spin == -1) by {
        assert(w.orbs@.contains(out[i]));
        let j = choose|j: int| 0 <= j < w.orbs@.len() && w.orbs@[j] == out[i];
        assert(orb_in_field(w.orbs@[j], w.window_w as int, w.window_h as int));
    }
}

/// Remove whatever body a collider names, a no-op for a player or for a
/// body already gone.
fn despawn_collider(world: &mut GameWorld, c: Collider)
    requires
        world_wf(*old(world)),
    ensures
        world_wf(*final(world)),
        snap(*final(world)) == spec_despawn(snap(*old(world)), c),
        final(world).next_id == old(world).next_id,
        final(world).countdown_text == old(world).countdown_text,
        final(world).countdown_color == old(world).countdown_color,
        final(world).countdown == old(world).countdown,
        final(world).window_w == old(world).window_w,
        final(world).window_h == old(world).window_h,
{
    match c {
        Collider::Bullet(id) => {
            remove_bullet_by_id(&mut world.bullets, id);
            proof {
                lemma_remove_bullet_wf(*old(world), *world, id);
                assert(snap(*world) =~= spec_despawn(snap(*old(world)), c));
            }
        },
        Collider::Orb(id) => {
            remove_orb_by_id(&mut world.orbs, id);
            proof {
                lemma_remove_orb_wf(*old(world), *world, id);
                assert(snap(*world) =~= spec_despawn(snap(*old(world)), c));
            }
        },
        Collider::Player(_) => {
            proof {
                assert(snap(*world) =~= spec_despawn(snap(*old(world)), c));
            }
        },
    }
}

/// The tagger ran into something: an orb throws it back at full speed and
/// despawns with its pickup sound; anything else leaves the tagger alone.
pub fn handle_tagger_collision(
    world: &mut GameWorld,
    p: PlayerId,
    other: Collider,
    sounds: &mut Vec<Sound>,
)
    requires
        world_wf(*old(world)),
        player_of(*old(world), p).role == Role::Tagger,
    ensures
        world_wf(*final(world)),
        snap(*final(world)) == spec_tagger_collide(snap(*old(world)), p, other).0,
        final(sounds)@ == old(sounds)@ + spec_tagger_collide(snap(*old(world)), p, other).1,
        final(world).next_id == old(world).next_id,
        final(world).countdown_text == old(world).countdown_text,
        final(world).countdown_color == old(world).countdown_color,
        final(world).countdown == old(world).countdown,
        final(world).window_w == old(world).window_w,
        final(world).window_h == old(world).window_h,
{
    let mut picked_up = false;
    match other {
        Collider::Orb(id) => {
            if orb_exists_exec(&world.orbs, id) {
                picked_up = true;
                let ps = match p {
                    PlayerId::P1 => world.p1,
                    PlayerId::P2 => world.p2,
                };
                let nv: i64 = if ps.player.velocity < 0 {
                    crate::player::MAX_SPEED
                } else {
                    -crate::player::MAX_SPEED
                };
                let nps = PlayerState { player: Player { velocity: nv, ..ps.player }, ..ps };
                match p {
                    PlayerId::P1 => {
                        world.p1 = nps;
                    },
                    PlayerId::P2 => {
                        world.p2 = nps;
                    },
                }
                let ghost mid = *world;
                remove_orb_by_id(&mut world.orbs, id);
                sounds.push(Sound::Orb);
                proof {
                    lemma_remove_orb_wf(mid, *world, id);
                    assert(snap(*world) =~= spec_tagger_collide(snap(*old(world)), p, other).0);
                    assert(final(sounds)@ =~= old(sounds)@ + seq![Sound::Orb]);
                }
            }
        },
        _ => {},
    }
    if !picked_up {
        proof {
            assert(snap(*world) =~= spec_tagger_collide(snap(*old(world)), p, other).0);
            assert(final(sounds)@ =~= old(sounds)@ + spec_tagger_collide(
                snap(*old(world)),
                p,
                other,
            ).1);
        }
    }
}

/// The runner ran into something while not dashing: a bullet shot by the
/// standing tagger swaps the roles; an orb throws the runner back and
/// despawns; anything else leaves the runner alone.
pub fn handle_runner_collision(
    world: &mut GameWorld,
    p: PlayerId,
    other: Collider,
    sounds: &mut Vec<Sound>,
)
    requires
        world_wf(*old(world)),
        player_of(*old(world), p).role == Role::Runner,
        player_of(*old(world), p).dash != DashState::Dashing,
    ensures
        world_wf(*final(world)),
        snap(*final(world)) == spec_runner_collide(snap(*old(world)), p, other).0,
        final(sounds)@ == old(sounds)@ + spec_runner_collide(snap(*old(world)), p, other).1,
        final(world).next_id == old(world).next_id,
        final(world).countdown_text == old(world).countdown_text,
        final(world).countdown_color == old(world).countdown_color,
        final(world).countdown == old(world).countdown,
        final(world).window_w == old(world).window_w,
        final(world).window_h == old(world).window_h,
{
    let mut handled = false;
    match other {
        Collider::Bullet(id) => {
            let found = find_bullet(&world.bullets, id);
            match found {
                Option::Some(b) => {
                    let shooter = b.bullet.shooter;
                    let shooter_is_tagger = match shooter {
                        PlayerId::P1 => matches!(world.p1.role, Role::Tagger),
                        PlayerId::P2 => matches!(world.p2.role, Role::Tagger),
                    };
                    if shooter_is_tagger {
                        handled = true;
                        let rp = match p {
                            PlayerId::P1 => world.p1,
                            PlayerId::P2 => world.p2,
                        };
                        let new_tagger = PlayerState {
                            role: Role::Tagger,
                            dash: DashState::Ready,
                            fill: tagger_col(),
                            layer: Layer::Tagger,
                            ..rp
                        };
                        match p {
                            PlayerId::P1 => {
                                world.p1 = new_tagger;
                            },
                            PlayerId::P2 => {
                                world.p2 = new_tagger;
                            },
                        }
                        let sp = match shooter {
                            PlayerId::P1 => world.p1,
                            PlayerId::P2 => world.p2,
                        };
                        let new_runner = PlayerState {
                            role: Role::Runner,
                            fill: runner_col(),
                            layer: Layer::Runner,
                            ..sp
                        };
                        match shooter {
                            PlayerId::P1 => {
                                world.p1 = new_runner;
                            },
                            PlayerId::P2 => {
                                world.p2 = new_runner;
                            },
                        }
                        world.p1_text = if world.p1_text == tagger_col() {
                            runner_col()
                        } else {
                            tagger_col()
                        };
                        world.p2_text = if world.p2_text == tagger_col() {
                            runner_col()
                        } else {
                            tagger_col()
                        };
                        world.dash_timer.0.reset();
                        world.cooldown_timer.0.reset();
                        let ghost mid = *world;
                        remove_bullet_by_id(&mut world.bullets, id);
                        sounds.push(Sound::Catch);
                        proof {
                            assert(world.dash_timer == DashTimer(
                                GameTimer {
                                    duration_ms: old(world).dash_timer.0.duration_ms,
                                    elapsed_ms: 0,
                                    just_finished: false,
                                },
                            ));
                            assert(world.cooldown_timer == CooldownTimer(
                                GameTimer {
                                    duration_ms: old(world).cooldown_timer.0.duration_ms,
                                    elapsed_ms: 0,
                                    just_finished: false,
                                },
                            ));
                            lemma_remove_bullet_wf(mid, *world, id);
                            assert(snap(*world) =~= spec_runner_collide(
                                snap(*old(world)),
                                p,
                                other,
                            ).0);
                            assert(final(sounds)@ =~= old(sounds)@ + seq![Sound::Catch]);
                        }
                    }
                },
                Option::None => {},
            }
        },
        Collider::Orb(id) => {
            if orb_exists_exec(&world.orbs, id) {
                handled = true;
                let ps = match p {
                    PlayerId::P1 => world.p1,
                    PlayerId::P2 => world.p2,
                };
                let nv: i64 = if ps.player.velocity < 0 {
                    crate::player::MAX_SPEED
                } else {
                    -crate::player::MAX_SPEED
                };
                let nps = PlayerState { player: Player { velocity: nv, ..ps.player }, ..ps };
                match p {
                    PlayerId::P1 => {
                        world.p1 = nps;
                    },
                    PlayerId::P2 => {
                        world.p2 = nps;
                    },
                }
                let ghost mid = *world;
                remove_orb_by_id(&mut world.orbs, id);
                sounds.push(Sound::Orb);
                proof {
                    lemma_remove_orb_wf(mid, *world, id);
                    assert(snap(*world) =~= spec_runner_collide(snap(*old(world)), p, other).0);
                    assert(final(sounds)@ =~= old(sounds)@ + seq![Sound::Orb]);
                }
            }
        },
        Collider::Player(_) => {},
    }
    if !handled {
        proof {
            assert(snap(*world) =~= spec_runner_collide(snap(*old(world)), p, other).0);
            assert(final(sounds)@ =~= old(sounds)@ + spec_runner_collide(
                snap(*old(world)),
                p,
                other,
            ).1);
        }
    }
}

/// A contact that involves a player: the runner reacts unless mid-dash, the
/// tagger reacts to orbs.
pub fn handle_player_collision(
    world: &mut GameWorld,
    p: PlayerId,
    other: Collider,
    sounds: &mut Vec<Sound>,
)
    requires
        world_wf(*old(world)),
    ensures
        world_wf(*final(world)),
        snap(*final(world)) == spec_player_collide(snap(*old(world)), p, other).0,
        final(sounds)@ == old(sounds)@ + spec_player_collide(snap(*old(world)), p, other).1,
        final(world).next_id == old(world).next_id,
        final(world).countdown_text == old(world).countdown_text,
        final(world).countdown_color == old(world).countdown_color,
        final(world).countdown == old(world).countdown,
        final(world).window_w == old(world).window_w,
        final(world).window_h == old(world).window_h,
{
    let ps = match p {
        PlayerId::P1 => world.p1,
        PlayerId::P2 => world.p2,
    };
    if matches!(ps.role, Role::Runner) && !matches!(ps.dash, DashState::Dashing) {
        handle_runner_collision(world, p, other, sounds);
    } else if matches!(ps.role, Role::Tagger) {
        handle_tagger_collision(world, p, other, sounds);
    } else {
        proof {
            assert(final(sounds)@ =~= old(sounds)@ + Seq::<Sound>::empty());
        }
    }
}

/// The collision system: every contact the physics engine reported this
/// frame, handled in order.
pub fn detect_collisions(world: &mut GameWorld, events: &Vec<Contact>, sounds: &mut Vec<Sound>)
    requires
        world_wf(*old(world)),
    ensures
        world_wf(*final(world)),
        snap(*final(world)) == spec_collide_all(snap(*old(world)), events@).0,
        final(sounds)@ == old(sounds)@ + spec_collide_all(snap(*old(world)), events@).1,
        final(world).next_id == old(world).next_id,
        final(world).countdown_text == old(world).countdown_text,
        final(world).countdown_color == old(world).countdown_color,
        final(world).countdown == old(world).countdown,
        final(world).window_w == old(world).window_w,
        final(world).window_h == old(world).window_h,
{
    let ghost s0 = snap(*old(world));
    let mut i: usize = 0;
    proof {
        assert(events@.take(0int) =~= Seq::<Contact>::empty());
        assert(sounds@ =~= old(sounds)@ + spec_collide_all(s0, events@.take(0int)).1);
    }
    while i < events.len()
        invariant
            i <= events@.len(),
            world_wf(*world),
            s0 == snap(*old(world)),
            snap(*world) == spec_collide_all(s0, events@.take(i as int)).0,
            sounds@ == old(sounds)@ + spec_collide_all(s0, events@.take(i as int)).1,
            world.next_id == old(world).next_id,
            world.countdown_text == old(world).countdown_text,
            world.countdown_color == old(world).countdown_color,
            world.countdown == old(world).countdown,
            world.window_w == old(world).window_w,
            world.window_h == old(world).window_h,
        decreases events@.len() - i,
    {
        let ev = events[i];
        let ghost s_before = snap(*world);
        let ghost sounds_before = sounds@;
        match ev.a {
            Collider::Player(p) => {
                handle_player_collision(world, p, ev.b, sounds);
            },
            _ => {
                match ev.b {
                    Collider::Player(p) => {
                        handle_player_collision(world, p, ev.a, sounds);
                    },
                    _ => {
                        match ev.a {
                            Collider::Orb(id) => {
                                if orb_exists_exec(&world.orbs, id) {
                                    despawn_collider(world, ev.b);
                                }
                            },
                            Collider::Bullet(id) => {
                                let hit = find_bullet(&world.bullets, id);
                                if hit.is_some() {
                                    despawn_collider(world, ev.a);
                                }
                            },
                            Collider::Player(_) => {},
                        }
                        proof {
                            assert(sounds@ =~= sounds_before + Seq::<Sound>::empty());
                        }
                    },
                }
            },
        }
        proof {
            assert(snap(*world) == spec_collide(s_before, ev.a, ev.b).0);
            assert(sounds@ == sounds_before + spec_collide(s_before, ev.a, ev.b).1);
            let evs = events@;
            assert(evs.take(i + 1int).drop_last() =~= evs.take(i as int));
            assert(evs.take(i + 1int).last() == evs[i as int]);
            assert(snap(*world) == spec_collide_all(s0, evs.take(i + 1int)).0);
            assert(sounds@ =~= old(sounds)@ + spec_collide_all(s0, evs.take(i + 1int)).1);
        }
        i = i + 1;
    }
    proof {
        assert(events@.take(events@.len() as int) =~= events@);
    }
}

/// The character a single decimal digit prints as.
pub open spec fn spec_digit(d: int) -> char {
    if d == 0 {
        '0'
    } else if d == 1 {
        '1'
    } else if d == 2 {
        '2'
    } else if d == 3 {
        '3'
    } else if d == 4 {
        '4'
    } else if d == 5 {
        '5'
    } else if d == 6 {
        '6'
    } else if d == 7 {
        '7'
    } else if d == 8 {
        '8'
    } else {
        '9'
    }
}

/// A value of at most 99 printed as two digits, leading zero kept.
pub open spec fn spec_two_digits(d: int) -> Seq<char> {
    seq![spec_digit(d / 10), spec_digit(d % 10)]
}

/// What the countdown displays with `remaining` milliseconds left: whole
/// minutes, a colon, and the seconds into the minute, both zero-padded.
pub open spec fn spec_timer_text(remaining: int) -> Seq<char> {
    spec_two_digits(remaining / 60_000) + seq![':'] + spec_two_digits((remaining % 60_000) / 1000)
}

/// One decimal digit as a string slice.
fn digit_str(d: u64) -> (r: &'static str)
    requires
        d <= 9,
    ensures
        r@ == seq![spec_digit(d as int)],
{
    proof {
        reveal_strlit("0");
        reveal_strlit("1");
        reveal_strlit("2");
        reveal_strlit("3");
        reveal_strlit("4");
        reveal_strlit("5");
        reveal_strlit("6");
        reveal_strlit("7");
        reveal_strlit("8");
        reveal_strlit("9");
    }
    let r = if d == 0 {
        "0"
    } else if d == 1 {
        "1"
    } else if d == 2 {
        "2"
    } else if d == 3 {
        "3"
    } else if d == 4 {
        "4"
    } else if d == 5 {
        "5"
    } else if d == 6 {
        "6"
    } else if d == 7 {
        "7"
    } else if d == 8 {
        "8"
    } else {
        "9"
    };
    proof {
        assert(r@ =~= seq![spec_digit(d as int)]);
    }
    r
}

/// The countdown's display for `remaining_ms` milliseconds left, as
/// "MM:SS".
fn format_timer(remaining_ms: u64) -> (r: String)
    requires
        remaining_ms <= 5_999_999,
    ensures
        r@ == spec_timer_text(remaining_ms as int),
{
    let m = remaining_ms / 60_000;
    let s = (remaining_ms % 60_000) / 1000;
    let mut out = String::new();
    out.append(digit_str(m / 10));
    out.append(digit_str(m % 10));
    out.append(":");
    out.append(digit_str(s / 10));
    out.append(digit_str(s % 10));
    proof {
        reveal_strlit(":");
        assert(out@ =~= spec_timer_text(remaining_ms as int));
    }
    out
}

/// Advance the round's countdown: the display follows the remaining time;
/// once 16 seconds or less remain the display turns red and every change of
/// it beeps. The tick that exhausts the clock ends the round: the runner of
/// that moment is named the winner and the main menu is pushed over the
/// game.
pub fn tick_count_down_timer(
    world: &mut GameWorld,
    app_state: &mut crate::AppState,
    dt_ms: u64,
    sounds: &mut Vec<Sound>,
) -> (winner: Option<crate::Winner>)
    requires
        world_wf(*old(world)),
        old(app_state).wf(),
        old(app_state).spec_current() == crate::GameState::Game,
    ensures
        world_wf(*final(world)),
        final(app_state).wf(),
        final(world).countdown.0 == old(world).countdown.0.spec_tick(dt_ms),
        final(world).countdown_text@ == spec_timer_text(
            GAME_DUR - final(world).countdown.0.elapsed_ms,
        ),
        final(world).countdown_color == if GAME_DUR - final(world).countdown.0.elapsed_ms
            <= 16_000 {
            Rgb { r: 255, g: 0, b: 0 }
        } else {
            old(world).countdown_color
        },
        final(sounds)@ == old(sounds)@ + if GAME_DUR - final(world).countdown.0.elapsed_ms
            <= 16_000 && old(world).countdown_text@ != spec_timer_text(
            GAME_DUR - final(world).countdown.0.elapsed_ms,
        ) {
            seq![Sound::Timer]
        } else {
            Seq::<Sound>::empty()
        },
        winner is Some <==> final(world).countdown.0.just_finished,
        winner matches Some(w) ==> w.0@ == if old(world).p1.role == Role::Tagger {
            "Player_2"@
        } else {
            "Player_1"@
        },
        final(app_state)@ == if final(world).countdown.0.just_finished {
            old(app_state)@.push(crate::GameState::MainMenu)
        } else {
            old(app_state)@
        },
        final(world).p1 == old(world).p1,
        final(world).p2 == old(world).p2,
        final(world).bullets@ == old(world).bullets@,
        final(world).orbs@ == old(world).orbs@,
        final(world).next_id == old(world).next_id,
        final(world).p1_text == old(world).p1_text,
        final(world).p2_text == old(world).p2_text,
        final(world).dash_timer == old(world).dash_timer,
        final(world).cooldown_timer == old(world).cooldown_timer,
        final(world).window_w == old(world).window_w,
        final(world).window_h == old(world).window_h,
{
    world.countdown.0.tick(dt_ms);
    let remaining = GAME_DUR - world.countdown.0.elapsed_ms();
    let text = format_timer(remaining);
    let changed = !world.countdown_text.eq(&text);
    world.countdown_text = text;
    if remaining <= 16_000 {
        if changed {
            sounds.push(Sound::Timer);
        }
        world.countdown_color = red();
    }
    proof {
        if !(GAME_DUR - world.countdown.0.elapsed_ms <= 16_000 && old(world).countdown_text@
            != spec_timer_text(GAME_DUR - world.countdown.0.elapsed_ms)) {
            assert(sounds@ =~= old(sounds)@ + Seq::<Sound>::empty());
        } else {
            assert(sounds@ =~= old(sounds)@ + seq![Sound::Timer]);
        }
    }
    if world.countdown.0.just_finished() {
        let winner = if matches!(world.p1.role, Role::Tagger) {
            crate::Winner(String::from_str("Player_2"))
        } else {
            crate::Winner(String::from_str("Player_1"))
        };
        app_state.push(crate::GameState::MainMenu);
        Some(winner)
    } else {
        None
    }
}

} // verus!
