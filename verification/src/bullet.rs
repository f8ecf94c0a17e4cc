//! Bullets: spawned in front of the tagger, they fly in a straight line and
//! despawn once any part of them has left the window.
use vstd::prelude::*;

use crate::player::PlayerId;
use crate::units::{div_trunc, mul_div_trunc};

verus! {

/// Bullet radius in millipixels.
pub const BULLET_RADIUS: i64 = 5_000;

/// Bullet speed in millipixels per second.
pub const BULLET_SPEED: i64 = 800_000;

/// The bullet's own data: who shot it and where it is headed. Direction
/// components are thousandths of a unit vector.
#[derive(Debug, Clone, Copy, PartialEq, Eq, Structural)]
pub struct Bullet {
    pub shooter: PlayerId,
    pub dir_x: i64,
    pub dir_y: i64,
    pub radius: i64,
    pub speed: i64,
}

impl Bullet {
    pub fn new(dir_x: i64, dir_y: i64, shooter: PlayerId) -> (b: Bullet)
        ensures
            b == (Bullet { shooter, dir_x, dir_y, radius: BULLET_RADIUS, speed: BULLET_SPEED }),
    {
        Bullet { shooter, dir_x, dir_y, radius: BULLET_RADIUS, speed: BULLET_SPEED }
    }
}

/// A bullet together with its position and the id the world knows it by.
#[derive(Debug, Clone, Copy, PartialEq, Eq, Structural)]
pub struct BulletEntity {
    pub id: u64,
    pub x: i64,
    pub y: i64,
    pub bullet: Bullet,
}

/// Direction components stay inside the unit circle's bounding box and the
/// radius and speed are the spawned ones.
pub open spec fn bullet_wf(b: Bullet) -> bool {
    &&& -1000 <= b.dir_x <= 1000
    &&& -1000 <= b.dir_y <= 1000
    &&& b.radius == BULLET_RADIUS
    &&& b.speed == BULLET_SPEED
}

/// A bullet is kept while it still overlaps the window: it despawns as soon
/// as its centre is a full radius past either edge.
pub open spec fn bullet_in_bounds(e: BulletEntity, half_w: int, half_h: int) -> bool {
    &&& -(half_w + e.bullet.radius) < e.x < half_w + e.bullet.radius
    &&& -(half_h + e.bullet.radius) < e.y < half_h + e.bullet.radius
}

/// One integration step: the position advances by direction times speed times
/// elapsed time, scaled back from thousandths, millipixels per second and
/// milliseconds.
pub open spec fn spec_move_bullet(e: BulletEntity, dt_ms: int) -> BulletEntity {
    BulletEntity {
        x: (e.x + div_trunc(e.bullet.dir_x * e.bullet.speed * dt_ms, 1_000_000)) as i64,
        y: (e.y + div_trunc(e.bullet.dir_y * e.bullet.speed * dt_ms, 1_000_000)) as i64,
        ..e
    }
}

/// Place a new bullet at the shooter's position.
pub fn spawn_bullet(x: i64, y: i64, dir_x: i64, dir_y: i64, shooter: PlayerId, id: u64) -> (e:
    BulletEntity)
    ensures
        e == (BulletEntity {
            id,
            x,
            y,
            bullet: Bullet { shooter, dir_x, dir_y, radius: BULLET_RADIUS, speed: BULLET_SPEED },
        }),
{
    BulletEntity { id, x, y, bullet: Bullet::new(dir_x, dir_y, shooter) }
}

/// No two bullets share an id.
pub open spec fn bullet_ids_unique(bs: Seq<BulletEntity>) -> bool {
    forall|i: int, j: int| 0 <= i < j < bs.len() ==> (#[trigger] bs[i].id) != (#[trigger] bs[j].id)
}

/// Keeping a subset of a bullet list keeps every survivor an element of the
/// original list, and keeps the ids unique.
pub proof fn lemma_filter_bullets(s: Seq<BulletEntity>, pred: spec_fn(BulletEntity) -> bool)
    ensures
        forall|k: int|
            0 <= k < s.filter(pred).len() ==> s.contains(#[trigger] s.filter(pred)[k]),
        bullet_ids_unique(s) ==> bullet_ids_unique(s.filter(pred)),
    decreases s.len(),
{
    reveal(Seq::filter);
    if s.len() > 0 {
        let sub = s.drop_last();
        lemma_filter_bullets(sub, pred);
        let out = s.filter(pred);
        let subf = sub.filter(pred);
        assert forall|k: int| 0 <= k < out.len() implies s.contains(#[trigger] out[k]) by {
            if pred(s.last()) && k == out.len() - 1 {
                assert(out[k] == s.last());
                assert(s[s.len() - 1] == s.last());
            } else {
                assert(out[k] == subf[k]);
                assert(sub.contains(subf[k]));
                let j = choose|j: int| 0 <= j < sub.len() && sub[j] == subf[k];
                assert(s[j] == sub[j]);
            }
        }
        if bullet_ids_unique(s) {
            assert(bullet_ids_unique(sub)) by {
                assert forall|i: int, j: int| 0 <= i < j < sub.len() implies (#[trigger] sub[i].id)
                    != (#[trigger] sub[j].id) by {
                    assert(sub[i] == s[i] && sub[j] == s[j]);
                }
            }
            assert forall|i: int, j: int| 0 <= i < j < out.len() implies (#[trigger] out[i].id) != (
            #[trigger] out[j].id) by {
                if pred(s.last()) && j == out.len() - 1 {
                    assert(out[i] == subf[i]);
                    assert(sub.contains(subf[i]));
                    let m = choose|m: int| 0 <= m < sub.len() && sub[m] == subf[i];
                    assert(s[m] == sub[m]);
                    assert(s[m].id != s[s.len() - 1].id);
                    assert(out[j] == s.last());
                } else {
                    assert(out[i] == subf[i] && out[j] == subf[j]);
                }
            }
        }
    }
}

/// Advance every bullet and drop the ones that flew out of the window: the
/// survivors are exactly the moved bullets that are still in bounds, in their
/// original order.
fn advance_bullets(bullets: &mut Vec<BulletEntity>, half_w: i64, half_h: i64, dt_ms: u32)
    requires
        0 <= half_w <= 500_000_000,
        0 <= half_h <= 500_000_000,
        forall|i: int|
            0 <= i < old(bullets)@.len() ==> bullet_wf(#[trigger] old(bullets)@[i].bullet)
                && bullet_in_bounds(old(bullets)@[i], half_w as int, half_h as int),
    ensures
        final(bullets)@ == old(bullets)@.map_values(
            |e: BulletEntity| spec_move_bullet(e, dt_ms as int),
        ).filter(|e: BulletEntity| bullet_in_bounds(e, half_w as int, half_h as int)),
        forall|i: int|
            0 <= i < final(bullets)@.len() ==> bullet_wf(#[trigger] final(bullets)@[i].bullet)
                && bullet_in_bounds(final(bullets)@[i], half_w as int, half_h as int),
{
    let ghost step = |e: BulletEntity| spec_move_bullet(e, dt_ms as int);
    let ghost keep = |e: BulletEntity| bullet_in_bounds(e, half_w as int, half_h as int);
    let mut result: Vec<BulletEntity> = Vec::new();
    let mut i: usize = 0;
    proof {
        assert(old(bullets)@.take(0int).map_values(step).filter(keep) =~= Seq::<
            BulletEntity,
        >::empty()) by {
            reveal(Seq::filter);
            assert(old(bullets)@.take(0int) =~= Seq::<BulletEntity>::empty());
        }
    }
    while i < bullets.len()
        invariant
            i <= bullets@.len(),
            bullets@ == old(bullets)@,
            0 <= half_w <= 500_000_000,
            0 <= half_h <= 500_000_000,
            forall|j: int|
                0 <= j < bullets@.len() ==> bullet_wf(#[trigger] bullets@[j].bullet)
                    && bullet_in_bounds(bullets@[j], half_w as int, half_h as int),
            step == (|e: BulletEntity| spec_move_bullet(e, dt_ms as int)),
            keep == (|e: BulletEntity| bullet_in_bounds(e, half_w as int, half_h as int)),
            result@ == bullets@.take(i as int).map_values(step).filter(keep),
            forall|j: int|
                0 <= j < result@.len() ==> bullet_wf(#[trigger] result@[j].bullet)
                    && bullet_in_bounds(result@[j], half_w as int, half_h as int),
        decreases bullets@.len() - i,
    {
        let e = bullets[i];
        proof {
            assert(bullet_wf(bullets@[i as int].bullet));
            assert(-800_000_000 <= e.bullet.dir_x as int * e.bullet.speed as int <= 800_000_000)
                by (nonlinear_arith)
                requires
                    -1000 <= e.bullet.dir_x as int <= 1000,
                    e.bullet.speed as int == 800_000,
            ;
            assert(-800_000_000 <= e.bullet.dir_y as int * e.bullet.speed as int <= 800_000_000)
                by (nonlinear_arith)
                requires
                    -1000 <= e.bullet.dir_y as int <= 1000,
                    e.bullet.speed as int == 800_000,
            ;
        }
        let dti: i64 = dt_ms as i64;
        let px = e.bullet.dir_x * e.bullet.speed;
        let py = e.bullet.dir_y * e.bullet.speed;
        proof {
            assert(-0x4000_0000_0000_0000 <= px as int * dti as int <= 0x4000_0000_0000_0000)
                by (nonlinear_arith)
                requires
                    -800_000_000 <= px as int <= 800_000_000,
                    0 <= dti as int <= 4_294_967_295,
            ;
            assert(-0x4000_0000_0000_0000 <= py as int * dti as int <= 0x4000_0000_0000_0000)
                by (nonlinear_arith)
                requires
                    -800_000_000 <= py as int <= 800_000_000,
                    0 <= dti as int <= 4_294_967_295,
            ;
        }
        let moved = BulletEntity {
            x: e.x + mul_div_trunc(px, dti, 1_000_000),
            y: e.y + mul_div_trunc(py, dti, 1_000_000),
            ..e
        };
        proof {
            assert(moved == step(e));
        }
        let keep_x = -(half_w + e.bullet.radius) < moved.x && moved.x < half_w + e.bullet.radius;
        let keep_y = -(half_h + e.bullet.radius) < moved.y && moved.y < half_h + e.bullet.radius;
        let ghost prev = result@;
        if keep_x && keep_y {
            result.push(moved);
        }
        proof {
            let taken = bullets@.take(i as int);
            assert(bullets@.take(i + 1int) =~= taken.push(e));
            assert(taken.push(e).map_values(step) =~= taken.map_values(step).push(step(e)));
            assert(taken.push(e).map_values(step).filter(keep) == result@) by {
                reveal(Seq::filter);
                let m = taken.map_values(step).push(step(e));
                assert(m.drop_last() =~= taken.map_values(step));
                assert(m.last() == step(e));
            }
        }
        i = i + 1;
    }
    proof {
        assert(bullets@.take(bullets@.len() as int) =~= bullets@);
    }
    *bullets = result;
}

/// One frame of bullet flight: every bullet advances along its direction,
/// and the ones past the window edges despawn; nothing else of the world
/// changes.
pub fn move_bullets(world: &mut crate::game::GameWorld, dt_ms: u32)
    requires
        crate::game::world_wf(*old(world)),
    ensures
        crate::game::world_wf(*final(world)),
        final(world).bullets@ == old(world).bullets@.map_values(
            |e: BulletEntity| spec_move_bullet(e, dt_ms as int),
        ).filter(
            |e: BulletEntity|
                bullet_in_bounds(
                    e,
                    old(world).window_w as int / 2,
                    old(world).window_h as int / 2,
                ),
        ),
        final(world).p1 == old(world).p1,
        final(world).p2 == old(world).p2,
        final(world).orbs@ == old(world).orbs@,
        final(world).next_id == old(world).next_id,
        final(world).p1_text == old(world).p1_text,
        final(world).p2_text == old(world).p2_text,
        final(world).countdown_text == old(world).countdown_text,
        final(world).countdown_color == old(world).countdown_color,
        final(world).dash_timer == old(world).dash_timer,
        final(world).cooldown_timer == old(world).cooldown_timer,
        final(world).countdown == old(world).countdown,
        final(world).window_w == old(world).window_w,
        final(world).window_h == old(world).window_h,
{
    let half_w = world.window_w / 2;
    let half_h = world.window_h / 2;
    advance_bullets(&mut world.bullets, half_w, half_h, dt_ms);
    proof {
        let step = |e: BulletEntity| spec_move_bullet(e, dt_ms as int);
        let keep = |e: BulletEntity| bullet_in_bounds(e, half_w as int, half_h as int);
        let obs = old(world).bullets@;
        let mapped = obs.map_values(step);
        assert(bullet_ids_unique(mapped)) by {
            assert forall|i: int, j: int| 0 <= i < j < mapped.len() implies (
            #[trigger] mapped[i].id) != (#[trigger] mapped[j].id) by {
                assert(mapped[i] == step(obs[i]) && mapped[j] == step(obs[j]));
            }
        }
        lemma_filter_bullets(mapped, keep);
        let out = mapped.filter(keep);
        assert forall|i: int| 0 <= i < out.len() implies (#[trigger] out[i]).id
            < old(world).next_id by {
            assert(mapped.contains(out[i]));
            let j = choose|j: int| 0 <= j < mapped.len() && mapped[j] == out[i];
            assert(mapped[j] == step(obs[j]));
            assert(bullet_wf(obs[j].bullet));
        }
    }
}

} // verus!
