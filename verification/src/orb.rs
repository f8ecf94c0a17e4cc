//! Orbs: static pickups scattered over the playing field. The field is kept
//! filled up to a density derived from the window size, and a fresh orb is
//! drawn at random until it lands at least four radii away from every other
//! orb.
use vstd::prelude::*;

use crate::random::{rand_in_range, Random};

verus! {

/// Orb radius in millipixels.
pub const ORB_RADIUS: i64 = 38_000;

/// An orb: its id, its centre in millipixels, and the direction its artwork
/// spins in (1 or -1).
#[derive(Debug, Clone, Copy, PartialEq, Eq, Structural)]
pub struct Orb {
    pub id: u64,
    pub x: i64,
    pub y: i64,
    pub spin: i64,
}

/// How many orbs a window is to hold: its area above the bottom edge and
/// below the 50-pixel top bar, divided by the square of seven orb radii
/// (266 000 millipixels).
pub open spec fn desired_orb_count(w: int, h: int) -> int
    recommends
        w >= 0,
        h >= 50_000,
{
    (w * (h - 50_000)) / 70_756_000_000
}

/// An orb's centre keeps two radii (76 000 millipixels) clear of the field's
/// edges; the field's upper edge sits 50 pixels below the window's, under
/// the top bar.
pub open spec fn orb_in_field(o: Orb, w: int, h: int) -> bool {
    &&& -(w / 2) + 76_000 <= o.x < w / 2 - 76_000
    &&& -(h / 2 - 50_000) + 76_000 <= o.y < (h / 2 - 50_000) - 76_000
}

/// Two centres at least four radii (152 000 millipixels) apart, compared by
/// squared distance.
pub open spec fn orbs_separated(ax: int, ay: int, bx: int, by: int) -> bool {
    (ax - bx) * (ax - bx) + (ay - by) * (ay - by) >= 23_104_000_000
}

/// Every pair of orbs keeps the minimum distance.
pub open spec fn orbs_pairwise_separated(os: Seq<Orb>) -> bool {
    forall|i: int, j: int|
        0 <= i < j < os.len() ==> orbs_separated(
            #[trigger] os[i].x as int,
            os[i].y as int,
            #[trigger] os[j].x as int,
            os[j].y as int,
        )
}

/// No two orbs share an id.
pub open spec fn orb_ids_unique(os: Seq<Orb>) -> bool {
    forall|i: int, j: int| 0 <= i < j < os.len() ==> (#[trigger] os[i].id) != (#[trigger] os[j].id)
}

/// Keeping a subset of an orb list keeps every survivor an element of the
/// original list, keeps the ids unique, and keeps every pair separated.
pub proof fn lemma_filter_orbs(s: Seq<Orb>, pred: spec_fn(Orb) -> bool)
    ensures
        forall|k: int|
            0 <= k < s.filter(pred).len() ==> s.contains(#[trigger] s.filter(pred)[k]),
        orb_ids_unique(s) ==> orb_ids_unique(s.filter(pred)),
        orbs_pairwise_separated(s) ==> orbs_pairwise_separated(s.filter(pred)),
    decreases s.len(),
{
    reveal(Seq::filter);
    if s.len() > 0 {
        let sub = s.drop_last();
        lemma_filter_orbs(sub, pred);
        let out = s.filter(pred);
        let subf = sub.filter(pred);
        assert forall|k: int| 0 <= k < out.len() implies s.contains(#[trigger] out[k]) by {
            if pred(s.last()) && k == out.len() - 1 {
                assert(out[k] == s.last());
                assert(s[s.len() - 1] == s.last());
            } else {
                assert(out[k] == subf[k]);
                assert(sub.contains(subf[k]));
                let j = choose|j: int| 0 <= j < sub.len() && sub[j] == subf[k];
                assert(s[j] == sub[j]);
            }
        }
        if orb_ids_unique(s) {
            assert(orb_ids_unique(sub)) by {
                assert forall|i: int, j: int| 0 <= i < j < sub.len() implies (#[trigger] sub[i].id)
                    != (#[trigger] sub[j].id) by {
                    assert(sub[i] == s[i] && sub[j] == s[j]);
                }
            }
            assert forall|i: int, j: int| 0 <= i < j < out.len() implies (#[trigger] out[i].id) != (
            #[trigger] out[j].id) by {
                if pred(s.last()) && j == out.len() - 1 {
                    assert(out[i] == subf[i]);
                    assert(sub.contains(subf[i]));
                    let m = choose|m: int| 0 <= m < sub.len() && sub[m] == subf[i];
                    assert(s[m] == sub[m]);
                    assert(s[m].id != s[s.len() - 1].id);
                    assert(out[j] == s.last());
                } else {
                    assert(out[i] == subf[i] && out[j] == subf[j]);
                }
            }
        }
        if orbs_pairwise_separated(s) {
            assert(orbs_pairwise_separated(sub)) by {
                assert forall|i: int, j: int| 0 <= i < j < sub.len() implies orbs_separated(
                    (#[trigger] sub[i].x) as int,
                    sub[i].y as int,
                    (#[trigger] sub[j].x) as int,
                    sub[j].y as int,
                ) by {
                    assert(sub[i] == s[i] && sub[j] == s[j]);
                    assert(orbs_separated(s[i].x as int, s[i].y as int, s[j].x as int, s[j].y as int));
                }
            }
            assert forall|i: int, j: int| 0 <= i < j < out.len() implies orbs_separated(
                (#[trigger] out[i].x) as int,
                out[i].y as int,
                (#[trigger] out[j].x) as int,
                out[j].y as int,
            ) by {
                if pred(s.last()) && j == out.len() - 1 {
                    assert(out[i] == subf[i]);
                    assert(sub.contains(subf[i]));
                    let m = choose|m: int| 0 <= m < sub.len() && sub[m] == subf[i];
                    assert(s[m] == sub[m]);
                    assert(orbs_separated(
                        s[m].x as int,
                        s[m].y as int,
                        s[s.len() - 1].x as int,
                        s[s.len() - 1].y as int,
                    ));
                    assert(out[j] == s.last());
                } else {
                    assert(out[i] == subf[i] && out[j] == subf[j]);
                    assert(orbs_separated(
                        subf[i].x as int,
                        subf[i].y as int,
                        subf[j].x as int,
                        subf[j].y as int,
                    ));
                }
            }
        }
    }
}

/// Whether `(x, y)` falls within four radii of any existing orb.
fn too_close(orbs: &Vec<Orb>, x: i64, y: i64) -> (r: bool)
    requires
        -500_000_000 <= x <= 500_000_000,
        -500_000_000 <= y <= 500_000_000,
        forall|i: int|
            0 <= i < orbs@.len() ==> -500_000_000 <= (#[trigger] orbs@[i]).x <= 500_000_000
                && -500_000_000 <= orbs@[i].y <= 500_000_000,
    ensures
        r == exists|i: int|
            0 <= i < orbs@.len() && !orbs_separated(
                (#[trigger] orbs@[i]).x as int,
                orbs@[i].y as int,
                x as int,
                y as int,
            ),
{
    let mut i: usize = 0;
    while i < orbs.len()
        invariant
            i <= orbs@.len(),
            -500_000_000 <= x <= 500_000_000,
            -500_000_000 <= y <= 500_000_000,
            forall|j: int|
                0 <= j < orbs@.len() ==> -500_000_000 <= (#[trigger] orbs@[j]).x <= 500_000_000
                    && -500_000_000 <= orbs@[j].y <= 500_000_000,
            forall|j: int|
                0 <= j < i ==> orbs_separated(
                    (#[trigger] orbs@[j]).x as int,
                    orbs@[j].y as int,
                    x as int,
                    y as int,
                ),
        decreases orbs@.len() - i,
    {
        let o = orbs[i];
        let dx = o.x - x;
        let dy = o.y - y;
        proof {
            assert(0 <= dx as int * dx as int <= 1_000_000_000_000_000_000) by (nonlinear_arith)
                requires
                    -1_000_000_000 <= dx as int <= 1_000_000_000,
            ;
            assert(0 <= dy as int * dy as int <= 1_000_000_000_000_000_000) by (nonlinear_arith)
                requires
                    -1_000_000_000 <= dy as int <= 1_000_000_000,
            ;
        }
        if dx * dx + dy * dy < 23_104_000_000 {
            return true;
        }
        i = i + 1;
    }
    false
}

/// Keep the field stocked: spawn orbs towards the window's desired count,
/// each drawn uniformly over the field; a draw that lands within four radii
/// of another orb is rejected and drawn again. The system runs every frame,
/// so each call spends a bounded number of draws and leaves any shortfall to
/// the next frame. New orbs take consecutive ids from `next_id`.
fn fill_orbs(
    random: &mut Random,
    orbs: &mut Vec<Orb>,
    next_id: &mut u64,
    window_w: i64,
    window_h: i64,
)
    requires
        0 <= window_w <= 1_000_000_000,
        80_000 <= window_h <= 1_000_000_000,
        old(orbs)@.len() <= desired_orb_count(window_w as int, window_h as int),
        old(orbs)@.len() < desired_orb_count(window_w as int, window_h as int) ==> (-(window_w / 2)
            + 76_000 < window_w / 2 - 76_000 && -(window_h / 2 - 50_000) + 76_000 < (window_h / 2
            - 50_000) - 76_000),
        forall|i: int|
            0 <= i < old(orbs)@.len() ==> orb_in_field(
                #[trigger] old(orbs)@[i],
                window_w as int,
                window_h as int,
            ),
        orbs_pairwise_separated(old(orbs)@),
        orb_ids_unique(old(orbs)@),
        forall|i: int| 0 <= i < old(orbs)@.len() ==> (#[trigger] old(orbs)@[i]).id < *old(next_id),
        *old(next_id) <= u64::MAX - 20_000_000,
    ensures
        old(orbs)@.len() <= final(orbs)@.len() <= desired_orb_count(
            window_w as int,
            window_h as int,
        ),
        final(orbs)@.subrange(0, old(orbs)@.len() as int) == old(orbs)@,
        forall|i: int|
            0 <= i < final(orbs)@.len() ==> orb_in_field(
                #[trigger] final(orbs)@[i],
                window_w as int,
                window_h as int,
            ),
        orbs_pairwise_separated(final(orbs)@),
        orb_ids_unique(final(orbs)@),
        forall|i: int|
            old(orbs)@.len() <= i < final(orbs)@.len() ==> ((#[trigger] final(orbs)@[i]).id as int
                == *old(next_id) + i - old(orbs)@.len()) && (final(orbs)@[i].spin == 1
                || final(orbs)@[i].spin == -1),
        forall|i: int|
            0 <= i < final(orbs)@.len() ==> (#[trigger] final(orbs)@[i]).id < *final(next_id),
        *final(next_id) == *old(next_id) + (final(orbs)@.len() - old(orbs)@.len()),
{
    let area_w: u64 = window_w as u64;
    let area_h: u64 = (window_h - 50_000) as u64;
    proof {
        assert(area_w as int * area_h as int == window_w as int * (window_h as int - 50_000)
            && 0 <= area_w as int * area_h as int <= 1_000_000_000_000_000_000)
            by (nonlinear_arith)
            requires
                area_w as int == window_w as int,
                area_h as int == window_h as int - 50_000,
                0 <= window_w as int <= 1_000_000_000,
                50_000 <= window_h as int <= 1_000_000_000,
        ;
        vstd::arithmetic::div_mod::lemma_div_is_ordered(
            area_w as int * area_h as int,
            1_415_120_000_000_000_000,
            70_756_000_000,
        );
        vstd::arithmetic::div_mod::lemma_div_multiples_vanish(20_000_000, 70_756_000_000);
        assert(70_756_000_000int * 20_000_000 == 1_415_120_000_000_000_000) by (nonlinear_arith);
        assert(desired_orb_count(window_w as int, window_h as int) <= 20_000_000);
    }
    let desired: u64 = (area_w * area_h) / 70_756_000_000;
    let desired_count: usize = desired as usize;
    let count: usize = orbs.len();
    let num_needed: usize = desired_count - count;
    if num_needed == 0 {
        proof {
            assert(orbs@.subrange(0, orbs@.len() as int) =~= orbs@);
        }
        return ;
    }
    let x_lo: i64 = -(window_w / 2) + 76_000;
    let x_hi: i64 = window_w / 2 - 76_000;
    let y_lo: i64 = -(window_h / 2 - 50_000) + 76_000;
    let y_hi: i64 = (window_h / 2 - 50_000) - 76_000;

    let mut attempts: u64 = 64 * (num_needed as u64) + 64;
    let mut n: usize = 0;
    while n < num_needed && attempts > 0
        invariant
            n <= num_needed,
            orbs@.len() == count + n,
            count + num_needed == desired_orb_count(window_w as int, window_h as int),
            num_needed <= 20_000_000,
            x_lo as int == -(window_w as int / 2) + 76_000,
            x_hi as int == window_w as int / 2 - 76_000,
            y_lo as int == -(window_h as int / 2 - 50_000) + 76_000,
            y_hi as int == (window_h as int / 2 - 50_000) - 76_000,
            x_lo < x_hi,
            y_lo < y_hi,
            0 <= window_w <= 1_000_000_000,
            80_000 <= window_h <= 1_000_000_000,
            orbs@.subrange(0, count as int) == old(orbs)@,
            forall|i: int|
                0 <= i < orbs@.len() ==> orb_in_field(
                    #[trigger] orbs@[i],
                    window_w as int,
                    window_h as int,
                ),
            orbs_pairwise_separated(orbs@),
            orb_ids_unique(orbs@),
            forall|i: int|
                count <= i < orbs@.len() ==> (#[trigger] orbs@[i]).id == *old(next_id) + i - count
                    && (orbs@[i].spin == 1 || orbs@[i].spin == -1),
            forall|i: int| 0 <= i < orbs@.len() ==> (#[trigger] orbs@[i]).id < *next_id,
            *next_id == *old(next_id) + n,
            *old(next_id) <= u64::MAX - 20_000_000,
        decreases attempts,
    {
        attempts = attempts - 1;
        let x = rand_in_range(&mut random.0, x_lo, x_hi);
        let y = rand_in_range(&mut random.0, y_lo, y_hi);
        let collides = too_close(orbs, x, y);
        if !collides {
            let m = rand_in_range(&mut random.0, -1_000_000, 1_000_000);
            let spin: i64 = if m < 0 {
                -1
            } else {
                1
            };
            let orb = Orb { id: *next_id, x, y, spin };
            let ghost pre = orbs@;
            orbs.push(orb);
            *next_id = *next_id + 1;
            proof {
                assert(orbs@.subrange(0, count as int) =~= pre.subrange(0, count as int));
            }
            n = n + 1;
        }
    }
}

/// The per-frame orb system: top the field up towards the window's desired
/// count, every new orb inside the field, four radii clear of every other,
/// and carrying a fresh id; nothing else of the world changes.
pub fn spawn_orb(random: &mut Random, world: &mut crate::game::GameWorld)
    requires
        crate::game::world_wf(*old(world)),
        old(world).next_id <= u64::MAX - 20_000_000,
        old(world).orbs@.len() < desired_orb_count(
            old(world).window_w as int,
            old(world).window_h as int,
        ) ==> (-(old(world).window_w / 2) + 76_000 < old(world).window_w / 2 - 76_000
            && -(old(world).window_h / 2 - 50_000) + 76_000 < (old(world).window_h / 2 - 50_000)
            - 76_000),
    ensures
        crate::game::world_wf(*final(world)),
        old(world).orbs@.len() <= final(world).orbs@.len() <= desired_orb_count(
            old(world).window_w as int,
            old(world).window_h as int,
        ),
        final(world).orbs@.subrange(0, old(world).orbs@.len() as int) == old(world).orbs@,
        forall|i: int|
            old(world).orbs@.len() <= i < final(world).orbs@.len()
                ==> ((#[trigger] final(world).orbs@[i]).id as int == old(world).next_id + i
                - old(world).orbs@.len()),
        final(world).next_id == old(world).next_id + (final(world).orbs@.len()
            - old(world).orbs@.len()),
        final(world).p1 == old(world).p1,
        final(world).p2 == old(world).p2,
        final(world).bullets@ == old(world).bullets@,
        final(world).p1_text == old(world).p1_text,
        final(world).p2_text == old(world).p2_text,
        final(world).countdown_text == old(world).countdown_text,
        final(world).countdown_color == old(world).countdown_color,
        final(world).dash_timer == old(world).dash_timer,
        final(world).cooldown_timer == old(world).cooldown_timer,
        final(world).countdown == old(world).countdown,
        final(world).window_w == old(world).window_w,
        final(world).window_h == old(world).window_h,
{
    let w = world.window_w;
    let h = world.window_h;
    fill_orbs(random, &mut world.orbs, &mut world.next_id, w, h);
    proof {
        let os = world.orbs@;
        let oos = old(world).orbs@;
        let n = oos.len() as int;
        assert forall|k: int| 0 <= k < os.len() implies ((#[trigger] os[k]).spin == 1 || os[k].spin
            == -1) by {
            if k < n {
                assert(os.subrange(0, n)[k] == os[k]);
                assert(orb_in_field(oos[k], w as int, h as int));
            }
        }
    }
}

} // verus!
