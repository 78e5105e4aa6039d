use vstd::prelude::*;

use crate::config::TRAVEL_LIMIT;
use crate::geometry::{is_colliding, within_radius, Position};
use crate::registry::{Entity, EntityKind, Registry};

verus! {

/// Height climbed in `dt_ms` milliseconds at `speed` units per second, in
/// thousandths of a unit.
pub open spec fn climb(speed: int, dt_ms: int) -> int {
    speed * dt_ms
}

pub open spec fn is_live_projectile(e: Entity) -> bool {
    e.live && e.kind == EntityKind::Projectile
}

/// An entity that a projectile can destroy: any live entity but the boundary
/// marker, other projectiles included.
pub open spec fn is_target(e: Entity) -> bool {
    e.live && e.kind != EntityKind::Boundary
}

/// One entity after its projectile motion: a live projectile climbs by `a`
/// thousandths of a unit, on top of the fraction it already carries; whole
/// units go to its height and the rest stays in `climb_frac`. It is removed
/// once it is above the travel limit.
pub open spec fn advanced_entity(e: Entity, a: int) -> Entity {
    if is_live_projectile(e) {
        let total = e.climb_frac + a;
        let y = e.position.y + total / 1000;
        Entity {
            position: Position { x: e.position.x, y: y as i64, z: e.position.z },
            climb_frac: (total % 1000) as u16,
            live: y <= TRAVEL_LIMIT,
            ..e
        }
    } else {
        e
    }
}

pub open spec fn advanced(s: Seq<Entity>, a: int) -> Seq<Entity> {
    Seq::new(s.len(), |k: int| advanced_entity(s[k], a))
}

/// Every live projectile can climb by `a` thousandths of a unit without its
/// height leaving `i64`.
pub open spec fn advance_fits(s: Seq<Entity>, a: int) -> bool {
    forall|k: int|
        0 <= k < s.len() && #[trigger] is_live_projectile(s[k]) ==> s[k].position.y + (s[k].climb_frac
            + a) / 1000 <= i64::MAX
}

/// The first target from slot `j` on, other than the shooter's own slot, within
/// `radius` of `p`.
pub open spec fn first_hit_from(s: Seq<Entity>, shooter: int, p: Position, radius: int, j: int) -> Option<int>
    decreases s.len() - j,
{
    if j < 0 || j >= s.len() {
        None
    } else if j != shooter && is_target(s[j]) && within_radius(p, s[j].position, radius) {
        Some(j)
    } else {
        first_hit_from(s, shooter, p, radius, j + 1)
    }
}

/// A hit is a target other than the shooter within `radius`, at or after slot
/// `j`.
pub proof fn lemma_first_hit_is_target(s: Seq<Entity>, shooter: int, p: Position, radius: int, j: int)
    ensures
        match first_hit_from(s, shooter, p, radius, j) {
            Some(k) => j <= k < s.len() && k != shooter && is_target(s[k]) && within_radius(
                p,
                s[k].position,
                radius,
            ),
            None => true,
        },
    decreases s.len() - j,
{
    if 0 <= j < s.len() && !(j != shooter && is_target(s[j]) && within_radius(
        p,
        s[j].position,
        radius,
    )) {
        lemma_first_hit_is_target(s, shooter, p, radius, j + 1);
    }
}

/// Resolution of the projectile in slot `i`: with its first target, if any,
/// it is removed.
pub open spec fn collide_step(s: Seq<Entity>, i: int, radius: int) -> Seq<Entity> {
    if 0 <= i < s.len() && is_live_projectile(s[i]) {
        match first_hit_from(s, i, s[i].position, radius, 0) {
            Some(j) => s.update(i, s[i].removed()).update(j, s[j].removed()),
            None => s,
        }
    } else {
        s
    }
}

/// The projectiles of the first `n` slots resolved one after another, in spawn
/// order.
pub open spec fn collide_upto(s: Seq<Entity>, n: int, radius: int) -> Seq<Entity>
    decreases n,
{
    if n <= 0 {
        s
    } else {
        collide_step(collide_upto(s, n - 1, radius), n - 1, radius)
    }
}

/// Collisions only remove entities: every slot keeps its kind and position,
/// and none comes back to life.
pub proof fn lemma_collide_only_removes(s: Seq<Entity>, n: int, radius: int)
    ensures
        collide_upto(s, n, radius).len() == s.len(),
        forall|k: int|
            0 <= k < s.len() ==> (#[trigger] collide_upto(s, n, radius)[k]).kind == s[k].kind
                && collide_upto(s, n, radius)[k].position == s[k].position && (collide_upto(
                s,
                n,
                radius,
            )[k].live ==> s[k].live),
    decreases n,
{
    if n > 0 {
        lemma_collide_only_removes(s, n - 1, radius);
        let t = collide_upto(s, n - 1, radius);
        if 0 <= n - 1 < t.len() && is_live_projectile(t[n - 1]) {
            lemma_first_hit_is_target(t, n - 1, t[n - 1].position, radius, 0);
        }
        assert forall|k: int| 0 <= k < s.len() implies (#[trigger] collide_upto(s, n, radius)[k]).kind
            == t[k].kind && collide_upto(s, n, radius)[k].position == t[k].position && (collide_upto(
            s,
            n,
            radius,
        )[k].live ==> t[k].live) by {
            assert(t[k].kind == s[k].kind);
        }
    }
}

/// No hit from slot `j` on means no target other than the shooter in range
/// there.
proof fn lemma_no_hit_means_none_in_range(s: Seq<Entity>, shooter: int, p: Position, radius: int, j: int)
    requires
        j >= 0,
        first_hit_from(s, shooter, p, radius, j) is None,
    ensures
        forall|k: int|
            j <= k < s.len() && k != shooter && #[trigger] is_target(s[k]) ==> !within_radius(
                p,
                s[k].position,
                radius,
            ),
    decreases s.len() - j,
{
    if j < s.len() {
        lemma_no_hit_means_none_in_range(s, shooter, p, radius, j + 1);
    }
}

/// Once the projectiles of the first `n` slots are resolved, none of them that
/// is still live has another target within `radius`.
proof fn lemma_collide_upto_resolved(s: Seq<Entity>, n: int, radius: int)
    requires
        0 <= n <= s.len(),
    ensures
        forall|i: int, j: int|
            0 <= i < n && 0 <= j < s.len() && i != j && #[trigger] is_live_projectile(
                collide_upto(s, n, radius)[i],
            ) && #[trigger] is_target(collide_upto(s, n, radius)[j]) ==> !within_radius(
                collide_upto(s, n, radius)[i].position,
                collide_upto(s, n, radius)[j].position,
                radius,
            ),
    decreases n,
{
    if n > 0 {
        lemma_collide_upto_resolved(s, n - 1, radius);
        lemma_collide_only_removes(s, n - 1, radius);
        let t = collide_upto(s, n - 1, radius);
        let u = collide_upto(s, n, radius);
        let m = n - 1;
        if is_live_projectile(t[m]) {
            lemma_first_hit_is_target(t, m, t[m].position, radius, 0);
            if first_hit_from(t, m, t[m].position, radius, 0) is None {
                lemma_no_hit_means_none_in_range(t, m, t[m].position, radius, 0);
            }
        }
        assert forall|i: int, j: int|
            0 <= i < n && 0 <= j < s.len() && i != j && #[trigger] is_live_projectile(u[i])
                && #[trigger] is_target(u[j]) implies !within_radius(
            u[i].position,
            u[j].position,
            radius,
        ) by {
            assert(u[i].live ==> t[i].live);
            assert(u[j].live ==> t[j].live);
            assert(is_target(t[j]));
            if i < m {
                assert(is_live_projectile(t[i]));
            }
        }
    }
}

/// After the collision pass no live projectile has another live entity other
/// than the boundary marker within `radius`: every hit was resolved.
pub proof fn lemma_collision_leaves_no_hit(s: Seq<Entity>, radius: int)
    ensures
        forall|i: int, j: int|
            0 <= i < s.len() && 0 <= j < s.len() && i != j && #[trigger] is_live_projectile(
                collided(s, radius)[i],
            ) && #[trigger] is_target(collided(s, radius)[j]) ==> !within_radius(
                collided(s, radius)[i].position,
                collided(s, radius)[j].position,
                radius,
            ),
{
    lemma_collide_upto_resolved(s, s.len() as int, radius);
}

pub open spec fn collided(s: Seq<Entity>, radius: int) -> Seq<Entity> {
    collide_upto(s, s.len() as int, radius)
}

pub open spec fn out_of_bounds(p: Position, half_width: int, half_height: int) -> bool {
    p.x < -half_width || p.x > half_width || p.y < -half_height || p.y > half_height
}

/// One entity after the cleanup: a live entity other than the boundary
/// marker that lies outside the arena is removed.
pub open spec fn swept_entity(e: Entity, half_width: int, half_height: int) -> Entity {
    if e.live && e.kind != EntityKind::Boundary && out_of_bounds(e.position, half_width, half_height) {
        e.removed()
    } else {
        e
    }
}

pub open spec fn swept(s: Seq<Entity>, half_width: int, half_height: int) -> Seq<Entity> {
    Seq::new(s.len(), |k: int| swept_entity(s[k], half_width, half_height))
}

fn climb_exec(speed: u32, dt_ms: u32) -> (a: u64)
    ensures
        a == climb(speed as int, dt_ms as int),
        a <= 0xffff_ffff * 0xffff_ffff,
{
    assert(0 <= speed as int * dt_ms as int <= 0xffff_ffff * 0xffff_ffff) by (nonlinear_arith)
        requires
            0 <= speed <= 0xffff_ffff,
            0 <= dt_ms <= 0xffff_ffff,
    ;
    speed as u64 * dt_ms as u64
}

/// Whether `move_bullets` may run: every live projectile can climb for
/// `dt_ms` milliseconds at `speed` without its height leaving `i64`.
pub fn advance_in_range(registry: &Registry, speed: u32, dt_ms: u32) -> (r: bool)
    ensures
        r == advance_fits(registry@, climb(speed as int, dt_ms as int)),
{
    let a = climb_exec(speed, dt_ms);
    let mut i: usize = 0;
    while i < registry.slots.len()
        invariant
            i <= registry@.len(),
            a == climb(speed as int, dt_ms as int),
            a <= 0xffff_ffff * 0xffff_ffff,
            forall|k: int|
                0 <= k < i && #[trigger] is_live_projectile(registry@[k]) ==> registry@[k].position.y
                    + (registry@[k].climb_frac + a) / 1000 <= i64::MAX,
        decreases registry@.len() - i,
    {
        let e = registry.slots[i];
        if e.live && e.kind == EntityKind::Projectile {
            let whole: i64 = ((e.climb_frac as u64 + a) / 1000) as i64;
            if e.position.y > i64::MAX - whole {
                assert(is_live_projectile(registry@[i as int]));
                return false;
            }
        }
        i += 1;
    }
    true
}

/// Moves every live projectile up by `speed * dt_ms` thousandths of a unit,
/// keeping the fraction below a whole unit for the next advance, and removes
/// those that climb above the travel limit.
pub fn move_bullets(registry: &mut Registry, speed: u32, dt_ms: u32)
    requires
        advance_fits(old(registry)@, climb(speed as int, dt_ms as int)),
    ensures
        final(registry)@ == advanced(old(registry)@, climb(speed as int, dt_ms as int)),
{
    let a = climb_exec(speed, dt_ms);
    let ghost s0 = registry@;
    let n = registry.slots.len();
    let mut i: usize = 0;
    while i < n
        invariant
            n == s0.len(),
            registry@.len() == n,
            i <= n,
            a == climb(speed as int, dt_ms as int),
            a <= 0xffff_ffff * 0xffff_ffff,
            advance_fits(s0, a as int),
            forall|k: int| 0 <= k < i ==> registry@[k] == advanced_entity(s0[k], a as int),
            forall|k: int| i <= k < n ==> registry@[k] == s0[k],
        decreases n - i,
    {
        let e = registry.slots[i];
        if e.live && e.kind == EntityKind::Projectile {
            assert(is_live_projectile(s0[i as int]));
            let total: u64 = e.climb_frac as u64 + a;
            let y = e.position.y + (total / 1000) as i64;
            let moved = Entity {
                position: Position { x: e.position.x, y, z: e.position.z },
                climb_frac: (total % 1000) as u16,
                live: y <= TRAVEL_LIMIT,
                ..e
            };
            registry.slots.set(i, moved);
        }
        i += 1;
    }
    assert(registry@ =~= advanced(s0, a as int));
}

/// The first live entity, in spawn order, other than the boundary marker and
/// the shooter's own slot, within `radius` of `p`.
fn first_hit(slots: &Vec<Entity>, shooter: usize, p: Position, radius: u32) -> (r: Option<usize>)
    ensures
        match r {
            Some(j) => first_hit_from(slots@, shooter as int, p, radius as int, 0) == Some(j as int),
            None => first_hit_from(slots@, shooter as int, p, radius as int, 0) == None::<int>,
        },
{
    let mut j: usize = 0;
    while j < slots.len()
        invariant
            j <= slots@.len(),
            first_hit_from(slots@, shooter as int, p, radius as int, 0) == first_hit_from(
                slots@,
                shooter as int,
                p,
                radius as int,
                j as int,
            ),
        decreases slots@.len() - j,
    {
        let e = slots[j];
        if j != shooter && e.live && e.kind != EntityKind::Boundary && is_colliding(
            &p,
            &e.position,
            radius,
        ) {
            return Some(j);
        }
        j += 1;
    }
    None
}

/// Resolves collisions: each live projectile, in spawn order, removes itself
/// and the first other live entity within `radius` of it, if there is one;
/// every entity but the boundary marker is a target, other projectiles
/// included. A projectile destroys at most one target, and a target removed by
/// one projectile is no longer there for the next.
pub fn collision(registry: &mut Registry, radius: u32)
    ensures
        final(registry)@ == collided(old(registry)@, radius as int),
{
    let ghost s0 = registry@;
    let n = registry.slots.len();
    let mut i: usize = 0;
    while i < n
        invariant
            n == s0.len(),
            i <= n,
            registry@ == collide_upto(s0, i as int, radius as int),
            registry@.len() == n,
        decreases n - i,
    {
        let e = registry.slots[i];
        if e.live && e.kind == EntityKind::Projectile {
            match first_hit(&registry.slots, i, e.position, radius) {
                Some(j) => {
                    proof {
                        lemma_first_hit_is_target(registry@, i as int, e.position, radius as int, 0);
                    }
                    registry.despawn(i);
                    registry.despawn(j);
                },
                None => {},
            }
        }
        assert(registry@ =~= collide_step(collide_upto(s0, i as int, radius as int), i as int, radius as int));
        i += 1;
    }
}

/// Removes every live entity other than the boundary marker whose position
/// lies outside `[-half_width, half_width]` by `[-half_height, half_height]`.
pub fn despawn_out_of_bounds_entities(registry: &mut Registry, half_width: i64, half_height: i64)
    requires
        half_width >= 0,
        half_height >= 0,
    ensures
        final(registry)@ == swept(old(registry)@, half_width as int, half_height as int),
{
    let ghost s0 = registry@;
    let n = registry.slots.len();
    let mut i: usize = 0;
    while i < n
        invariant
            n == s0.len(),
            registry@.len() == n,
            i <= n,
            half_width >= 0,
            half_height >= 0,
            forall|k: int| 0 <= k < i ==> registry@[k] == swept_entity(s0[k], half_width as int, half_height as int),
            forall|k: int| i <= k < n ==> registry@[k] == s0[k],
        decreases n - i,
    {
        let e = registry.slots[i];
        let p = e.position;
        if e.live && e.kind != EntityKind::Boundary && (p.x < -half_width || p.x > half_width || p.y
            < -half_height || p.y > half_height) {
            registry.despawn(i);
        }
        i += 1;
    }
    assert(registry@ =~= swept(s0, half_width as int, half_height as int));
}

/// Advances accumulate linearly: advancing for `t1` and then for `t2`
/// milliseconds is advancing for `t1 + t2`, for projectiles still in flight
/// after the first advance.
pub proof fn lemma_advances_accumulate(s: Seq<Entity>, speed: int, t1: int, t2: int)
    requires
        speed >= 0,
        t1 >= 0,
        t2 >= 0,
        forall|k: int|
            0 <= k < s.len() && #[trigger] is_live_projectile(s[k]) ==> s[k].position.y + (
            s[k].climb_frac + climb(speed, t1)) / 1000 <= TRAVEL_LIMIT,
    ensures
        advanced(advanced(s, climb(speed, t1)), climb(speed, t2)) == advanced(s, climb(speed, t1 + t2)),
{
    let a1 = climb(speed, t1);
    let a2 = climb(speed, t2);
    assert(a1 >= 0 && a2 >= 0 && climb(speed, t1 + t2) == a1 + a2) by (nonlinear_arith)
        requires
            a1 == speed * t1,
            a2 == speed * t2,
            speed >= 0,
            t1 >= 0,
            t2 >= 0,
    ;
    assert forall|k: int| 0 <= k < s.len() implies advanced(advanced(s, a1), a2)[k] == advanced(
        s,
        a1 + a2,
    )[k] by {
        let e = s[k];
        if is_live_projectile(e) {
            assert(e.position.y + (e.climb_frac + a1) / 1000 <= TRAVEL_LIMIT);
            let x = e.climb_frac + a1;
            let q = x / 1000;
            let r = x % 1000;
            assert(x == 1000 * q + r && 0 <= r < 1000);
            assert((x + a2) / 1000 == q + (r + a2) / 1000);
            assert((x + a2) % 1000 == (r + a2) % 1000);
        }
    }
    assert(advanced(advanced(s, a1), a2) =~= advanced(s, a1 + a2));
}

/// After the cleanup no live entity but the boundary marker lies outside the
/// arena; every live one that lay outside is removed; the boundary marker and
/// every entity inside the arena are untouched.
pub proof fn lemma_sweep_clears_outside(s: Seq<Entity>, half_width: int, half_height: int)
    ensures
        swept(s, half_width, half_height).len() == s.len(),
        forall|k: int|
            0 <= k < s.len() && (#[trigger] swept(s, half_width, half_height)[k]).live
                && s[k].kind != EntityKind::Boundary ==> !out_of_bounds(
                s[k].position,
                half_width,
                half_height,
            ),
        forall|k: int|
            0 <= k < s.len() && s[k].live && s[k].kind != EntityKind::Boundary && out_of_bounds(
                s[k].position,
                half_width,
                half_height,
            ) ==> !(#[trigger] swept(s, half_width, half_height)[k]).live,
        forall|k: int|
            0 <= k < s.len() && (s[k].kind == EntityKind::Boundary || !out_of_bounds(
                s[k].position,
                half_width,
                half_height,
            )) ==> #[trigger] swept(s, half_width, half_height)[k] == s[k],
{
}

} // verus!
