use vstd::prelude::*;

use crate::geometry::Position;

verus! {

/// What a live entity is. `Boundary` marks the arena's outline: it is not
/// simulated, so no projectile hits it and it is never cleaned up for leaving
/// the arena.
#[derive(Clone, Copy, Debug, PartialEq, Eq, Structural)]
pub enum EntityKind {
    Player,
    Enemy,
    Projectile,
    Boundary,
}

/// One slot of the registry. A despawned entity keeps its slot with `live`
/// cleared, so a handle is never reused and never points at another entity.
#[derive(Clone, Copy, Debug, PartialEq, Eq, Structural)]
pub struct Entity {
    pub kind: EntityKind,
    pub position: Position,
    /// Thousandths of a unit climbed above `position.y` that do not yet make
    /// a whole unit; only projectiles climb, so it stays 0 for other kinds.
    pub climb_frac: u16,
    pub live: bool,
}

/// A handle is the index of the entity's slot, in spawn order.
pub type Handle = usize;

/// A live entity as listed by `Registry::iter`.
#[derive(Clone, Copy, Debug, PartialEq, Eq, Structural)]
pub struct Listed {
    pub handle: Handle,
    pub position: Position,
    pub kind: EntityKind,
}

impl Entity {
    pub open spec fn removed(self) -> Entity {
        Entity { live: false, ..self }
    }

    pub open spec fn placed_at(self, p: Position) -> Entity {
        Entity { position: p, ..self }
    }
}

/// The registry's contents after despawning `h`: its slot, if any, is no
/// longer live; everything else is unchanged.
pub open spec fn despawned(s: Seq<Entity>, h: int) -> Seq<Entity> {
    if 0 <= h < s.len() {
        s.update(h, s[h].removed())
    } else {
        s
    }
}

/// The handles of the live entities.
pub open spec fn live_handles(s: Seq<Entity>) -> Set<int> {
    Set::new(|h: int| 0 <= h < s.len() && s[h].live)
}

pub open spec fn kind_matches(filter: Option<EntityKind>, k: EntityKind) -> bool {
    match filter {
        Some(f) => f == k,
        None => true,
    }
}

/// The live entities among the first `n` slots that pass `filter`, in spawn
/// order.
pub open spec fn listing(s: Seq<Entity>, filter: Option<EntityKind>, n: int) -> Seq<Listed>
    decreases n,
{
    if n <= 0 {
        Seq::empty()
    } else {
        let rest = listing(s, filter, n - 1);
        let e = s[n - 1];
        if e.live && kind_matches(filter, e.kind) {
            rest.push(Listed { handle: (n - 1) as usize, position: e.position, kind: e.kind })
        } else {
            rest
        }
    }
}

/// The set of entities of the simulation, live and removed.
pub struct Registry {
    pub slots: Vec<Entity>,
}

impl View for Registry {
    type V = Seq<Entity>;

    open spec fn view(&self) -> Seq<Entity> {
        self.slots@
    }
}

impl Registry {
    pub fn new() -> (r: Registry)
        ensures
            r@ == Seq::<Entity>::empty(),
    {
        Registry { slots: Vec::new() }
    }

    /// Inserts a live entity and returns its handle, the next free slot.
    pub fn spawn(&mut self, kind: EntityKind, position: Position) -> (h: Handle)
        ensures
            h == old(self)@.len(),
            final(self)@ == old(self)@.push(Entity { kind, position, climb_frac: 0, live: true }),
    {
        let h = self.slots.len();
        self.slots.push(Entity { kind, position, climb_frac: 0, live: true });
        h
    }

    /// Removes the entity `h`. A handle that is already removed, or was never
    /// handed out, leaves the registry as it is.
    pub fn despawn(&mut self, h: Handle)
        ensures
            final(self)@ == despawned(old(self)@, h as int),
    {
        if h < self.slots.len() {
            let mut e = self.slots[h];
            e.live = false;
            self.slots.set(h, e);
        }
    }

    pub fn is_live(&self, h: Handle) -> (r: bool)
        ensures
            r == live_handles(self@).contains(h as int),
    {
        h < self.slots.len() && self.slots[h].live
    }

    /// The entity behind a live handle.
    pub fn get(&self, h: Handle) -> (r: Option<Entity>)
        ensures
            r == (if live_handles(self@).contains(h as int) {
                Some(self@[h as int])
            } else {
                None
            }),
    {
        if h < self.slots.len() && self.slots[h].live {
            Some(self.slots[h])
        } else {
            None
        }
    }

    /// The live entities whose kind passes `filter` (all of them for `None`),
    /// in spawn order.
    pub fn iter(&self, filter: Option<EntityKind>) -> (r: Vec<Listed>)
        ensures
            r@ == listing(self@, filter, self@.len() as int),
    {
        let mut r: Vec<Listed> = Vec::new();
        let mut i: usize = 0;
        while i < self.slots.len()
            invariant
                i <= self@.len(),
                r@ == listing(self@, filter, i as int),
            decreases self@.len() - i,
        {
            let e = self.slots[i];
            let keep = match filter {
                Some(f) => f == e.kind,
                None => true,
            };
            if e.live && keep {
                r.push(Listed { handle: i, position: e.position, kind: e.kind });
            }
            i += 1;
        }
        r
    }
}

/// Despawning the same handle a second time changes nothing, and after the
/// first time the handle is no longer live.
pub proof fn lemma_despawn_idempotent(s: Seq<Entity>, h: int)
    ensures
        despawned(despawned(s, h), h) == despawned(s, h),
        !live_handles(despawned(s, h)).contains(h),
        live_handles(despawned(s, h)) == live_handles(s).remove(h),
{
    let once = despawned(s, h);
    assert(despawned(once, h) =~= once);
    assert(live_handles(once) =~= live_handles(s).remove(h));
}

} // verus!
