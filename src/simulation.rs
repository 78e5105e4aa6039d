use vstd::prelude::*;

use crate::config::{Config, PLAYER_HALF_EXTENT};
use crate::geometry::{
    clamp_axis, clamp_centre, clamped_high_edge, clamped_low_edge,
    lemma_clamped_footprint_in_arena, Position,
};
use crate::registry::{Entity, EntityKind, Handle, Registry};
use crate::systems::{
    advance_fits, advanced, collided, collision, despawn_out_of_bounds_entities, climb,
    is_live_projectile, lemma_collide_only_removes, move_bullets, swept,
};

verus! {

/// A decoded input command; a tick receives at most one.
#[derive(Clone, Copy, Debug, PartialEq, Eq, Structural)]
pub enum Command {
    MoveLeft,
    MoveRight,
    Fire,
}

pub open spec fn in_arena(p: Position, c: Config) -> bool {
    -c.half_width() <= p.x <= c.half_width() && -c.half_height() <= p.y <= c.half_height()
}

/// The player's position after a horizontal step of `dx`: on each axis the
/// footprint's edges are clamped into the arena and the centre is recomputed
/// from them.
pub open spec fn moved_anchor(a: Position, dx: int, c: Config) -> Position {
    Position {
        x: clamp_centre(a.x + dx, PLAYER_HALF_EXTENT as int, c.half_width()) as i64,
        y: clamp_centre(a.y as int, PLAYER_HALF_EXTENT as int, c.half_height()) as i64,
        z: a.z,
    }
}

/// Where a projectile fired from `origin` appears: `launch_offset` above it.
pub open spec fn launch_position(origin: Position, c: Config) -> Position {
    Position { x: origin.x, y: (origin.y + c.launch_offset) as i64, z: origin.z }
}

/// Slot `h` moved to `p`, if it holds a live entity.
pub open spec fn placed(s: Seq<Entity>, h: int, p: Position) -> Seq<Entity> {
    if 0 <= h < s.len() && s[h].live {
        s.update(h, s[h].placed_at(p))
    } else {
        s
    }
}

pub open spec fn signed_step(cmd: Command, c: Config) -> int {
    match cmd {
        Command::MoveLeft => -(c.movement_step as int),
        Command::MoveRight => c.movement_step as int,
        Command::Fire => 0,
    }
}

/// The entities and the player's position after the input of one tick.
pub open spec fn after_input(
    s: Seq<Entity>,
    anchor: Position,
    player: int,
    c: Config,
    cmd: Option<Command>,
) -> (Seq<Entity>, Position) {
    match cmd {
        Some(Command::Fire) => (
            s.push(Entity { kind: EntityKind::Projectile, position: launch_position(anchor, c), climb_frac: 0, live: true }),
            anchor,
        ),
        Some(m) => {
            let a = moved_anchor(anchor, signed_step(m, c), c);
            (placed(s, player, a), a)
        },
        None => (s, anchor),
    }
}

/// The entities after a whole tick: input, projectile motion, collisions,
/// then the out-of-bounds cleanup.
pub open spec fn ticked(
    s: Seq<Entity>,
    anchor: Position,
    player: int,
    c: Config,
    cmd: Option<Command>,
    dt_ms: int,
) -> Seq<Entity> {
    let moved = after_input(s, anchor, player, c, cmd).0;
    swept(
        collided(advanced(moved, climb(c.projectile_speed as int, dt_ms)), c.collision_radius as int),
        c.half_width(),
        c.half_height(),
    )
}

/// The whole simulation: the entities, the authoritative player position
/// (`anchor`), the player's handle and the configuration.
pub struct SimulationState {
    pub registry: Registry,
    pub anchor: Position,
    pub player: Handle,
    pub config: Config,
}

impl SimulationState {
    /// The configuration is valid, the player's position lies in the arena,
    /// the player's slot holds the player and, while it lives, sits at the
    /// anchor.
    pub open spec fn wf(&self) -> bool {
        &&& self.config.valid()
        &&& in_arena(self.anchor, self.config)
        &&& self.player < self.registry@.len()
        &&& self.registry@[self.player as int].kind == EntityKind::Player
        &&& self.registry@[self.player as int].live ==> self.registry@[self.player as int].position
            == self.anchor
    }

    /// A simulation holding only the player at `start`; `None` when the
    /// configuration is invalid or `start` lies outside the arena.
    pub fn new(config: Config, start: Position) -> (r: Option<SimulationState>)
        ensures
            r is None <==> !(config.valid() && in_arena(start, config)),
            r matches Some(st) ==> st.wf() && st.anchor == start && st.config == config
                && st.player == 0 && st.registry@ == seq![
                Entity { kind: EntityKind::Player, position: start, climb_frac: 0, live: true },
            ],
    {
        if config.width == 0 || config.height == 0 {
            return None;
        }
        let hw = config.half_width_exec();
        let hh = config.half_height_exec();
        if start.x < -hw || start.x > hw || start.y < -hh || start.y > hh {
            return None;
        }
        let mut registry = Registry::new();
        let player = registry.spawn(EntityKind::Player, start);
        assert(registry@ =~= seq![Entity { kind: EntityKind::Player, position: start, climb_frac: 0, live: true }]);
        Some(SimulationState { registry, anchor: start, player, config })
    }

    /// Moves the player by `dx` horizontally, clamping into the arena.
    fn move_player(&mut self, dx: i64)
        requires
            old(self).wf(),
            -0xffff_ffff <= dx <= 0xffff_ffff,
        ensures
            final(self).wf(),
            final(self).anchor == moved_anchor(old(self).anchor, dx as int, old(self).config),
            final(self).registry@ == placed(
                old(self).registry@,
                old(self).player as int,
                final(self).anchor,
            ),
            final(self).player == old(self).player,
            final(self).config == old(self).config,
    {
        let hw = self.config.half_width_exec();
        let hh = self.config.half_height_exec();
        let x = clamp_axis(self.anchor.x + dx, PLAYER_HALF_EXTENT, hw);
        let y = clamp_axis(self.anchor.y, PLAYER_HALF_EXTENT, hh);
        proof {
            lemma_move_stays_in_arena(self.anchor, dx as int, self.config);
        }
        let a = Position { x, y, z: self.anchor.z };
        self.anchor = a;
        let p = self.player;
        if p < self.registry.slots.len() && self.registry.slots[p].live {
            let mut e = self.registry.slots[p];
            e.position = a;
            self.registry.slots.set(p, e);
        }
    }

    /// Runs one tick: the command, projectile motion over `dt_ms`
    /// milliseconds, collisions, then the out-of-bounds cleanup. Returns
    /// whether a projectile was fired.
    pub fn tick(&mut self, command: Option<Command>, dt_ms: u32) -> (fired: bool)
        requires
            old(self).wf(),
            advance_fits(
                old(self).registry@,
                climb(old(self).config.projectile_speed as int, dt_ms as int),
            ),
        ensures
            final(self).wf(),
            fired == (command == Some(Command::Fire)),
            final(self).anchor == after_input(
                old(self).registry@,
                old(self).anchor,
                old(self).player as int,
                old(self).config,
                command,
            ).1,
            final(self).registry@ == ticked(
                old(self).registry@,
                old(self).anchor,
                old(self).player as int,
                old(self).config,
                command,
                dt_ms as int,
            ),
            final(self).player == old(self).player,
            final(self).config == old(self).config,
    {
        let fired = handle_player_input(self, command);
        let ghost s1 = self.registry@;
        let ghost d = climb(self.config.projectile_speed as int, dt_ms as int);
        assert(0 <= d <= 0xffff_ffff * 0xffff_ffff) by (nonlinear_arith)
            requires
                d == climb(self.config.projectile_speed as int, dt_ms as int),
                0 <= self.config.projectile_speed <= 0xffff_ffff,
                0 <= dt_ms <= 0xffff_ffff,
        ;
        assert forall|k: int| 0 <= k < s1.len() && #[trigger] is_live_projectile(s1[k]) implies s1[k].position.y
            + (s1[k].climb_frac + d) / 1000 <= i64::MAX by {
            if k < old(self).registry@.len() {
                assert(is_live_projectile(old(self).registry@[k]));
            }
        }
        let speed = self.config.projectile_speed;
        move_bullets(&mut self.registry, speed, dt_ms);
        let radius = self.config.collision_radius;
        collision(&mut self.registry, radius);
        let hw = self.config.half_width_exec();
        let hh = self.config.half_height_exec();
        proof {
            lemma_collide_only_removes(
                advanced(s1, d),
                advanced(s1, d).len() as int,
                radius as int,
            );
        }
        despawn_out_of_bounds_entities(&mut self.registry, hw, hh);
        fired
    }
}

/// Every movement step leaves the player in the arena: on each axis both
/// clamped edges lie within the arena's half-extent, and the new centre lies
/// between them.
pub proof fn lemma_move_stays_in_arena(a: Position, dx: int, c: Config)
    requires
        c.valid(),
    ensures
        in_arena(moved_anchor(a, dx, c), c),
        -c.half_width() <= clamped_low_edge(a.x + dx, PLAYER_HALF_EXTENT as int, c.half_width())
            <= moved_anchor(a, dx, c).x <= clamped_high_edge(
            a.x + dx,
            PLAYER_HALF_EXTENT as int,
            c.half_width(),
        ) <= c.half_width(),
        -c.half_height() <= clamped_low_edge(a.y as int, PLAYER_HALF_EXTENT as int, c.half_height())
            <= moved_anchor(a, dx, c).y <= clamped_high_edge(
            a.y as int,
            PLAYER_HALF_EXTENT as int,
            c.half_height(),
        ) <= c.half_height(),
{
    lemma_clamped_footprint_in_arena(a.x + dx, PLAYER_HALF_EXTENT as int, c.half_width());
    lemma_clamped_footprint_in_arena(a.y as int, PLAYER_HALF_EXTENT as int, c.half_height());
}

/// Applies one decoded command: a move steps the player and clamps it into
/// the arena, `Fire` launches a projectile, and no command changes nothing.
/// Returns whether a projectile was fired.
pub fn handle_player_input(state: &mut SimulationState, command: Option<Command>) -> (fired: bool)
    requires
        old(state).wf(),
    ensures
        final(state).wf(),
        fired == (command == Some(Command::Fire)),
        (final(state).registry@, final(state).anchor) == after_input(
            old(state).registry@,
            old(state).anchor,
            old(state).player as int,
            old(state).config,
            command,
        ),
        final(state).player == old(state).player,
        final(state).config == old(state).config,
{
    match command {
        Some(Command::MoveLeft) => {
            let step = state.config.movement_step as i64;
            state.move_player(-step);
            false
        },
        Some(Command::MoveRight) => {
            let step = state.config.movement_step as i64;
            state.move_player(step);
            false
        },
        Some(Command::Fire) => {
            shoot_bullet(state);
            true
        },
        None => false,
    }
}

/// Launches a projectile `launch_offset` above the player's position and
/// returns its handle.
pub fn shoot_bullet(state: &mut SimulationState) -> (h: Handle)
    requires
        old(state).wf(),
    ensures
        final(state).wf(),
        h == old(state).registry@.len(),
        final(state).registry@ == old(state).registry@.push(
            Entity {
                kind: EntityKind::Projectile,
                position: launch_position(old(state).anchor, old(state).config),
                climb_frac: 0,
                live: true,
            },
        ),
        launch_position(old(state).anchor, old(state).config) == (Position {
            x: old(state).anchor.x,
            y: (old(state).anchor.y + old(state).config.launch_offset) as i64,
            z: old(state).anchor.z,
        }),
        old(state).anchor.y + old(state).config.launch_offset <= i64::MAX,
        final(state).anchor == old(state).anchor,
        final(state).player == old(state).player,
        final(state).config == old(state).config,
{
    let a = state.anchor;
    let start = Position { x: a.x, y: a.y + state.config.launch_offset as i64, z: a.z };
    state.registry.spawn(EntityKind::Projectile, start)
}

} // verus!
