use vstd::prelude::*;

use crate::config::Config;
use crate::geometry::Position;
use crate::registry::{Entity, EntityKind, Handle, Registry};
use crate::simulation::{in_arena, SimulationState};

verus! {

/// Where the player starts.
pub const PLAYER_START_X: i64 = 0;
pub const PLAYER_START_Y: i64 = -250;

pub open spec fn live_entity(kind: EntityKind, position: Position) -> Entity {
    Entity { kind, position, climb_frac: 0, live: true }
}

pub open spec fn offset(p: Position, dx: int, dy: int) -> Position {
    Position { x: (p.x + dx) as i64, y: (p.y + dy) as i64, z: p.z }
}

/// Spawns an entity of any kind at `position` under a fresh handle.
pub fn add_game_entity(registry: &mut Registry, position: Position, kind: EntityKind) -> (h: Handle)
    ensures
        h == old(registry)@.len(),
        final(registry)@ == old(registry)@.push(live_entity(kind, position)),
{
    registry.spawn(kind, position)
}

/// Spawns the arena's boundary marker at `position`.
pub fn spawn_outline_container(registry: &mut Registry, position: Position) -> (h: Handle)
    ensures
        h == old(registry)@.len(),
        final(registry)@ == old(registry)@.push(live_entity(EntityKind::Boundary, position)),
{
    registry.spawn(EntityKind::Boundary, position)
}

/// Spawns one enemy fly at `position`.
pub fn spawn_fly(registry: &mut Registry, position: Position) -> (h: Handle)
    ensures
        h == old(registry)@.len(),
        final(registry)@ == old(registry)@.push(live_entity(EntityKind::Enemy, position)),
{
    add_game_entity(registry, position, EntityKind::Enemy)
}

/// Spawns three flies: at `base_position`, 100 right and 50 up of it, and
/// 100 left and 50 down of it, in that order.
pub fn spawn_three_flies(registry: &mut Registry, base_position: Position)
    requires
        i64::MIN + 100 <= base_position.x <= i64::MAX - 100,
        i64::MIN + 50 <= base_position.y <= i64::MAX - 50,
    ensures
        final(registry)@ == old(registry)@.push(live_entity(EntityKind::Enemy, base_position)).push(
            live_entity(EntityKind::Enemy, offset(base_position, 100, 50)),
        ).push(live_entity(EntityKind::Enemy, offset(base_position, -100, -50))),
{
    let b = base_position;
    spawn_fly(registry, b);
    spawn_fly(registry, Position { x: b.x + 100, y: b.y + 50, z: b.z });
    spawn_fly(registry, Position { x: b.x - 100, y: b.y - 50, z: b.z });
}

/// Spawns the wave of three flies centred at `(0, 200, 0)`.
pub fn fly_spawner_system(registry: &mut Registry)
    ensures
        final(registry)@ == old(registry)@.push(
            live_entity(EntityKind::Enemy, Position { x: 0, y: 200, z: 0 }),
        ).push(live_entity(EntityKind::Enemy, Position { x: 100, y: 250, z: 0 })).push(
            live_entity(EntityKind::Enemy, Position { x: -100i64, y: 150, z: 0 }),
        ),
{
    spawn_three_flies(registry, Position { x: 0, y: 200, z: 0 });
}

/// The opening scene: the boundary marker at the origin, the player at
/// `(0, -250, 0)` and one fly at `(-300, 100, 0)`, with handles 0, 1 and 2.
/// `None` when the configuration is invalid or the player's start lies
/// outside its arena.
pub fn setup_scene(config: Config) -> (r: Option<SimulationState>)
    ensures
        r is None <==> !(config.valid() && in_arena(
            Position { x: PLAYER_START_X, y: PLAYER_START_Y, z: 0 },
            config,
        )),
        r matches Some(st) ==> st.wf() && st.config == config && st.player == 1 && st.anchor == (
        Position { x: PLAYER_START_X, y: PLAYER_START_Y, z: 0 }) && st.registry@ == seq![
            live_entity(EntityKind::Boundary, Position { x: 0, y: 0, z: 0 }),
            live_entity(EntityKind::Player, Position { x: PLAYER_START_X, y: PLAYER_START_Y, z: 0 }),
            live_entity(EntityKind::Enemy, Position { x: -300i64, y: 100, z: 0 }),
        ],
{
    let start = Position { x: PLAYER_START_X, y: PLAYER_START_Y, z: 0 };
    if config.width == 0 || config.height == 0 {
        return None;
    }
    let hw = config.half_width_exec();
    let hh = config.half_height_exec();
    if start.x < -hw || start.x > hw || start.y < -hh || start.y > hh {
        return None;
    }
    let mut registry = Registry::new();
    spawn_outline_container(&mut registry, Position { x: 0, y: 0, z: 0 });
    let player = add_game_entity(&mut registry, start, EntityKind::Player);
    spawn_fly(&mut registry, Position { x: -300i64, y: 100, z: 0 });
    let st = SimulationState { registry, anchor: start, player, config };
    assert(st.registry@ =~= seq![
        live_entity(EntityKind::Boundary, Position { x: 0, y: 0, z: 0 }),
        live_entity(EntityKind::Player, start),
        live_entity(EntityKind::Enemy, Position { x: -300i64, y: 100, z: 0 }),
    ]);
    Some(st)
}

} // verus!
