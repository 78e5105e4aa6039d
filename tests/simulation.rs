use arcade_sim::config::Config;
use arcade_sim::geometry::{clamp_axis, is_colliding, Position};
use arcade_sim::registry::{EntityKind, Registry};
use arcade_sim::scene::{add_game_entity, fly_spawner_system, setup_scene, spawn_outline_container, spawn_three_flies};
use arcade_sim::simulation::{handle_player_input, shoot_bullet, Command, SimulationState};
use arcade_sim::systems::{advance_in_range, collision, despawn_out_of_bounds_entities, move_bullets};

fn pos(x: i64, y: i64, z: i64) -> Position {
    Position::new(x, y, z)
}

fn standard_state() -> SimulationState {
    SimulationState::new(Config::standard(), pos(0, -250, 0)).unwrap()
}

fn projectiles(st: &SimulationState) -> Vec<Position> {
    st.registry
        .iter(Some(EntityKind::Projectile))
        .iter()
        .map(|l| l.position)
        .collect()
}

#[test]
fn fire_spawns_projectile_fifty_above_origin() {
    let mut st = SimulationState::new(Config::standard(), pos(30, -120, 7)).unwrap();
    let h = shoot_bullet(&mut st);
    let e = st.registry.get(h).unwrap();
    assert_eq!(e.kind, EntityKind::Projectile);
    assert_eq!(e.position, pos(30, -70, 7));
}

#[test]
fn projectile_collides_within_radius() {
    let mut r = Registry::new();
    let p = r.spawn(EntityKind::Projectile, pos(0, 0, 0));
    let t = r.spawn(EntityKind::Enemy, pos(0, 24, 0));
    collision(&mut r, 25);
    assert!(!r.is_live(p));
    assert!(!r.is_live(t));
}

#[test]
fn projectile_misses_outside_radius() {
    let mut r = Registry::new();
    let p = r.spawn(EntityKind::Projectile, pos(0, 0, 0));
    let t = r.spawn(EntityKind::Enemy, pos(0, 26, 0));
    collision(&mut r, 25);
    assert!(r.is_live(p));
    assert!(r.is_live(t));
}

#[test]
fn projectile_destroys_only_first_target() {
    let mut r = Registry::new();
    let a = r.spawn(EntityKind::Enemy, pos(10, 0, 0));
    let b = r.spawn(EntityKind::Enemy, pos(0, 5, 0));
    let p = r.spawn(EntityKind::Projectile, pos(0, 0, 0));
    let q = r.spawn(EntityKind::Projectile, pos(1, 0, 0));
    collision(&mut r, 25);
    assert!(!r.is_live(p));
    assert!(!r.is_live(a));
    assert!(!r.is_live(q));
    assert!(!r.is_live(b));
}

#[test]
fn projectiles_hit_each_other_but_not_boundary() {
    let mut r = Registry::new();
    let m = spawn_outline_container(&mut r, pos(0, 0, 0));
    let p = r.spawn(EntityKind::Projectile, pos(0, 0, 0));
    let q = r.spawn(EntityKind::Projectile, pos(0, 10, 0));
    collision(&mut r, 25);
    assert!(r.is_live(m));
    assert!(!r.is_live(p));
    assert!(!r.is_live(q));
    assert_eq!(r.iter(None).len(), 1);
}

#[test]
fn projectile_never_hits_itself() {
    let mut r = Registry::new();
    let p = r.spawn(EntityKind::Projectile, pos(0, 0, 0));
    collision(&mut r, 25);
    assert!(r.is_live(p));
}

#[test]
fn advance_one_second_at_speed_300() {
    let mut r = Registry::new();
    let p = r.spawn(EntityKind::Projectile, pos(0, 0, 0));
    move_bullets(&mut r, 300, 1000);
    assert_eq!(r.get(p).unwrap().position, pos(0, 300, 0));
    move_bullets(&mut r, 300, 1000);
    assert_eq!(r.get(p).unwrap().position, pos(0, 600, 0));
}

#[test]
fn advance_accumulates_over_short_ticks() {
    let mut r = Registry::new();
    let p = r.spawn(EntityKind::Projectile, pos(5, -10, 0));
    move_bullets(&mut r, 300, 500);
    move_bullets(&mut r, 300, 250);
    assert_eq!(r.get(p).unwrap().position, pos(5, 215, 0));
}

#[test]
fn advance_keeps_fraction_between_ticks() {
    let mut r = Registry::new();
    let p = r.spawn(EntityKind::Projectile, pos(0, 0, 0));
    move_bullets(&mut r, 300, 16);
    assert_eq!(r.get(p).unwrap().position, pos(0, 4, 0));
    move_bullets(&mut r, 300, 16);
    assert_eq!(r.get(p).unwrap().position, pos(0, 9, 0));
    let mut w = Registry::new();
    let q = w.spawn(EntityKind::Projectile, pos(0, 0, 0));
    move_bullets(&mut w, 300, 32);
    assert_eq!(w.get(q).unwrap().position, pos(0, 9, 0));
    assert_eq!(w.get(q).unwrap().climb_frac, r.get(p).unwrap().climb_frac);
}

#[test]
fn sixty_short_ticks_cover_full_distance() {
    let mut r = Registry::new();
    let p = r.spawn(EntityKind::Projectile, pos(0, -400, 0));
    for _ in 0..60 {
        move_bullets(&mut r, 300, 16);
    }
    assert_eq!(r.get(p).unwrap().position, pos(0, -112, 0));
}

#[test]
fn advance_in_range_detects_overflow() {
    let mut r = Registry::new();
    r.spawn(EntityKind::Projectile, pos(0, i64::MAX - 1, 0));
    assert!(advance_in_range(&r, 300, 3));
    assert!(!advance_in_range(&r, 300, 10));
    r.spawn(EntityKind::Enemy, pos(0, i64::MAX, 0));
    assert!(advance_in_range(&r, 300, 3));
}

#[test]
fn add_game_entity_takes_any_kind() {
    let mut r = Registry::new();
    let a = add_game_entity(&mut r, pos(5, 5, 0), EntityKind::Projectile);
    let b = add_game_entity(&mut r, pos(5, 5, 0), EntityKind::Projectile);
    assert_ne!(a, b);
    assert_eq!(r.get(a).unwrap().kind, EntityKind::Projectile);
    assert_eq!(r.get(b).unwrap().kind, EntityKind::Projectile);
    assert_eq!(r.get(b).unwrap().position, pos(5, 5, 0));
    assert_eq!(r.iter(None).len(), 2);
}

#[test]
fn advance_removes_projectile_past_travel_limit() {
    let mut r = Registry::new();
    let p = r.spawn(EntityKind::Projectile, pos(0, 700, 0));
    let q = r.spawn(EntityKind::Projectile, pos(0, 500, 0));
    let e = r.spawn(EntityKind::Enemy, pos(0, 700, 0));
    move_bullets(&mut r, 300, 1000);
    assert!(!r.is_live(p));
    assert!(r.is_live(q));
    assert_eq!(r.get(q).unwrap().position, pos(0, 800, 0));
    assert_eq!(r.get(e).unwrap().position, pos(0, 700, 0));
}

#[test]
fn bounds_pass_removes_outsiders_but_not_marker() {
    let mut r = Registry::new();
    let m = spawn_outline_container(&mut r, pos(601, 0, 0));
    let a = r.spawn(EntityKind::Enemy, pos(601, 0, 0));
    let b = r.spawn(EntityKind::Enemy, pos(0, -401, 0));
    let c = r.spawn(EntityKind::Player, pos(600, 400, 0));
    let d = r.spawn(EntityKind::Projectile, pos(-600, -400, 3));
    despawn_out_of_bounds_entities(&mut r, 600, 400);
    assert!(r.is_live(m));
    assert!(!r.is_live(a));
    assert!(!r.is_live(b));
    assert!(r.is_live(c));
    assert!(r.is_live(d));
}

#[test]
fn despawn_twice_is_noop() {
    let mut r = Registry::new();
    let a = r.spawn(EntityKind::Enemy, pos(1, 2, 3));
    let b = r.spawn(EntityKind::Player, pos(4, 5, 6));
    r.despawn(a);
    let once = r.iter(None);
    r.despawn(a);
    r.despawn(a);
    assert_eq!(r.iter(None), once);
    assert_eq!(once.len(), 1);
    assert_eq!(once[0].handle, b);
    r.despawn(99);
    assert_eq!(r.iter(None), once);
}

#[test]
fn move_left_ten_times_then_fire() {
    let mut st = standard_state();
    for _ in 0..10 {
        assert!(!handle_player_input(&mut st, Some(Command::MoveLeft)));
    }
    assert_eq!(st.anchor, pos(-100, -250, 0));
    assert_eq!(st.registry.get(st.player).unwrap().position, pos(-100, -250, 0));
    assert!(handle_player_input(&mut st, Some(Command::Fire)));
    assert_eq!(projectiles(&st), vec![pos(-100, -200, 0)]);
}

#[test]
fn fire_from_start_spawns_at_minus_200() {
    let mut st = standard_state();
    assert!(handle_player_input(&mut st, Some(Command::Fire)));
    assert_eq!(projectiles(&st), vec![pos(0, -200, 0)]);
}

#[test]
fn no_command_changes_nothing() {
    let mut st = standard_state();
    let before = st.registry.iter(None);
    assert!(!handle_player_input(&mut st, None));
    assert_eq!(st.anchor, pos(0, -250, 0));
    assert_eq!(st.registry.iter(None), before);
}

#[test]
fn player_clamped_at_right_wall() {
    let mut st = SimulationState::new(Config::standard(), pos(585, 0, 0)).unwrap();
    handle_player_input(&mut st, Some(Command::MoveRight));
    assert_eq!(st.anchor, pos(592, 0, 0));
    handle_player_input(&mut st, Some(Command::MoveRight));
    assert_eq!(st.anchor, pos(596, 0, 0));
    for _ in 0..10 {
        handle_player_input(&mut st, Some(Command::MoveRight));
    }
    assert!(st.anchor.x <= 600);
    assert_eq!(st.anchor.x, 599);
}

#[test]
fn clamp_axis_values() {
    assert_eq!(clamp_axis(0, 10, 600), 0);
    assert_eq!(clamp_axis(1000, 10, 600), 600);
    assert_eq!(clamp_axis(-1000, 10, 600), -600);
    assert_eq!(clamp_axis(-600, 10, 600), -595);
    assert_eq!(clamp_axis(595, 10, 600), 592);
    assert_eq!(clamp_axis(3, 10, 5), 0);
}

#[test]
fn is_colliding_values() {
    assert!(is_colliding(&pos(0, 0, 0), &pos(0, 24, 0), 25));
    assert!(!is_colliding(&pos(0, 0, 0), &pos(0, 25, 0), 25));
    assert!(is_colliding(&pos(3, 4, 100), &pos(0, 0, -100), 6));
    assert!(!is_colliding(&pos(3, 4, 0), &pos(0, 0, 0), 5));
    assert!(!is_colliding(&pos(i64::MAX, 0, 0), &pos(i64::MIN, 0, 0), u32::MAX));
    assert!(!is_colliding(&pos(0, 0, 0), &pos(0, 0, 0), 0));
}

#[test]
fn config_rejects_empty_arena() {
    assert!(Config::new(0, 800, 25, 300, 10, 50).is_none());
    assert!(Config::new(1200, 0, 25, 300, 10, 50).is_none());
    assert_eq!(Config::new(1200, 800, 25, 300, 10, 50), Some(Config::standard()));
}

#[test]
fn state_rejects_start_outside_arena() {
    assert!(SimulationState::new(Config::standard(), pos(601, 0, 0)).is_none());
    assert!(SimulationState::new(Config::standard(), pos(0, 401, 0)).is_none());
    assert!(SimulationState::new(Config::standard(), pos(600, -400, 0)).is_some());
    let small = Config::new(100, 100, 25, 300, 10, 50).unwrap();
    assert!(setup_scene(small).is_none());
}

#[test]
fn scene_layout() {
    let st = setup_scene(Config::standard()).unwrap();
    let all = st.registry.iter(None);
    assert_eq!(all.len(), 3);
    assert_eq!(all[0].kind, EntityKind::Boundary);
    assert_eq!(all[1].kind, EntityKind::Player);
    assert_eq!(all[1].position, pos(0, -250, 0));
    assert_eq!(all[2].kind, EntityKind::Enemy);
    assert_eq!(all[2].position, pos(-300, 100, 0));
    assert_eq!(st.player, 1);
}

#[test]
fn three_flies_positions() {
    let mut r = Registry::new();
    spawn_three_flies(&mut r, pos(10, 20, 1));
    let flies: Vec<Position> = r.iter(Some(EntityKind::Enemy)).iter().map(|l| l.position).collect();
    assert_eq!(flies, vec![pos(10, 20, 1), pos(110, 70, 1), pos(-90, -30, 1)]);
    let mut w = Registry::new();
    fly_spawner_system(&mut w);
    let wave: Vec<Position> = w.iter(None).iter().map(|l| l.position).collect();
    assert_eq!(wave, vec![pos(0, 200, 0), pos(100, 250, 0), pos(-100, 150, 0)]);
}

#[test]
fn iter_filters_by_kind_in_spawn_order() {
    let mut r = Registry::new();
    let a = r.spawn(EntityKind::Enemy, pos(1, 0, 0));
    let p = r.spawn(EntityKind::Projectile, pos(2, 0, 0));
    let b = r.spawn(EntityKind::Enemy, pos(3, 0, 0));
    let enemies: Vec<usize> = r.iter(Some(EntityKind::Enemy)).iter().map(|l| l.handle).collect();
    assert_eq!(enemies, vec![a, b]);
    assert_eq!(r.iter(None).len(), 3);
    r.despawn(a);
    let live: Vec<usize> = r.iter(None).iter().map(|l| l.handle).collect();
    assert_eq!(live, vec![p, b]);
}

#[test]
fn tick_fires_then_projectile_hits_fly() {
    let mut st = setup_scene(Config::standard()).unwrap();
    let fly = st.registry.spawn(EntityKind::Enemy, pos(0, -150, 0));
    assert!(st.tick(Some(Command::Fire), 100));
    // launched at -200, climbs 30 to -170: within 25 of the fly at -150
    assert!(!st.registry.is_live(fly));
    assert!(projectiles(&st).is_empty());
    assert!(st.registry.is_live(st.player));
    // the scene's fly at (-300, 100) is untouched
    assert!(st.registry.is_live(2));
}

#[test]
fn tick_cleans_up_outsiders() {
    let mut st = standard_state();
    let far = st.registry.spawn(EntityKind::Enemy, pos(0, 450, 0));
    assert!(!st.tick(Some(Command::MoveRight), 16));
    assert!(!st.registry.is_live(far));
    assert_eq!(st.anchor, pos(10, -250, 0));
}
