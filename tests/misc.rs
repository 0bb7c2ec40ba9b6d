use platformer_test::camera::{CameraFollow, Projection};
use platformer_test::game::{pause_on_esc, AppState};
use platformer_test::input::ActionState;
use platformer_test::geometry::{Rect, Vec2};
use platformer_test::level::Level;
use platformer_test::time::{GameInstant, GameplayTime};
use platformer_test::world::{EntityDef, EntityInstance, LdtkProject, LevelData, LevelTile, SpawnError};

#[test]
fn game_instants_accumulate_unpaused_time() {
    let mut t = GameInstant::from_game_start();
    assert_eq!(t.micros(), 0);
    t.add_unpaused_delta(16667);
    t.add_unpaused_delta(16667);
    assert_eq!(t.micros(), 33334);
    assert_eq!(t.add(100).micros(), 33434);
    assert!(GameInstant::from_game_start() < t);
}

#[test]
fn gameplay_time_stops_while_paused() {
    let mut g = GameplayTime::new();
    g.tick(1000);
    g.pause();
    g.tick(5000);
    assert_eq!(g.elapsed().micros(), 1000);
    g.unpause();
    g.tick(5000);
    assert_eq!(g.elapsed().micros(), 6000);
}

#[test]
fn camera_follows_within_bounds() {
    let proj = Projection { left: -8, right: 8, bottom: -8, top: 8 };
    let free = CameraFollow::default();
    assert_eq!(free.follow(&proj, Vec2::new(123, -45)), Vec2::new(123, -45));
    let bounded = CameraFollow {
        target: Some(1),
        bounds: Some(Rect::from_min_size(Vec2::new(0, 0), Vec2::new(100, 10))),
    };
    assert_eq!(bounded.follow(&proj, Vec2::new(50, 5)), Vec2::new(50, 5));
    assert_eq!(bounded.follow(&proj, Vec2::new(-20, 5)), Vec2::new(8, 5));
    assert_eq!(bounded.follow(&proj, Vec2::new(200, 5)), Vec2::new(92, 5));
    let narrow = CameraFollow {
        target: Some(1),
        bounds: Some(Rect::from_min_size(Vec2::new(-11, -11), Vec2::new(10, 10))),
    };
    assert_eq!(narrow.follow(&proj, Vec2::new(50, 50)), Vec2::new(-6, -6));
}

#[test]
fn fixed_level_reads_tiles_row_by_row() {
    let tiles = vec![None, Some(LevelTile::Solid), None, None, None, Some(LevelTile::Solid)];
    let l = Level::new(tiles, 3, 2, Vec2::new(1, 1));
    assert_eq!(l.width(), 3);
    assert_eq!(l.height(), 2);
    assert_eq!(l.get_tile(1, 0), Some(LevelTile::Solid));
    assert_eq!(l.get_tile(2, 1), Some(LevelTile::Solid));
    assert_eq!(l.get_tile(0, 1), None);
    assert_eq!(l.get_tile(3, 0), None);
    assert_eq!(l.get_tile(-1, 0), None);
}

fn project_with(defs: Vec<EntityDef>, entities: Vec<EntityInstance>) -> LdtkProject {
    LdtkProject {
        levels: vec![
            LevelData { world_x: 0, world_y: 0, px_wid: 16, px_hei: 16, layers: vec![], entities: vec![] },
            LevelData { world_x: 256, world_y: 32, px_wid: 160, px_hei: 160, layers: vec![], entities },
        ],
        entity_defs: defs,
    }
}

#[test]
fn start_point_is_placed_in_world_space() {
    let defs = vec![
        EntityDef { identifier: "Enemy".to_string(), uid: 3 },
        EntityDef { identifier: "Start_Point".to_string(), uid: 7 },
    ];
    let p = project_with(defs, vec![
        EntityInstance { def_uid: 3, px: (0, 0) },
        EntityInstance { def_uid: 7, px: (16, 48) },
    ]);
    assert_eq!(p.start_point(), Ok(Vec2::new(272_000, -80_000)));
}

#[test]
fn start_point_errors() {
    let p = project_with(vec![EntityDef { identifier: "Enemy".to_string(), uid: 3 }], vec![]);
    assert_eq!(p.start_point(), Err(SpawnError::NoStartPointDefinition));
    let p = project_with(vec![EntityDef { identifier: "Start_Point".to_string(), uid: 7 }], vec![]);
    assert_eq!(p.start_point(), Err(SpawnError::NoStartPoint));
}

#[test]
fn pause_toggles_on_a_fresh_press() {
    assert_eq!(pause_on_esc(AppState::Playing, ActionState::JustPressed), AppState::Paused);
    assert_eq!(pause_on_esc(AppState::Paused, ActionState::JustPressed), AppState::Playing);
    assert_eq!(pause_on_esc(AppState::Playing, ActionState::Held), AppState::Playing);
    assert_eq!(pause_on_esc(AppState::Loading, ActionState::JustPressed), AppState::Loading);
}
