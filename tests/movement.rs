use platformer_test::game::GameWorld;
use platformer_test::geometry::{Rect, Vec2};
use platformer_test::input::{ActionState, AxisState, Input};
use platformer_test::physics::{detect_bodies, move_body, KinematicBody, PhysicsWorld, StaticCollider};
use platformer_test::player::{Player, PlayerProperties, State};
use platformer_test::sides::{CollisionSide, Side};
use platformer_test::world::{
    cell_x, cell_y, is_colliding_with_world, IntGridLayer, LdtkProject, LevelData, LevelTile,
};

const UNIT: i64 = 16000;

/// A 5x5-cell level covering cells -2..=2 on both axes, with the given solid cells.
fn level_with(solid: &[(i64, i64)]) -> LdtkProject {
    let mut csv = vec![0i64; 25];
    for &(x, y) in solid {
        csv[((x + 2) + (y + 2) * 5) as usize] = 1;
    }
    LdtkProject {
        levels: vec![LevelData {
            world_x: -32,
            world_y: -32,
            px_wid: 80,
            px_hei: 80,
            layers: vec![IntGridLayer { identifier: "Collision".to_string(), c_wid: 5, int_grid_csv: csv }],
            entities: vec![],
        }],
        entity_defs: vec![],
    }
}

fn unit_body(x: i64, y: i64, vx: i64, vy: i64) -> KinematicBody {
    let mut b = KinematicBody::new(1, Vec2::new(x, y), Rect::from_min_size(Vec2::zero(), Vec2::new(UNIT, UNIT)));
    b.velocity = Vec2::new(vx, vy);
    b
}

fn no_colliders() -> PhysicsWorld {
    PhysicsWorld { collisions: vec![] }
}

#[test]
fn cells_are_sampled_with_offset_floor_and_rounding() {
    assert_eq!(cell_x(0), -1);
    assert_eq!(cell_x(8000), 0);
    assert_eq!(cell_x(7999), -1);
    assert_eq!(cell_x(24000), 1);
    assert_eq!(cell_y(7999), 0);
    assert_eq!(cell_y(8000), 1);
    assert_eq!(cell_y(-7999), 0);
    assert_eq!(cell_y(-8000), -1);
}

#[test]
fn tiles_are_read_from_the_collision_layer() {
    let p = level_with(&[(0, -1)]);
    assert_eq!(p.get_tile(0, -1), Some(LevelTile::Solid));
    assert_eq!(p.get_tile(0, 0), None);
    assert_eq!(p.get_tile(3, 0), None);
    assert_eq!(p.get_tile(-2, -2), None);
    let r = Rect::from_min_size(Vec2::new(0, -8000), Vec2::new(UNIT, UNIT));
    assert!(is_colliding_with_world(r, &p, LevelTile::Solid));
    let r = Rect::from_min_size(Vec2::new(0, -6400), Vec2::new(UNIT, UNIT));
    assert!(!is_colliding_with_world(r, &p, LevelTile::Solid));
}

#[test]
fn a_level_without_collision_layer_is_empty() {
    let mut p = level_with(&[(0, -1)]);
    p.levels[0].layers[0].identifier = "Background".to_string();
    assert_eq!(p.get_tile(0, -1), None);
}

#[test]
fn zero_move_changes_nothing() {
    let p = level_with(&[(0, -1)]);
    let mut b = unit_body(100, 200, 5, -7);
    let before = b;
    let sides = move_body(&mut b, Vec2::zero(), &no_colliders(), &p);
    assert!(sides.is_empty());
    assert_eq!(b, before);
}

#[test]
fn free_move_covers_the_whole_delta() {
    let p = level_with(&[]);
    let mut b = unit_body(0, 0, 1000, 500);
    let sides = move_body(&mut b, Vec2::new(5000, 2500), &no_colliders(), &p);
    assert!(sides.is_empty());
    assert_eq!(b.position, Vec2::new(5000, 2500));
    assert_eq!(b.velocity, Vec2::new(1000, 500));
}

#[test]
fn landing_stops_on_the_tile() {
    let p = level_with(&[(0, -1)]);
    let mut b = unit_body(0, 0, 0, -800000);
    let sides = move_body(&mut b, Vec2::new(0, -12000), &no_colliders(), &p);
    assert!(sides.contains(Side::Down));
    assert!(!sides.contains(Side::Up));
    assert_eq!(b.position, Vec2::new(0, -6400));
    assert_eq!(b.velocity.y, 0);
    assert_eq!(sides.bits(), 2);
}

#[test]
fn fast_move_does_not_tunnel_through_a_wall() {
    // A wall one cell thick at column 1, rows -2..=2.
    let p = level_with(&[(1, -2), (1, -1), (1, 0), (1, 1), (1, 2)]);
    let mut b = unit_body(-16000, 0, 3_000_000, 0);
    let sides = move_body(&mut b, Vec2::new(48000, 0), &no_colliders(), &p);
    assert!(sides.contains(Side::Right));
    assert_eq!(b.velocity.x, 0);
    let r = b.collision.translate(b.position);
    assert!(!is_colliding_with_world(r, &p, LevelTile::Solid));
    assert!(b.position.x < 16000);
}

#[test]
fn diagonal_move_into_floor_slides_along_it() {
    let p = level_with(&[(-1, -1), (0, -1), (1, -1), (2, -1)]);
    let mut b = unit_body(0, 0, 160000, -160000);
    let sides = move_body(&mut b, Vec2::new(9600, -9600), &no_colliders(), &p);
    assert!(sides.contains(Side::Down));
    assert!(!sides.contains(Side::Left) && !sides.contains(Side::Right));
    assert_eq!(b.velocity, Vec2::new(160000, 0));
    assert_eq!(b.position, Vec2::new(9600, -7200));
}

#[test]
fn diagonal_move_into_true_corner_stops_dead() {
    // A wall to the right and a floor below, both colliders: the sub-step that first
    // touches them stays blocked when either of its parts is undone.
    let p = level_with(&[]);
    let colliders = PhysicsWorld {
        collisions: vec![
            (7, Rect::from_min_size(Vec2::new(17600, -40000), Vec2::new(16000, 80000))),
            (8, Rect::from_min_size(Vec2::new(-40000, -17600), Vec2::new(80000, 16000))),
        ],
    };
    let mut b = unit_body(0, 0, 160000, -160000);
    let sides = move_body(&mut b, Vec2::new(3200, -3200), &colliders, &p);
    assert!(sides.contains(Side::Right));
    assert!(sides.contains(Side::Down));
    assert_eq!(b.velocity, Vec2::zero());
    assert_eq!(b.position, Vec2::new(800, -800));
}

#[test]
fn rect_collisions_skip_the_moving_entity() {
    let w = PhysicsWorld {
        collisions: vec![
            (1, Rect::from_min_size(Vec2::new(0, 0), Vec2::new(10, 10))),
            (2, Rect::from_min_size(Vec2::new(5, 5), Vec2::new(10, 10))),
            (3, Rect::from_min_size(Vec2::new(8, 8), Vec2::new(10, 10))),
        ],
    };
    let r = Rect::from_min_size(Vec2::new(4, 4), Vec2::new(2, 2));
    assert_eq!(w.get_rect_collisions(r, 1), Some(2));
    assert_eq!(w.get_rect_collisions(r, 9), Some(1));
    let far = Rect::from_min_size(Vec2::new(100, 100), Vec2::new(2, 2));
    assert_eq!(w.get_rect_collisions(far, 9), None);
}

#[test]
fn colliders_are_placed_at_their_positions() {
    let cs = vec![StaticCollider {
        entity: 4,
        rect: Rect::from_min_size(Vec2::new(0, 0), Vec2::new(UNIT, UNIT)),
        position: Vec2::new(3 * UNIT, -UNIT),
    }];
    let w = PhysicsWorld::from_colliders(&cs);
    assert_eq!(w.collisions.len(), 1);
    assert_eq!(w.collisions[0].0, 4);
    assert_eq!(w.collisions[0].1.min, Vec2::new(3 * UNIT, -UNIT));
    assert_eq!(w.collisions[0].1.max, Vec2::new(4 * UNIT, 0));
}

#[test]
fn sensors_list_touched_colliders_and_level() {
    let p = level_with(&[(0, -1)]);
    let w = PhysicsWorld {
        collisions: vec![
            (1, Rect::from_min_size(Vec2::new(0, 0), Vec2::new(10, 10))),
            (2, Rect::from_min_size(Vec2::new(5, 5), Vec2::new(10, 10))),
            (3, Rect::from_min_size(Vec2::new(50, 0), Vec2::new(10, 10))),
        ],
    };
    let r = Rect::from_min_size(Vec2::new(4, -8000), Vec2::new(UNIT, 8006));
    let s = detect_bodies(&w, &p, 2, r, LevelTile::Solid);
    assert_eq!(s.others, vec![1, 3]);
    assert!(s.world);
}

fn released_input() -> Input {
    Input { jump: ActionState::Released, horizontal: AxisState(0) }
}

#[test]
fn falling_body_lands_on_tile_in_one_tick() {
    let p = level_with(&[(0, -1)]);
    let mut w = GameWorld {
        project: Some(p),
        physics: no_colliders(),
        player: Player::new(PlayerProperties::default()),
        body: unit_body(0, 0, 0, -50 * UNIT),
    };
    let sides = w.tick(&released_input(), 1_000_000, 16667).unwrap();
    assert!(sides.contains(Side::Down));
    assert_eq!(w.body.velocity.y, 0);
    assert_eq!(w.body.position.y, -6400);
    assert!(w.body.position.y > -8000);
    assert_eq!(w.player.state, State::Grounded);
}

#[test]
fn tick_without_level_skips_the_move() {
    let mut w = GameWorld {
        project: None,
        physics: no_colliders(),
        player: Player::new(PlayerProperties::default()),
        body: unit_body(0, 0, 0, 0),
    };
    assert!(w.tick(&released_input(), 0, 16667).is_none());
    assert_eq!(w.body.position, Vec2::zero());
    assert_eq!(w.body.velocity.y, -26667);
    assert_eq!(w.player.state, State::Airborne);
}

#[test]
fn body_against_a_wall_starts_sliding() {
    // Wall at column -1, floor far below.
    let p = level_with(&[(-1, -2), (-1, -1), (-1, 0), (-1, 1), (-1, 2)]);
    let mut w = GameWorld {
        project: Some(p),
        physics: no_colliders(),
        player: Player::new(PlayerProperties::default()),
        body: unit_body(8000, 0, -UNIT, 0),
    };
    let input = Input { jump: ActionState::Released, horizontal: AxisState(-1000) };
    let sides = w.tick(&input, 1_000_000, 16667).unwrap();
    assert!(!sides.contains(Side::Down));
    assert_eq!(w.player.state, State::Sliding { side: platformer_test::player::SlideSide::Left });
}

#[test]
fn collision_sides_record_each_side() {
    let mut s = CollisionSide::empty();
    assert!(s.is_empty());
    s.insert(Side::Left);
    s.insert(Side::Up);
    assert!(s.contains(Side::Left) && s.contains(Side::Up));
    assert!(!s.contains(Side::Right) && !s.contains(Side::Down));
    assert_eq!(s.bits(), 5);
}

#[test]
fn rect_operations() {
    let r = Rect::from_min_size(Vec2::new(1, 2), Vec2::new(3, 4));
    assert_eq!(r.max, Vec2::new(4, 6));
    assert_eq!(r.width(), 3);
    assert_eq!(r.height(), 4);
    let t = r.translate(Vec2::new(-1, 1));
    assert_eq!(t.min, Vec2::new(0, 3));
    assert_eq!(t.max, Vec2::new(3, 7));
    let touching = Rect::from_min_size(Vec2::new(4, 6), Vec2::new(1, 1));
    assert!(r.intersects(touching));
    let apart = Rect::from_min_size(Vec2::new(5, 6), Vec2::new(1, 1));
    assert!(!r.intersects(apart));
    assert_eq!(r.center(), Vec2::new(2, 4));
    let left = Rect::from_min_size(Vec2::new(-3, -3), Vec2::new(3, 2));
    assert_eq!(left.center(), Vec2::new(-2, -2));
    assert!(r.contains(Vec2::new(4, 2)));
    assert!(!r.contains(Vec2::new(0, 2)));
}

#[test]
fn diagonal_move_into_wall_keeps_the_whole_vertical_part() {
    // A wall one cell thick at column 1, reached only after several sub-steps.
    let p = level_with(&[(1, -2), (1, -1), (1, 0), (1, 1), (1, 2)]);
    let mut b = unit_body(-16000, 0, 3_000_000, 160000);
    let sides = move_body(&mut b, Vec2::new(48000, 4800), &no_colliders(), &p);
    assert!(sides.contains(Side::Right));
    assert!(!sides.contains(Side::Up) && !sides.contains(Side::Down) && !sides.contains(Side::Left));
    assert_eq!(b.velocity, Vec2::new(0, 160000));
    assert_eq!(b.position.y, 4800);
    assert!(b.position.x < 8000);
}
