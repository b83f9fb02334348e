//! World model: grids, repositories, line sets, collision resolution and
//! the bootstrap world.

use raymarcher::ecs::collision::resolve_collision;
use raymarcher::ecs::components::{
    CameraComponent, DirectionComponent, LinemapComponent, PositionComponent, TilemapComponent,
};
use raymarcher::game_state::{load_resources, GameState, Repositories};
use raymarcher::graphics::camera::Camera;
use raymarcher::graphics::RenderingState;
use raymarcher::math::{UVec2, Vec2};
use raymarcher::model::is_exists_resource;
use raymarcher::model::linemap::{Linemap, Rect};
use raymarcher::model::object_color::{Color, ObjectColor};
use raymarcher::model::repository::Repository;
use raymarcher::model::tile::Tile;
use raymarcher::model::tilemap::Tilemap;

fn air() -> Tile {
    Tile::new(0, ObjectColor::Colored { color: Color::white() }, false)
}

fn wall() -> Tile {
    Tile::new(1, ObjectColor::Colored { color: Color::green() }, true)
}

fn bordered_3x3() -> Tilemap {
    let raw = vec![
        vec![wall(), wall(), wall()],
        vec![wall(), air(), wall()],
        vec![wall(), wall(), wall()],
    ];
    Tilemap::from_raw_tilemap(1, &raw)
}

#[test]
fn lookup_outside_bounds_is_absent() {
    let tilemap = bordered_3x3();
    assert_eq!(tilemap.sizes(), UVec2 { x: 3, y: 3 });
    for x in 0..3u32 {
        for y in 0..3u32 {
            assert!(tilemap.get_tile(UVec2 { x, y }).is_some());
        }
    }
    assert!(tilemap.get_tile(UVec2 { x: 3, y: 1 }).is_none());
    assert!(tilemap.get_tile(UVec2 { x: 1, y: 3 }).is_none());
    assert!(tilemap.get_tile(UVec2 { x: 3, y: 3 }).is_none());
    assert!(tilemap.get_tile(UVec2 { x: u32::MAX, y: 0 }).is_none());
    assert!(tilemap.get_tile(UVec2 { x: 0, y: u32::MAX }).is_none());
}

#[test]
fn cells_reference_their_tile_definition() {
    let tilemap = bordered_3x3();
    let border = tilemap.get_tile(UVec2 { x: 0, y: 0 }).unwrap();
    assert!(border.tile().is_collision_enabled());
    let center = tilemap.get_tile(UVec2 { x: 1, y: 1 }).unwrap();
    assert!(!center.tile().is_collision_enabled());
    assert_eq!(*center.tile().color(), ObjectColor::Colored { color: Color::white() });
}

#[test]
fn set_tile_replaces_one_cell() {
    let mut tilemap = bordered_3x3();
    let red = Tile::new(2, ObjectColor::Colored { color: Color::red() }, true);
    tilemap.set_tile(UVec2 { x: 1, y: 1 }, &red);
    let center = tilemap.get_tile(UVec2 { x: 1, y: 1 }).unwrap();
    assert!(center.tile().is_collision_enabled());
    assert_eq!(*center.tile().color(), ObjectColor::Colored { color: Color::red() });
    // Neighbours keep their tile.
    assert!(tilemap.get_tile(UVec2 { x: 0, y: 1 }).unwrap().tile().is_collision_enabled());
}

#[test]
fn set_tile_past_the_last_row_changes_nothing() {
    let mut tilemap = bordered_3x3();
    let red = Tile::new(2, ObjectColor::Colored { color: Color::red() }, true);
    tilemap.set_tile(UVec2 { x: 0, y: 5 }, &red);
    for x in 0..3u32 {
        for y in 0..3u32 {
            let expected = x == 1 && y == 1;
            let cell = tilemap.get_tile(UVec2 { x, y }).unwrap();
            assert_eq!(!cell.tile().is_collision_enabled(), expected);
        }
    }
}

#[test]
fn uniform_map_from_size_and_empty_tile() {
    let empty = air();
    let tilemap = Tilemap::new(5, UVec2 { x: 4, y: 2 }, &empty);
    assert_eq!(tilemap.sizes(), UVec2 { x: 4, y: 2 });
    for x in 0..4u32 {
        for y in 0..2u32 {
            let cell = tilemap.get_tile(UVec2 { x, y }).unwrap();
            assert!(!cell.tile().is_collision_enabled());
        }
    }
    assert!(tilemap.get_tile(UVec2 { x: 0, y: 2 }).is_none());
}

#[test]
fn repository_registration_is_last_write_wins() {
    let mut repository: Repository<Tile> = Repository::new();
    assert!(repository.get_resource(&7).is_none());
    repository.register_resource(Tile::new(7, ObjectColor::Colored { color: Color::red() }, false));
    repository.register_resource(Tile::new(7, ObjectColor::Colored { color: Color::blue() }, true));
    let stored = repository.get_resource(&7).unwrap();
    assert!(stored.is_collision_enabled());
    assert_eq!(*stored.color(), ObjectColor::Colored { color: Color::blue() });
    assert!(repository.get_resource(&8).is_none());
}

#[test]
fn zero_id_means_no_resource() {
    assert!(!is_exists_resource(0));
    assert!(is_exists_resource(1));
    assert!(is_exists_resource(u32::MAX));
}

#[test]
fn linemap_bounds_grow_monotonically() {
    let mut linemap = Linemap::new(1);
    assert_eq!(*linemap.sizes(), Vec2 { x: 0, y: 0 });
    linemap.add_line(Color::red(), Vec2 { x: 2000, y: 1000 }, Vec2 { x: 4000, y: 3000 });
    assert_eq!(*linemap.sizes(), Vec2 { x: 4000, y: 3000 });
    // A shorter line never shrinks the recorded bounds.
    linemap.add_line(Color::red(), Vec2 { x: 500, y: 500 }, Vec2 { x: 700, y: 600 });
    assert_eq!(*linemap.sizes(), Vec2 { x: 4000, y: 3000 });
    linemap.add_line(Color::red(), Vec2 { x: 0, y: 9000 }, Vec2 { x: 100, y: 0 });
    assert_eq!(*linemap.sizes(), Vec2 { x: 4000, y: 9000 });
    assert_eq!(linemap.lines().len(), 3);
}

#[test]
fn add_rect_adds_four_border_lines() {
    let mut linemap = Linemap::new(2);
    linemap.add_rect(Color::green(), Rect::new(1, 2, 3, 4));
    assert_eq!(linemap.lines().len(), 4);
    // Clockwise from the top-left corner (1, 2) to (4, 6) in world units.
    let l = &linemap.lines()[0];
    assert_eq!(*l.from(), Vec2 { x: 1000, y: 2000 });
    assert_eq!(*l.to(), Vec2 { x: 4000, y: 2000 });
    let l = &linemap.lines()[2];
    assert_eq!(*l.from(), Vec2 { x: 4000, y: 6000 });
    assert_eq!(*l.to(), Vec2 { x: 1000, y: 6000 });
    assert_eq!(*linemap.sizes(), Vec2 { x: 4000, y: 6000 });
}

#[test]
fn resolver_backs_out_of_solid_cell() {
    // One step (0.05) inside the solid border cell at x = 2, heading 0: the
    // resolver must back off along -x into the free cell, within
    // penetration / 0.01 + 1 steps.
    let tilemap = bordered_3x3();
    let mut position = Vec2 { x: 2050, y: 1500 };
    let steps = resolve_collision(&tilemap, &mut position, Vec2 { x: 1000, y: 0 }, 1000);
    assert!(steps <= 50 / 10 + 1);
    assert_eq!(steps, 6);
    assert_eq!(position, Vec2 { x: 1990, y: 1500 });
    let cell = tilemap
        .get_tile(UVec2 { x: (position.x / 1000) as u32, y: (position.y / 1000) as u32 })
        .unwrap();
    assert!(!cell.tile().is_collision_enabled());
}

#[test]
fn resolver_leaves_free_position_alone() {
    let tilemap = bordered_3x3();
    let mut position = Vec2 { x: 1500, y: 1500 };
    let steps = resolve_collision(&tilemap, &mut position, Vec2 { x: 1000, y: 0 }, 1000);
    assert_eq!(steps, 0);
    assert_eq!(position, Vec2 { x: 1500, y: 1500 });
}

#[test]
fn resolver_stops_at_step_budget() {
    // Heading perpendicular to the only escape: x never changes, so the
    // budget caps the loop.
    let solid = wall();
    let tilemap = Tilemap::new(9, UVec2 { x: 1, y: 1 }, &solid);
    let mut position = Vec2 { x: 500, y: 500 };
    let steps = resolve_collision(&tilemap, &mut position, Vec2 { x: 0, y: 0 }, 25);
    assert_eq!(steps, 25);
    assert_eq!(position, Vec2 { x: 500, y: 500 });
}

#[test]
fn bootstrap_world_is_registered() {
    let mut repositories = Repositories::new();
    load_resources(&mut repositories);
    for id in 0..4u32 {
        assert!(repositories.tiles_repository().get_resource(&id).is_some());
    }
    assert!(!repositories.tiles_repository().get_resource(&0).unwrap().is_collision_enabled());
    assert!(repositories.tiles_repository().get_resource(&1).unwrap().is_collision_enabled());
    let tilemap = repositories.tilemap_repository().get_resource(&1).unwrap();
    assert_eq!(tilemap.sizes(), UVec2 { x: 10, y: 10 });
    // Border solid, inner ring free, inner structure solid.
    assert!(tilemap.get_tile(UVec2 { x: 0, y: 0 }).unwrap().tile().is_collision_enabled());
    assert!(!tilemap.get_tile(UVec2 { x: 1, y: 1 }).unwrap().tile().is_collision_enabled());
    assert!(tilemap.get_tile(UVec2 { x: 4, y: 3 }).unwrap().tile().is_collision_enabled());
    let linemap = repositories.linemap_repository().get_resource(&1).unwrap();
    assert_eq!(linemap.lines().len(), 23);
    assert_eq!(*linemap.sizes(), Vec2 { x: 10000, y: 10000 });
}

#[test]
fn game_state_toggles_running_flag() {
    let mut state = GameState::new();
    assert!(state.is_game_running());
    state.set_is_game_running(false);
    assert!(!state.is_game_running());
    assert!(state.repositories().tiles_repository().get_resource(&0).is_none());
    load_resources(state.repositories_mut());
    assert!(state.repositories().tiles_repository().get_resource(&0).is_some());
}

#[test]
fn camera_pose_updates_in_place() {
    let mut camera = Camera::new(Vec2 { x: 3000, y: 3000 }, 0, 1571);
    assert_eq!(camera.position(), Vec2 { x: 3000, y: 3000 });
    assert_eq!(camera.direction(), 0);
    assert_eq!(camera.fov(), 1571);
    camera.set_position(Vec2 { x: 4000, y: 2500 });
    camera.set_direction(-250);
    camera.set_fov(1600);
    assert_eq!(camera.position(), Vec2 { x: 4000, y: 2500 });
    assert_eq!(camera.direction(), -250);
    assert_eq!(camera.fov(), 1600);
}

#[test]
fn rendering_state_defaults_match_the_frame_driver() {
    let mut state = RenderingState::new();
    assert_eq!(state.rendering_distance(), 10_000);
    assert_eq!(state.total_columns(), 120);
    assert_eq!(state.camera().position(), Vec2 { x: 3000, y: 3000 });
    state.camera_mut().set_direction(500);
    assert_eq!(state.camera().direction(), 500);
}

#[test]
fn components_carry_their_payload() {
    let position = PositionComponent::new(Vec2 { x: 1000, y: 2000 });
    assert_eq!(position.position, Vec2 { x: 1000, y: 2000 });
    let direction = DirectionComponent::new(750);
    assert_eq!(direction.direction, 750);
    let tilemap_component = TilemapComponent::new(1);
    assert_eq!(*tilemap_component.tilemap(), 1);
    let linemap_component = LinemapComponent::new(2);
    assert_eq!(linemap_component.linemap(), 2);
    let camera_component = CameraComponent::new(Camera::new(Vec2 { x: 0, y: 0 }, 0, 1571));
    assert_eq!(camera_component.camera().fov(), 1571);
}

#[test]
fn object_color_resolves_to_flat_color() {
    let colored = ObjectColor::Colored { color: Color::cyan() };
    assert_eq!(colored.resolve(), Color::rgb(0, 255, 255));
    assert_eq!(ObjectColor::Textured.resolve(), Color::rgb(0, 0, 0));
}
