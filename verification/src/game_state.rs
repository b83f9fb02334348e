//! Global game state: the running flag and the registries that own every
//! world asset, and the bootstrap step that fills them with the built-in
//! world.

use crate::math::Vec2;
use crate::model::linemap::{Linemap, Rect};
use crate::model::object_color::{Color, ObjectColor};
use crate::model::repository::Repository;
use crate::model::tile::Tile;
use crate::model::tilemap::Tilemap;
use vstd::prelude::*;

verus! {

/// The registries that own all world assets, built once at startup and read
/// by every consumer.
pub struct Repositories {
    tiles_repository: Repository<Tile>,
    tilemap_repository: Repository<Tilemap>,
    linemap_repository: Repository<Linemap>,
}

impl Repositories {
    pub fn new() -> (r: Repositories)
        ensures
            r.spec_tiles()@ == Map::<u32, Tile>::empty(),
            r.spec_tilemaps()@ == Map::<u32, Tilemap>::empty(),
            r.spec_linemaps()@ == Map::<u32, Linemap>::empty(),
    {
        Repositories {
            tiles_repository: Repository::new(),
            tilemap_repository: Repository::new(),
            linemap_repository: Repository::new(),
        }
    }

    pub closed spec fn spec_tiles(&self) -> Repository<Tile> {
        self.tiles_repository
    }

    pub closed spec fn spec_tilemaps(&self) -> Repository<Tilemap> {
        self.tilemap_repository
    }

    pub closed spec fn spec_linemaps(&self) -> Repository<Linemap> {
        self.linemap_repository
    }

    pub fn tiles_repository(&self) -> (r: &Repository<Tile>)
        ensures
            *r == self.spec_tiles(),
    {
        &self.tiles_repository
    }

    pub fn tilemap_repository(&self) -> (r: &Repository<Tilemap>)
        ensures
            *r == self.spec_tilemaps(),
    {
        &self.tilemap_repository
    }

    pub fn linemap_repository(&self) -> (r: &Repository<Linemap>)
        ensures
            *r == self.spec_linemaps(),
    {
        &self.linemap_repository
    }

    pub fn tiles_repository_mut(&mut self) -> (r: &mut Repository<Tile>)
        ensures
            *r == old(self).spec_tiles(),
            final(self).spec_tiles() == *final(r),
            final(self).spec_tilemaps() == old(self).spec_tilemaps(),
            final(self).spec_linemaps() == old(self).spec_linemaps(),
    {
        &mut self.tiles_repository
    }

    pub fn tilemap_repository_mut(&mut self) -> (r: &mut Repository<Tilemap>)
        ensures
            *r == old(self).spec_tilemaps(),
            final(self).spec_tilemaps() == *final(r),
            final(self).spec_tiles() == old(self).spec_tiles(),
            final(self).spec_linemaps() == old(self).spec_linemaps(),
    {
        &mut self.tilemap_repository
    }

    pub fn linemap_repository_mut(&mut self) -> (r: &mut Repository<Linemap>)
        ensures
            *r == old(self).spec_linemaps(),
            final(self).spec_linemaps() == *final(r),
            final(self).spec_tiles() == old(self).spec_tiles(),
            final(self).spec_tilemaps() == old(self).spec_tilemaps(),
    {
        &mut self.linemap_repository
    }
}

/// Fills the registries with the built-in world: four tile definitions, a
/// walled 10 by 10 tile grid under id 1, and a line world under id 1 holding
/// two rectangles and three line figures.
pub fn load_resources(repositories: &mut Repositories)
    ensures
        final(repositories).spec_tiles()@.contains_key(0),
        final(repositories).spec_tiles()@.contains_key(1),
        final(repositories).spec_tiles()@.contains_key(2),
        final(repositories).spec_tiles()@.contains_key(3),
        !final(repositories).spec_tiles()@[0].spec_collision_enabled(),
        final(repositories).spec_tiles()@[1].spec_collision_enabled(),
        final(repositories).spec_tiles()@[2].spec_collision_enabled(),
        final(repositories).spec_tiles()@[3].spec_collision_enabled(),
        final(repositories).spec_tilemaps()@.contains_key(1),
        final(repositories).spec_tilemaps()@[1].wf(),
        final(repositories).spec_tilemaps()@[1].spec_width() == 10,
        final(repositories).spec_tilemaps()@[1].spec_height() == 10,
        final(repositories).spec_linemaps()@.contains_key(1),
        final(repositories).spec_linemaps()@[1].wf(),
        final(repositories).spec_linemaps()@[1].spec_lines().len() == 23,
{
    let air = Tile::new(0, ObjectColor::Colored { color: Color::white() }, false);
    let green = Tile::new(1, ObjectColor::Colored { color: Color::green() }, true);
    let red = Tile::new(2, ObjectColor::Colored { color: Color::red() }, true);
    let yellow = Tile::new(3, ObjectColor::Colored { color: Color::yellow() }, true);

    let tiles_repository = repositories.tiles_repository_mut();
    tiles_repository.register_resource(air);
    tiles_repository.register_resource(green);
    tiles_repository.register_resource(red);
    tiles_repository.register_resource(yellow);

    let mut raw_tilemap: Vec<Vec<Tile>> = Vec::new();
    raw_tilemap.push(
        vec![green, green, green, green, green, green, green, green, green, green],
    );
    raw_tilemap.push(vec![green, air, air, air, air, air, air, air, air, green]);
    raw_tilemap.push(vec![green, air, air, air, air, air, air, air, air, green]);
    raw_tilemap.push(vec![green, air, air, air, red, yellow, red, air, air, green]);
    raw_tilemap.push(vec![green, air, air, air, yellow, air, red, air, air, green]);
    raw_tilemap.push(vec![green, air, air, air, red, yellow, red, air, air, green]);
    raw_tilemap.push(vec![green, air, air, air, air, air, air, air, air, green]);
    raw_tilemap.push(vec![green, air, air, air, air, air, air, air, air, green]);
    raw_tilemap.push(vec![green, air, air, air, air, air, air, air, air, green]);
    raw_tilemap.push(
        vec![green, green, green, green, green, green, green, green, green, green],
    );
    let tilemap = Tilemap::from_raw_tilemap(1, &raw_tilemap);
    repositories.tilemap_repository_mut().register_resource(tilemap);

    let mut linemap = Linemap::new(1);
    linemap.add_rect(Color::red(), Rect::new(0, 0, 10, 10));
    linemap.add_rect(Color::green(), Rect::new(1, 1, 1, 8));

    linemap.add_line(Color::blue(), Vec2::new(2900, 8200), Vec2::new(4100, 8200));
    linemap.add_line(Color::blue(), Vec2::new(4100, 8200), Vec2::new(4600, 7300));
    linemap.add_line(Color::blue(), Vec2::new(4600, 7300), Vec2::new(4100, 6500));
    linemap.add_line(Color::blue(), Vec2::new(4100, 6500), Vec2::new(2900, 6500));
    linemap.add_line(Color::blue(), Vec2::new(2900, 6500), Vec2::new(3400, 7300));
    linemap.add_line(Color::blue(), Vec2::new(3400, 7300), Vec2::new(2900, 8200));

    linemap.add_line(Color::magenta(), Vec2::new(6000, 9500), Vec2::new(9500, 9500));
    linemap.add_line(Color::cyan(), Vec2::new(9500, 9500), Vec2::new(7500, 6500));
    linemap.add_line(Color::yellow(), Vec2::new(7500, 6500), Vec2::new(6000, 9500));

    linemap.add_line(Color::red(), Vec2::new(4800, 5200), Vec2::new(5100, 3600));
    linemap.add_line(Color::red(), Vec2::new(5100, 3600), Vec2::new(4400, 1900));
    linemap.add_line(Color::red(), Vec2::new(4400, 1900), Vec2::new(5800, 3100));
    linemap.add_line(Color::red(), Vec2::new(5800, 3100), Vec2::new(7500, 3300));
    linemap.add_line(Color::red(), Vec2::new(7500, 3300), Vec2::new(5900, 3900));
    linemap.add_line(Color::red(), Vec2::new(5900, 3900), Vec2::new(4800, 5200));

    repositories.linemap_repository_mut().register_resource(linemap);
}

/// Whether the game keeps running, plus the asset registries.
pub struct GameState {
    is_game_running: bool,
    repositories: Repositories,
}

impl GameState {
    pub fn new() -> (s: GameState)
        ensures
            s.spec_is_game_running(),
            s.spec_repositories().spec_tiles()@ == Map::<u32, Tile>::empty(),
            s.spec_repositories().spec_tilemaps()@ == Map::<u32, Tilemap>::empty(),
            s.spec_repositories().spec_linemaps()@ == Map::<u32, Linemap>::empty(),
    {
        GameState { is_game_running: true, repositories: Repositories::new() }
    }

    pub closed spec fn spec_is_game_running(&self) -> bool {
        self.is_game_running
    }

    pub closed spec fn spec_repositories(&self) -> Repositories {
        self.repositories
    }

    pub fn is_game_running(&self) -> (r: bool)
        ensures
            r == self.spec_is_game_running(),
    {
        self.is_game_running
    }

    pub fn set_is_game_running(&mut self, is_game_running: bool)
        ensures
            final(self).spec_is_game_running() == is_game_running,
            final(self).spec_repositories() == old(self).spec_repositories(),
    {
        self.is_game_running = is_game_running;
    }

    pub fn repositories(&self) -> (r: &Repositories)
        ensures
            *r == self.spec_repositories(),
    {
        &self.repositories
    }

    pub fn repositories_mut(&mut self) -> (r: &mut Repositories)
        ensures
            *r == old(self).spec_repositories(),
            final(self).spec_repositories() == *final(r),
            final(self).spec_is_game_running() == old(self).spec_is_game_running(),
    {
        &mut self.repositories
    }
}

} // verus!
