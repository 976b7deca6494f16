//! Core data structures for World Foundry.
//!
//! Quantities that are fractional in nature (heights, temperatures,
//! precipitation, coordinates, rates) are held as fixed-point thousandths:
//! 1000 stands for 1.0. Identifiers are 128-bit integers and instants are
//! milliseconds since the Unix epoch.
use vstd::prelude::*;

verus! {

/// Main world map data structure
#[derive(Debug, Clone)]
pub struct WorldMap {
    pub metadata: MapMetadata,
    pub heightmap: Grid<i32>,
    pub cells: Vec<Cell>,
    pub features: Vec<Feature>,
    pub cultures: Vec<Culture>,
    pub states: Vec<State>,
    pub burgs: Vec<Settlement>,
    pub rivers: Vec<River>,
    pub routes: Vec<Route>,
    pub markers: Vec<Marker>,
    pub zones: Vec<Zone>,
}

/// Map metadata and settings
#[derive(Debug, Clone)]
pub struct MapMetadata {
    pub id: u128,
    pub name: String,
    pub version: String,
    pub created_at: i64,
    pub modified_at: i64,
    pub width: u32,
    pub height: u32,
    pub seed: u64,
    pub settings: MapSettings,
}

/// Map generation and display settings
#[derive(Debug, Clone)]
pub struct MapSettings {
    pub distance_unit: String,
    pub distance_scale: i32,
    pub area_unit: String,
    pub height_unit: String,
    pub height_exponent: i32,
    pub temperature_scale: String,
    pub population_rate: i32,
    pub urbanization: i32,
    pub latitude: i32,
    pub longitude: i32,
}

/// Regular grid for heightmaps and other raster data, stored row-major.
#[derive(Debug, Clone)]
pub struct Grid<T> {
    pub width: u32,
    pub height: u32,
    pub data: Vec<T>,
}

/// A row-major position computed from 32-bit coordinates fits in 64 bits.
proof fn lemma_row_major_fits(x: u32, y: u32, width: u32)
    ensures
        y as int * width as int + x as int <= u64::MAX,
{
    assert(y as int * width as int <= 0xFFFF_FFFF * 0xFFFF_FFFF) by (nonlinear_arith)
        requires
            0 <= y <= 0xFFFF_FFFF,
            0 <= width <= 0xFFFF_FFFF,
    ;
}

impl<T> Grid<T> {
    /// Row-major position of `(x, y)`.
    pub open spec fn index_of(&self, x: int, y: int) -> int {
        y * self.width + x
    }

    /// Whether `(x, y)` lies inside the grid and its position inside `data`.
    pub open spec fn holds(&self, x: int, y: int) -> bool {
        &&& 0 <= x < self.width
        &&& 0 <= y < self.height
        &&& self.index_of(x, y) < self.data@.len()
    }

    pub fn new(width: u32, height: u32, default_value: T) -> (g: Grid<T>) where T: Clone
        requires
            width as int * height as int <= usize::MAX,
        ensures
            g.width == width,
            g.height == height,
            g.data@.len() == width as int * height as int,
            forall|i: int| 0 <= i < g.data@.len() ==> cloned(default_value, #[trigger] g.data@[i]),
    {
        let n: usize = width as usize * height as usize;
        Grid { width, height, data: vec![default_value; n] }
    }

    pub fn get(&self, x: u32, y: u32) -> (r: Option<&T>)
        ensures
            r.is_some() == self.holds(x as int, y as int),
            r.is_some() ==> *r.unwrap() == self.data@[self.index_of(x as int, y as int)],
    {
        if x < self.width && y < self.height {
            proof {
                lemma_row_major_fits(x, y, self.width);
            }
            let idx: u64 = y as u64 * self.width as u64 + x as u64;
            if idx < self.data.len() as u64 {
                return Some(&self.data[idx as usize]);
            }
        }
        None
    }

    pub fn set(&mut self, x: u32, y: u32, value: T) -> (r: bool)
        ensures
            r == old(self).holds(x as int, y as int),
            final(self).width == old(self).width,
            final(self).height == old(self).height,
            final(self).data@ == if r {
                old(self).data@.update(old(self).index_of(x as int, y as int), value)
            } else {
                old(self).data@
            },
    {
        if x < self.width && y < self.height {
            proof {
                lemma_row_major_fits(x, y, self.width);
            }
            let idx: u64 = y as u64 * self.width as u64 + x as u64;
            if idx < self.data.len() as u64 {
                self.data.set(idx as usize, value);
                return true;
            }
        }
        false
    }
}

/// A position on the map, in fixed-point thousandths of a map unit.
#[derive(Debug, Clone, Copy, PartialEq, Eq, Structural)]
pub struct MapPoint {
    pub x: i32,
    pub y: i32,
}

/// Individual map cell (Voronoi cell or grid cell)
#[derive(Debug, Clone)]
pub struct Cell {
    pub id: u32,
    pub coordinates: MapPoint,
    pub height: i32,
    pub biome: BiomeType,
    pub temperature: i32,
    pub precipitation: i32,
    pub population: u32,
    pub culture: Option<u32>,
    pub state: Option<u32>,
    pub province: Option<u32>,
    pub religion: Option<u32>,
}

/// Biome types
#[derive(Debug, Clone, Copy, PartialEq, Eq, Structural)]
pub enum BiomeType {
    Marine,
    Hot,
    Cold,
    Temperate,
    Dry,
    Frozen,
    Freshwater,
}

/// Geographic features (mountains, forests, etc.)
#[derive(Debug, Clone)]
pub struct Feature {
    pub id: u32,
    pub name: String,
    pub feature_type: FeatureType,
    pub cells: Vec<u32>,
    pub group: Option<u32>,
}

#[derive(Debug, Clone, Copy, PartialEq, Eq, Structural)]
pub enum FeatureType {
    Mountain,
    Hill,
    Forest,
    Desert,
    Swamp,
    Lake,
    Island,
}

/// Cultural groups
#[derive(Debug, Clone)]
pub struct Culture {
    pub id: u32,
    pub name: String,
    pub color: String,
    pub base: u32,
    pub origins: Vec<u32>,
    pub shield: String,
    pub center: MapPoint,
    pub area: i32,
    pub rural: i32,
    pub urban: i32,
    pub expansionism: i32,
}

/// Political states
#[derive(Debug, Clone)]
pub struct State {
    pub id: u32,
    pub name: String,
    pub full_name: String,
    pub color: String,
    pub capital: u32,
    pub center: MapPoint,
    pub area: i32,
    pub population: u32,
    pub rural: i32,
    pub urban: i32,
    pub burgs: u32,
    pub culture: u32,
    pub type_: String,
    pub expansionism: i32,
    pub cells: Vec<u32>,
}

/// Settlements (cities, towns, villages)
#[derive(Debug, Clone)]
pub struct Settlement {
    pub id: u32,
    pub name: String,
    pub cell: u32,
    pub x: i32,
    pub y: i32,
    pub state: u32,
    pub i: u32,
    pub culture: u32,
    pub feature: u32,
    pub capital: u32,
    pub port: u32,
    pub population: i32,
    pub type_: String,
}

/// Rivers
#[derive(Debug, Clone)]
pub struct River {
    pub id: u32,
    pub source: u32,
    pub mouth: u32,
    pub discharge: i32,
    pub length: i32,
    pub width: i32,
    pub cells: Vec<u32>,
    pub basin: u32,
    pub name: String,
    pub type_: String,
}

/// Trade routes and roads
#[derive(Debug, Clone)]
pub struct Route {
    pub id: u32,
    pub group: u32,
    pub cells: Vec<u32>,
    pub feature: u32,
    pub length: i32,
}

/// Map markers and labels
#[derive(Debug, Clone)]
pub struct Marker {
    pub id: u32,
    pub icon: String,
    pub type_: String,
    pub dx: i32,
    pub dy: i32,
    pub x: i32,
    pub y: i32,
    pub cell: u32,
    pub i: u32,
    pub size: i32,
    pub fill: String,
    pub stroke: String,
    pub note: String,
}

/// Zones (climate, political, etc.)
#[derive(Debug, Clone)]
pub struct Zone {
    pub id: u32,
    pub name: String,
    pub cells: Vec<u32>,
    pub color: String,
}

} // verus!
