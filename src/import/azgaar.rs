//! Azgaar Fantasy Map Generator import: the conversion of a parsed Azgaar
//! JSON export into a world map.
//!
//! Fractional quantities arrive as fixed-point thousandths (1000 stands for
//! 1.0), as everywhere in this library.
use vstd::prelude::*;
use vstd::string::StringSliceAdditionalSpecFns;

use crate::export::str_equal;
use crate::data::{BiomeType, Cell, Grid, MapMetadata, MapPoint, MapSettings, WorldMap};
use crate::WorldFoundryError;

verus! {

/// Importer for Azgaar Fantasy Map Generator files
pub struct AzgaarImporter;

/// The `info` section of an Azgaar JSON export.
pub struct AzgaarInfo {
    pub version: String,
    pub map_name: Option<String>,
    pub width: u32,
    pub height: u32,
    pub seed: u64,
    pub map_id: Option<String>,
}

/// The `settings` section of an Azgaar JSON export.
pub struct AzgaarSettings {
    pub distance_unit: Option<String>,
    pub distance_scale: Option<i32>,
    pub area_unit: Option<String>,
    pub height_unit: Option<String>,
    pub height_exponent: Option<i32>,
    pub temperature_scale: Option<String>,
    pub population_rate: Option<i32>,
    pub urbanization: Option<i32>,
    pub latitude: Option<i32>,
    pub longitude: Option<i32>,
}

/// Azgaar's packed cells: one parallel array per attribute.
pub struct AzgaarPackCells {
    /// cell ids
    pub i: Vec<u32>,
    /// coordinates, as x, y pairs
    pub p: Vec<i32>,
    /// heights
    pub h: Vec<i32>,
    /// temperatures
    pub temp: Vec<i32>,
    /// precipitation
    pub prec: Vec<i32>,
    /// population
    pub pop: Vec<u32>,
    pub culture: Vec<Option<u32>>,
    pub state: Vec<Option<u32>>,
    pub province: Vec<Option<u32>>,
    pub religion: Vec<Option<u32>>,
}

/// The `pack` section of an Azgaar JSON export, as far as it is converted.
pub struct AzgaarPack {
    pub cells: Option<AzgaarPackCells>,
}

/// A parsed Azgaar JSON export.
pub struct AzgaarJsonData {
    pub info: AzgaarInfo,
    pub settings: AzgaarSettings,
    pub pack: Option<AzgaarPack>,
}

/// Element `i` of `s`, or `d` where `s` has none.
pub open spec fn get_or<T>(s: Seq<T>, i: int, d: T) -> T {
    if 0 <= i < s.len() {
        s[i]
    } else {
        d
    }
}

/// The cell that position `i` of packed cells describes; a missing attribute
/// is zero, or absent.
pub open spec fn pack_cell(pc: AzgaarPackCells, i: int) -> Cell {
    Cell {
        id: pc.i@[i],
        coordinates: MapPoint { x: get_or(pc.p@, 2 * i, 0), y: get_or(pc.p@, 2 * i + 1, 0) },
        height: get_or(pc.h@, i, 0),
        biome: BiomeType::Temperate,
        temperature: get_or(pc.temp@, i, 0),
        precipitation: get_or(pc.prec@, i, 0),
        population: get_or(pc.pop@, i, 0),
        culture: get_or(pc.culture@, i, None),
        state: get_or(pc.state@, i, None),
        province: get_or(pc.province@, i, None),
        religion: get_or(pc.religion@, i, None),
    }
}

/// A string or, where there is none, a default.
pub open spec fn text_or(o: Option<String>, d: &str) -> Seq<char> {
    match o {
        Some(s) => s@,
        None => d@,
    }
}

/// A value or, where there is none, a default.
pub open spec fn value_or(o: Option<i32>, d: i32) -> i32 {
    match o {
        Some(v) => v,
        None => d,
    }
}

/// Whether `m` is the world map that `azgaar_data` converts to under
/// identifier `id` and the timestamps `created_at` and `modified_at`.
pub open spec fn converts_to(
    azgaar_data: AzgaarJsonData,
    id: u128,
    created_at: i64,
    modified_at: i64,
    m: WorldMap,
) -> bool {
    let info = azgaar_data.info;
    let settings = azgaar_data.settings;
    &&& m.metadata.id == id
    &&& m.metadata.name@ == text_or(info.map_name, "Imported Map")
    &&& m.metadata.version == info.version
    &&& m.metadata.created_at == created_at
    &&& m.metadata.modified_at == modified_at
    &&& m.metadata.width == info.width
    &&& m.metadata.height == info.height
    &&& m.metadata.seed == info.seed
    &&& m.metadata.settings.distance_unit@ == text_or(settings.distance_unit, "km")
    &&& m.metadata.settings.distance_scale == value_or(settings.distance_scale, 1000)
    &&& m.metadata.settings.area_unit@ == text_or(settings.area_unit, "km²")
    &&& m.metadata.settings.height_unit@ == text_or(settings.height_unit, "m")
    &&& m.metadata.settings.height_exponent == value_or(settings.height_exponent, 1800)
    &&& m.metadata.settings.temperature_scale@ == text_or(settings.temperature_scale, "°C")
    &&& m.metadata.settings.population_rate == value_or(settings.population_rate, 1000)
    &&& m.metadata.settings.urbanization == value_or(settings.urbanization, 1000)
    &&& m.metadata.settings.latitude == value_or(settings.latitude, 50_000)
    &&& m.metadata.settings.longitude == value_or(settings.longitude, 0)
    &&& m.heightmap.width == info.width
    &&& m.heightmap.height == info.height
    &&& m.heightmap.data@ == Seq::new((info.width * info.height) as nat, |i: int| 0i32)
    &&& m.cells@ == match azgaar_data.pack {
        Some(AzgaarPack { cells: Some(pc) }) => Seq::new(
            pc.i@.len(),
            |i: int| pack_cell(pc, i),
        ),
        _ => Seq::empty(),
    }
    &&& m.features@.len() == 0 && m.cultures@.len() == 0 && m.states@.len() == 0
    &&& m.burgs@.len() == 0 && m.rivers@.len() == 0 && m.routes@.len() == 0
    &&& m.markers@.len() == 0 && m.zones@.len() == 0
}

/// Relies on `uuid::Uuid::new_v4` and `Uuid::as_u128`: a random identifier,
/// of which nothing is promised.
#[verifier::external_body]
fn random_map_id() -> u128 {
    uuid::Uuid::new_v4().as_u128()
}

/// Relies on `chrono::Utc::now` and `DateTime::timestamp_millis`: the current
/// time in milliseconds since the Unix epoch, of which nothing is promised.
#[verifier::external_body]
fn now_millis() -> i64 {
    chrono::Utc::now().timestamp_millis()
}

fn text_or_default(o: Option<String>, d: &str) -> (r: String)
    ensures
        r@ == text_or(o, d),
{
    match o {
        Some(s) => s,
        None => d.to_owned(),
    }
}

fn value_or_default(o: Option<i32>, d: i32) -> (r: i32)
    ensures
        r == value_or(o, d),
{
    match o {
        Some(v) => v,
        None => d,
    }
}

fn element_or<T: Copy>(v: &Vec<T>, i: u128, d: T) -> (r: T)
    ensures
        r == get_or(v@, i as int, d),
{
    if i < v.len() as u128 {
        v[i as usize]
    } else {
        d
    }
}

/// Whether `needle` occurs in `hay`, as a run of bytes.
pub open spec fn bytes_contain(hay: Seq<u8>, needle: Seq<u8>) -> bool {
    exists|i: int| 0 <= i && i + needle.len() <= hay.len() && #[trigger] hay.subrange(i, i + needle.len()) == needle
}

/// Whether `needle` occurs in `hay` at byte `at`.
fn occurs_at(hay: &[u8], needle: &[u8], at: usize) -> (r: bool)
    requires
        at + needle@.len() <= hay@.len(),
    ensures
        r == (hay@.subrange(at as int, at + needle@.len()) == needle@),
{
    let hay_len = hay.len();
    let mut j: usize = 0;
    while j < needle.len()
        invariant
            hay_len == hay@.len(),
            at + needle@.len() <= hay@.len(),
            j <= needle@.len(),
            hay@.subrange(at as int, at + j) == needle@.subrange(0, j as int),
        decreases needle@.len() - j,
    {
        if hay[at + j] != needle[j] {
            assert(hay@.subrange(at as int, at + needle@.len())[j as int] != needle@[j as int]);
            return false;
        }
        j = j + 1;
        assert(hay@.subrange(at as int, at + j) =~= hay@.subrange(at as int, at + j - 1).push(hay@[at + j - 1]));
        assert(needle@.subrange(0, j as int) =~= needle@.subrange(0, j - 1).push(needle@[j - 1]));
    }
    assert(needle@.subrange(0, j as int) =~= needle@);
    true
}

/// Whether `needle` occurs in `hay`.
pub(crate) fn str_contains(hay: &str, needle: &str) -> (r: bool)
    ensures
        r == bytes_contain(hay.spec_bytes(), needle.spec_bytes()),
{
    let h = hay.as_bytes();
    let n = needle.as_bytes();
    if n.len() > h.len() {
        return false;
    }
    let last = h.len() - n.len();
    let mut i: usize = 0;
    loop
        invariant
            h@ == hay.spec_bytes(),
            n@ == needle.spec_bytes(),
            last == h@.len() - n@.len(),
            i <= last,
            forall|k: int| 0 <= k < i ==> #[trigger] h@.subrange(k, k + n@.len()) != n@,
        decreases last - i,
    {
        if occurs_at(h, n, i) {
            return true;
        }
        if i == last {
            return false;
        }
        i = i + 1;
    }
}

/// Whether the importer takes a file with this extension and, for JSON, this
/// content: `.map` files always; `.json` files that name Azgaar or the
/// Fantasy-Map-Generator.
pub open spec fn accepts(extension: Option<&str>, content: Option<&str>) -> bool {
    match extension {
        Some(e) => if e@ == "map"@ {
            true
        } else if e@ == "json"@ {
            match content {
                Some(c) => bytes_contain(c.spec_bytes(), "Azgaar".spec_bytes()) || bytes_contain(
                    c.spec_bytes(),
                    "Fantasy-Map-Generator".spec_bytes(),
                ),
                None => false,
            }
        } else {
            false
        },
        None => false,
    }
}

impl AzgaarImporter {
    pub fn new() -> (r: AzgaarImporter) {
        AzgaarImporter
    }

    /// Whether this importer takes a file with the given extension whose
    /// content, where it could be read as text, is `content`.
    pub fn can_import(&self, extension: Option<&str>, content: Option<&str>) -> (r: bool)
        ensures
            r == accepts(extension, content),
    {
        match extension {
            Some(ext) => {
                if str_equal(ext, "map") {
                    true  // Azgaar .map files
                } else if str_equal(ext, "json") {
                    // Check if it's an Azgaar JSON export
                    match content {
                        Some(text) => str_contains(text, "Azgaar") || str_contains(
                            text,
                            "Fantasy-Map-Generator",
                        ),
                        None => false,
                    }
                } else {
                    false
                }
            },
            None => false,
        }
    }

    /// Converts a parsed export into a world map, under a fresh random
    /// identifier and stamped with the current time.
    pub fn import_data(&self, azgaar_data: AzgaarJsonData) -> (r: Result<WorldMap, WorldFoundryError>)
        ensures
            r is Ok <==> azgaar_data.info.width * azgaar_data.info.height <= u32::MAX,
            r matches Ok(m) ==> converts_to(
                azgaar_data,
                m.metadata.id,
                m.metadata.created_at,
                m.metadata.modified_at,
                m,
            ),
    {
        let id = random_map_id();
        let created_at = now_millis();
        let modified_at = now_millis();
        self.convert_azgaar_to_world_map(azgaar_data, id, created_at, modified_at)
    }

    /// Converts a parsed export into a world map with the given identifier and
    /// timestamps. A map whose cell count `width * height` exceeds `u32::MAX`
    /// is refused.
    pub fn convert_azgaar_to_world_map(
        &self,
        azgaar_data: AzgaarJsonData,
        id: u128,
        created_at: i64,
        modified_at: i64,
    ) -> (r: Result<WorldMap, WorldFoundryError>)
        ensures
            r is Ok <==> azgaar_data.info.width * azgaar_data.info.height <= u32::MAX,
            r matches Ok(m) ==> converts_to(azgaar_data, id, created_at, modified_at, m),
    {
        let info = azgaar_data.info;
        let settings = azgaar_data.settings;
        assert(info.width as u64 * info.height as u64 <= 0xFFFF_FFFF * 0xFFFF_FFFF) by (nonlinear_arith)
            requires
                info.width <= 0xFFFF_FFFF,
                info.height <= 0xFFFF_FFFF,
        ;
        if info.width as u64 * info.height as u64 > u32::MAX as u64 {
            return Err(WorldFoundryError::Import("Map dimensions exceed the cell limit".to_owned()));
        }
        // Convert Azgaar data to World Foundry format
        let metadata = MapMetadata {
            id,
            name: text_or_default(info.map_name, "Imported Map"),
            version: info.version,
            created_at,
            modified_at,
            width: info.width,
            height: info.height,
            seed: info.seed,
            settings: MapSettings {
                distance_unit: text_or_default(settings.distance_unit, "km"),
                distance_scale: value_or_default(settings.distance_scale, 1000),
                area_unit: text_or_default(settings.area_unit, "km²"),
                height_unit: text_or_default(settings.height_unit, "m"),
                height_exponent: value_or_default(settings.height_exponent, 1800),
                temperature_scale: text_or_default(settings.temperature_scale, "°C"),
                population_rate: value_or_default(settings.population_rate, 1000),
                urbanization: value_or_default(settings.urbanization, 1000),
                latitude: value_or_default(settings.latitude, 50_000),
                longitude: value_or_default(settings.longitude, 0),
            },
        };
        // Empty heightmap for now
        let heightmap = Grid::new(info.width, info.height, 0i32);
        proof {
            assert(heightmap.data@ =~= Seq::new((info.width * info.height) as nat, |i: int| 0i32));
        }
        // Convert cells if available
        let cells = match azgaar_data.pack {
            Some(pack) => match pack.cells {
                Some(pack_cells) => self.convert_pack_cells(&pack_cells),
                None => Vec::new(),
            },
            None => Vec::new(),
        };
        proof {
            assert(cells@ =~= match azgaar_data.pack {
                Some(AzgaarPack { cells: Some(pc) }) => Seq::new(pc.i@.len(), |i: int| pack_cell(pc, i)),
                _ => Seq::empty(),
            });
        }
        Ok(
            WorldMap {
                metadata,
                heightmap,
                cells,
                features: Vec::new(),
                cultures: Vec::new(),
                states: Vec::new(),
                burgs: Vec::new(),
                rivers: Vec::new(),
                routes: Vec::new(),
                markers: Vec::new(),
                zones: Vec::new(),
            },
        )
    }

    /// Azgaar stores cell data in parallel arrays; one cell per id.
    pub fn convert_pack_cells(&self, pack_cells: &AzgaarPackCells) -> (r: Vec<Cell>)
        ensures
            r@ == Seq::new(pack_cells.i@.len(), |i: int| pack_cell(*pack_cells, i)),
    {
        let mut cells: Vec<Cell> = Vec::new();
        let mut i: usize = 0;
        while i < pack_cells.i.len()
            invariant
                i <= pack_cells.i@.len(),
                cells@ == Seq::new(i as nat, |k: int| pack_cell(*pack_cells, k)),
            decreases pack_cells.i@.len() - i,
        {
            let k = i as u128;
            let cell = Cell {
                id: pack_cells.i[i],
                coordinates: MapPoint {
                    x: element_or(&pack_cells.p, 2 * k, 0),
                    y: element_or(&pack_cells.p, 2 * k + 1, 0),
                },
                height: element_or(&pack_cells.h, k, 0),
                biome: BiomeType::Temperate,
                temperature: element_or(&pack_cells.temp, k, 0),
                precipitation: element_or(&pack_cells.prec, k, 0),
                population: element_or(&pack_cells.pop, k, 0),
                culture: element_or(&pack_cells.culture, k, None),
                state: element_or(&pack_cells.state, k, None),
                province: element_or(&pack_cells.province, k, None),
                religion: element_or(&pack_cells.religion, k, None),
            };
            cells.push(cell);
            i = i + 1;
            proof {
                assert(cells@ =~= Seq::new(i as nat, |k: int| pack_cell(*pack_cells, k)));
            }
        }
        cells
    }
}

} // verus!
