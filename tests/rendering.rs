use std::sync::Arc;

use world_foundry_core::data::{
    BiomeType, Cell, Grid, MapMetadata, MapPoint, MapSettings, WorldMap,
};
use world_foundry_core::rendering::color::ColorPalette;
use world_foundry_core::rendering::tile::{
    RenderError, RgbaColor, TileCoord, TileRenderer, TILE_BYTES, TILE_SIZE,
};

fn cell(height: i32, temperature: i32, precipitation: i32) -> Cell {
    Cell {
        id: 0,
        coordinates: MapPoint { x: 0, y: 0 },
        height,
        biome: BiomeType::Temperate,
        temperature,
        precipitation,
        population: 0,
        culture: None,
        state: None,
        province: None,
        religion: None,
    }
}

fn world(width: u32, height: u32, cells: Vec<Cell>) -> Arc<WorldMap> {
    Arc::new(WorldMap {
        metadata: MapMetadata {
            id: 1,
            name: "Test".to_string(),
            version: "1".to_string(),
            created_at: 0,
            modified_at: 0,
            width,
            height,
            seed: 42,
            settings: MapSettings {
                distance_unit: "km".to_string(),
                distance_scale: 1000,
                area_unit: "km2".to_string(),
                height_unit: "m".to_string(),
                height_exponent: 1800,
                temperature_scale: "C".to_string(),
                population_rate: 1000,
                urbanization: 1000,
                latitude: 50000,
                longitude: 0,
            },
        },
        heightmap: Grid { width: 0, height: 0, data: Vec::new() },
        cells,
        features: Vec::new(),
        cultures: Vec::new(),
        states: Vec::new(),
        burgs: Vec::new(),
        rivers: Vec::new(),
        routes: Vec::new(),
        markers: Vec::new(),
        zones: Vec::new(),
    })
}

/// A 100x100 grassland world with one distinguished cell at (50, 50).
fn world_100_with(special: Cell) -> Arc<WorldMap> {
    let mut cells = Vec::new();
    for i in 0..10_000 {
        if i == 50 * 100 + 50 {
            cells.push(special.clone());
        } else {
            cells.push(cell(500, 500, 500));
        }
    }
    world(100, 100, cells)
}

fn pixel(tile: &[u8], px: usize, py: usize) -> (u8, u8, u8, u8) {
    let i = (py * 256 + px) * 4;
    (tile[i], tile[i + 1], tile[i + 2], tile[i + 3])
}

fn rgba(c: RgbaColor) -> (u8, u8, u8, u8) {
    (c.r, c.g, c.b, c.a)
}

#[test]
fn deep_water_cell_renders_deep_water_color() {
    let r = TileRenderer::new(world_100_with(cell(50, 500, 500)));
    let tile = r.render_tile(&TileCoord { zoom: 0, x: 0, y: 0 }).unwrap();
    assert_eq!(pixel(&tile, 50, 50), (25, 55, 109, 255));
    assert_eq!(rgba(ColorPalette::default().water_color(50)), (25, 55, 109, 255));
}

#[test]
fn world_100_zoom_0_is_one_tile() {
    let r = TileRenderer::new(world_100_with(cell(500, 500, 500)));
    assert_eq!(r.tile_grid(0), Some((1, 1)));
    assert!(r.render_tile(&TileCoord { zoom: 0, x: 0, y: 0 }).is_ok());
    assert_eq!(r.render_tile(&TileCoord { zoom: 0, x: 1, y: 0 }), Err(RenderError::OutOfBounds));
    assert_eq!(r.render_tile(&TileCoord { zoom: 0, x: 0, y: 1 }), Err(RenderError::OutOfBounds));
}

#[test]
fn mountain_darkens_by_fifteen_percent() {
    let p = ColorPalette::default();
    // floor(139 * 0.85) = 118, floor(137 * 0.85) = 116
    assert_eq!(rgba(p.mountain_color(900)), (118, 116, 116, 255));
    assert_eq!(rgba(p.classify(900, 500, 500)), (118, 116, 116, 255));
    let r = TileRenderer::new(world_100_with(cell(900, 500, 500)));
    let tile = r.render_tile(&TileCoord { zoom: 0, x: 0, y: 0 }).unwrap();
    assert_eq!(pixel(&tile, 50, 50), (118, 116, 116, 255));
}

#[test]
fn pyramid_has_a_tile_at_every_zoom() {
    for (w, h) in [(0u32, 0u32), (1, 1), (100, 3), (5000, 2500)] {
        let r = TileRenderer::new(world(w, h, Vec::new()));
        for z in 0..=10u32 {
            let (tx, ty) = r.tile_grid(z).unwrap();
            assert!(tx >= 1 && ty >= 1);
        }
        assert_eq!(r.tile_grid(11), None);
    }
}

#[test]
fn pyramid_grid_sizes() {
    let r = TileRenderer::new(world(100, 300, Vec::new()));
    assert_eq!(r.tile_grid(0), Some((1, 2)));
    assert_eq!(r.tile_grid(1), Some((1, 3)));
    assert_eq!(r.tile_grid(2), Some((2, 5)));
    assert_eq!(r.tile_grid(10), Some((400, 1200)));
}

#[test]
fn rendered_tile_has_exact_size() {
    let r = TileRenderer::new(world_100_with(cell(500, 500, 500)));
    for z in 0..=3u32 {
        let tile = r.render_tile(&TileCoord { zoom: z, x: 0, y: 0 }).unwrap();
        assert_eq!(tile.len(), TILE_BYTES);
        assert_eq!(tile.len(), 262_144);
    }
    assert_eq!(TILE_SIZE, 256);
}

#[test]
fn render_is_deterministic() {
    let w = world_100_with(cell(150, 500, 500));
    let a = TileRenderer::new(w.clone());
    let b = TileRenderer::new(world_100_with(cell(150, 500, 500)));
    for (z, x, y) in [(0u32, 0u32, 0u32), (2, 1, 1), (5, 3, 7)] {
        let c = TileCoord { zoom: z, x, y };
        assert_eq!(a.render_tile(&c), a.render_tile(&c));
        assert_eq!(a.render_tile(&c), b.render_tile(&c));
    }
}

#[test]
fn boundary_column_is_out_of_bounds() {
    let r = TileRenderer::new(world_100_with(cell(500, 500, 500)));
    for z in 0..=10u32 {
        let (n, _) = r.tile_grid(z).unwrap();
        let n = n as u32;
        assert_eq!(r.render_tile(&TileCoord { zoom: z, x: n, y: 0 }), Err(RenderError::OutOfBounds));
        assert!(r.render_tile(&TileCoord { zoom: z, x: n - 1, y: 0 }).is_ok());
    }
}

#[test]
fn zoom_outside_pyramid_is_invalid() {
    let r = TileRenderer::new(world_100_with(cell(500, 500, 500)));
    assert_eq!(r.render_tile(&TileCoord { zoom: 11, x: 0, y: 0 }), Err(RenderError::InvalidZoom));
    assert_eq!(r.render_tile(&TileCoord { zoom: u32::MAX, x: 0, y: 0 }), Err(RenderError::InvalidZoom));
}

#[test]
fn classifier_is_total_on_a_grid() {
    let p = ColorPalette::default();
    let mut h = 0;
    while h <= 1000 {
        let mut t = 0;
        while t <= 1000 {
            let mut q = 0;
            while q <= 1000 {
                let c = p.classify(h, t, q);
                assert_eq!(c.a, 255);
                q += 25;
            }
            t += 25;
        }
        h += 25;
    }
    // out-of-range attributes saturate rather than wrap
    for v in [i32::MIN, -100_000, -1, 1001, 40_000, i32::MAX] {
        let _ = p.classify(v, v, v);
        let _ = p.classify(500, v, 500);
        let _ = p.classify(900, 900, v);
    }
    assert_eq!(rgba(p.snow_color(i32::MIN)), (0, 0, 0, 255));
    assert_eq!(rgba(p.grassland_color(i32::MIN)), (255, 252, 0, 255));
}

#[test]
fn classifier_branch_colors() {
    let p = ColorPalette::default();
    // water blend: t = 0.5 between (25,55,109) and (65,105,225)
    assert_eq!(rgba(p.classify(150, 500, 500)), (45, 80, 167, 255));
    // desert: intensity = 0.9 * 0.9 = 0.81
    assert_eq!(rgba(p.classify(500, 900, 100)), (224, 195, 169, 255));
    // snow: tint = 0.3 * 0.8 = 0.24
    assert_eq!(rgba(p.classify(500, 200, 500)), (248, 244, 247, 255));
    // forest: lushness 0.8
    assert_eq!(rgba(p.classify(500, 500, 800)), (28, 133, 31, 255));
    // grassland: dryness 0.5
    assert_eq!(rgba(p.classify(500, 500, 500)), (149, 252, 0, 255));
    // priority: low height wins over desert climate
    assert_eq!(rgba(p.classify(50, 900, 100)), (25, 55, 109, 255));
}

#[test]
fn sparse_cells_render_black() {
    let r = TileRenderer::new(world(100, 100, vec![cell(500, 500, 500)]));
    let tile = r.render_tile(&TileCoord { zoom: 0, x: 0, y: 0 }).unwrap();
    assert_eq!(pixel(&tile, 0, 0), (149, 252, 0, 255));
    assert_eq!(pixel(&tile, 1, 0), (0, 0, 0, 255));
    assert_eq!(pixel(&tile, 255, 255), (0, 0, 0, 255));
}

#[test]
fn sampling_clamps_to_the_world_edge() {
    let mut cells = vec![cell(500, 500, 500); 4];
    cells[3] = cell(900, 500, 500);
    let r = TileRenderer::new(world(2, 2, cells));
    let tile = r.render_tile(&TileCoord { zoom: 0, x: 0, y: 0 }).unwrap();
    // beyond the world, the last row and column are repeated
    assert_eq!(pixel(&tile, 200, 200), (118, 116, 116, 255));
    assert_eq!(pixel(&tile, 0, 200), (149, 252, 0, 255));
}

#[test]
fn zoomed_tiles_sample_at_scale() {
    let mut cells = vec![cell(500, 500, 500); 10_000];
    cells[0] = cell(900, 500, 500);
    let r = TileRenderer::new(world(100, 100, cells));
    let tile = r.render_tile(&TileCoord { zoom: 2, x: 0, y: 0 }).unwrap();
    // at zoom 2 each cell covers 4x4 pixels
    assert_eq!(pixel(&tile, 3, 3), (118, 116, 116, 255));
    assert_eq!(pixel(&tile, 4, 3), (149, 252, 0, 255));
}

#[test]
fn rgba_constructors() {
    assert_eq!(rgba(RgbaColor::new(1, 2, 3, 4)), (1, 2, 3, 4));
    assert_eq!(rgba(RgbaColor::rgb(1, 2, 3)), (1, 2, 3, 255));
}
