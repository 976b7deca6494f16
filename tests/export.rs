use std::sync::Arc;

use world_foundry_core::data::{
    BiomeType, Cell, Grid, MapMetadata, MapPoint, MapSettings, WorldMap,
};
use world_foundry_core::export::png::{ExportError, PngExporter};
use world_foundry_core::rendering::tile::RenderError;

fn cell(height: i32, temperature: i32, precipitation: i32) -> Cell {
    Cell {
        id: 0,
        coordinates: MapPoint { x: 0, y: 0 },
        height,
        biome: BiomeType::Temperate,
        temperature,
        precipitation,
        population: 0,
        culture: None,
        state: None,
        province: None,
        religion: None,
    }
}

fn world(width: u32, height: u32, cells: Vec<Cell>) -> Arc<WorldMap> {
    Arc::new(WorldMap {
        metadata: MapMetadata {
            id: 1,
            name: "Test".to_string(),
            version: "1".to_string(),
            created_at: 0,
            modified_at: 0,
            width,
            height,
            seed: 42,
            settings: MapSettings {
                distance_unit: "km".to_string(),
                distance_scale: 1000,
                area_unit: "km2".to_string(),
                height_unit: "m".to_string(),
                height_exponent: 1800,
                temperature_scale: "C".to_string(),
                population_rate: 1000,
                urbanization: 1000,
                latitude: 50000,
                longitude: 0,
            },
        },
        heightmap: Grid { width: 0, height: 0, data: Vec::new() },
        cells,
        features: Vec::new(),
        cultures: Vec::new(),
        states: Vec::new(),
        burgs: Vec::new(),
        rivers: Vec::new(),
        routes: Vec::new(),
        markers: Vec::new(),
        zones: Vec::new(),
    })
}

/// A 100x100 grassland world with one distinguished cell at (50, 50).
fn world_100_with(special: Cell) -> Arc<WorldMap> {
    let mut cells = Vec::new();
    for i in 0..10_000 {
        if i == 50 * 100 + 50 {
            cells.push(special.clone());
        } else {
            cells.push(cell(500, 500, 500));
        }
    }
    world(100, 100, cells)
}

fn px(img: &image::RgbaImage, x: u32, y: u32) -> (u8, u8, u8, u8) {
    let p = img.get_pixel(x, y).0;
    (p[0], p[1], p[2], p[3])
}

#[test]
fn export_at_world_size_copies_zoom_zero() {
    let canvas = PngExporter::new()
        .export(world_100_with(cell(900, 500, 500)), 100, 100, None)
        .unwrap();
    assert_eq!(canvas.img.dimensions(), (100, 100));
    assert_eq!(px(&canvas.img, 50, 50), (118, 116, 116, 255));
    assert_eq!(px(&canvas.img, 0, 0), (149, 252, 0, 255));
    assert_eq!(px(&canvas.img, 99, 99), (149, 252, 0, 255));
}

#[test]
fn export_picks_rounded_log2_zoom() {
    // scale 3: log2(3) = 1.58 rounds to zoom 2, four pixels per cell
    let canvas = PngExporter::new()
        .export(world_100_with(cell(900, 500, 500)), 300, 300, Some("{\"labels\": true}"))
        .unwrap();
    assert_eq!(canvas.img.dimensions(), (300, 300));
    assert_eq!(px(&canvas.img, 200, 200), (118, 116, 116, 255));
    assert_eq!(px(&canvas.img, 203, 203), (118, 116, 116, 255));
    assert_eq!(px(&canvas.img, 204, 203), (149, 252, 0, 255));
    assert_eq!(px(&canvas.img, 199, 200), (149, 252, 0, 255));
    // scale 2.5: log2(2.5) = 1.32 rounds to zoom 1, two pixels per cell
    let canvas = PngExporter::new()
        .export(world_100_with(cell(900, 500, 500)), 250, 250, None)
        .unwrap();
    assert_eq!(px(&canvas.img, 100, 100), (118, 116, 116, 255));
    assert_eq!(px(&canvas.img, 101, 101), (118, 116, 116, 255));
    assert_eq!(px(&canvas.img, 102, 101), (149, 252, 0, 255));
}

#[test]
fn export_rejects_invalid_style() {
    let r = PngExporter::new().export(world_100_with(cell(500, 500, 500)), 100, 100, Some("{not json"));
    assert!(matches!(r, Err(ExportError::InvalidStyle)));
}

#[test]
fn export_beyond_the_pyramid_fails() {
    // zoom 0 (scale 1) is one tile wide, the output needs four
    let r = PngExporter::new().export(world_100_with(cell(500, 500, 500)), 1000, 100, None);
    assert!(matches!(r, Err(ExportError::Render(RenderError::OutOfBounds))));
}

#[test]
fn export_of_empty_image() {
    let canvas = PngExporter::new()
        .export(world_100_with(cell(500, 500, 500)), 0, 0, None)
        .unwrap();
    assert_eq!(canvas.img.dimensions(), (0, 0));
}

#[test]
fn export_refuses_an_unaddressable_image() {
    let r = PngExporter::new().export(world_100_with(cell(500, 500, 500)), u32::MAX, u32::MAX, None);
    assert!(matches!(r, Err(ExportError::SurfaceInit)));
}

#[test]
fn export_of_empty_world_to_empty_image() {
    let canvas = PngExporter::new().export(world(0, 0, Vec::new()), 0, 0, None).unwrap();
    assert_eq!(canvas.img.dimensions(), (0, 0));
    // an empty world has no cell to sample: every pixel is opaque black
    let canvas = PngExporter::new().export(world(0, 0, Vec::new()), 10, 10, None).unwrap();
    assert_eq!(px(&canvas.img, 9, 9), (0, 0, 0, 255));
}
