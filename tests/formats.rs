use world_foundry_core::c_api::WfError;
use world_foundry_core::export::{
    ExporterRegistry, GeoJsonExporter, JsonExporter, MapExporter, PngExporter, SvgExporter,
};
use world_foundry_core::import::azgaar::{
    AzgaarImporter, AzgaarInfo, AzgaarJsonData, AzgaarPack, AzgaarPackCells, AzgaarSettings,
};
use world_foundry_core::data::{BiomeType, MapPoint};

#[test]
fn registry_lists_builtin_formats() {
    let r = ExporterRegistry::new();
    assert_eq!(
        r.list_formats(),
        vec![
            ("json", "World Foundry JSON"),
            ("png", "PNG Image"),
            ("geojson", "GeoJSON"),
            ("svg", "SVG Vector"),
        ]
    );
    let d = ExporterRegistry::default();
    assert_eq!(d.list_formats().len(), 4);
}

#[test]
fn registry_finds_by_extension() {
    let mut r = ExporterRegistry::new();
    match r.find_exporter("png") {
        Some(MapExporter::Png(p)) => assert_eq!((p.width, p.height), (2048, 1024)),
        _ => panic!("png exporter expected"),
    }
    assert!(matches!(r.find_exporter("geojson"), Some(MapExporter::GeoJson(_))));
    assert!(matches!(r.find_exporter("json"), Some(MapExporter::Json(_))));
    assert!(r.find_exporter("tiff").is_none());
    assert!(r.find_exporter("").is_none());
    assert!(r.find_exporter("PNG").is_none());
    // the first registered exporter for an extension wins
    r.register(MapExporter::Png(PngExporter::new(10, 10)));
    match r.find_exporter("png") {
        Some(MapExporter::Png(p)) => assert_eq!(p.width, 2048),
        _ => panic!("png exporter expected"),
    }
    r.register(MapExporter::Svg(SvgExporter::new(5, 6)));
    assert_eq!(r.list_formats().len(), 6);
    let _ = (JsonExporter, GeoJsonExporter);
}

#[test]
fn exporter_names() {
    assert_eq!(MapExporter::Json(JsonExporter).file_extension(), "json");
    assert_eq!(MapExporter::Svg(SvgExporter::new(1, 1)).format_name(), "SVG Vector");
}

#[test]
fn azgaar_importer_accepts() {
    let imp = AzgaarImporter::new();
    assert!(imp.can_import(Some("map"), None));
    assert!(imp.can_import(Some("json"), Some("{\"info\": \"Azgaar\"}")));
    assert!(imp.can_import(Some("json"), Some("made by Fantasy-Map-Generator v1")));
    assert!(!imp.can_import(Some("json"), Some("{\"info\": \"other\"}")));
    assert!(!imp.can_import(Some("json"), Some("Azgaa")));
    assert!(!imp.can_import(Some("json"), None));
    assert!(!imp.can_import(Some("txt"), Some("Azgaar")));
    assert!(!imp.can_import(None, Some("Azgaar")));
}

fn settings_none() -> AzgaarSettings {
    AzgaarSettings {
        distance_unit: None,
        distance_scale: None,
        area_unit: None,
        height_unit: None,
        height_exponent: None,
        temperature_scale: None,
        population_rate: None,
        urbanization: None,
        latitude: None,
        longitude: None,
    }
}

fn info(width: u32, height: u32) -> AzgaarInfo {
    AzgaarInfo {
        version: "1.9".to_string(),
        map_name: None,
        width,
        height,
        seed: 7,
        map_id: None,
    }
}

#[test]
fn azgaar_conversion_fills_defaults() {
    let imp = AzgaarImporter::new();
    let data = AzgaarJsonData { info: info(3, 2), settings: settings_none(), pack: None };
    let m = imp.convert_azgaar_to_world_map(data, 99, 1000, 2000).unwrap();
    assert_eq!(m.metadata.id, 99);
    assert_eq!(m.metadata.name, "Imported Map");
    assert_eq!(m.metadata.version, "1.9");
    assert_eq!((m.metadata.created_at, m.metadata.modified_at), (1000, 2000));
    assert_eq!((m.metadata.width, m.metadata.height, m.metadata.seed), (3, 2, 7));
    assert_eq!(m.metadata.settings.distance_unit, "km");
    assert_eq!(m.metadata.settings.area_unit, "km²");
    assert_eq!(m.metadata.settings.temperature_scale, "°C");
    assert_eq!(m.metadata.settings.height_exponent, 1800);
    assert_eq!(m.metadata.settings.latitude, 50_000);
    assert_eq!(m.heightmap.data, vec![0; 6]);
    assert!(m.cells.is_empty());
}

#[test]
fn azgaar_conversion_keeps_given_settings() {
    let imp = AzgaarImporter::new();
    let mut s = settings_none();
    s.distance_unit = Some("mi".to_string());
    s.latitude = Some(-12_500);
    let mut i = info(1, 1);
    i.map_name = Some("Isle".to_string());
    let m = imp
        .convert_azgaar_to_world_map(AzgaarJsonData { info: i, settings: s, pack: None }, 1, 0, 0)
        .unwrap();
    assert_eq!(m.metadata.name, "Isle");
    assert_eq!(m.metadata.settings.distance_unit, "mi");
    assert_eq!(m.metadata.settings.latitude, -12_500);
}

#[test]
fn azgaar_conversion_refuses_oversized_maps() {
    let imp = AzgaarImporter::new();
    let data = AzgaarJsonData { info: info(70_000, 70_000), settings: settings_none(), pack: None };
    assert!(imp.convert_azgaar_to_world_map(data, 0, 0, 0).is_err());
}

#[test]
fn azgaar_pack_cells_pad_missing_values() {
    let imp = AzgaarImporter::new();
    let pc = AzgaarPackCells {
        i: vec![10, 11, 12],
        p: vec![1, 2, 3, 4, 5],
        h: vec![100, 200],
        temp: vec![300],
        prec: vec![],
        pop: vec![5, 6, 7],
        culture: vec![Some(1), None],
        state: vec![],
        province: vec![Some(3), Some(4), Some(5)],
        religion: vec![],
    };
    let cells = imp.convert_pack_cells(&pc);
    assert_eq!(cells.len(), 3);
    assert_eq!(cells[0].id, 10);
    assert_eq!(cells[0].coordinates, MapPoint { x: 1, y: 2 });
    assert_eq!(cells[2].coordinates, MapPoint { x: 5, y: 0 });
    assert_eq!((cells[1].height, cells[2].height), (200, 0));
    assert_eq!((cells[0].temperature, cells[1].temperature), (300, 0));
    assert_eq!(cells[1].precipitation, 0);
    assert_eq!(cells[2].population, 7);
    assert_eq!((cells[0].culture, cells[1].culture, cells[2].culture), (Some(1), None, None));
    assert_eq!(cells[2].province, Some(5));
    assert_eq!(cells[0].biome, BiomeType::Temperate);
    let data = AzgaarJsonData {
        info: info(2, 2),
        settings: settings_none(),
        pack: Some(AzgaarPack { cells: Some(pc) }),
    };
    let m = imp.convert_azgaar_to_world_map(data, 0, 0, 0).unwrap();
    assert_eq!(m.cells.len(), 3);
    assert_eq!(m.cells[1].id, 11);
}

#[test]
fn azgaar_import_data_stamps_the_map() {
    let imp = AzgaarImporter::new();
    let m = imp
        .import_data(AzgaarJsonData { info: info(4, 4), settings: settings_none(), pack: None })
        .unwrap();
    assert_eq!(m.metadata.width, 4);
    assert!(m.metadata.created_at > 0);
}

#[test]
fn wf_error_from_message() {
    assert_eq!(WfError::from_message("Invalid argument: x"), WfError::InvalidArg);
    assert_eq!(WfError::from_message("IO error"), WfError::Io);
    assert_eq!(WfError::from_message("no such file"), WfError::Io);
    assert_eq!(WfError::from_message("cannot parse"), WfError::Parse);
    assert_eq!(WfError::from_message("bad JSON"), WfError::Parse);
    assert_eq!(WfError::from_message("boom"), WfError::Internal);
    assert_eq!(WfError::from_message(""), WfError::Internal);
}
