use world_foundry_core::rendering::{LayerConfig, LayerType, RenderConfig, RenderStyle};

fn layer(layer_type: LayerType, visible: bool, z_order: i32) -> LayerConfig {
    LayerConfig { layer_type, visible, opacity: 1000, z_order }
}

#[test]
fn default_config_draws_five_layers_in_order() {
    let c = RenderConfig::default();
    assert_eq!((c.width, c.height), (1024, 768));
    assert!(matches!(c.style, RenderStyle::Political));
    let order: Vec<LayerType> = c.draw_order().iter().map(|l| l.layer_type).collect();
    assert_eq!(
        order,
        vec![
            LayerType::Heightmap,
            LayerType::Water,
            LayerType::Political,
            LayerType::Settlements,
            LayerType::Labels
        ]
    );
    assert_eq!(c.layers[2].opacity, 800);
}

#[test]
fn draw_order_is_stable_and_skips_hidden_layers() {
    let mut c = RenderConfig::default();
    c.layers = vec![
        layer(LayerType::Labels, true, 2),
        layer(LayerType::Water, true, 1),
        layer(LayerType::Grid, false, 0),
        layer(LayerType::Rivers, true, 1),
        layer(LayerType::Heightmap, true, -5),
        layer(LayerType::Markers, true, 2),
    ];
    let order: Vec<LayerType> = c.draw_order().iter().map(|l| l.layer_type).collect();
    assert_eq!(
        order,
        vec![
            LayerType::Heightmap,
            LayerType::Water,
            LayerType::Rivers,
            LayerType::Labels,
            LayerType::Markers
        ]
    );
}

#[test]
fn draw_order_of_no_layers() {
    let mut c = RenderConfig::default();
    c.layers = Vec::new();
    assert!(c.draw_order().is_empty());
    c.layers = vec![layer(LayerType::Grid, false, 3)];
    assert!(c.draw_order().is_empty());
}
