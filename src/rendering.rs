//! Rendering of world maps: tiles, their colors and their cache, and the
//! configuration of whole-map rendering.
//!
//! Fractional settings (zoom, center, opacity, widths) are fixed-point
//! thousandths; colors are `0xAARRGGBB`.

pub mod cache;
pub mod color;
pub mod tile;

use vstd::prelude::*;

verus! {

/// Rendering configuration
pub struct RenderConfig {
    pub width: u32,
    pub height: u32,
    pub style: RenderStyle,
    pub layers: Vec<LayerConfig>,
    pub zoom_level: i32,
    pub center_x: i32,
    pub center_y: i32,
}

/// Rendering style presets
pub enum RenderStyle {
    Political,
    Physical,
    Cultural,
    Biome,
    Height,
    Temperature,
    Precipitation,
    Custom(CustomStyle),
}

pub struct CustomStyle {
    pub background_color: u32,
    pub water_color: u32,
    /// height -> color mapping
    pub land_colors: Vec<(i32, u32)>,
    pub border_color: u32,
    pub border_width: i32,
    pub text_color: u32,
    pub text_size: i32,
}

/// Layer configuration for rendering
#[derive(Debug, Clone, Copy, PartialEq, Eq, Structural)]
pub struct LayerConfig {
    pub layer_type: LayerType,
    pub visible: bool,
    pub opacity: i32,
    pub z_order: i32,
}

#[derive(Debug, Clone, Copy, PartialEq, Eq, Structural)]
pub enum LayerType {
    Heightmap,
    Water,
    Biomes,
    Political,
    Cultural,
    Settlements,
    Rivers,
    Routes,
    Markers,
    Labels,
    Grid,
}

/// The first position of `s`, from `i` on, whose layer lies above `z`
/// (the length of `s` where none does).
pub open spec fn first_above(s: Seq<LayerConfig>, z: i32, i: int) -> int
    decreases s.len() - i,
{
    if i >= s.len() || i < 0 {
        s.len() as int
    } else if s[i].z_order > z {
        i
    } else {
        first_above(s, z, i + 1)
    }
}

/// The visible layers of `layers` in drawing order: sorted by `z_order`,
/// layers of equal `z_order` in their given order.
pub open spec fn draw_order(layers: Seq<LayerConfig>) -> Seq<LayerConfig>
    decreases layers.len(),
{
    if layers.len() == 0 {
        Seq::empty()
    } else {
        let rest = draw_order(layers.drop_last());
        let l = layers.last();
        if l.visible {
            rest.insert(first_above(rest, l.z_order, 0), l)
        } else {
            rest
        }
    }
}

/// Whether `s` is ordered by `z_order`.
pub open spec fn z_sorted(s: Seq<LayerConfig>) -> bool {
    forall|i: int, j: int| 0 <= i < j < s.len() ==> s[i].z_order <= s[j].z_order
}

proof fn lemma_first_above(s: Seq<LayerConfig>, z: i32, i: int)
    requires
        0 <= i <= s.len(),
        forall|k: int| 0 <= k < i ==> s[k].z_order <= z,
        z_sorted(s),
    ensures
        i <= first_above(s, z, i) <= s.len(),
        forall|k: int| 0 <= k < first_above(s, z, i) ==> s[k].z_order <= z,
        forall|k: int| first_above(s, z, i) <= k < s.len() ==> s[k].z_order > z,
    decreases s.len() - i,
{
    if i < s.len() && s[i].z_order <= z {
        lemma_first_above(s, z, i + 1);
    }
}

/// The drawing order is ordered by `z_order`, and holds visible layers only.
pub proof fn lemma_draw_order_sorted(layers: Seq<LayerConfig>)
    ensures
        z_sorted(draw_order(layers)),
        forall|i: int| 0 <= i < draw_order(layers).len() ==> (#[trigger] draw_order(layers)[i]).visible,
    decreases layers.len(),
{
    if layers.len() > 0 {
        let rest = draw_order(layers.drop_last());
        lemma_draw_order_sorted(layers.drop_last());
        let l = layers.last();
        if l.visible {
            lemma_first_above(rest, l.z_order, 0);
            let p = first_above(rest, l.z_order, 0);
            let r = rest.insert(p, l);
            assert forall|i: int, j: int| 0 <= i < j < r.len() implies r[i].z_order <= r[j].z_order by {
                if j < p {
                } else if j == p {
                } else if i < p {
                } else if i == p {
                } else {
                    assert(r[i] == rest[i - 1] && r[j] == rest[j - 1]);
                }
            }
        }
    }
}

impl RenderConfig {
    /// The visible layers, in the order they are drawn: by `z_order`, and
    /// in their configured order where two share a `z_order`.
    pub fn draw_order(&self) -> (r: Vec<LayerConfig>)
        ensures
            r@ == draw_order(self.layers@),
            z_sorted(r@),
    {
        let mut sorted: Vec<LayerConfig> = Vec::new();
        let mut i: usize = 0;
        while i < self.layers.len()
            invariant
                i <= self.layers@.len(),
                sorted@ == draw_order(self.layers@.subrange(0, i as int)),
            decreases self.layers@.len() - i,
        {
            let layer = self.layers[i];
            proof {
                assert(self.layers@.subrange(0, i + 1).drop_last() =~= self.layers@.subrange(0, i as int));
            }
            if layer.visible {
                let mut p: usize = 0;
                while p < sorted.len() && sorted[p].z_order <= layer.z_order
                    invariant
                        p <= sorted@.len(),
                        first_above(sorted@, layer.z_order, p as int) == first_above(
                            sorted@,
                            layer.z_order,
                            0,
                        ),
                    decreases sorted@.len() - p,
                {
                    p = p + 1;
                }
                sorted.insert(p, layer);
            }
            i = i + 1;
        }
        proof {
            assert(self.layers@.subrange(0, i as int) =~= self.layers@);
            lemma_draw_order_sorted(self.layers@);
        }
        sorted
    }
}

impl Default for RenderConfig {
    fn default() -> (r: RenderConfig)
        ensures
            r.width == 1024,
            r.height == 768,
            r.style is Political,
            r.layers@ == seq![
                LayerConfig { layer_type: LayerType::Heightmap, visible: true, opacity: 1000, z_order: 0 },
                LayerConfig { layer_type: LayerType::Water, visible: true, opacity: 1000, z_order: 1 },
                LayerConfig { layer_type: LayerType::Political, visible: true, opacity: 800, z_order: 2 },
                LayerConfig { layer_type: LayerType::Settlements, visible: true, opacity: 1000, z_order: 3 },
                LayerConfig { layer_type: LayerType::Labels, visible: true, opacity: 1000, z_order: 4 },
            ],
            r.zoom_level == 1000,
            r.center_x == 500,
            r.center_y == 500,
    {
        let layers = vec![
            LayerConfig { layer_type: LayerType::Heightmap, visible: true, opacity: 1000, z_order: 0 },
            LayerConfig { layer_type: LayerType::Water, visible: true, opacity: 1000, z_order: 1 },
            LayerConfig { layer_type: LayerType::Political, visible: true, opacity: 800, z_order: 2 },
            LayerConfig { layer_type: LayerType::Settlements, visible: true, opacity: 1000, z_order: 3 },
            LayerConfig { layer_type: LayerType::Labels, visible: true, opacity: 1000, z_order: 4 },
        ];
        RenderConfig {
            width: 1024,
            height: 768,
            style: RenderStyle::Political,
            layers,
            zoom_level: 1000,
            center_x: 500,
            center_y: 500,
        }
    }
}

} // verus!
