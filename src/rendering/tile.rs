//! The tile pyramid: fixed 256x256 RGBA tiles over a world raster, at zoom
//! levels 0 through 10.
use std::sync::Arc;

use vstd::arithmetic::power2::{lemma2_to64, lemma_pow2_strictly_increases, pow2};
use vstd::prelude::*;

use crate::data::WorldMap;
use crate::rendering::color::ColorPalette;

verus! {

/// Tile coordinate in the tile pyramid
#[derive(Debug, Clone, Copy, PartialEq, Eq, Hash, Structural)]
pub struct TileCoord {
    pub zoom: u32,
    pub x: u32,
    pub y: u32,
}

/// Side of a tile, in pixels.
pub const TILE_SIZE: u32 = 256;

/// Bytes in a tile: `TILE_SIZE * TILE_SIZE` pixels of four channels (RGBA).
pub const TILE_BYTES: usize = 262144;

/// The deepest zoom level of the pyramid.
pub const MAX_ZOOM: u32 = 10;

/// Why a tile could not be rendered.
#[derive(Debug, Clone, Copy, PartialEq, Eq, Structural)]
pub enum RenderError {
    /// The zoom level has no entry in the pyramid.
    InvalidZoom,
    /// The tile lies outside the pyramid's grid at its zoom level.
    OutOfBounds,
}

/// Number of tiles that cover `extent` cells at scale `2^zoom`:
/// `ceil(extent * 2^zoom / 256)`, and at least one.
pub open spec fn tiles_for(extent: int, zoom: nat) -> int {
    let n = (extent * pow2(zoom) + 255) / 256;
    if n < 1 {
        1
    } else {
        n
    }
}

/// A world coordinate clamped into `0..extent` (to 0 for an empty extent).
pub open spec fn clamp_cell(w: int, extent: int) -> int {
    if extent <= 0 {
        0
    } else if w < extent {
        w
    } else {
        extent - 1
    }
}

/// Opaque black, for samples that fall outside the cell sequence.
pub open spec fn sentinel_color() -> RgbaColor {
    RgbaColor { r: 0, g: 0, b: 0, a: 255 }
}

/// Color of the world at cell coordinates `(wx, wy)` (non-negative).
pub open spec fn sample_color(world: WorldMap, wx: int, wy: int) -> RgbaColor {
    let w = world.metadata.width as int;
    let idx = clamp_cell(wy, world.metadata.height as int) * w + clamp_cell(wx, w);
    if idx >= world.cells@.len() {
        sentinel_color()
    } else {
        let cell = world.cells@[idx];
        ColorPalette::spec_default().spec_classify(
            cell.height as int,
            cell.temperature as int,
            cell.precipitation as int,
        )
    }
}

/// Color of pixel `k` (row-major) of tile `c`: the world cell under the
/// pixel's top-left corner, `((c.x * 256 + px) / 2^zoom, (c.y * 256 + py) / 2^zoom)`.
pub open spec fn tile_pixel(world: WorldMap, c: TileCoord, k: int) -> RgbaColor {
    let s = pow2(c.zoom as nat) as int;
    sample_color(world, (c.x * 256 + k % 256) / s, (c.y * 256 + k / 256) / s)
}

/// Channel `j` of a color, in the order R, G, B, A.
pub open spec fn channel(col: RgbaColor, j: int) -> u8 {
    if j == 0 {
        col.r
    } else if j == 1 {
        col.g
    } else if j == 2 {
        col.b
    } else {
        col.a
    }
}

/// The bytes of tile `c`: row-major pixels, four channels each.
pub open spec fn tile_bytes(world: WorldMap, c: TileCoord) -> Seq<u8> {
    Seq::new(TILE_BYTES as nat, |i: int| channel(tile_pixel(world, c, i / 4), i % 4))
}

/// What rendering tile `c` of `world` gives.
pub open spec fn render_result(world: WorldMap, c: TileCoord) -> Result<Seq<u8>, RenderError> {
    if c.zoom > MAX_ZOOM {
        Err(RenderError::InvalidZoom)
    } else if c.x >= tiles_for(world.metadata.width as int, c.zoom as nat) || c.y >= tiles_for(
        world.metadata.height as int,
        c.zoom as nat,
    ) {
        Err(RenderError::OutOfBounds)
    } else {
        Ok(tile_bytes(world, c))
    }
}

/// A rendered tile seen through its bytes.
pub open spec fn tile_view(r: Result<Vec<u8>, RenderError>) -> Result<Seq<u8>, RenderError> {
    match r {
        Ok(v) => Ok(v@),
        Err(e) => Err(e),
    }
}

/// Tile pyramid for a specific zoom level
struct TilePyramid {
    zoom: u32,
    tiles_x: u64,
    tiles_y: u64,
    world_scale: u64,
}

spec fn pyramid_entry(width: int, height: int, zoom: int) -> TilePyramid {
    TilePyramid {
        zoom: zoom as u32,
        tiles_x: tiles_for(width, zoom as nat) as u64,
        tiles_y: tiles_for(height, zoom as nat) as u64,
        world_scale: pow2(zoom as nat) as u64,
    }
}

proof fn lemma_scale_bounds(zoom: nat)
    requires
        zoom <= 10,
    ensures
        1 <= pow2(zoom) <= 1024,
{
    lemma2_to64();
    if zoom > 0 {
        lemma_pow2_strictly_increases(0, zoom);
    }
    if zoom < 10 {
        lemma_pow2_strictly_increases(zoom, 10);
    }
}

proof fn lemma_tiles_fit(extent: u32, zoom: nat)
    requires
        zoom <= 10,
    ensures
        1 <= tiles_for(extent as int, zoom) <= 0x4_0000_0000,
{
    lemma_scale_bounds(zoom);
    assert(extent * pow2(zoom) <= 0xFFFF_FFFF * 1024) by (nonlinear_arith)
        requires
            extent <= 0xFFFF_FFFF,
            pow2(zoom) <= 1024,
    ;
}

/// Tile renderer that generates 256x256 RGBA tiles
pub struct TileRenderer {
    world_data: Arc<WorldMap>,
    palette: ColorPalette,
    pyramid_cache: Vec<TilePyramid>,
}

impl TileRenderer {
    /// The world this renderer draws.
    pub closed spec fn world(&self) -> WorldMap {
        *self.world_data
    }

    /// Tiles across at `zoom`.
    pub open spec fn tiles_x(&self, zoom: nat) -> int {
        tiles_for(self.world().metadata.width as int, zoom)
    }

    /// Tiles down at `zoom`.
    pub open spec fn tiles_y(&self, zoom: nat) -> int {
        tiles_for(self.world().metadata.height as int, zoom)
    }

    /// What rendering tile `c` gives.
    pub open spec fn spec_render(&self, c: TileCoord) -> Result<Seq<u8>, RenderError> {
        render_result(self.world(), c)
    }

    #[verifier::type_invariant]
    spec fn inv(&self) -> bool {
        &&& self.palette == ColorPalette::spec_default()
        &&& self.pyramid_cache@.len() == MAX_ZOOM + 1
        &&& forall|z: int|
            0 <= z <= MAX_ZOOM ==> #[trigger] self.pyramid_cache@[z] == pyramid_entry(
                self.world_data.metadata.width as int,
                self.world_data.metadata.height as int,
                z,
            )
    }

    /// Create a new tile renderer
    pub fn new(world_data: Arc<WorldMap>) -> (r: TileRenderer)
        ensures
            r.world() == *world_data,
    {
        let palette = ColorPalette::default();
        // Pre-compute pyramid levels
        let pyramid_cache = Self::build_pyramid(&world_data);
        TileRenderer { world_data, palette, pyramid_cache }
    }

    /// Build the tile pyramid for every zoom level
    fn build_pyramid(world: &WorldMap) -> (v: Vec<TilePyramid>)
        ensures
            v@.len() == MAX_ZOOM + 1,
            forall|z: int| 0 <= z <= MAX_ZOOM ==> #[trigger] v@[z].tiles_x >= 1 && v@[z].tiles_y >= 1,
            forall|z: int|
                0 <= z <= MAX_ZOOM ==> #[trigger] v@[z] == pyramid_entry(
                    world.metadata.width as int,
                    world.metadata.height as int,
                    z,
                ),
    {
        let world_width = world.metadata.width as u64;
        let world_height = world.metadata.height as u64;
        let mut levels: Vec<TilePyramid> = Vec::new();
        let mut zoom: u32 = 0;
        let mut scale: u64 = 1;
        proof {
            lemma2_to64();  // pow2(0) == 1
        }
        // zoom 0 is the most zoomed out, higher is more zoomed in
        while zoom <= MAX_ZOOM
            invariant
                zoom <= MAX_ZOOM + 1,
                levels@.len() == zoom,
                zoom <= MAX_ZOOM ==> scale == pow2(zoom as nat),
                world_width == world.metadata.width,
                world_height == world.metadata.height,
                forall|z: int|
                    0 <= z < zoom ==> #[trigger] levels@[z] == pyramid_entry(
                        world.metadata.width as int,
                        world.metadata.height as int,
                        z,
                    ),
            decreases MAX_ZOOM + 1 - zoom,
        {
            proof {
                lemma_scale_bounds(zoom as nat);
                assert(world_width * scale <= 0xFFFF_FFFF * 1024) by (nonlinear_arith)
                    requires
                        world_width <= 0xFFFF_FFFF,
                        scale <= 1024,
                ;
                assert(world_height * scale <= 0xFFFF_FFFF * 1024) by (nonlinear_arith)
                    requires
                        world_height <= 0xFFFF_FFFF,
                        scale <= 1024,
                ;
            }
            let tiles_x = (world_width * scale + (TILE_SIZE as u64 - 1)) / TILE_SIZE as u64;
            let tiles_y = (world_height * scale + (TILE_SIZE as u64 - 1)) / TILE_SIZE as u64;
            levels.push(
                TilePyramid {
                    zoom,
                    tiles_x: if tiles_x < 1 {
                        1
                    } else {
                        tiles_x
                    },
                    tiles_y: if tiles_y < 1 {
                        1
                    } else {
                        tiles_y
                    },
                    world_scale: scale,
                },
            );
            if zoom < MAX_ZOOM {
                proof {
                    vstd::arithmetic::power2::lemma_pow2_unfold((zoom + 1) as nat);
                }
                scale = scale * 2;
            }
            zoom = zoom + 1;
        }
        proof {
            assert forall|z: int| 0 <= z <= MAX_ZOOM implies #[trigger] levels@[z].tiles_x >= 1
                && levels@[z].tiles_y >= 1 by {
                lemma_tiles_fit(world.metadata.width, z as nat);
                lemma_tiles_fit(world.metadata.height, z as nat);
            }
        }
        levels
    }

    /// Tiles across and down at `zoom`, or `None` for a zoom level outside the pyramid.
    pub fn tile_grid(&self, zoom: u32) -> (r: Option<(u64, u64)>)
        ensures
            zoom > MAX_ZOOM ==> r is None,
            zoom <= MAX_ZOOM ==> r == Some(
                (self.tiles_x(zoom as nat) as u64, self.tiles_y(zoom as nat) as u64),
            ),
    {
        proof {
            use_type_invariant(self);
        }
        if zoom > MAX_ZOOM {
            None
        } else {
            let p = &self.pyramid_cache[zoom as usize];
            Some((p.tiles_x, p.tiles_y))
        }
    }

    /// The world this renderer draws.
    pub fn world_data(&self) -> (w: &Arc<WorldMap>)
        ensures
            **w == self.world(),
    {
        &self.world_data
    }

    /// Render a single tile
    pub fn render_tile(&self, coord: &TileCoord) -> (r: Result<Vec<u8>, RenderError>)
        ensures
            tile_view(r) == self.spec_render(*coord),
            r matches Ok(v) ==> v@.len() == TILE_BYTES,
    {
        proof {
            use_type_invariant(self);
        }
        if coord.zoom > MAX_ZOOM {
            return Err(RenderError::InvalidZoom);
        }
        let pyramid = &self.pyramid_cache[coord.zoom as usize];
        proof {
            lemma_tiles_fit(self.world_data.metadata.width, coord.zoom as nat);
            lemma_tiles_fit(self.world_data.metadata.height, coord.zoom as nat);
        }
        if coord.x as u64 >= pyramid.tiles_x || coord.y as u64 >= pyramid.tiles_y {
            return Err(RenderError::OutOfBounds);
        }
        proof {
            lemma_scale_bounds(coord.zoom as nat);
        }
        let scale = pyramid.world_scale;
        let ghost world = self.world();
        let ghost expected = tile_bytes(world, *coord);
        let mut tile_data: Vec<u8> = Vec::with_capacity(TILE_BYTES);
        // Render each pixel in the tile, row by row
        let mut py: u64 = 0;
        while py < TILE_SIZE as u64
            invariant
                py <= 256,
                1 <= scale <= 1024,
                scale == pow2(coord.zoom as nat),
                world == self.world(),
                expected == tile_bytes(world, *coord),
                tile_data@.len() == py * 1024,
                forall|i: int| 0 <= i < tile_data@.len() ==> #[trigger] tile_data@[i] == expected[i],
            decreases 256 - py,
        {
            let world_y = (coord.y as u64 * TILE_SIZE as u64 + py) / scale;
            let mut px: u64 = 0;
            while px < TILE_SIZE as u64
                invariant
                    py < 256,
                    px <= 256,
                    1 <= scale <= 1024,
                    scale == pow2(coord.zoom as nat),
                    world == self.world(),
                    expected == tile_bytes(world, *coord),
                    world_y == (coord.y * 256 + py) / (scale as int),
                    tile_data@.len() == (py * 256 + px) * 4,
                    forall|i: int|
                        0 <= i < tile_data@.len() ==> #[trigger] tile_data@[i] == expected[i],
                decreases 256 - px,
            {
                let world_x = (coord.x as u64 * TILE_SIZE as u64 + px) / scale;
                let color = self.sample_world_color(world_x, world_y);
                let ghost k = py * 256 + px;
                proof {
                    assert(k % 256 == px && k / 256 == py);
                    assert(tile_pixel(world, *coord, k) == color);
                }
                let ghost before = tile_data@;
                tile_data.push(color.r);
                tile_data.push(color.g);
                tile_data.push(color.b);
                tile_data.push(color.a);
                proof {
                    assert forall|i: int| 0 <= i < tile_data@.len() implies #[trigger] tile_data@[i]
                        == expected[i] by {
                        if i >= before.len() {
                            assert(i / 4 == k);
                            assert(i % 4 == i - 4 * k);
                        }
                    }
                }
                px = px + 1;
            }
            py = py + 1;
        }
        proof {
            assert(tile_data@ =~= expected);
        }
        Ok(tile_data)
    }

    /// Sample the world color at cell coordinates `(x, y)`
    fn sample_world_color(&self, x: u64, y: u64) -> (c: RgbaColor)
        ensures
            c == sample_color(self.world(), x as int, y as int),
    {
        proof {
            use_type_invariant(self);
        }
        let width = self.world_data.metadata.width as u64;
        let height = self.world_data.metadata.height as u64;
        // Clamp coordinates to world bounds
        let cell_x: u64 = if width == 0 {
            0
        } else if x < width {
            x
        } else {
            width - 1
        };
        let cell_y: u64 = if height == 0 {
            0
        } else if y < height {
            y
        } else {
            height - 1
        };
        assert(cell_y * width <= 0xFFFF_FFFF * 0xFFFF_FFFF) by (nonlinear_arith)
            requires
                cell_y <= 0xFFFF_FFFF,
                width <= 0xFFFF_FFFF,
        ;
        let cell_idx: u128 = cell_y as u128 * width as u128 + cell_x as u128;
        if cell_idx >= self.world_data.cells.len() as u128 {
            return RgbaColor::rgb(0, 0, 0);  // Black for out of bounds
        }
        let cell = &self.world_data.cells[cell_idx as usize];
        // Determine color based on cell properties
        self.palette.classify(cell.height, cell.temperature, cell.precipitation)
    }
}

/// Every zoom level of the pyramid is at least one tile across and one tile
/// down, whatever the world's dimensions.
pub proof fn lemma_pyramid_nonempty(r: &TileRenderer, zoom: nat)
    requires
        zoom <= MAX_ZOOM,
    ensures
        r.tiles_x(zoom) >= 1,
        r.tiles_y(zoom) >= 1,
{
}

/// Every tile that renders is exactly `TILE_BYTES` (262,144) bytes long.
pub proof fn lemma_tile_size(r: &TileRenderer, c: TileCoord)
    ensures
        r.spec_render(c) matches Ok(bytes) ==> bytes.len() == TILE_BYTES,
{
}

/// Rendering is deterministic: it depends on the raster alone (its dimensions
/// and its cells), so two renderers over the same raster render every
/// address to the same result, byte for byte.
pub proof fn lemma_render_deterministic(a: &TileRenderer, b: &TileRenderer, c: TileCoord)
    requires
        a.world().metadata.width == b.world().metadata.width,
        a.world().metadata.height == b.world().metadata.height,
        a.world().cells@ == b.world().cells@,
    ensures
        a.spec_render(c) == b.spec_render(c),
{
    assert(tile_bytes(a.world(), c) =~= tile_bytes(b.world(), c));
}

/// The last column of tiles at a zoom level renders; the column after it is
/// out of bounds.
pub proof fn lemma_render_boundary(r: &TileRenderer, zoom: u32)
    requires
        zoom <= MAX_ZOOM,
        r.tiles_x(zoom as nat) <= u32::MAX,
    ensures
        r.spec_render(TileCoord { zoom, x: r.tiles_x(zoom as nat) as u32, y: 0 })
            == Err::<Seq<u8>, RenderError>(RenderError::OutOfBounds),
        r.spec_render(TileCoord { zoom, x: (r.tiles_x(zoom as nat) - 1) as u32, y: 0 }) is Ok,
{
}

/// RGBA color representation, one byte per channel.
#[derive(Debug, Clone, Copy, PartialEq, Eq, Structural)]
pub struct RgbaColor {
    pub r: u8,
    pub g: u8,
    pub b: u8,
    pub a: u8,
}

impl RgbaColor {
    pub fn new(r: u8, g: u8, b: u8, a: u8) -> (c: RgbaColor)
        ensures
            c == (RgbaColor { r, g, b, a }),
    {
        RgbaColor { r, g, b, a }
    }

    /// An opaque color.
    pub fn rgb(r: u8, g: u8, b: u8) -> (c: RgbaColor)
        ensures
            c == (RgbaColor { r, g, b, a: 255 }),
    {
        RgbaColor { r, g, b, a: 255 }
    }
}

} // verus!
