//! Whole-map image export: tiles of one zoom level stitched into one RGBA
//! image of the requested size.
use std::sync::Arc;

use image::RgbaImage;
use vstd::arithmetic::power2::pow2;
use vstd::prelude::*;

use crate::data::WorldMap;
use crate::rendering::tile::{
    TILE_BYTES, sample_color, tile_bytes, tile_pixel, tiles_for, RenderError, RgbaColor, TileCoord, TileRenderer,
    MAX_ZOOM, TILE_SIZE,
};

verus! {

/// An RGBA image of the `image` crate, which encodes and writes it. Verus
/// cannot declare `image::ImageBuffer` itself (the struct carries the
/// crate's `Pixel` bound), so the image is held here, opaque, and read
/// through `image_pixels`.
#[verifier::external_body]
pub struct Canvas {
    pub img: RgbaImage,
}

/// The pixels of a canvas, keyed by `(x, y)`: its domain is every position
/// inside the image.
pub uninterp spec fn image_pixels(img: Canvas) -> Map<(u32, u32), (u8, u8, u8, u8)>;

/// Every position of a `width` x `height` image.
pub open spec fn in_image(width: u32, height: u32, p: (u32, u32)) -> bool {
    p.0 < width && p.1 < height
}

/// Relies on `image::ImageBuffer::new`: an image of the given size whose
/// samples are all zero. It panics when `4 * width`, or that times `height`,
/// overflows `usize`.
#[verifier::external_body]
fn new_canvas(width: u32, height: u32) -> (img: Canvas)
    requires
        4 * width <= usize::MAX,
        4 * (width * height) <= usize::MAX,
    ensures
        image_pixels(img) == Map::new(
            |p: (u32, u32)| in_image(width, height, p),
            |p: (u32, u32)| (0u8, 0u8, 0u8, 0u8),
        ),
{
    Canvas { img: RgbaImage::new(width, height) }
}

/// Relies on `image::ImageBuffer::put_pixel`: it overwrites the one pixel at
/// `(x, y)`, and panics outside the image.
#[verifier::external_body]
fn put_pixel(img: &mut Canvas, x: u32, y: u32, px: (u8, u8, u8, u8))
    requires
        image_pixels(*old(img)).contains_key((x, y)),
    ensures
        image_pixels(*final(img)) == image_pixels(*old(img)).insert((x, y), px),
{
    img.img.put_pixel(x, y, image::Rgba([px.0, px.1, px.2, px.3]));
}

/// Whether `s` parses as one JSON value.
pub uninterp spec fn json_parses(s: Seq<char>) -> bool;

/// Relies on `serde_json::from_str::<serde_json::Value>`: whether it accepts
/// `s` depends on `s` alone.
#[verifier::external_body]
fn parses_as_json(s: &str) -> (r: bool)
    ensures
        r == json_parses(s@),
{
    serde_json::from_str::<serde_json::Value>(s).is_ok()
}

/// Why an image could not be exported.
#[derive(Debug, Clone, Copy, PartialEq, Eq, Structural)]
pub enum ExportError {
    /// The style payload is not JSON.
    InvalidStyle,
    /// The image's buffer cannot be sized in memory.
    SurfaceInit,
    /// A tile that the image needs could not be rendered.
    Render(RenderError),
}

/// Whether zoom `k` fits the output: `round(log2(min(out_w / world_w,
/// out_h / world_h))) >= k` for `k >= 1`, that is `2 * (out / world)^2 >= 4^k`
/// on both axes. A world extent of zero bounds nothing on its axis (an
/// infinite or undefined scale that the other axis decides), but where both
/// axes are `0 / 0` no scale is defined and no zoom beyond 0 fits.
pub open spec fn zoom_fits(out_w: int, out_h: int, world_w: int, world_h: int, k: nat) -> bool {
    &&& !(out_w == 0 && world_w == 0 && out_h == 0 && world_h == 0)
    &&& 2 * (out_w * out_w) >= pow2(2 * k) * (world_w * world_w)
    &&& 2 * (out_h * out_h) >= pow2(2 * k) * (world_h * world_h)
}

/// The largest zoom from `k` up to the deepest one whose successors all fit.
pub open spec fn zoom_from(out_w: int, out_h: int, world_w: int, world_h: int, k: nat) -> nat
    decreases MAX_ZOOM - k,
{
    if k >= MAX_ZOOM || !zoom_fits(out_w, out_h, world_w, world_h, k + 1) {
        k
    } else {
        zoom_from(out_w, out_h, world_w, world_h, k + 1)
    }
}

/// The zoom level whose scale best fits an output of `out_w` x `out_h`:
/// `round(log2(min(out_w / world_w, out_h / world_h)))`, clamped to `0..=10`.
pub open spec fn optimal_zoom(out_w: int, out_h: int, world_w: int, world_h: int) -> nat {
    zoom_from(out_w, out_h, world_w, world_h, 0)
}

/// `ceil(n / 256)`: tiles needed to cover `n` pixels.
pub open spec fn tiles_needed(n: int) -> int {
    (n + 255) / 256
}

/// The pixel that image position `p` takes from the bytes of the tile under
/// it: the four bytes at `4k`, for `k = 256 * (p.1 % 256) + p.0 % 256`.
pub open spec fn tile_byte_pixel(tile: Seq<u8>, p: (u32, u32)) -> (u8, u8, u8, u8) {
    let k = 256 * (p.1 as int % 256) + p.0 as int % 256;
    (tile[4 * k], tile[4 * k + 1], tile[4 * k + 2], tile[4 * k + 3])
}

/// A color as its four channels.
pub open spec fn channels(c: RgbaColor) -> (u8, u8, u8, u8) {
    (c.r, c.g, c.b, c.a)
}

/// The exported image's pixel at `(x, y)` at zoom `z`: the tile pixel that
/// covers it, which is the world sampled at `(x / 2^z, y / 2^z)`.
pub open spec fn export_pixel(world: WorldMap, z: nat, p: (u32, u32)) -> (u8, u8, u8, u8) {
    channels(sample_color(world, p.0 as int / pow2(z) as int, p.1 as int / pow2(z) as int))
}

/// Why exporting `world` at `out_w` x `out_h` fails, if it does.
pub open spec fn export_failure(world: WorldMap, out_w: u32, out_h: u32, style: Option<Seq<char>>) -> Option<ExportError> {
    let z = optimal_zoom(out_w as int, out_h as int, world.metadata.width as int, world.metadata.height as int);
    if style matches Some(s) && !json_parses(s) {
        Some(ExportError::InvalidStyle)
    } else if 4 * out_w > usize::MAX || 4 * (out_w * out_h) > usize::MAX {
        Some(ExportError::SurfaceInit)
    } else if out_w > 0 && out_h > 0 && (tiles_needed(out_w as int) > tiles_for(world.metadata.width as int, z)
        || tiles_needed(out_h as int) > tiles_for(world.metadata.height as int, z)) {
        Some(ExportError::Render(RenderError::OutOfBounds))
    } else {
        None
    }
}

/// A style payload as its characters.
pub open spec fn style_view(style: Option<&str>) -> Option<Seq<char>> {
    match style {
        Some(s) => Some(s@),
        None => None,
    }
}

/// PNG exporter for world maps
pub struct PngExporter {}

impl PngExporter {
    /// Create a new PNG exporter
    pub fn new() -> (r: PngExporter) {
        PngExporter {  }
    }

    /// Renders `world_data` into one `width` x `height` image, ready to be
    /// encoded. The style payload must be JSON and has no other effect.
    pub fn export(
        &self,
        world_data: Arc<WorldMap>,
        width: u32,
        height: u32,
        style_json: Option<&str>,
    ) -> (r: Result<Canvas, ExportError>)
        ensures
            export_failure(*world_data, width, height, style_view(style_json)) matches Some(e)
                ==> r == Err::<Canvas, ExportError>(e),
            export_failure(*world_data, width, height, style_view(style_json)) is None ==> (
            r matches Ok(img) && image_pixels(img) == Map::new(
                |p: (u32, u32)| in_image(width, height, p),
                |p: (u32, u32)|
                    export_pixel(
                        *world_data,
                        optimal_zoom(
                            width as int,
                            height as int,
                            world_data.metadata.width as int,
                            world_data.metadata.height as int,
                        ),
                        p,
                    ),
            )),
    {
        // Calculate the zoom level that best fits the requested dimensions
        let zoom = self.calculate_optimal_zoom(&world_data, width, height);
        // A tile renderer for generating the image
        let renderer = TileRenderer::new(world_data);
        let ghost world = renderer.world();
        // Parse style options (for future use)
        match style_json {
            Some(style) => {
                if !parses_as_json(style) {
                    return Err(ExportError::InvalidStyle);
                }
            },
            None => {},
        }
        assert(width as u128 * height as u128 <= 0xFFFF_FFFF * 0xFFFF_FFFF) by (nonlinear_arith)
            requires
                width <= 0xFFFF_FFFF,
                height <= 0xFFFF_FFFF,
        ;
        if 4 * (width as u128) > usize::MAX as u128 || 4 * (width as u128 * height as u128) > usize::MAX as u128 {
            return Err(ExportError::SurfaceInit);
        }
        // Create the output image
        let mut img = new_canvas(width, height);
        // Calculate how many tiles we need
        let tiles_x: u32 = ((width as u64 + 255) / 256) as u32;
        let tiles_y: u32 = ((height as u64 + 255) / 256) as u32;
        let ghost z = zoom as nat;
        let ghost expected = Map::new(
            |p: (u32, u32)| in_image(width, height, p),
            |p: (u32, u32)| export_pixel(world, z, p),
        );
        proof {
            vstd::arithmetic::power2::lemma_pow2_pos(z);
        }
        // Render each tile and composite into the final image
        let mut ty: u32 = 0;
        while ty < tiles_y
            invariant
                renderer.world() == world,
                world == *world_data,
                zoom <= MAX_ZOOM,
                zoom as nat == z,
                z == optimal_zoom(width as int, height as int, world.metadata.width as int, world.metadata.height as int),
                export_failure(world, width, height, style_view(style_json)) is None
                    || export_failure(world, width, height, style_view(style_json)) == Some(ExportError::Render(RenderError::OutOfBounds)),
                expected == Map::new(
                    |p: (u32, u32)| in_image(width, height, p),
                    |p: (u32, u32)| export_pixel(world, z, p),
                ),
                tiles_x == tiles_needed(width as int),
                tiles_y == tiles_needed(height as int),
                ty <= tiles_y,
                image_pixels(img).dom() == expected.dom(),
                forall|p: (u32, u32)|
                    #[trigger] expected.contains_key(p) && p.1 / 256 < ty ==> image_pixels(img)[p]
                        == expected[p],
                ty > 0 && tiles_x > 0 ==> tiles_x <= renderer.tiles_x(z) && ty <= renderer.tiles_y(z),
            decreases tiles_y - ty,
        {
            let mut tx: u32 = 0;
            while tx < tiles_x
                invariant
                    renderer.world() == world,
                    world == *world_data,
                    zoom <= MAX_ZOOM,
                    zoom as nat == z,
                    z == optimal_zoom(width as int, height as int, world.metadata.width as int, world.metadata.height as int),
                    export_failure(world, width, height, style_view(style_json)) is None
                        || export_failure(world, width, height, style_view(style_json)) == Some(ExportError::Render(RenderError::OutOfBounds)),
                    expected == Map::new(
                        |p: (u32, u32)| in_image(width, height, p),
                        |p: (u32, u32)| export_pixel(world, z, p),
                    ),
                    tiles_x == tiles_needed(width as int),
                    tiles_y == tiles_needed(height as int),
                    ty < tiles_y,
                    tx <= tiles_x,
                    image_pixels(img).dom() == expected.dom(),
                    forall|p: (u32, u32)|
                        #[trigger] expected.contains_key(p) && (p.1 / 256 < ty || (p.1 / 256 == ty
                            && p.0 / 256 < tx)) ==> image_pixels(img)[p] == expected[p],
                    ty > 0 && tiles_x > 0 ==> tiles_x <= renderer.tiles_x(z) && ty <= renderer.tiles_y(z),
                    tx > 0 ==> tx <= renderer.tiles_x(z) && ty < renderer.tiles_y(z),
                decreases tiles_x - tx,
            {
                let tile_coord = TileCoord { zoom, x: tx, y: ty };
                // Render the tile
                let tile_data = match renderer.render_tile(&tile_coord) {
                    Ok(data) => data,
                    Err(e) => {
                        return Err(ExportError::Render(e));
                    },
                };
                // Copy tile data to the output image
                self.copy_tile_to_image(&mut img, &tile_data, tx, ty, width, height);
                proof {
                    assert forall|p: (u32, u32)|
                        p.0 / 256 == tx && p.1 / 256 == ty implies tile_byte_pixel(tile_data@, p)
                        == export_pixel(world, z, p) by {
                        lemma_tile_bytes_pixel(world, z, tx, ty, p);
                    }
                }
                tx = tx + 1;
            }
            ty = ty + 1;
        }
        proof {
            assert(image_pixels(img) =~= expected);
        }
        Ok(img)
    }

    /// Calculate the zoom level that best fits the given dimensions
    fn calculate_optimal_zoom(&self, world_data: &WorldMap, width: u32, height: u32) -> (z: u32)
        ensures
            z == optimal_zoom(
                width as int,
                height as int,
                world_data.metadata.width as int,
                world_data.metadata.height as int,
            ),
            z <= MAX_ZOOM,
    {
        let world_width = world_data.metadata.width as u128;
        let world_height = world_data.metadata.height as u128;
        let out_w = width as u128;
        let out_h = height as u128;
        let ghost (ow, oh, ww, wh) = (width as int, height as int, world_width as int, world_height as int);
        proof {
            assert(out_w * out_w <= 0xFFFF_FFFF * 0xFFFF_FFFF) by (nonlinear_arith)
                requires out_w <= 0xFFFF_FFFF;
            assert(out_h * out_h <= 0xFFFF_FFFF * 0xFFFF_FFFF) by (nonlinear_arith)
                requires out_h <= 0xFFFF_FFFF;
            assert(world_width * world_width <= 0xFFFF_FFFF * 0xFFFF_FFFF) by (nonlinear_arith)
                requires world_width <= 0xFFFF_FFFF;
            assert(world_height * world_height <= 0xFFFF_FFFF * 0xFFFF_FFFF) by (nonlinear_arith)
                requires world_height <= 0xFFFF_FFFF;
        }
        let two_w_sq = 2 * (out_w * out_w);
        let two_h_sq = 2 * (out_h * out_h);
        let world_w_sq = world_width * world_width;
        let world_h_sq = world_height * world_height;
        // Zoom 0 is scale 1, zoom 1 scale 2, and so on; a zoom fits when the
        // scale rounds to at least its power of two.
        if out_w == 0 && out_h == 0 && world_width == 0 && world_height == 0 {
            // 0 / 0 on both axes: no scale is defined
            return 0;
        }
        let mut zoom: u32 = 0;
        let mut four_pow: u128 = 4;  // 4^(zoom + 1)
        proof {
            vstd::arithmetic::power2::lemma2_to64();
        }
        while zoom < MAX_ZOOM
            invariant
                !(ow == 0 && ww == 0 && oh == 0 && wh == 0),
                zoom <= MAX_ZOOM,
                zoom < MAX_ZOOM ==> four_pow == pow2((2 * zoom + 2) as nat),
                four_pow <= 0x40_0000,
                two_w_sq == 2 * (ow * ow),
                two_h_sq == 2 * (oh * oh),
                world_w_sq == ww * ww,
                world_h_sq == wh * wh,
                world_w_sq <= 0xFFFF_FFFF * 0xFFFF_FFFF,
                world_h_sq <= 0xFFFF_FFFF * 0xFFFF_FFFF,
                zoom_from(ow, oh, ww, wh, zoom as nat) == zoom_from(ow, oh, ww, wh, 0),
            ensures
                zoom_from(ow, oh, ww, wh, zoom as nat) == zoom,
            decreases MAX_ZOOM - zoom,
        {
            proof {
                assert(four_pow * world_w_sq <= 0x40_0000 * (0xFFFF_FFFF * 0xFFFF_FFFF)) by (nonlinear_arith)
                    requires
                        four_pow <= 0x40_0000,
                        world_w_sq <= 0xFFFF_FFFF * 0xFFFF_FFFF,
                ;
                assert(four_pow * world_h_sq <= 0x40_0000 * (0xFFFF_FFFF * 0xFFFF_FFFF)) by (nonlinear_arith)
                    requires
                        four_pow <= 0x40_0000,
                        world_h_sq <= 0xFFFF_FFFF * 0xFFFF_FFFF,
                ;
            }
            if two_w_sq < four_pow * world_w_sq || two_h_sq < four_pow * world_h_sq {
                break;
            }
            zoom = zoom + 1;
            if zoom < MAX_ZOOM {
                proof {
                    vstd::arithmetic::power2::lemma2_to64();
                    vstd::arithmetic::power2::lemma_pow2_adds((2 * zoom) as nat, 2);
                    vstd::arithmetic::power2::lemma_pow2_strictly_increases((2 * zoom + 2) as nat, 22);
                }
                four_pow = four_pow * 4;
            }
        }
        zoom
    }

    /// Copy tile data to the output image: each pixel of the image that lies
    /// under tile `(tile_x, tile_y)` takes its four bytes from `tile_data`;
    /// tile pixels outside the image are dropped.
    fn copy_tile_to_image(
        &self,
        img: &mut Canvas,
        tile_data: &Vec<u8>,
        tile_x: u32,
        tile_y: u32,
        img_width: u32,
        img_height: u32,
    )
        requires
            tile_data@.len() == TILE_BYTES,
            tile_x * 256 + 255 <= u32::MAX,
            tile_y * 256 + 255 <= u32::MAX,
            image_pixels(*old(img)).dom() == Set::new(|p: (u32, u32)| in_image(img_width, img_height, p)),
        ensures
            image_pixels(*final(img)).dom() == image_pixels(*old(img)).dom(),
            forall|p: (u32, u32)| #[trigger] image_pixels(*final(img)).contains_key(p) ==>
                image_pixels(*final(img))[p] == if p.0 / 256 == tile_x && p.1 / 256 == tile_y {
                    tile_byte_pixel(tile_data@, p)
                } else {
                    image_pixels(*old(img))[p]
                },
    {
        let start_x: u32 = tile_x * TILE_SIZE;
        let start_y: u32 = tile_y * TILE_SIZE;
        let mut py: u32 = 0;
        while py < TILE_SIZE
            invariant
                py <= 256,
                start_x == tile_x * 256,
                start_y == tile_y * 256,
                tile_x * 256 + 255 <= u32::MAX,
                tile_y * 256 + 255 <= u32::MAX,
                tile_data@.len() == TILE_BYTES,
                image_pixels(*old(img)).dom() == Set::new(|p: (u32, u32)| in_image(img_width, img_height, p)),
                image_pixels(*img).dom() == image_pixels(*old(img)).dom(),
                forall|p: (u32, u32)| #[trigger] image_pixels(*img).contains_key(p) ==>
                    image_pixels(*img)[p] == if p.0 / 256 == tile_x && p.1 / 256 == tile_y && p.1 % 256 < py {
                        tile_byte_pixel(tile_data@, p)
                    } else {
                        image_pixels(*old(img))[p]
                    },
            decreases 256 - py,
        {
            let mut px: u32 = 0;
            while px < TILE_SIZE
                invariant
                    py < 256,
                    px <= 256,
                    start_x == tile_x * 256,
                    start_y == tile_y * 256,
                    tile_x * 256 + 255 <= u32::MAX,
                    tile_y * 256 + 255 <= u32::MAX,
                    tile_data@.len() == TILE_BYTES,
                    image_pixels(*old(img)).dom() == Set::new(|p: (u32, u32)| in_image(img_width, img_height, p)),
                    image_pixels(*img).dom() == image_pixels(*old(img)).dom(),
                    forall|p: (u32, u32)| #[trigger] image_pixels(*img).contains_key(p) ==>
                        image_pixels(*img)[p] == if p.0 / 256 == tile_x && p.1 / 256 == tile_y && (p.1 % 256 < py
                            || (p.1 % 256 == py && p.0 % 256 < px)) {
                            tile_byte_pixel(tile_data@, p)
                        } else {
                            image_pixels(*old(img))[p]
                        },
                decreases 256 - px,
            {
                let img_x = start_x + px;
                let img_y = start_y + py;
                // Skip pixels outside the image bounds
                if img_x < img_width && img_y < img_height {
                    let tile_idx = ((py * TILE_SIZE + px) * 4) as usize;
                    let pixel = (tile_data[tile_idx], tile_data[tile_idx + 1], tile_data[tile_idx + 2], tile_data[tile_idx + 3]);
                    proof {
                        assert(img_x as int / 256 == tile_x && img_y as int / 256 == tile_y);
                        assert(img_x as int % 256 == px && img_y as int % 256 == py);
                        assert(pixel == tile_byte_pixel(tile_data@, (img_x, img_y)));
                    }
                    put_pixel(img, img_x, img_y, pixel);
                }
                px = px + 1;
            }
            py = py + 1;
        }
    }
}

/// A rendered tile's bytes, read at the image pixel `p` that lies under the
/// tile, are the export pixel of `p`.
proof fn lemma_tile_bytes_pixel(world: WorldMap, z: nat, tx: u32, ty: u32, p: (u32, u32))
    requires
        z <= MAX_ZOOM,
        p.0 / 256 == tx,
        p.1 / 256 == ty,
    ensures
        tile_byte_pixel(tile_bytes(world, TileCoord { zoom: z as u32, x: tx, y: ty }), p)
            == export_pixel(world, z, p),
{
    let k = 256 * (p.1 as int % 256) + p.0 as int % 256;
    let c = TileCoord { zoom: z as u32, x: tx, y: ty };
    assert(0 <= k < 65536);
    assert(k % 256 == p.0 as int % 256 && k / 256 == p.1 as int % 256);
    assert(tx * 256 + k % 256 == p.0 && ty * 256 + k / 256 == p.1);
    assert((4 * k) / 4 == k && (4 * k + 1) / 4 == k && (4 * k + 2) / 4 == k && (4 * k + 3) / 4 == k);
    assert((4 * k) % 4 == 0 && (4 * k + 1) % 4 == 1 && (4 * k + 2) % 4 == 2 && (4 * k + 3) % 4 == 3);
    assert(tile_pixel(world, c, k) == sample_color(
        world,
        p.0 as int / pow2(z) as int,
        p.1 as int / pow2(z) as int,
    ));
}

} // verus!
