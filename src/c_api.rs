//! Session state behind the C interface: a renderer over one project's world
//! with its tile cache, and the error codes handed across the boundary.
use std::sync::Arc;

use vstd::prelude::*;
use vstd::string::StringSliceAdditionalSpecFns;

use crate::data::WorldMap;
use crate::import::azgaar::{bytes_contain, str_contains};
use crate::rendering::cache::TileCache;
use crate::rendering::tile::{RenderError, TileCoord, TileRenderer, TILE_SIZE};

verus! {

/// Error codes for the C API
#[derive(Debug, Clone, Copy, PartialEq, Eq, Structural)]
pub enum WfError {
    Success,
    InvalidArg,
    Io,
    Parse,
    Internal,
}

/// Whether `message` mentions `word`.
pub open spec fn mentions(message: &str, word: &str) -> bool {
    bytes_contain(message.spec_bytes(), word.spec_bytes())
}

impl WfError {
    /// The code for a failure described by `message`: an invalid argument, an
    /// I/O failure, a parse failure, or else an internal one, in that order.
    pub fn from_message(message: &str) -> (r: WfError)
        ensures
            r == if mentions(message, "Invalid argument") {
                WfError::InvalidArg
            } else if mentions(message, "IO") || mentions(message, "file") {
                WfError::Io
            } else if mentions(message, "parse") || mentions(message, "JSON") {
                WfError::Parse
            } else {
                WfError::Internal
            },
    {
        if str_contains(message, "Invalid argument") {
            WfError::InvalidArg
        } else if str_contains(message, "IO") || str_contains(message, "file") {
            WfError::Io
        } else if str_contains(message, "parse") || str_contains(message, "JSON") {
            WfError::Parse
        } else {
            WfError::Internal
        }
    }

    /// The numeric code of this error across the C boundary.
    pub fn code(&self) -> (r: i32)
        ensures
            r as int == match *self {
                WfError::Success => 0int,
                WfError::InvalidArg => 1,
                WfError::Io => 2,
                WfError::Parse => 3,
                WfError::Internal => 255,
            },
    {
        match self {
            WfError::Success => 0,
            WfError::InvalidArg => 1,
            WfError::Io => 2,
            WfError::Parse => 3,
            WfError::Internal => 255,
        }
    }
}

/// Opaque context structure
pub struct WfContext {
    _private: (),
}

impl WfContext {
    pub fn new() -> (r: WfContext) {
        WfContext { _private: () }
    }
}

/// Whether a caller's output buffer has the one shape served: a 256x256 RGBA
/// tile, rows of 1024 bytes.
pub open spec fn tile_buffer_shape_ok(stride: i32, w: i32, h: i32) -> bool {
    w == 256 && h == 256 && stride == 1024
}

/// A rendering session: a tile renderer over one world, with its tile cache.
pub struct WfRender {
    renderer: TileRenderer,
    tile_cache: TileCache,
}

impl WfRender {
    /// The renderer of this session.
    pub closed spec fn renderer(&self) -> TileRenderer {
        self.renderer
    }

    /// The tiles cached so far.
    pub closed spec fn cache(&self) -> Map<TileCoord, Seq<u8>> {
        self.tile_cache@
    }

    /// Every cached tile is the tile a fresh render of its address gives.
    #[verifier::type_invariant]
    spec fn inv(&self) -> bool {
        forall|c: TileCoord| #[trigger]
            self.tile_cache@.contains_key(c) ==> self.renderer.spec_render(c) == Ok::<
                Seq<u8>,
                RenderError,
            >(self.tile_cache@[c])
    }

    /// Create a session rendering `project`, with an empty cache.
    pub fn new(project: Arc<WorldMap>) -> (r: WfRender)
        ensures
            r.renderer().world() == *project,
            r.cache() == Map::<TileCoord, Seq<u8>>::empty(),
    {
        WfRender { renderer: TileRenderer::new(project), tile_cache: TileCache::new() }
    }

    /// The tile cached for `coord`, if any; a cached tile is always the tile a
    /// fresh render of `coord` gives.
    pub fn cached(&self, coord: &TileCoord) -> (r: Option<&Vec<u8>>)
        ensures
            r is Some <==> self.cache().contains_key(*coord),
            r matches Some(v) ==> self.renderer().spec_render(*coord) == Ok::<
                Seq<u8>,
                RenderError,
            >(v@),
    {
        proof {
            use_type_invariant(self);
        }
        self.tile_cache.get(coord)
    }

    /// Render tile `coord` into a caller's buffer of the given shape, serving it
    /// from the cache when it was rendered before and caching it otherwise.
    /// Fails with `InvalidArg` for any buffer shape but 256x256 RGBA, and with
    /// `Internal` where the tile cannot be rendered.
    pub fn render_tile(&mut self, coord: TileCoord, stride: i32, w: i32, h: i32) -> (r: Result<
        Vec<u8>,
        WfError,
    >)
        ensures
            final(self).renderer() == old(self).renderer(),
            !tile_buffer_shape_ok(stride, w, h) ==> r == Err::<Vec<u8>, WfError>(
                WfError::InvalidArg,
            ),
            tile_buffer_shape_ok(stride, w, h) ==> match old(self).renderer().spec_render(coord) {
                Ok(bytes) => r matches Ok(v) && v@ == bytes,
                Err(_) => r == Err::<Vec<u8>, WfError>(WfError::Internal),
            },
            final(self).cache() == match r {
                Ok(v) => old(self).cache().insert(coord, v@),
                Err(_) => old(self).cache(),
            },
    {
        proof {
            use_type_invariant(&*self);
        }
        if w != TILE_SIZE as i32 || h != TILE_SIZE as i32 || stride != TILE_SIZE as i32 * 4 {
            return Err(WfError::InvalidArg);  // Only 256x256 RGBA tiles are served
        }
        // Check cache first
        match self.tile_cache.get(&coord) {
            Some(cached_data) => {
                let out = copy_bytes(cached_data);
                proof {
                    assert(self.tile_cache@.insert(coord, out@) =~= self.tile_cache@);
                }
                return Ok(out);
            },
            None => {},
        }
        let tile_data = match self.renderer.render_tile(&coord) {
            Ok(data) => data,
            Err(_) => {
                return Err(WfError::Internal);
            },
        };
        let out = copy_bytes(&tile_data);
        // Cache the tile
        let mut cache = TileCache::new();
        std::mem::swap(&mut cache, &mut self.tile_cache);
        cache.put(coord, tile_data);
        self.tile_cache = cache;
        Ok(out)
    }
}

/// A copy of `src`.
fn copy_bytes(src: &Vec<u8>) -> (r: Vec<u8>)
    ensures
        r@ == src@,
{
    let mut out: Vec<u8> = Vec::with_capacity(src.len());
    let mut i: usize = 0;
    while i < src.len()
        invariant
            i <= src@.len(),
            out@ == src@.subrange(0, i as int),
        decreases src@.len() - i,
    {
        out.push(src[i]);
        i = i + 1;
        proof {
            assert(out@ =~= src@.subrange(0, i as int));
        }
    }
    proof {
        assert(out@ =~= src@);
    }
    out
}

} // verus!
