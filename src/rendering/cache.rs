//! An address-keyed store of rendered tiles.
use std::collections::HashMap;

use vstd::prelude::*;

use crate::rendering::tile::{RenderError, TileCoord, TileRenderer};

verus! {

broadcast use vstd::std_specs::hash::group_hash_axioms;

/// The key under which tile `c` is stored: zoom, x and y packed into 128 bits.
pub open spec fn tile_key(c: TileCoord) -> u128 {
    (c.zoom as int * 0x1_0000_0000_0000_0000 + c.x as int * 0x1_0000_0000 + c.y as int) as u128
}

proof fn lemma_tile_key_injective(a: TileCoord, b: TileCoord)
    ensures
        tile_key(a) == tile_key(b) ==> a == b,
{
}

/// Store of previously rendered tile buffers, keyed by tile address. It grows
/// for the life of its owner: nothing is evicted.
pub struct TileCache {
    tiles: HashMap<u128, Vec<u8>>,
}

impl View for TileCache {
    type V = Map<TileCoord, Seq<u8>>;

    closed spec fn view(&self) -> Map<TileCoord, Seq<u8>> {
        Map::new(
            |c: TileCoord| self.tiles@.contains_key(tile_key(c)),
            |c: TileCoord| self.tiles@[tile_key(c)]@,
        )
    }
}

impl TileCache {
    /// An empty cache.
    pub fn new() -> (r: TileCache)
        ensures
            r@ == Map::<TileCoord, Seq<u8>>::empty(),
    {
        let r = TileCache { tiles: HashMap::new() };
        assert(r@ =~= Map::<TileCoord, Seq<u8>>::empty());
        r
    }

    fn key(c: &TileCoord) -> (k: u128)
        ensures
            k == tile_key(*c),
    {
        c.zoom as u128 * 0x1_0000_0000_0000_0000 + c.x as u128 * 0x1_0000_0000 + c.y as u128
    }

    /// The tile stored for `c`, if any.
    pub fn get(&self, c: &TileCoord) -> (r: Option<&Vec<u8>>)
        ensures
            r is Some <==> self@.contains_key(*c),
            r matches Some(v) ==> v@ == self@[*c],
    {
        self.tiles.get(&Self::key(c))
    }

    /// Stores `tile` for `c`, replacing what was stored for it.
    pub fn put(&mut self, c: TileCoord, tile: Vec<u8>)
        ensures
            final(self)@ == old(self)@.insert(c, tile@),
    {
        let k = Self::key(&c);
        self.tiles.insert(k, tile);
        proof {
            assert forall|d: TileCoord| #[trigger] tile_key(d) == k implies d == c by {
                lemma_tile_key_injective(d, c);
            }
            assert(self@ =~= old(self)@.insert(c, tile@));
        }
    }
}

/// Caching is idempotent: once the tile of a successful render of `c` is put
/// into a cache, getting `c` from it hands back exactly the bytes that a fresh
/// render of `c` gives.
pub proof fn lemma_cache_idempotent(
    r: &TileRenderer,
    cache: Map<TileCoord, Seq<u8>>,
    c: TileCoord,
    rendered: Seq<u8>,
)
    requires
        r.spec_render(c) == Ok::<Seq<u8>, RenderError>(rendered),
    ensures
        cache.insert(c, rendered).contains_key(c),
        r.spec_render(c) == Ok::<Seq<u8>, RenderError>(cache.insert(c, rendered)[c]),
{
}

} // verus!
