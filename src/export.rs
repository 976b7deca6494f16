//! Export of world maps to files: the known formats and the registry that
//! picks one by file extension. Writing the files themselves is left to the
//! caller.

pub mod png;

use vstd::prelude::*;
use vstd::string::StringSliceAdditionalSpecFns;

verus! {

/// JSON exporter for World Foundry native format
pub struct JsonExporter;

/// PNG image exporter
pub struct PngExporter {
    pub width: u32,
    pub height: u32,
}

impl PngExporter {
    pub fn new(width: u32, height: u32) -> (r: PngExporter)
        ensures
            r.width == width,
            r.height == height,
    {
        PngExporter { width, height }
    }
}

/// GeoJSON exporter for geographic data
pub struct GeoJsonExporter;

/// SVG vector exporter
pub struct SvgExporter {
    pub width: u32,
    pub height: u32,
}

impl SvgExporter {
    pub fn new(width: u32, height: u32) -> (r: SvgExporter)
        ensures
            r.width == width,
            r.height == height,
    {
        SvgExporter { width, height }
    }
}

/// One of the known export formats.
pub enum MapExporter {
    Json(JsonExporter),
    Png(PngExporter),
    GeoJson(GeoJsonExporter),
    Svg(SvgExporter),
}

impl MapExporter {
    pub open spec fn spec_file_extension(&self) -> &'static str {
        match self {
            MapExporter::Json(_) => "json",
            MapExporter::Png(_) => "png",
            MapExporter::GeoJson(_) => "geojson",
            MapExporter::Svg(_) => "svg",
        }
    }

    pub open spec fn spec_format_name(&self) -> &'static str {
        match self {
            MapExporter::Json(_) => "World Foundry JSON",
            MapExporter::Png(_) => "PNG Image",
            MapExporter::GeoJson(_) => "GeoJSON",
            MapExporter::Svg(_) => "SVG Vector",
        }
    }

    /// Get the file extension this exporter produces
    pub fn file_extension(&self) -> (r: &'static str)
        ensures
            r == self.spec_file_extension(),
    {
        match self {
            MapExporter::Json(_) => "json",
            MapExporter::Png(_) => "png",
            MapExporter::GeoJson(_) => "geojson",
            MapExporter::Svg(_) => "svg",
        }
    }

    /// Get a human-readable name for this export format
    pub fn format_name(&self) -> (r: &'static str)
        ensures
            r == self.spec_format_name(),
    {
        match self {
            MapExporter::Json(_) => "World Foundry JSON",
            MapExporter::Png(_) => "PNG Image",
            MapExporter::GeoJson(_) => "GeoJSON",
            MapExporter::Svg(_) => "SVG Vector",
        }
    }
}

/// Whether two strings are the same.
pub(crate) fn str_equal(a: &str, b: &str) -> (r: bool)
    ensures
        r == (a@ == b@),
{
    let ab = a.as_bytes();
    let bb = b.as_bytes();
    proof {
        vstd::utf8::encode_utf8_decode_utf8(a@);
        vstd::utf8::encode_utf8_decode_utf8(b@);
    }
    if ab.len() != bb.len() {
        return false;
    }
    let mut i: usize = 0;
    while i < ab.len()
        invariant
            ab@ == a.spec_bytes(),
            bb@ == b.spec_bytes(),
            ab@.len() == bb@.len(),
            i <= ab@.len(),
            ab@.subrange(0, i as int) == bb@.subrange(0, i as int),
        decreases ab@.len() - i,
    {
        if ab[i] != bb[i] {
            assert(ab@[i as int] != bb@[i as int]);
            return false;
        }
        i = i + 1;
        assert(ab@.subrange(0, i as int) =~= ab@.subrange(0, i as int - 1).push(ab@[i as int - 1]));
        assert(bb@.subrange(0, i as int) =~= bb@.subrange(0, i as int - 1).push(bb@[i as int - 1]));
    }
    assert(ab@ =~= ab@.subrange(0, i as int));
    assert(bb@ =~= bb@.subrange(0, i as int));
    true
}

/// Registry of available exporters, in the order they were registered.
pub struct ExporterRegistry {
    exporters: Vec<MapExporter>,
}

impl View for ExporterRegistry {
    type V = Seq<MapExporter>;

    closed spec fn view(&self) -> Seq<MapExporter> {
        self.exporters@
    }
}

/// Whether exporter `i` of `s` produces files with `extension`.
pub open spec fn exports_to(s: Seq<MapExporter>, i: int, extension: Seq<char>) -> bool {
    s[i].spec_file_extension()@ == extension
}

/// The built-in exporters: JSON, PNG (2048x1024), GeoJSON and SVG (2048x1024).
pub open spec fn builtin_exporters() -> Seq<MapExporter> {
    seq![
        MapExporter::Json(JsonExporter),
        MapExporter::Png(PngExporter { width: 2048, height: 1024 }),
        MapExporter::GeoJson(GeoJsonExporter),
        MapExporter::Svg(SvgExporter { width: 2048, height: 1024 }),
    ]
}

impl ExporterRegistry {
    /// A registry with the built-in exporters.
    pub fn new() -> (r: ExporterRegistry)
        ensures
            r@ == builtin_exporters(),
    {
        let mut registry = ExporterRegistry { exporters: Vec::new() };
        // Register built-in exporters
        registry.register(MapExporter::Json(JsonExporter));
        registry.register(MapExporter::Png(PngExporter::new(2048, 1024)));
        registry.register(MapExporter::GeoJson(GeoJsonExporter));
        registry.register(MapExporter::Svg(SvgExporter::new(2048, 1024)));
        assert(registry@ =~= builtin_exporters());
        registry
    }

    pub fn register(&mut self, exporter: MapExporter)
        ensures
            final(self)@ == old(self)@.push(exporter),
    {
        self.exporters.push(exporter);
    }

    /// The first registered exporter that produces files with `extension`.
    pub fn find_exporter(&self, extension: &str) -> (r: Option<&MapExporter>)
        ensures
            r is None <==> forall|i: int| 0 <= i < self@.len() ==> !exports_to(self@, i, extension@),
            r matches Some(e) ==> exists|i: int|
                0 <= i < self@.len() && *e == self@[i] && exports_to(self@, i, extension@) && forall|
                    j: int,
                | 0 <= j < i ==> !exports_to(self@, j, extension@),
    {
        let mut i: usize = 0;
        while i < self.exporters.len()
            invariant
                i <= self@.len(),
                forall|j: int| 0 <= j < i ==> !exports_to(self@, j, extension@),
            decreases self@.len() - i,
        {
            let e = &self.exporters[i];
            if str_equal(e.file_extension(), extension) {
                assert(exports_to(self@, i as int, extension@));
                return Some(e);
            }
            i = i + 1;
        }
        None
    }

    /// The extension and name of each registered format, in order.
    pub fn list_formats(&self) -> (r: Vec<(&'static str, &'static str)>)
        ensures
            r@.len() == self@.len(),
            forall|i: int|
                0 <= i < r@.len() ==> #[trigger] r@[i] == (
                    self@[i].spec_file_extension(),
                    self@[i].spec_format_name(),
                ),
    {
        let mut formats: Vec<(&'static str, &'static str)> = Vec::new();
        let mut i: usize = 0;
        while i < self.exporters.len()
            invariant
                i <= self@.len(),
                formats@.len() == i,
                forall|j: int|
                    0 <= j < i ==> #[trigger] formats@[j] == (
                        self@[j].spec_file_extension(),
                        self@[j].spec_format_name(),
                    ),
            decreases self@.len() - i,
        {
            let e = &self.exporters[i];
            formats.push((e.file_extension(), e.format_name()));
            i = i + 1;
        }
        formats
    }
}

impl Default for ExporterRegistry {
    fn default() -> (r: ExporterRegistry)
        ensures
            r@ == builtin_exporters(),
    {
        ExporterRegistry::new()
    }
}

} // verus!
