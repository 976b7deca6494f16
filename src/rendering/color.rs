//! Terrain classification: from a cell's height, temperature and precipitation
//! to a display color.
//!
//! Attribute values are fixed-point thousandths: `UNIT` (1000) stands for 1.0,
//! so the classification thresholds 0.2, 0.3, 0.6 and 0.8 are 200, 300, 600 and
//! 800. Every channel formula is evaluated exactly, in rational arithmetic,
//! then floored to an integer and saturated into `0..=255`.
use vstd::prelude::*;

use crate::rendering::tile::RgbaColor;

verus! {

/// Fixed-point scale of cell attributes: `UNIT` stands for 1.0.
pub const UNIT: i32 = 1000;

/// Saturates an integer into the range of an 8-bit channel.
pub open spec fn clamp_channel(v: int) -> int {
    if v < 0 {
        0
    } else if v > 255 {
        255
    } else {
        v
    }
}

/// `base * num / den`, floored, then saturated into `0..=255`.
pub open spec fn scaled_channel(base: u8, num: int, den: int) -> u8 {
    clamp_channel((base as int * num) / den) as u8
}

pub open spec fn spec_min(a: int, b: int) -> int {
    if a < b {
        a
    } else {
        b
    }
}

/// Linear blend of two channels with weight `k` out of 100 on the second.
pub open spec fn lerp_channel(c1: u8, c2: u8, k: int) -> u8 {
    ((c1 as int * (100 - k) + c2 as int * k) / 100) as u8
}

/// Color palette for rendering different terrain types
pub struct ColorPalette {
    // Water colors (deep to shallow)
    pub deep_water: RgbaColor,
    pub shallow_water: RgbaColor,
    // Land colors
    pub desert: RgbaColor,
    pub grassland: RgbaColor,
    pub forest: RgbaColor,
    pub mountain: RgbaColor,
    pub snow: RgbaColor,
}

impl ColorPalette {
    /// Water: deep water below 0.1, then a blend towards shallow water with
    /// factor `(height - 0.1) / 0.1` clamped to `[0, 1]`.
    pub open spec fn spec_water(&self, height: int) -> RgbaColor {
        if height < 100 {
            self.deep_water
        } else {
            let k = spec_min(height - 100, 100);
            RgbaColor {
                r: lerp_channel(self.deep_water.r, self.shallow_water.r, k),
                g: lerp_channel(self.deep_water.g, self.shallow_water.g, k),
                b: lerp_channel(self.deep_water.b, self.shallow_water.b, k),
                a: lerp_channel(self.deep_water.a, self.shallow_water.a, k),
            }
        }
    }

    /// Desert: `intensity = min(temperature * (1 - precipitation), 1)`, in
    /// millionths; channels scaled by `0.7 + 0.3i`, `0.8 + 0.2i`, `0.9 + 0.1i`.
    pub open spec fn spec_desert(&self, temperature: int, precipitation: int) -> RgbaColor {
        let i = spec_min(temperature * (1000 - precipitation), 1_000_000);
        RgbaColor {
            r: scaled_channel(self.desert.r, 7_000_000 + 3 * i, 10_000_000),
            g: scaled_channel(self.desert.g, 8_000_000 + 2 * i, 10_000_000),
            b: scaled_channel(self.desert.b, 9_000_000 + i, 10_000_000),
            a: 255,
        }
    }

    /// Snow: blue tint `(1 - temperature) * 0.3`; red and green scaled by
    /// `1 - tint * 0.1`, blue by `1 - tint * 0.05`.
    pub open spec fn spec_snow(&self, temperature: int) -> RgbaColor {
        RgbaColor {
            r: scaled_channel(self.snow.r, 97_000 + 3 * temperature, 100_000),
            g: scaled_channel(self.snow.g, 97_000 + 3 * temperature, 100_000),
            b: scaled_channel(self.snow.b, 197_000 + 3 * temperature, 200_000),
            a: 255,
        }
    }

    /// Mountain: `darkness = min((height - 0.8) / 0.2, 1)`, in two-hundredths;
    /// every channel scaled by `1 - darkness * 0.3`.
    pub open spec fn spec_mountain(&self, height: int) -> RgbaColor {
        let d = spec_min(height - 800, 200);
        RgbaColor {
            r: scaled_channel(self.mountain.r, 2000 - 3 * d, 2000),
            g: scaled_channel(self.mountain.g, 2000 - 3 * d, 2000),
            b: scaled_channel(self.mountain.b, 2000 - 3 * d, 2000),
            a: 255,
        }
    }

    /// Forest: `lushness = min(precipitation, 1)`; red scaled by
    /// `1 - 0.2l`, green by `0.8 + 0.2l`, blue by `1 - 0.1l`.
    pub open spec fn spec_forest(&self, precipitation: int) -> RgbaColor {
        let l = spec_min(precipitation, 1000);
        RgbaColor {
            r: scaled_channel(self.forest.r, 5000 - l, 5000),
            g: scaled_channel(self.forest.g, 4000 + l, 5000),
            b: scaled_channel(self.forest.b, 10_000 - l, 10_000),
            a: 255,
        }
    }

    /// Grassland: `dryness = 1 - min(precipitation, 1)`; red raised by
    /// `dryness * 50` (saturating), green kept, blue scaled by `1 - dryness * 0.5`.
    pub open spec fn spec_grassland(&self, precipitation: int) -> RgbaColor {
        let d = 1000 - spec_min(precipitation, 1000);
        RgbaColor {
            r: clamp_channel((1000 * self.grassland.r as int + 50 * d) / 1000) as u8,
            g: self.grassland.g,
            b: scaled_channel(self.grassland.b, 2000 - d, 2000),
            a: 255,
        }
    }

    /// The classification chain, in its fixed order of priority.
    pub open spec fn spec_classify(&self, height: int, temperature: int, precipitation: int) -> RgbaColor {
        if height < 200 {
            self.spec_water(height)
        } else if temperature > 800 && precipitation < 300 {
            self.spec_desert(temperature, precipitation)
        } else if temperature < 300 {
            self.spec_snow(temperature)
        } else if height > 800 {
            self.spec_mountain(height)
        } else if precipitation > 600 {
            self.spec_forest(precipitation)
        } else {
            self.spec_grassland(precipitation)
        }
    }

    /// The standard palette.
    pub open spec fn spec_default() -> ColorPalette {
        ColorPalette {
            deep_water: RgbaColor { r: 25, g: 55, b: 109, a: 255 },
            shallow_water: RgbaColor { r: 65, g: 105, b: 225, a: 255 },
            desert: RgbaColor { r: 238, g: 203, b: 173, a: 255 },
            grassland: RgbaColor { r: 124, g: 252, b: 0, a: 255 },
            forest: RgbaColor { r: 34, g: 139, b: 34, a: 255 },
            mountain: RgbaColor { r: 139, g: 137, b: 137, a: 255 },
            snow: RgbaColor { r: 255, g: 250, b: 250, a: 255 },
        }
    }
}

/// Computes `scaled_channel(base, num, den)`.
fn scale_channel(base: u8, num: i128, den: i128) -> (r: u8)
    requires
        0 < den <= 10_000_000,
        -0x1_0000_0000_0000_0000_0000_0000 <= num <= 0x1_0000_0000_0000_0000_0000_0000,
    ensures
        r == scaled_channel(base, num as int, den as int),
{
    if num <= 0 {
        proof {
            lemma_nonpositive_quotient(base as int, num as int, den as int);
        }
        return 0;
    }
    assert(0 <= base as int * num as int <= 255 * 0x1_0000_0000_0000_0000_0000_0000) by (nonlinear_arith)
        requires
            0 < num <= 0x1_0000_0000_0000_0000_0000_0000,
            0 <= base <= 255,
    ;
    let prod: i128 = base as i128 * num;
    let q: u128 = (prod as u128) / (den as u128);
    if q > 255 {
        255
    } else {
        q as u8
    }
}

proof fn lemma_nonpositive_quotient(base: int, num: int, den: int)
    requires
        0 <= base,
        num <= 0,
        0 < den,
    ensures
        clamp_channel((base * num) / den) == 0,
{
    assert(base * num <= 0) by (nonlinear_arith)
        requires
            0 <= base,
            num <= 0,
    ;
    assert((base * num) / den <= 0) by (nonlinear_arith)
        requires
            base * num <= 0,
            0 < den,
    ;
}

proof fn lemma_lerp_bounded(c1: u8, c2: u8, k: int)
    requires
        0 <= k <= 100,
    ensures
        0 <= (c1 as int * (100 - k) + c2 as int * k) / 100 <= 255,
{
    let s = c1 as int * (100 - k) + c2 as int * k;
    assert(0 <= s <= 25500) by (nonlinear_arith)
        requires
            0 <= k <= 100,
            0 <= c1 <= 255,
            0 <= c2 <= 255,
            s == c1 as int * (100 - k) + c2 as int * k,
    ;
}

/// Computes `lerp_channel(c1, c2, k)`.
fn lerp(c1: u8, c2: u8, k: i32) -> (r: u8)
    requires
        0 <= k <= 100,
    ensures
        r == lerp_channel(c1, c2, k as int),
        r as int == (c1 as int * (100 - k) + c2 as int * k) / 100,
{
    proof {
        lemma_lerp_bounded(c1, c2, k as int);
    }
    let s: u32 = c1 as u32 * (100 - k) as u32 + c2 as u32 * k as u32;
    (s / 100) as u8
}

impl ColorPalette {
    /// Get water color based on depth (height < 0.2)
    pub fn water_color(&self, height: i32) -> (c: RgbaColor)
        ensures
            c == self.spec_water(height as int),
    {
        if height < 100 {
            self.deep_water
        } else {
            let k: i32 = if height - 100 < 100 {
                height - 100
            } else {
                100
            };
            RgbaColor::new(
                lerp(self.deep_water.r, self.shallow_water.r, k),
                lerp(self.deep_water.g, self.shallow_water.g, k),
                lerp(self.deep_water.b, self.shallow_water.b, k),
                lerp(self.deep_water.a, self.shallow_water.a, k),
            )
        }
    }

    /// Get desert color based on temperature and precipitation
    pub fn desert_color(&self, temperature: i32, precipitation: i32) -> (c: RgbaColor)
        ensures
            c == self.spec_desert(temperature as int, precipitation as int),
    {
        let t = temperature as i128;
        let dry = 1000 - precipitation as i128;
        assert(-0x1_0000_0000_0000_0000 <= t * dry <= 0x1_0000_0000_0000_0000) by (nonlinear_arith)
            requires
                -0x8000_0000 <= t < 0x8000_0000,
                -0x8000_0000 <= dry <= 0x8000_0000 + 1000,
        ;
        let raw: i128 = t * dry;
        let i: i128 = if raw < 1_000_000 {
            raw
        } else {
            1_000_000
        };
        RgbaColor::rgb(
            scale_channel(self.desert.r, 7_000_000 + 3 * i, 10_000_000),
            scale_channel(self.desert.g, 8_000_000 + 2 * i, 10_000_000),
            scale_channel(self.desert.b, 9_000_000 + i, 10_000_000),
        )
    }

    /// Get snow/ice color based on temperature
    pub fn snow_color(&self, temperature: i32) -> (c: RgbaColor)
        ensures
            c == self.spec_snow(temperature as int),
    {
        let t = temperature as i128;
        RgbaColor::rgb(
            scale_channel(self.snow.r, 97_000 + 3 * t, 100_000),
            scale_channel(self.snow.g, 97_000 + 3 * t, 100_000),
            scale_channel(self.snow.b, 197_000 + 3 * t, 200_000),
        )
    }

    /// Get mountain color based on height
    pub fn mountain_color(&self, height: i32) -> (c: RgbaColor)
        ensures
            c == self.spec_mountain(height as int),
    {
        let h = height as i128;
        let d: i128 = if h - 800 < 200 {
            h - 800
        } else {
            200
        };
        RgbaColor::rgb(
            scale_channel(self.mountain.r, 2000 - 3 * d, 2000),
            scale_channel(self.mountain.g, 2000 - 3 * d, 2000),
            scale_channel(self.mountain.b, 2000 - 3 * d, 2000),
        )
    }

    /// Get forest color based on precipitation
    pub fn forest_color(&self, precipitation: i32) -> (c: RgbaColor)
        ensures
            c == self.spec_forest(precipitation as int),
    {
        let l: i128 = if precipitation < 1000 {
            precipitation as i128
        } else {
            1000
        };
        RgbaColor::rgb(
            scale_channel(self.forest.r, 5000 - l, 5000),
            scale_channel(self.forest.g, 4000 + l, 5000),
            scale_channel(self.forest.b, 10_000 - l, 10_000),
        )
    }

    /// Get grassland color based on precipitation
    pub fn grassland_color(&self, precipitation: i32) -> (c: RgbaColor)
        ensures
            c == self.spec_grassland(precipitation as int),
    {
        let d: i128 = if precipitation < 1000 {
            1000 - precipitation as i128
        } else {
            0
        };
        let raised: i128 = (1000 * self.grassland.r as i128 + 50 * d) / 1000;
        let r: u8 = if raised > 255 {
            255
        } else {
            raised as u8
        };
        RgbaColor::rgb(r, self.grassland.g, scale_channel(self.grassland.b, 2000 - d, 2000))
    }

    /// Classifies a cell's attributes, in the fixed order of priority:
    /// water, desert, snow, mountain, forest, grassland.
    pub fn classify(&self, height: i32, temperature: i32, precipitation: i32) -> (c: RgbaColor)
        ensures
            c == self.spec_classify(height as int, temperature as int, precipitation as int),
    {
        if height < 200 {
            self.water_color(height)
        } else if temperature > 800 && precipitation < 300 {
            self.desert_color(temperature, precipitation)
        } else if temperature < 300 {
            self.snow_color(temperature)
        } else if height > 800 {
            self.mountain_color(height)
        } else if precipitation > 600 {
            self.forest_color(precipitation)
        } else {
            self.grassland_color(precipitation)
        }
    }
}

/// Classification is total: every attribute triple, within `[0, 1]^3` or
/// not, has a color, and each of its channels is the value of its branch's
/// formula saturated into `0..=255`, never a wrapped one.
pub proof fn lemma_classify_total(p: ColorPalette, height: int, temperature: int, precipitation: int)
    ensures
        ({
            let c = p.spec_classify(height, temperature, precipitation);
            &&& 0 <= c.r <= 255
            &&& 0 <= c.g <= 255
            &&& 0 <= c.b <= 255
            &&& 0 <= c.a <= 255
        }),
        forall|base: u8, num: int, den: int|
            den > 0 ==> #[trigger] scaled_channel(base, num, den) as int == clamp_channel(
                (base as int * num) / den,
            ),
{
}

impl Default for ColorPalette {
    fn default() -> (p: ColorPalette)
        ensures
            p == ColorPalette::spec_default(),
    {
        ColorPalette {
            deep_water: RgbaColor::rgb(25, 55, 109),  // Deep blue
            shallow_water: RgbaColor::rgb(65, 105, 225),  // Royal blue
            desert: RgbaColor::rgb(238, 203, 173),  // Sandy brown
            grassland: RgbaColor::rgb(124, 252, 0),  // Lawn green
            forest: RgbaColor::rgb(34, 139, 34),  // Forest green
            mountain: RgbaColor::rgb(139, 137, 137),  // Dark gray
            snow: RgbaColor::rgb(255, 250, 250),  // Snow white
        }
    }
}

} // verus!
