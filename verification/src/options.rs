//! Options model: the caller-supplied description of the requested output
//! (frame rate, target width, quality tier) and the encoding parameters
//! (dither algorithm, palette size) each quality tier maps to.

use vstd::prelude::*;

verus! {

/// Quality tier of the produced animation. The enum is closed: every variant
/// maps to exactly one (dither algorithm, palette size) pair.
#[derive(Debug, Clone, Copy, PartialEq, Eq, Structural)]
pub enum QualityPreset {
    Low,
    Medium,
    High,
}

/// Output format selector. Only `Gif` is driven by the current pipeline; the
/// other variants name formats a caller may request from a future pipeline.
#[derive(Debug, Clone, Copy, PartialEq, Eq, Structural)]
pub enum ConversionType {
    Gif,
    Webp,
    Apng,
}

/// Immutable description of the requested output characteristics.
#[derive(Debug, Clone)]
pub struct ConversionOptions {
    /// Output frames per second; positive in every value the engine is given.
    pub fps: u32,
    /// Target width in pixels (height follows, keeping aspect); positive.
    pub width: u32,
    pub quality: QualityPreset,
}

impl ConversionOptions {
    /// Well-formedness: frame rate and width are positive, as the data model
    /// demands of every constructed value.
    pub open spec fn wf(&self) -> bool {
        self.fps > 0 && self.width > 0
    }
}

impl Default for ConversionOptions {
    /// Documented default: 15 frames per second, 480 pixels wide, high quality.
    fn default() -> (r: Self)
        ensures
            r.fps == 15,
            r.width == 480,
            r.quality == QualityPreset::High,
            r.wf(),
    {
        ConversionOptions { fps: 15, width: 480, quality: QualityPreset::High }
    }
}

/// Dither algorithm identifier the palette-use stage runs with, per tier.
pub open spec fn spec_dither_algo(q: QualityPreset) -> Seq<char> {
    match q {
        QualityPreset::Low => "none"@,
        QualityPreset::Medium => "bayer:bayer_scale=3"@,
        QualityPreset::High => "sierra2_4a"@,
    }
}

/// Palette size cap the palette-generation stage runs with, per tier.
pub open spec fn spec_max_colors(q: QualityPreset) -> u32 {
    match q {
        QualityPreset::Low => 64,
        QualityPreset::Medium => 128,
        QualityPreset::High => 256,
    }
}

impl QualityPreset {
    /// Returns the dither algorithm for this quality tier.
    ///
    /// The mapping is total and deterministic: the match below covers the
    /// closed enum, and the result is pinned exactly for each tier.
    pub fn dither_algo(&self) -> (r: &'static str)
        ensures
            r@ == spec_dither_algo(*self),
    {
        match self {
            QualityPreset::Low => "none",
            QualityPreset::Medium => "bayer:bayer_scale=3",
            QualityPreset::High => "sierra2_4a",
        }
    }

    /// Returns the palette color cap for this quality tier.
    pub fn max_colors(&self) -> (r: u32)
        ensures
            r == spec_max_colors(*self),
    {
        match self {
            QualityPreset::Low => 64,
            QualityPreset::Medium => 128,
            QualityPreset::High => 256,
        }
    }
}

} // verus!
