//! Pipeline builder: turns the options model into the filter-graph
//! expression the encoder runs. One invocation performs both passes: the
//! stream is scaled and resampled, split, a palette is generated on one
//! branch and applied on the other with the tier's dither algorithm.

use vstd::prelude::*;

use crate::options::{spec_dither_algo, spec_max_colors, ConversionOptions};
use crate::text::{dec_str, spec_dec_rep};

verus! {

/// The scale-and-resample stage: `fps=F,scale=W:-1:flags=lanczos` (height
/// follows the width, keeping aspect ratio, with high-quality resampling).
pub open spec fn spec_scale_filter(fps: int, width: int) -> Seq<char> {
    "fps="@ + spec_dec_rep(fps) + ",scale="@ + spec_dec_rep(width) + ":-1:flags=lanczos"@
}

/// The whole two-pass filter graph: scale stage, split, palette generation
/// capped at the tier's color count, palette use with the tier's dither.
pub open spec fn spec_filter_graph(o: ConversionOptions) -> Seq<char> {
    "[0:v] "@ + spec_scale_filter(o.fps as int, o.width as int)
        + " ,split [a][b];[a] palettegen=max_colors="@ + spec_dec_rep(
        spec_max_colors(o.quality) as int,
    ) + " [p];[b][p] paletteuse=dither="@ + spec_dither_algo(o.quality)
}

/// Builds the filter-graph expression for one conversion.
pub fn build_filter_graph(options: &ConversionOptions) -> (r: String)
    ensures
        r@ == spec_filter_graph(*options),
{
    let mut s = String::from_str("[0:v] fps=");
    let fps_str = dec_str(options.fps as u64);
    s.append(fps_str.as_str());
    s.append(",scale=");
    let width_str = dec_str(options.width as u64);
    s.append(width_str.as_str());
    s.append(":-1:flags=lanczos ,split [a][b];[a] palettegen=max_colors=");
    let colors_str = dec_str(options.quality.max_colors() as u64);
    s.append(colors_str.as_str());
    s.append(" [p];[b][p] paletteuse=dither=");
    s.append(options.quality.dither_algo());
    proof {
        reveal_strlit("[0:v] fps=");
        reveal_strlit("[0:v] ");
        reveal_strlit("fps=");
        reveal_strlit(",scale=");
        reveal_strlit(":-1:flags=lanczos ,split [a][b];[a] palettegen=max_colors=");
        reveal_strlit(":-1:flags=lanczos");
        reveal_strlit(" ,split [a][b];[a] palettegen=max_colors=");
        reveal_strlit(" [p];[b][p] paletteuse=dither=");
        assert(s@ =~= spec_filter_graph(*options));
    }
    s
}

} // verus!
