use gif_engine::filter::build_filter_graph;
use gif_engine::options::{ConversionOptions, ConversionType, QualityPreset};

#[test]
fn quality_mapping_is_total_and_fixed() {
    assert_eq!(QualityPreset::Low.dither_algo(), "none");
    assert_eq!(QualityPreset::Medium.dither_algo(), "bayer:bayer_scale=3");
    assert_eq!(QualityPreset::High.dither_algo(), "sierra2_4a");
    assert_eq!(QualityPreset::Low.max_colors(), 64);
    assert_eq!(QualityPreset::Medium.max_colors(), 128);
    assert_eq!(QualityPreset::High.max_colors(), 256);
}

#[test]
fn default_options() {
    let o = ConversionOptions::default();
    assert_eq!(o.fps, 15);
    assert_eq!(o.width, 480);
    assert!(matches!(o.quality, QualityPreset::High));
}

#[test]
fn conversion_type_variants_exist() {
    let kinds = vec![ConversionType::Gif, ConversionType::Webp, ConversionType::Apng];
    assert_eq!(kinds.len(), 3);
    assert!(matches!(kinds[0], ConversionType::Gif));
}

#[test]
fn filter_graph_for_default_options() {
    let o = ConversionOptions::default();
    let g = build_filter_graph(&o);
    assert!(g.contains("fps=15"));
    assert!(g.contains("scale=480:-1"));
    assert!(g.contains("max_colors=256"));
    assert!(g.contains("dither=sierra2_4a"));
    assert_eq!(
        g,
        "[0:v] fps=15,scale=480:-1:flags=lanczos ,split [a][b];\
         [a] palettegen=max_colors=256 [p];[b][p] paletteuse=dither=sierra2_4a"
    );
}

#[test]
fn filter_graph_per_tier() {
    let low = ConversionOptions { fps: 10, width: 320, quality: QualityPreset::Low };
    let g = build_filter_graph(&low);
    assert!(g.contains("fps=10"));
    assert!(g.contains("scale=320:-1"));
    assert!(g.contains("max_colors=64"));
    assert!(g.contains("dither=none"));

    let medium = ConversionOptions { fps: 24, width: 640, quality: QualityPreset::Medium };
    let g = build_filter_graph(&medium);
    assert!(g.contains("max_colors=128"));
    assert!(g.contains("dither=bayer:bayer_scale=3"));
}

#[test]
fn filter_graph_is_a_single_split_pipeline() {
    let g = build_filter_graph(&ConversionOptions::default());
    assert!(g.starts_with("[0:v] "));
    assert!(g.contains(",split [a][b];"));
    assert!(g.contains("[a] palettegen="));
    assert!(g.contains("[b][p] paletteuse="));
}
