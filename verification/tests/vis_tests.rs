use qoi_vis::qoi::QoiChunk;
use qoi_vis::vis::{color_of_chunk, visualize, VisConfig};

#[test]
fn vis_config_starts_all_visible() {
    let config = VisConfig::new();
    assert!(config.is_visible(QoiChunk::Index));
    assert!(config.is_visible(QoiChunk::Run8));
    assert!(config.is_visible(QoiChunk::Color4));

    let default_config = VisConfig::default();
    assert!(default_config.is_visible(QoiChunk::Diff24));
}

#[test]
fn vis_config_toggle() {
    let mut config = VisConfig::new();
    config.toggle_visibility(QoiChunk::Diff8);
    assert!(!config.is_visible(QoiChunk::Diff8));
    assert!(config.is_visible(QoiChunk::Diff16));
    config.toggle_visibility(QoiChunk::Diff8);
    assert!(config.is_visible(QoiChunk::Diff8));
}

#[test]
fn vis_config_all_invisible_and_visible() {
    let mut config = VisConfig::new();
    config.make_all_invisible();
    assert!(!config.is_visible(QoiChunk::Index));
    assert!(!config.is_visible(QoiChunk::Color1));
    config.make_all_visible();
    assert!(config.is_visible(QoiChunk::Index));
    assert!(config.is_visible(QoiChunk::Color1));
}

#[test]
fn chunk_colors() {
    assert_eq!(color_of_chunk(QoiChunk::Index), [0xFF, 0xFF, 0x00]);
    assert_eq!(color_of_chunk(QoiChunk::Run8), [0xC0, 0xC0, 0xC0]);
    assert_eq!(color_of_chunk(QoiChunk::Run16), [0x80, 0x80, 0x80]);
    assert_eq!(color_of_chunk(QoiChunk::Diff8), [0x00, 0xFF, 0xFF]);
    assert_eq!(color_of_chunk(QoiChunk::Diff16), [0x00, 0xC0, 0xC0]);
    assert_eq!(color_of_chunk(QoiChunk::Diff24), [0x00, 0x80, 0x80]);
    assert_eq!(color_of_chunk(QoiChunk::Color1), [0xFF, 0x00, 0x00]);
    assert_eq!(color_of_chunk(QoiChunk::Color2), [0xC0, 0x00, 0x00]);
    assert_eq!(color_of_chunk(QoiChunk::Color3), [0x80, 0x00, 0x00]);
    assert_eq!(color_of_chunk(QoiChunk::Color4), [0x40, 0x00, 0x00]);
}

#[test]
fn visualize_paints_visible_chunks() {
    let chunks: Vec<QoiChunk> = vec![QoiChunk::Index, QoiChunk::Run8];
    let config = VisConfig::new();
    let buf: Vec<u8> = visualize(&chunks, &config);
    assert_eq!(
        buf,
        vec![0xFF, 0xFF, 0x00, 0xFF, 0xC0, 0xC0, 0xC0, 0xFF]
    );
}

#[test]
fn visualize_blacks_out_hidden_chunks() {
    let chunks: Vec<QoiChunk> = vec![QoiChunk::Index, QoiChunk::Run8];
    let mut config = VisConfig::new();
    config.toggle_visibility(QoiChunk::Index);
    let buf: Vec<u8> = visualize(&chunks, &config);
    assert_eq!(
        buf,
        vec![0x00, 0x00, 0x00, 0xFF, 0xC0, 0xC0, 0xC0, 0xFF]
    );
}

#[test]
fn visualize_empty() {
    let chunks: Vec<QoiChunk> = Vec::new();
    let config = VisConfig::new();
    let buf: Vec<u8> = visualize(&chunks, &config);
    assert!(buf.is_empty());
}
