use cosmic_audio_bg::layer::{
    fractional_scale_for, pool_byte_len, LayerGeometry, FRACTIONAL_SCALE_UNIT,
};

#[test]
fn buffer_size_scales_logical_size() {
    let mut g = LayerGeometry::unconfigured(Some(FRACTIONAL_SCALE_UNIT));
    assert_eq!(g.buffer_size(), None);
    g.size = Some((1920, 1200));
    assert_eq!(g.buffer_size(), Some((1920, 1200)));
    g.fractional_scale = Some(180);
    assert_eq!(g.buffer_size(), Some((2880, 1800)));
    g.fractional_scale = Some(150);
    assert_eq!(g.buffer_size(), Some((2400, 1500)));
    g.size = Some((1001, 3));
    assert_eq!(g.buffer_size(), Some((1251, 3)));
    g.fractional_scale = None;
    assert_eq!(g.buffer_size(), None);
}

#[test]
fn render_size_skips_empty_buffers() {
    let mut g = LayerGeometry::unconfigured(Some(120));
    assert_eq!(g.render_size(), None);
    g.size = Some((0, 100));
    assert_eq!(g.render_size(), None);
    g.size = Some((100, 100));
    assert_eq!(g.render_size(), Some((100, 100)));
    g.size = Some((1, 1));
    g.fractional_scale = Some(60);
    assert_eq!(g.render_size(), None);
}

#[test]
fn pool_dimensions_fall_back_to_logical_size() {
    let mut g = LayerGeometry::unconfigured(None);
    assert_eq!(g.pool_dimensions(), None);
    g.size = Some((800, 600));
    assert_eq!(g.pool_dimensions(), Some((800, 600)));
    g.fractional_scale = Some(240);
    assert_eq!(g.pool_dimensions(), Some((1600, 1200)));
}

#[test]
fn configure_takes_output_size_when_left_to_client() {
    let mut g = LayerGeometry::unconfigured(Some(120));
    assert!(g.configure((1280, 720), None));
    assert_eq!(g.size, Some((1280, 720)));
    assert!(g.configure((0, 0), Some((1920, 1080))));
    assert_eq!(g.size, Some((1920, 1080)));
    assert!(!g.configure((0, 5), None));
    assert_eq!(g.size, Some((1920, 1080)));
    assert!(g.configure((7, 0), Some((-1, 2))));
    assert_eq!(g.size, Some((u32::MAX, 2)));
    assert_eq!(g.fractional_scale, Some(120));
}

#[test]
fn pool_length_is_checked() {
    assert_eq!(pool_byte_len(1920, 1200), Some(1920 * 1200 * 4));
    assert_eq!(pool_byte_len(0, 1200), Some(0));
    if usize::BITS == 64 {
        assert_eq!(pool_byte_len(u32::MAX, u32::MAX), None);
        assert_eq!(pool_byte_len(u32::MAX, 1), Some(u32::MAX as usize * 4));
    }
}

#[test]
fn integer_scale_becomes_fractional() {
    assert_eq!(fractional_scale_for(1), 120);
    assert_eq!(fractional_scale_for(2), 240);
    assert_eq!(fractional_scale_for(0), 120);
    assert_eq!(fractional_scale_for(-3), 120);
}
