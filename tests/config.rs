use raytracer::config::{RenderConfig, DEFAULT_HEIGHT, DEFAULT_SAMPLES, DEFAULT_WIDTH};

#[test]
fn default_config_values() {
    let c = RenderConfig::default();
    assert_eq!((c.width, c.height, c.samples), (960, 480, 10));
    assert_eq!((DEFAULT_WIDTH, DEFAULT_HEIGHT, DEFAULT_SAMPLES), (960, 480, 10));
}

#[test]
fn config_rejects_zero_counts() {
    assert!(!RenderConfig::accepts(0, 480, 10));
    assert!(!RenderConfig::accepts(960, 0, 10));
    assert!(!RenderConfig::accepts(960, 480, 0));
}

#[test]
fn config_rejects_overflowing_size() {
    assert!(!RenderConfig::accepts(usize::MAX, 2, 1));
    assert!(RenderConfig::accepts(usize::MAX, 1, 1));
}

#[test]
fn config_new_keeps_values() {
    assert!(RenderConfig::accepts(2, 1, 1));
    let c = RenderConfig::new(2, 1, 1);
    assert_eq!((c.width, c.height, c.samples), (2, 1, 1));
}
