use path_tracer::render::{scan_position, RenderSettings, SettingsError};

#[test]
fn settings_accepted() {
    let s = RenderSettings::new(1920, 1080, 250, 10).unwrap();
    assert_eq!(s.width, 1920);
    assert_eq!(s.height, 1080);
    assert_eq!(s.samples_per_pixel, 250);
    assert_eq!(s.max_depth, 10);
    assert_eq!(s.pixel_count(), 1920 * 1080);
}

#[test]
fn settings_allow_spent_depth_budget() {
    let s = RenderSettings::new(2, 2, 1, 0).unwrap();
    assert_eq!(s.max_depth, 0);
    let s = RenderSettings::new(2, 2, 1, -3).unwrap();
    assert_eq!(s.max_depth, -3);
}

#[test]
fn settings_refuse_bad_dimensions() {
    assert_eq!(RenderSettings::new(0, 10, 1, 5), Err(SettingsError::BadDimensions));
    assert_eq!(RenderSettings::new(10, -1, 1, 5), Err(SettingsError::BadDimensions));
    assert_eq!(RenderSettings::new(-4, 0, 0, 5), Err(SettingsError::BadDimensions));
}

#[test]
fn settings_refuse_zero_samples() {
    assert_eq!(RenderSettings::new(10, 10, 0, 5), Err(SettingsError::NoSamples));
    assert_eq!(RenderSettings::new(10, 10, -2, 5), Err(SettingsError::NoSamples));
}

#[test]
fn largest_pixel_count() {
    let s = RenderSettings::new(i32::MAX, i32::MAX, 1, 1).unwrap();
    assert_eq!(s.pixel_count(), (i32::MAX as u64) * (i32::MAX as u64));
}

#[test]
fn scan_starts_at_top_left() {
    assert_eq!(scan_position(4, 3, 0), (0, 2));
    assert_eq!(scan_position(4, 3, 3), (3, 2));
    assert_eq!(scan_position(4, 3, 4), (0, 1));
    assert_eq!(scan_position(4, 3, 11), (3, 0));
}

#[test]
fn scan_visits_every_pixel_once() {
    let (w, h) = (5u32, 3u32);
    let mut seen = vec![false; (w * h) as usize];
    for k in 0..(w * h) as u64 {
        let (i, j) = scan_position(w, h, k);
        assert!(i < w && j < h);
        let cell = (j * w + i) as usize;
        assert!(!seen[cell]);
        seen[cell] = true;
    }
    assert!(seen.iter().all(|b| *b));
}
