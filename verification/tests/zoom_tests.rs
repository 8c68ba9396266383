use image_browser::types::{ZoomFactor, ZOOM_DEFAULT, ZOOM_MAX, ZOOM_MIN};

#[test]
fn default_zoom_is_one() {
    assert_eq!(ZoomFactor::default().get(), 100);
    assert_eq!(ZOOM_DEFAULT, 100);
}

#[test]
fn zoom_clamps_at_both_ends() {
    // A request of 0.00 lands on 0.10, one of 5.00 on 2.00.
    assert_eq!(ZoomFactor::new(0).get(), 10);
    assert_eq!(ZoomFactor::new(500).get(), 200);
    assert_eq!(ZoomFactor::new(10).get(), ZOOM_MIN);
    assert_eq!(ZoomFactor::new(200).get(), ZOOM_MAX);
    assert_eq!(ZoomFactor::new(150).get(), 150);
}

#[test]
fn set_then_get_stays_in_range() {
    let mut z = ZoomFactor::default();
    for request in [0u32, 5, 9, 10, 25, 100, 199, 200, 201, 500, u32::MAX] {
        z.set(request);
        let got = z.get();
        assert!((ZOOM_MIN..=ZOOM_MAX).contains(&got));
        // Clamping an already clamped value changes nothing.
        z.set(got);
        assert_eq!(z.get(), got);
    }
}
