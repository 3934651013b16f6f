use window_shell::sizing::{fit_to_screen, zoom_below_floor, zoom_by_factor, zoomed_size, Dimensions, Extent, ZoomFactor};

fn dims(width: u32, height: u32) -> Dimensions {
    Dimensions::whole(width, height)
}

fn factor(num: u32, den: u32) -> ZoomFactor {
    ZoomFactor::new(num, den).unwrap()
}

/// Whether `e` is exactly `width / den` by `height / den`.
fn is_size(e: Extent, width: u128, height: u128, den: u128) -> bool {
    e.den > 0 && e.width * den == width * e.den && e.height * den == height * e.den
}

#[test]
fn fit_passes_request_within_cap_through() {
    assert_eq!(fit_to_screen(dims(800, 600), dims(1920, 1080)), Extent { width: 800, height: 600, den: 1 });
}

#[test]
fn fit_passes_fractional_request_through() {
    // 800.4 x 600.6, written over 10
    let q = Dimensions::new(8004, 6006, 10).unwrap();
    assert_eq!(fit_to_screen(q, dims(1920, 1080)), Extent { width: 8004, height: 6006, den: 10 });
}

#[test]
fn fit_passes_request_exactly_at_cap_through() {
    assert!(is_size(fit_to_screen(dims(1536, 864), dims(1920, 1080)), 1536, 864, 1));
}

#[test]
fn fit_scales_down_when_width_limits() {
    // cap is 1536 x 864; 3000 x 1500 scales by 1536 / 3000
    assert!(is_size(fit_to_screen(dims(3000, 1500), dims(1920, 1080)), 1536, 768, 1));
}

#[test]
fn fit_scales_down_when_height_limits() {
    // scale 864 / 2000 gives 432 x 864
    assert!(is_size(fit_to_screen(dims(1000, 2000), dims(1920, 1080)), 432, 864, 1));
}

#[test]
fn fit_keeps_the_ratio_exactly() {
    // cap 800 x 800; 3000 x 1000 scales by 800 / 3000 to 800 x 266.67
    let r = fit_to_screen(dims(3000, 1000), dims(1000, 1000));
    assert!(is_size(r, 2400, 800, 3));
    assert_eq!(r.width * 1000, r.height * 3000);
}

#[test]
fn fit_meets_a_fractional_cap() {
    // cap 800.8 x 800.8 on a 1001 x 1001 screen
    let r = fit_to_screen(dims(3000, 1000), dims(1001, 1001));
    assert_eq!(r.width * 10, 8008 * r.den);
    assert_eq!(r.height * 3000, r.width * 1000);
}

#[test]
fn fit_of_very_flat_request_keeps_a_positive_height() {
    // 1000 x 1 on a 10 x 10 screen: 8 x 0.008
    let r = fit_to_screen(dims(1000, 1), dims(10, 10));
    assert!(is_size(r, 8000, 8, 1000));
}

#[test]
fn fit_on_screens_and_requests_meets_cap_and_ratio() {
    let screens = [dims(1920, 1080), dims(1280, 800), dims(3840, 2160), dims(1000, 1000)];
    let requests = [dims(5000, 1234), dims(1234, 5000), dims(7777, 7777), dims(2000, 999)];
    for s in screens {
        for q in requests {
            let r = fit_to_screen(q, s);
            let (w, h) = (q.width as u128, q.height as u128);
            let (sw, sh) = (s.width as u128, s.height as u128);
            assert!(5 * r.width <= 4 * sw * r.den);
            assert!(5 * r.height <= 4 * sh * r.den);
            if 5 * w > 4 * sw || 5 * h > 4 * sh {
                assert!(5 * r.width == 4 * sw * r.den || 5 * r.height == 4 * sh * r.den);
            } else {
                assert_eq!(r, Extent { width: w, height: h, den: 1 });
            }
            assert_eq!(r.width * h, r.height * w);
        }
    }
}

#[test]
fn fit_is_idempotent() {
    let s = dims(1920, 1080);
    for q in [dims(800, 600), dims(3000, 1500), dims(1000, 2000), dims(4000, 4000)] {
        let once = fit_to_screen(q, s);
        // the fitted sizes here are whole numbers, so they can be asked for again
        assert_eq!(once.width % once.den, 0);
        assert_eq!(once.height % once.den, 0);
        let again = dims((once.width / once.den) as u32, (once.height / once.den) as u32);
        let twice = fit_to_screen(again, s);
        assert!(is_size(twice, once.width, once.height, once.den));
    }
}

#[test]
fn fit_of_zero_width_request_keeps_zero_width() {
    assert!(is_size(fit_to_screen(dims(0, 2000), dims(1920, 1080)), 0, 864, 1));
}

#[test]
fn zoom_out_below_floor_is_refused() {
    let f = factor(2, 5);
    assert!(zoom_below_floor(dims(100, 100), f));
    assert!(is_size(zoom_by_factor(dims(100, 100), f, dims(1000, 1000)), 100, 100, 1));
    assert_eq!(zoomed_size(dims(100, 100), f, dims(1000, 1000)), None);
}

#[test]
fn zoom_in_past_screen_is_refused() {
    let f = factor(3, 2);
    assert!(!zoom_below_floor(dims(100, 100), f));
    assert!(is_size(zoom_by_factor(dims(100, 100), f, dims(120, 120)), 100, 100, 1));
}

#[test]
fn zoom_within_bounds_is_applied() {
    assert!(is_size(zoom_by_factor(dims(100, 100), factor(11, 10), dims(200, 200)), 110, 110, 1));
}

#[test]
fn zoom_to_exactly_the_floor_is_applied() {
    assert!(is_size(zoom_by_factor(dims(100, 100), factor(1, 2), dims(1000, 1000)), 50, 50, 1));
}

#[test]
fn zoom_out_past_screen_is_applied_exactly() {
    // shrinking is never refused for the screen's sake: 150.5 x 150
    assert!(is_size(zoom_by_factor(dims(301, 300), factor(1, 2), dims(100, 100)), 301, 300, 2));
}

#[test]
fn zoom_in_to_exactly_the_screen_is_applied() {
    assert!(is_size(zoom_by_factor(dims(100, 80), factor(2, 1), dims(200, 160)), 200, 160, 1));
}

#[test]
fn zoom_refused_when_one_side_only_is_under_floor() {
    assert!(is_size(zoom_by_factor(dims(400, 100), factor(1, 3), dims(1000, 1000)), 400, 100, 1));
}

#[test]
fn zoom_is_exact() {
    // 101 x 77 by 11/10 is 111.1 x 84.7
    let r = zoom_by_factor(dims(101, 77), factor(11, 10), dims(1000, 1000));
    assert!(is_size(r, 1111, 847, 10));
    assert_eq!(r.width * 77, r.height * 101);
}

#[test]
fn zoom_of_fractional_size() {
    // 100.5 x 60.25 by 2 on a 300 x 300 screen
    let c = Dimensions::new(402, 241, 4).unwrap();
    assert!(is_size(zoom_by_factor(c, factor(2, 1), dims(300, 300)), 804, 482, 4));
}

#[test]
fn size_and_factor_with_zero_denominator_are_rejected() {
    assert_eq!(ZoomFactor::new(1, 0), None);
    assert_eq!(ZoomFactor::new(3, 2), Some(ZoomFactor { num: 3, den: 2 }));
    assert_eq!(Dimensions::new(1, 1, 0), None);
    assert_eq!(Dimensions::new(3, 2, 5), Some(Dimensions { width: 3, height: 2, den: 5 }));
}
