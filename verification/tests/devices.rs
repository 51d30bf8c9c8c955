use hearth_web::display::device_label;

#[test]
fn device_label_parses_common_user_agents() {
    // Edge/Opera UAs also contain "Chrome"; Chrome UAs also contain
    // "Safari" — the ordering in `device_label` must disambiguate.
    assert_eq!(
        device_label("Mozilla/5.0 (Windows NT 10.0; Win64) Chrome/120.0 Safari/537.36"),
        "Chrome on Windows"
    );
    assert_eq!(
        device_label(
            "Mozilla/5.0 (Windows NT 10.0) AppleWebKit Chrome/120 Safari Edg/120.0"
        ),
        "Edge on Windows"
    );
    assert_eq!(
        device_label(
            "Mozilla/5.0 (iPhone; CPU iPhone OS 17_0 like Mac OS X) Version/17.0 Safari/604.1"
        ),
        "Safari on iOS"
    );
    assert_eq!(
        device_label("Mozilla/5.0 (Macintosh; Intel Mac OS X 10_15) Firefox/121.0"),
        "Firefox on macOS"
    );
    assert_eq!(
        device_label("Mozilla/5.0 (Linux; Android 14) Chrome/120 Mobile"),
        "Chrome on Android"
    );
    assert_eq!(device_label(""), "Unknown device");
    assert_eq!(device_label("curl/8.4.0"), "Unknown device");
}
