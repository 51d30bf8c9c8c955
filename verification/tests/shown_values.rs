use hearth_web::display::{
    device_is_mobile, display_initial, format_bytes, hex_encode, humanize_event_type, key_short,
    parse_ed25519_hex, query_encode, relative_time, remaining, short_date, time_remaining_short,
    Remaining,
};
use hearth_web::model::Timestamp;

fn at(secs: i64) -> Timestamp {
    Timestamp::new(secs, 0).unwrap()
}

#[test]
fn past_times_are_relative_for_a_week() {
    let now = at(1_700_000_000);
    let ago = |secs: i64| relative_time(&at(1_700_000_000 - secs), &now);
    assert_eq!(ago(0), "just now");
    assert_eq!(ago(59), "just now");
    assert_eq!(ago(-3600), "just now");
    assert_eq!(ago(60), "1 minute ago");
    assert_eq!(ago(3599), "59 minutes ago");
    assert_eq!(ago(3600), "1 hour ago");
    assert_eq!(ago(86_399), "23 hours ago");
    assert_eq!(ago(86_400), "1 day ago");
    assert_eq!(ago(7 * 86_400 - 1), "6 days ago");
    assert_eq!(ago(7 * 86_400), "Nov 7, 2023");
    assert_eq!(short_date(&at(0)), "Jan 1, 1970");
}

#[test]
fn waiting_times_count_down() {
    let now = at(1_000);
    assert_eq!(remaining(&at(1_000), &now), Remaining::Over);
    assert_eq!(remaining(&at(999), &now), Remaining::Over);
    assert_eq!(remaining(&at(1_001), &now), Remaining::Minutes(1));
    assert_eq!(remaining(&at(1_119), &now), Remaining::Minutes(1));
    assert_eq!(remaining(&at(1_120), &now), Remaining::Minutes(2));
    assert_eq!(remaining(&at(4_599), &now), Remaining::Minutes(59));
    assert_eq!(remaining(&at(4_600), &now), Remaining::Hours(1));
    assert_eq!(remaining(&at(1_000 + 72 * 3600), &now), Remaining::Hours(72));
    assert_eq!(time_remaining_short(&at(1_000 + 72 * 3600), &now), "72h");
    assert_eq!(time_remaining_short(&at(1_120), &now), "2m");
}

#[test]
fn sizes_are_rounded_like_floats_print() {
    let expected = |n: i32| -> String {
        let n = n.max(0) as f64;
        if n < 1024.0 {
            format!("{} B", n as i64)
        } else if n < 1024.0 * 1024.0 {
            format!("{:.1} KB", n / 1024.0)
        } else {
            format!("{:.1} MB", n / (1024.0 * 1024.0))
        }
    };
    let mut n: i64 = -5;
    while n < 200_000 {
        assert_eq!(format_bytes(n as i32), expected(n as i32), "{n}");
        n += 1;
    }
    n = 1_048_570;
    while n < i64::from(i32::MAX) {
        assert_eq!(format_bytes(n as i32), expected(n as i32), "{n}");
        n += 26_214;
    }
    assert_eq!(format_bytes(i32::MAX), expected(i32::MAX));
    assert_eq!(format_bytes(i32::MIN), "0 B");
}

#[test]
fn phones_and_tablets_are_mobile() {
    assert!(device_is_mobile("Mozilla/5.0 (Linux; Android 14) Chrome/120 Mobile"));
    assert!(device_is_mobile("Mozilla/5.0 (iPhone; CPU iPhone OS 17_0 like Mac OS X)"));
    assert!(device_is_mobile("Mozilla/5.0 (iPad; CPU OS 17_0)"));
    assert!(!device_is_mobile("Mozilla/5.0 (Windows NT 10.0)"));
}

#[test]
fn initials_and_event_names() {
    assert_eq!(display_initial("ada"), 'A');
    assert_eq!(display_initial("élan"), 'é');
    assert_eq!(display_initial(""), '?');
    assert_eq!(humanize_event_type("signin_success"), "Signin success");
}

#[test]
fn keys_are_read_and_shortened() {
    let key: Vec<u8> = (0u8..32).collect();
    let hex = hex_encode(&key);
    assert_eq!(hex.len(), 64);
    assert!(hex.starts_with("000102030405"));
    assert_eq!(parse_ed25519_hex(&hex), Some(key.clone()));
    let mut spaced = hex.to_uppercase();
    spaced.insert(10, ' ');
    spaced.insert(0, '\n');
    assert_eq!(parse_ed25519_hex(&spaced), Some(key));
    assert_eq!(parse_ed25519_hex(&hex[2..]), None);
    assert_eq!(parse_ed25519_hex(&format!("{}zz", &hex[2..])), None);
    assert_eq!(parse_ed25519_hex(""), None);
    assert_eq!(key_short(&hex), "000102030405…1d1e1f");
    assert_eq!(key_short("abcdef"), "abcdef");
}

#[test]
fn query_values_are_percent_encoded() {
    assert_eq!(query_encode("a b&c=d/é~-_."), "a%20b%26c%3Dd%2F%C3%A9~-_.");
    assert_eq!(query_encode(""), "");
}
