use clashtui::endpoint::{base_url, delay_path, select_path, traffic_url};
use clashtui::format::{decimal_string, format_bytes, format_speed, truncate_str};

#[test]
fn bytes_below_one_kb_are_whole() {
    assert_eq!(format_bytes(0), "0 B");
    assert_eq!(format_bytes(512), "512 B");
    assert_eq!(format_bytes(1023), "1023 B");
}

#[test]
fn bytes_scale_to_binary_units() {
    assert_eq!(format_bytes(1024), "1.00 KB");
    assert_eq!(format_bytes(1536), "1.50 KB");
    assert_eq!(format_bytes(1024 * 1024), "1.00 MB");
    assert_eq!(format_bytes(5 * 1024 * 1024 + 256 * 1024), "5.25 MB");
    assert_eq!(format_bytes(3 * 1024 * 1024 * 1024), "3.00 GB");
    assert_eq!(format_bytes(1024 * 1024 - 1), "1024.00 KB");
}

#[test]
fn bytes_match_two_decimal_float_formatting() {
    let mut b: u64 = 1024;
    while b < (1u64 << 40) {
        for delta in [0u64, 1, 5, 7, 100, 511, 512, 513, 999] {
            let v = b + delta * 13;
            let expected = if v >= 1 << 30 {
                format!("{:.2} GB", v as f64 / (1u64 << 30) as f64)
            } else if v >= 1 << 20 {
                format!("{:.2} MB", v as f64 / (1u64 << 20) as f64)
            } else {
                format!("{:.2} KB", v as f64 / 1024.0)
            };
            assert_eq!(format_bytes(v), expected, "for {}", v);
        }
        b = b * 3 / 2 + 17;
    }
}

#[test]
fn largest_byte_count_formats() {
    assert_eq!(format_bytes(u64::MAX), "17179869184.00 GB");
}

#[test]
fn speed_appends_per_second() {
    assert_eq!(format_speed(2048), "2.00 KB/s");
    assert_eq!(format_speed(0), "0 B/s");
}

#[test]
fn decimal_writes_digits() {
    assert_eq!(decimal_string(0), "0");
    assert_eq!(decimal_string(1234567), "1234567");
}

#[test]
fn truncate_keeps_short_text() {
    assert_eq!(truncate_str("abc", 5), "abc");
    assert_eq!(truncate_str("abcde", 5), "abcde");
    assert_eq!(truncate_str("", 0), "");
}

#[test]
fn truncate_cuts_before_a_split_character() {
    // "é" takes two bytes: a cut after one byte of it falls back one byte.
    assert_eq!(truncate_str("aéb", 2), "a…");
    assert_eq!(truncate_str("aéb", 3), "a…");
    assert_eq!(truncate_str("aébc", 4), "aé…");
    assert_eq!(truncate_str("节点节点", 5), "节…");
}

#[test]
fn truncate_clips_long_text() {
    assert_eq!(truncate_str("hello world", 5), "hell…");
    assert_eq!(truncate_str("ab", 1), "…");
}

#[test]
fn base_url_adds_scheme() {
    assert_eq!(base_url("127.0.0.1:9090"), "http://127.0.0.1:9090");
    assert_eq!(base_url("https://clash.local"), "https://clash.local");
    assert_eq!(base_url("htt"), "http://htt");
}

#[test]
fn select_path_encodes_group() {
    assert_eq!(select_path("My Group"), "/proxies/My%20Group");
    assert_eq!(select_path("a-b_c.d~e"), "/proxies/a-b_c.d~e");
    assert_eq!(select_path("节点"), "/proxies/%E8%8A%82%E7%82%B9");
}

#[test]
fn delay_path_encodes_proxy_and_url() {
    assert_eq!(
        delay_path("HK 01", "http://www.gstatic.com/generate_204", 5000),
        "/proxies/HK%2001/delay?url=http%3A%2F%2Fwww.gstatic.com%2Fgenerate_204&timeout=5000"
    );
}

#[test]
fn traffic_url_carries_token() {
    assert_eq!(traffic_url("127.0.0.1:9090", &None), "ws://127.0.0.1:9090/traffic");
    assert_eq!(
        traffic_url("127.0.0.1:9090", &Some("a b&c".to_string())),
        "ws://127.0.0.1:9090/traffic?token=a%20b%26c"
    );
}

#[test]
fn rounding_ties_match_float_formatting() {
    for v in [1152u64, 1408, 1664, 3200, 5 * 1024 * 1024 + 128 * 1024 + 5 * 1024] {
        let expected = if v >= 1 << 20 {
            format!("{:.2} MB", v as f64 / (1u64 << 20) as f64)
        } else {
            format!("{:.2} KB", v as f64 / 1024.0)
        };
        assert_eq!(format_bytes(v), expected, "for {}", v);
    }
    assert_eq!(format_bytes(1152), "1.12 KB");
}
