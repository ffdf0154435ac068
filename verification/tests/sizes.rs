use rinode::sizes::{format_bytes, format_bytes_brief};

fn reference(bytes: u64) -> String {
    const KB: u64 = 1024;
    const MB: u64 = KB * 1024;
    const GB: u64 = MB * 1024;
    if bytes >= GB {
        format!("{:.2} GB", bytes as f64 / GB as f64)
    } else if bytes >= MB {
        format!("{:.1} MB", bytes as f64 / MB as f64)
    } else if bytes >= KB {
        format!("{:.1} KB", bytes as f64 / KB as f64)
    } else {
        format!("{} B", bytes)
    }
}

fn reference_brief(bytes: u64) -> String {
    const KB: u64 = 1024;
    const MB: u64 = KB * 1024;
    const GB: u64 = MB * 1024;
    if bytes >= GB {
        format!("{:.1} GiB", bytes as f64 / GB as f64)
    } else if bytes >= MB {
        format!("{:.1} MiB", bytes as f64 / MB as f64)
    } else if bytes >= KB {
        format!("{:.1} KiB", bytes as f64 / KB as f64)
    } else {
        format!("{} B", bytes)
    }
}

fn samples() -> Vec<u64> {
    let mut v: Vec<u64> = vec![
        0, 1, 512, 1023, 1024, 1025, 1280, 1331, 1536, 1587, 1792, 2047, 2048, 10240, 10291, 1048575,
        1048576, 1048577, 1053818, 1059062, 1572864, 5242880, 1073741823, 1073741824, 1073741825,
        1078110208, 1084479242, 1610612736, 5368709120, 9007199254740991, 9007199254740992,
        9007199254740993, 9007199254740995, 18014398509481985, 18014398509481987,
        u64::MAX - 1, u64::MAX, 1 << 63, (1 << 63) + 1024, (1 << 63) + 1025,
    ];
    // Exact ties of the decimal rounding, and their neighbours.
    for k in 1..200u64 {
        v.push(k * 1024 + 256);
        v.push(k * 1024 + 768);
        v.push(k * 1024 + 51);
        v.push(k * 1024 + 52);
        v.push(k * 1048576 + 5242);
        v.push(k * 1048576 + 5243);
        v.push(k * 1048576 + 262144);
        v.push(k * 1048576 + 52428);
        v.push(k * 1048576 + 52429);
        v.push(k * 1048576 + 524288);
        v.push(k * 1073741824 + 536870912);
        v.push(k * 1073741824 + 5368709);
        v.push(k * 1073741824 + 53687091);
        v.push(k * 1073741824 + 268435456);
    }
    let mut x: u64 = 0x9e3779b97f4a7c15;
    for _ in 0..2000 {
        x ^= x << 13;
        x ^= x >> 7;
        x ^= x << 17;
        v.push(x);
        v.push(x >> 20);
        v.push(x >> 40);
    }
    v
}

#[test]
fn format_bytes_matches_float_formatting() {
    for n in samples() {
        assert_eq!(format_bytes(n), reference(n), "bytes = {}", n);
    }
}

#[test]
fn format_bytes_brief_matches_float_formatting() {
    for n in samples() {
        assert_eq!(format_bytes_brief(n), reference_brief(n), "bytes = {}", n);
    }
}

#[test]
fn format_bytes_examples() {
    assert_eq!(format_bytes(0), "0 B");
    assert_eq!(format_bytes(1023), "1023 B");
    assert_eq!(format_bytes(1024), "1.0 KB");
    assert_eq!(format_bytes(1536), "1.5 KB");
    assert_eq!(format_bytes(1048576), "1.0 MB");
    assert_eq!(format_bytes(2516582), "2.4 MB");
    assert_eq!(format_bytes(1073741824), "1.00 GB");
    assert_eq!(format_bytes(1610612736), "1.50 GB");
    assert_eq!(format_bytes(5 * 1073741824), "5.00 GB");
    assert_eq!(format_bytes_brief(1610612736), "1.5 GiB");
    assert_eq!(format_bytes_brief(2048), "2.0 KiB");
    assert_eq!(format_bytes_brief(100), "100 B");
}
