use orbit_grid::export::{
    capture_request, format_timestamp, frame_name, frame_path, output_root, output_root_now,
    should_capture,
};

#[test]
fn frame_names_are_zero_padded() {
    assert_eq!(frame_name(0), "000.png");
    assert_eq!(frame_name(7), "007.png");
    assert_eq!(frame_name(42), "042.png");
    assert_eq!(frame_name(999), "999.png");
}

#[test]
fn frame_path_joins_root_and_padded_index() {
    assert_eq!(frame_path("run", 7), "run/007.png");
    assert_eq!(frame_path("/tmp/out", 123), "/tmp/out/123.png");
}

#[test]
fn capture_stops_at_the_frame_cap() {
    assert!(should_capture(0));
    assert!(should_capture(999));
    assert!(!should_capture(1000));
    assert!(!should_capture(u64::MAX));
    assert_eq!(capture_request("run", 999), Some("run/999.png".to_string()));
    assert_eq!(capture_request("run", 1000), None);
}

#[test]
fn timestamp_is_fixed_width() {
    assert_eq!(format_timestamp(2026, 10, 12, 13, 45, 9), "2026-10-12_13:45:09");
    assert_eq!(format_timestamp(26, 1, 2, 3, 4, 5), "0026-01-02_03:04:05");
}

#[test]
fn output_root_joins_project_out_and_timestamp() {
    assert_eq!(
        output_root("proj", 2026, 10, 12, 13, 45, 9),
        Some("proj/out/2026-10-12_13:45:09".to_string())
    );
    assert_eq!(output_root("proj", -1, 10, 12, 13, 45, 9), None);
    assert_eq!(output_root("proj", 10_000, 10, 12, 13, 45, 9), None);
}

#[test]
fn output_root_now_reads_a_plausible_clock() {
    let p = output_root_now("proj").expect("current year fits four digits");
    assert_eq!(p.len(), "proj".len() + 24);
    assert!(p.starts_with("proj/out/"));
    let stamp = &p["proj/out/".len()..];
    let bytes = stamp.as_bytes();
    for (i, b) in bytes.iter().enumerate() {
        match i {
            4 | 7 => assert_eq!(*b, b'-'),
            10 => assert_eq!(*b, b'_'),
            13 | 16 => assert_eq!(*b, b':'),
            _ => assert!(b.is_ascii_digit()),
        }
    }
    // the clock's fields stay in their documented ranges
    let month: u32 = stamp[5..7].parse().unwrap();
    let day: u32 = stamp[8..10].parse().unwrap();
    let hour: u32 = stamp[11..13].parse().unwrap();
    let minute: u32 = stamp[14..16].parse().unwrap();
    let second: u32 = stamp[17..19].parse().unwrap();
    assert!((1..=12).contains(&month));
    assert!((1..=31).contains(&day));
    assert!(hour <= 23);
    assert!(minute <= 59);
    assert!(second <= 59);
}
