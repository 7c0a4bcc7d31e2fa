use quickwit_console::size::format_bytes;

#[test]
fn zero_reads_as_megabytes() {
    assert_eq!(format_bytes(0), "0 MB");
}

#[test]
fn small_sizes_in_whole_bytes() {
    assert_eq!(format_bytes(500), "500 B");
    assert_eq!(format_bytes(1), "1 B");
    assert_eq!(format_bytes(1023), "1023 B");
}

#[test]
fn kilobytes_with_one_decimal() {
    assert_eq!(format_bytes(2048), "2.0 KB");
    assert_eq!(format_bytes(1024), "1.0 KB");
    assert_eq!(format_bytes(1331), "1.3 KB");
}

#[test]
fn megabytes_and_gigabytes() {
    assert_eq!(format_bytes(5 * 1024 * 1024), "5.0 MB");
    assert_eq!(format_bytes(3 * 1024 * 1024 * 1024), "3.0 GB");
    assert_eq!(format_bytes(1024 * 1024 - 1), "1024.0 KB");
}

#[test]
fn ties_round_to_even_tenth() {
    // 1.25 KB and 1.75 KB sit exactly between two tenths.
    assert_eq!(format_bytes(1280), "1.2 KB");
    assert_eq!(format_bytes(1792), "1.8 KB");
}

#[test]
fn largest_size() {
    assert_eq!(format_bytes(u64::MAX), "17179869184.0 GB");
}
