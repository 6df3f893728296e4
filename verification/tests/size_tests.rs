use awsome::aws::utils::format_size;

#[test]
fn test_format_size() {
    assert_eq!(format_size(0), "0 B");
    assert_eq!(format_size(100), "100 B");
    assert_eq!(format_size(1024), "1.00 KB");
    assert_eq!(format_size(1536), "1.50 KB");
    assert_eq!(format_size(1024 * 1024), "1.00 MB");
    assert_eq!(format_size(1024 * 1024 * 1024), "1.00 GB");
}

fn by_floats(size: i64) -> String {
    const KB: i64 = 1024;
    const MB: i64 = KB * 1024;
    const GB: i64 = MB * 1024;
    if size >= GB {
        format!("{:.2} GB", size as f64 / GB as f64)
    } else if size >= MB {
        format!("{:.2} MB", size as f64 / MB as f64)
    } else if size >= KB {
        format!("{:.2} KB", size as f64 / KB as f64)
    } else {
        format!("{} B", size)
    }
}

#[test]
fn test_format_size_small_and_negative() {
    assert_eq!(format_size(1023), "1023 B");
    assert_eq!(format_size(-5), "-5 B");
    assert_eq!(format_size(i64::MIN), "-9223372036854775808 B");
}

#[test]
fn test_format_size_ties_go_to_even() {
    // 1152 / 1024 = 1.125 and 1216 / 1024 = 1.1875
    assert_eq!(format_size(1152), "1.12 KB");
    assert_eq!(format_size(1216), "1.19 KB");
    // 1.375 KB: the tie goes up to the even neighbour
    assert_eq!(format_size(1408), "1.38 KB");
    assert_eq!(format_size(1152), by_floats(1152));
    assert_eq!(format_size(1408), by_floats(1408));
}

#[test]
fn test_format_size_agrees_with_floating_point() {
    let mut size: i64 = 1;
    let mut step: i64 = 1;
    while size > 0 && size < i64::MAX / 3 {
        for d in [-3i64, -2, -1, 0, 1, 2, 3, 511, 512, 513, 5120, 123456789] {
            let s = size.wrapping_add(d);
            if s >= 0 {
                assert_eq!(format_size(s), by_floats(s), "size {}", s);
            }
        }
        size = size + step;
        step = step * 2 + 1;
    }
    for k in 0..2000i64 {
        let s = 1024 + k * 64;
        assert_eq!(format_size(s), by_floats(s), "size {}", s);
        let m = (1i64 << 20) + k * (1 << 13);
        assert_eq!(format_size(m), by_floats(m), "size {}", m);
        let g = (1i64 << 30) + k * (1 << 23);
        assert_eq!(format_size(g), by_floats(g), "size {}", g);
    }
}

#[test]
fn test_format_size_beyond_exact_range() {
    for s in [
        i64::MAX,
        i64::MAX - 1,
        (1i64 << 53) + 1,
        (1i64 << 53) + 3,
        (1i64 << 60) + (1 << 7),
        (1i64 << 60) + (1 << 7) + 1,
        (1i64 << 62) + (1 << 9) + 5368709,
        9007199254740993,
        9007199308427919,
    ] {
        assert_eq!(format_size(s), by_floats(s), "size {}", s);
    }
    let mut s: i64 = (1 << 53) - 1000;
    let mut n = 0;
    while n < 5000 {
        assert_eq!(format_size(s), by_floats(s), "size {}", s);
        s += 10737418 + n;
        n += 1;
    }
    let mut t: i64 = i64::MAX - 5_000_000_000_000;
    let mut n = 0;
    while n < 3000 {
        assert_eq!(format_size(t), by_floats(t), "size {}", t);
        t += 1_073_741 + n * 7;
        n += 1;
    }
}
