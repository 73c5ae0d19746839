use installer_sim::log_generator::LogGenerator;

#[test]
fn timestamps_are_strictly_increasing_across_calls() {
    let mut generator = LogGenerator::new();
    let mut previous = generator.last_us;
    for _ in 0..10 {
        let text = generator.timestamp();
        assert!(generator.last_us > previous);
        assert!(text.starts_with('['));
        assert!(text.ends_with(']'));
        previous = generator.last_us;
    }
}

#[test]
fn timestamp_has_the_fixed_kernel_log_shape() {
    let mut generator = LogGenerator::new();
    let text = generator.timestamp();
    // below 100000 seconds the field widths are fixed: [sssss.ffffff]
    assert_eq!(text.chars().count(), 14);
    assert_eq!(text.chars().nth(6), Some('.'));
    // the first draw stays below half a second
    assert!(text.starts_with("[    0."));
}

#[test]
fn hex_addr_is_a_full_width_address() {
    for _ in 0..10 {
        let addr = LogGenerator::hex_addr();
        assert_eq!(addr.len(), 18);
        assert!(addr.starts_with("0x"));
        for c in addr[2..].chars() {
            assert!(c.is_ascii_hexdigit());
            assert!(!c.is_ascii_uppercase());
        }
    }
}

#[test]
fn version_triples_stay_in_their_ranges() {
    for _ in 0..20 {
        let v = LogGenerator::version();
        assert!(v.starts_with('v'));
        let parts: Vec<&str> = v[1..].split('.').collect();
        assert_eq!(parts.len(), 3);
        let a: u64 = parts[0].parse().unwrap();
        let b: u64 = parts[1].parse().unwrap();
        let c: u64 = parts[2].parse().unwrap();
        assert!((1..10).contains(&a));
        assert!((0..20).contains(&b));
        assert!((0..50).contains(&c));
    }
}

#[test]
fn progress_shows_truncated_percentage_and_counts() {
    assert_eq!(LogGenerator::progress(5, 10), "50% (5/10)");
    assert_eq!(LogGenerator::progress(0, 7), "0% (0/7)");
    assert_eq!(LogGenerator::progress(7, 7), "100% (7/7)");
    assert_eq!(LogGenerator::progress(1, 3), "33% (1/3)");
    assert_eq!(LogGenerator::progress(2, 3), "66% (2/3)");
}
