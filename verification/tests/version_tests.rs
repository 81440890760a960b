use hnr::version::{parse_ver, semver_gt};

#[test]
fn semver_gt_handles_double_digit_patch() {
    assert!(semver_gt("0.3.10", "0.3.9"));
    assert!(semver_gt("0.3.10", "0.3.8"));
    assert!(!semver_gt("0.3.8", "0.3.10"));
    assert!(!semver_gt("0.3.10", "0.3.10"));
    assert!(semver_gt("1.0.0", "0.9.99"));
}

#[test]
fn parse_ver_reads_missing_and_bad_parts_as_zero() {
    assert_eq!(parse_ver("1.2.3"), (1, 2, 3));
    assert_eq!(parse_ver("2"), (2, 0, 0));
    assert_eq!(parse_ver("2.5"), (2, 5, 0));
    assert_eq!(parse_ver("x.4.1"), (0, 4, 1));
    assert_eq!(parse_ver("1.2.3.4"), (1, 2, 0));
    assert_eq!(parse_ver("+1.2.3"), (1, 2, 3));
    assert_eq!(parse_ver(""), (0, 0, 0));
}

#[test]
fn newer_is_a_strict_order_on_examples() {
    let vs = ["0.1.0", "0.1.1", "0.2.0", "1.0.0", "1.0.0"];
    for a in vs {
        assert!(!semver_gt(a, a));
        for b in vs {
            assert!(!(semver_gt(a, b) && semver_gt(b, a)));
        }
    }
}
