use wcr::{compute_stats, format_field, format_stats_line, format_total_line, Config, UsageError,
    WcrStats};

fn config_with(lines: bool, words: bool, chars: bool, bytes: bool) -> Config {
    Config { files: Vec::new(), lines, words, chars, bytes }
}

#[test]
fn test_compute_stats() {
    let config = Config { files: vec![], lines: true, words: true, chars: true, bytes: false };
    let res = compute_stats("नमस्ते\n", &config);
    assert_eq!(res, WcrStats::new(1, 1, 0, 7))
}

#[test]
fn test_multibyte_bytes_count() {
    let config = config_with(true, true, false, true);
    let res = compute_stats("नमस्ते\n", &config);
    assert_eq!(res, WcrStats::new(1, 1, 19, 0));
}

#[test]
fn test_trailing_fragment_no_newline() {
    let config = config_with(true, true, false, true);
    let res = compute_stats("abc", &config);
    assert_eq!(res.num_lines, 0);
    assert_eq!(res.num_words, 1);
    assert_eq!(res.num_bytes, 3);
}

#[test]
fn test_unrequested_counters_zero() {
    let config = config_with(false, false, false, false);
    let res = compute_stats("a b\nc d e\n", &config);
    assert_eq!(res, WcrStats::new(0, 0, 0, 0));
}

#[test]
fn test_counters_nonnegative() {
    let config = config_with(true, true, false, true);
    let res = compute_stats("some words\n", &config);
    assert!(res.num_lines as i64 >= 0);
    assert!(res.num_words as i64 >= 0);
    assert!(res.num_chars as i64 >= 0);
    assert!(res.num_bytes as i64 >= 0);
}

#[test]
fn test_word_count_edges() {
    let config = config_with(true, true, false, true);
    let res = compute_stats("  a \t b  ", &config);
    assert_eq!(res.num_words, 2);
    assert_eq!(res.num_lines, 0);
    let empty = compute_stats("", &config);
    assert_eq!(empty, WcrStats::new(0, 0, 0, 0));
}

#[test]
fn test_merge_with_sums() {
    let mut a = WcrStats::new(1, 2, 3, 4);
    let b = WcrStats::new(10, 20, 30, 40);
    a.merge_with(&b);
    assert_eq!(a, WcrStats::new(11, 22, 33, 44));
}

#[test]
fn test_merge_commutative() {
    let x = WcrStats::new(1, 2, 3, 4);
    let y = WcrStats::new(5, 6, 7, 8);
    let mut xy = x;
    xy.merge_with(&y);
    let mut yx = y;
    yx.merge_with(&x);
    assert_eq!(xy, yx);
}

#[test]
fn test_merge_associative() {
    let x = WcrStats::new(1, 2, 3, 4);
    let y = WcrStats::new(5, 6, 7, 8);
    let z = WcrStats::new(9, 10, 11, 12);
    let mut left = x;
    left.merge_with(&y);
    left.merge_with(&z);
    let mut yz = y;
    yz.merge_with(&z);
    let mut right = x;
    right.merge_with(&yz);
    assert_eq!(left, right);
}

#[test]
fn test_format_field_values() {
    assert_eq!(format_field(42, true), "      42");
    assert_eq!(format_field(0, true), "       0");
    assert_eq!(format_field(12345678, true), "12345678");
    assert_eq!(format_field(123456789, true), "123456789");
    assert_eq!(format_field(42, false), "");
}

#[test]
fn test_format_idempotent() {
    let stats = WcrStats::new(3, 14, 159, 26);
    let config = config_with(true, true, true, false);
    let first = format_stats_line(&stats, &config, "pi.txt");
    let second = format_stats_line(&stats, &config, "pi.txt");
    assert_eq!(first, second);
}

#[test]
fn test_stats_line_with_name() {
    let config = config_with(true, true, false, true);
    let stats = compute_stats("a b\n", &config);
    let line = format_stats_line(&stats, &config, "F1");
    assert_eq!(line, "       1       2       4 F1");
}

#[test]
fn test_stats_line_stdin_placeholder() {
    let config = config_with(true, true, false, true);
    let stats = compute_stats("a b\n", &config);
    let line = format_stats_line(&stats, &config, "-");
    assert_eq!(line, "       1       2       4");
}

#[test]
fn test_multi_file_total() {
    let files = vec![String::from("F1"), String::from("F2")];
    let config = Config::from_flags(files, false, false, false, false).unwrap();
    let s1 = compute_stats("a b\n", &config);
    let s2 = compute_stats("c\n", &config);
    let line1 = format_stats_line(&s1, &config, "F1");
    let line2 = format_stats_line(&s2, &config, "F2");
    assert_eq!(line1, "       1       2       4 F1");
    assert_eq!(line2, "       1       1       2 F2");
    let mut total = WcrStats::new(0, 0, 0, 0);
    total.merge_with(&s1);
    total.merge_with(&s2);
    let total_line = format_total_line(&total, &config);
    assert_eq!(total_line, "       2       3       6 total");
    assert_eq!(total.num_lines, s1.num_lines + s2.num_lines);
    assert_eq!(total.num_words, s1.num_words + s2.num_words);
    assert_eq!(total.num_bytes, s1.num_bytes + s2.num_bytes);
}

#[test]
fn test_chars_and_bytes_conflict() {
    let r = Config::from_flags(vec![String::from("x")], false, false, true, true);
    assert_eq!(r.unwrap_err(), UsageError::CharsBytesConflict);
    let msg = UsageError::CharsBytesConflict.message();
    assert_eq!(msg, "the character count and the byte count cannot be requested together");
}

#[test]
fn test_default_flags() {
    let c = Config::from_flags(vec![String::from("-")], false, false, false, false).unwrap();
    assert!(c.lines);
    assert!(c.words);
    assert!(!c.chars);
    assert!(c.bytes);
}

#[test]
fn test_explicit_flags_kept() {
    let c = Config::from_flags(vec![], false, true, false, false).unwrap();
    assert!(!c.lines);
    assert!(c.words);
    assert!(!c.chars);
    assert!(!c.bytes);
    let c2 = Config::from_flags(vec![], false, false, true, false).unwrap();
    assert!(c2.chars);
    assert!(!c2.bytes);
}
