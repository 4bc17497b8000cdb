use ray_tracer::ppm::{push_decimal, push_header, push_row, LINE_LIMIT};

fn decimal(n: u32) -> String {
    let mut out = String::new();
    push_decimal(&mut out, n);
    out
}

fn row(values: &[u8]) -> String {
    let mut out = String::new();
    push_row(&mut out, values);
    out
}

#[test]
fn decimal_notation() {
    assert_eq!(decimal(0), "0");
    assert_eq!(decimal(7), "7");
    assert_eq!(decimal(10), "10");
    assert_eq!(decimal(255), "255");
    assert_eq!(decimal(1024), "1024");
    assert_eq!(decimal(u32::MAX), "4294967295");
    for n in [0u32, 9, 10, 99, 100, 101, 999, 1000, 65535, 123456789] {
        assert_eq!(decimal(n), n.to_string());
    }
}

#[test]
fn decimal_is_appended() {
    let mut out = String::from("x=");
    push_decimal(&mut out, 42);
    assert_eq!(out, "x=42");
}

#[test]
fn header_names_the_size() {
    let mut out = String::new();
    push_header(&mut out, 5, 3);
    assert_eq!(out, "P3\n5 3\n255\n");
    let mut out = String::from("#");
    push_header(&mut out, 640, 480);
    assert_eq!(out, "#P3\n640 480\n255\n");
}

#[test]
fn empty_row_has_no_line() {
    assert_eq!(row(&[]), "");
}

#[test]
fn short_row_is_one_line() {
    assert_eq!(row(&[0]), "0\n");
    assert_eq!(row(&[255, 0, 128]), "255 0 128\n");
}

#[test]
fn row_is_appended() {
    let mut out = String::from("head\n");
    push_row(&mut out, &[1, 2, 3]);
    assert_eq!(out, "head\n1 2 3\n");
}

#[test]
fn line_of_exactly_the_limit_is_kept() {
    // 17 samples of three digits and one of two: 17 * 4 + 2 = 70 characters.
    let mut values = vec![100u8; 17];
    values.push(10);
    let text = row(&values);
    assert_eq!(text.lines().count(), 1);
    assert_eq!(text.lines().next().unwrap().len(), LINE_LIMIT);
}

#[test]
fn line_over_the_limit_is_broken() {
    // 18 samples of three digits would take 71 characters.
    let values = vec![100u8; 18];
    let text = row(&values);
    let lines: Vec<&str> = text.lines().collect();
    assert_eq!(lines.len(), 2);
    assert_eq!(lines[0].len(), 67);
    assert_eq!(lines[1], "100");
}

#[test]
fn lines_stay_within_the_limit() {
    let values: Vec<u8> = (0..=255u8).chain((0..=255u8).rev()).collect();
    let text = row(&values);
    assert!(text.ends_with('\n'));
    assert!(text.lines().all(|line| !line.is_empty() && line.len() <= LINE_LIMIT));
    assert!(text.lines().all(|line| !line.starts_with(' ') && !line.ends_with(' ')));
    let read: Vec<u8> = text.split_whitespace().map(|word| word.parse().unwrap()).collect();
    assert_eq!(read, values);
}

#[test]
fn lines_are_filled_greedily() {
    let values = vec![7u8; 40];
    let text = row(&values);
    let lines: Vec<&str> = text.lines().collect();
    // 35 one-digit samples take 69 characters; the 36th would take 71.
    assert_eq!(lines.len(), 2);
    assert_eq!(lines[0].len(), 69);
    assert_eq!(lines[1], "7 7 7 7 7");
}
