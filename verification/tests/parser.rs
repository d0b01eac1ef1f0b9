use instadl::progress::parse_progress_line;

#[test]
fn template_shaped_line_parses_every_field() {
    let line = "download:[1024/2048][512.0KiB/s][ETA:00:10] 50.0% [1.0MiB/2.0MiB]";
    let snap = parse_progress_line(line).expect("sentinel line must parse");
    assert_eq!(snap.fraction.num, 500);
    assert_eq!(snap.fraction.den, 1000);
    assert_eq!(snap.speed, "512.0KiB/s");
    assert_eq!(snap.eta, "00:10");
    assert_eq!(snap.size, "1.0MiB/2.0MiB");
}

#[test]
fn fraction_is_percentage_over_one_hundred() {
    let snap = parse_progress_line("download: 50.0%").unwrap();
    // 50.0% == 500/1000 == 1/2, exactly.
    assert_eq!(snap.fraction.num * 2, snap.fraction.den);

    let snap = parse_progress_line("download: 12.5%").unwrap();
    assert_eq!(snap.fraction.num, 125);
    assert_eq!(snap.fraction.den, 1000);

    let snap = parse_progress_line("download: 100.00%").unwrap();
    assert_eq!(snap.fraction.num, 10000);
    assert_eq!(snap.fraction.den, 10000);
}

#[test]
fn missing_tokens_default_independently() {
    let snap = parse_progress_line("download: 12.5%").unwrap();
    assert_eq!(snap.speed, "0B/s");
    assert_eq!(snap.eta, "00:00");
    assert_eq!(snap.size, "0B/0B");

    let snap = parse_progress_line("download:").unwrap();
    assert_eq!(snap.fraction.num, 0);
    assert_eq!(snap.fraction.den, 100);
    assert_eq!(snap.speed, "0B/s");
    assert_eq!(snap.eta, "00:00");
    assert_eq!(snap.size, "0B/0B");
}

#[test]
fn non_sentinel_lines_yield_nothing() {
    assert!(parse_progress_line("").is_none());
    assert!(parse_progress_line("ordinary output 50.0%").is_none());
    assert!(parse_progress_line("Download: 50.0%").is_none());
    assert!(parse_progress_line("downloa").is_none());
}

#[test]
fn leftmost_tokens_win() {
    let snap = parse_progress_line("download: 10.0% then 20.0%").unwrap();
    assert_eq!(snap.fraction.num, 100);
    assert_eq!(snap.fraction.den, 1000);

    let snap = parse_progress_line("download:[1.0KiB/s][2.0KiB/s]").unwrap();
    assert_eq!(snap.speed, "1.0KiB/s");
}

#[test]
fn speed_content_must_end_with_per_second() {
    let snap = parse_progress_line("download:[1024/2048][3.1MiB/s]").unwrap();
    assert_eq!(snap.speed, "3.1MiB/s");

    // Neither bracket group ends with "/s".
    let snap = parse_progress_line("download:[1024/2048][cached]").unwrap();
    assert_eq!(snap.speed, "0B/s");
}

#[test]
fn eta_value_sheds_one_leading_bracket() {
    // The template form keeps the label inside the brackets.
    let snap = parse_progress_line("download:[ETA:01:23]").unwrap();
    assert_eq!(snap.eta, "01:23");

    // The label outside the brackets yields the same value.
    let snap = parse_progress_line("download: ETA:[00:10]").unwrap();
    assert_eq!(snap.eta, "00:10");
}

#[test]
fn size_needs_two_sized_numbers() {
    let snap = parse_progress_line("download:[12.3KiB/4.5GiB] rest").unwrap();
    assert_eq!(snap.size, "12.3KiB/4.5GiB");

    // Bytes without a unit do not match the size shape.
    let snap = parse_progress_line("download:[1048576/2097152]").unwrap();
    assert_eq!(snap.size, "0B/0B");
}

#[test]
fn oversized_percentage_falls_back_to_zero() {
    let snap = parse_progress_line("download: 99999999999999999999999999.9%").unwrap();
    assert_eq!(snap.fraction.num, 0);
    assert_eq!(snap.fraction.den, 100);

    // A long fractional part overflows the denominator as well.
    let snap = parse_progress_line("download: 1.0000000000000000000000001%").unwrap();
    assert_eq!(snap.fraction.num, 0);
    assert_eq!(snap.fraction.den, 100);
}

#[test]
fn percentage_requires_both_digit_groups() {
    let snap = parse_progress_line("download: 50%").unwrap();
    assert_eq!(snap.fraction.num, 0);
    assert_eq!(snap.fraction.den, 100);

    let snap = parse_progress_line("download: .5%").unwrap();
    assert_eq!(snap.fraction.num, 0);
    assert_eq!(snap.fraction.den, 100);
}
