use svg_area::decimal::{decimal_string, push_digits};
use svg_area::percent::{canvas_area, percent_of};
use svg_area::report::report_line;

#[test]
fn raw_count_is_printed_as_it_is() {
    assert_eq!(report_line(0, 10, 20, false, false), "0");
    assert_eq!(report_line(50, 10, 20, false, false), "50");
    assert_eq!(report_line(200, 10, 20, false, false), "200");
}

#[test]
fn square_alone_changes_nothing() {
    assert_eq!(report_line(50, 10, 20, false, true), "50");
    assert_eq!(
        report_line(50, 10, 20, false, true),
        report_line(50, 10, 20, false, false)
    );
}

#[test]
fn raw_count_needs_no_canvas() {
    assert_eq!(report_line(7, 0, 0, false, false), "7");
    assert_eq!(report_line(7, 0, 5, false, true), "7");
}

#[test]
fn percentage_of_the_canvas() {
    assert_eq!(report_line(50, 10, 20, true, false), "25%");
}

#[test]
fn percentage_of_the_bounding_square() {
    // 50 of 400 is 12.5 percent, which lies halfway and goes to the even 12.
    assert_eq!(report_line(50, 10, 20, true, true), "12%");
    assert_eq!(report_line(50, 20, 10, true, true), "12%");
}

#[test]
fn square_of_a_square_canvas_is_the_canvas() {
    assert_eq!(
        report_line(31, 9, 9, true, true),
        report_line(31, 9, 9, true, false)
    );
    assert_eq!(report_line(31, 9, 9, true, true), "38%");
}

#[test]
fn full_canvas_is_hundred_percent() {
    assert_eq!(report_line(200, 10, 20, true, false), "100%");
    assert_eq!(report_line(1, 1, 1, true, false), "100%");
    assert_eq!(report_line(1, 1, 1, true, true), "100%");
    assert_eq!(percent_of(u64::MAX, u64::MAX), 100);
}

#[test]
fn empty_canvas_is_zero_percent() {
    assert_eq!(report_line(0, 10, 20, true, false), "0%");
    assert_eq!(report_line(0, 10, 20, true, true), "0%");
    assert_eq!(percent_of(0, u64::MAX), 0);
}

#[test]
fn halfway_goes_to_the_even_percent() {
    // down
    assert_eq!(percent_of(1, 200), 0);
    assert_eq!(percent_of(1, 8), 12);
    assert_eq!(percent_of(5, 200), 2);
    assert_eq!(percent_of(5, 8), 62);
    // up
    assert_eq!(percent_of(3, 200), 2);
    assert_eq!(percent_of(3, 8), 38);
    assert_eq!(percent_of(7, 8), 88);
    assert_eq!(percent_of(199, 200), 100);
}

#[test]
fn next_to_halfway_goes_to_the_nearer_percent() {
    // 12.4875 and 12.5125 percent
    assert_eq!(percent_of(999, 8000), 12);
    assert_eq!(percent_of(1001, 8000), 13);
    // 13.4875 and 13.5125 percent
    assert_eq!(percent_of(1079, 8000), 13);
    assert_eq!(percent_of(1081, 8000), 14);
    assert_eq!(percent_of(1, 3), 33);
    assert_eq!(percent_of(2, 3), 67);
}

#[test]
fn count_beyond_the_area_is_more_than_hundred_percent() {
    assert_eq!(percent_of(3, 2), 150);
    assert_eq!(report_line(300, 10, 20, true, false), "150%");
    assert_eq!(percent_of(u64::MAX, 1), 1844674407370955161500);
}

#[test]
fn area_of_canvas_and_of_square() {
    assert_eq!(canvas_area(10, 20, false), 200);
    assert_eq!(canvas_area(10, 20, true), 400);
    assert_eq!(canvas_area(20, 10, true), 400);
    assert_eq!(canvas_area(0, 20, false), 0);
    assert_eq!(canvas_area(0, 0, true), 0);
    assert_eq!(canvas_area(u32::MAX, u32::MAX, false), 18446744065119617025);
    assert_eq!(canvas_area(1, u32::MAX, true), 18446744065119617025);
}

#[test]
fn widest_canvas_does_not_overflow() {
    assert_eq!(report_line(u64::MAX, u32::MAX, u32::MAX, true, true), "100%");
    assert_eq!(report_line(1 << 63, u32::MAX, u32::MAX, true, false), "50%");
}

#[test]
fn decimal_of_small_and_large_numbers() {
    assert_eq!(decimal_string(0), "0");
    assert_eq!(decimal_string(7), "7");
    assert_eq!(decimal_string(10), "10");
    assert_eq!(decimal_string(1234567890), "1234567890");
    assert_eq!(decimal_string(1000), "1000");
    assert_eq!(
        decimal_string(u128::MAX),
        "340282366920938463463374607431768211455"
    );
}

#[test]
fn decimal_agrees_with_the_standard_formatting() {
    let mut n: u128 = 1;
    while n < u128::MAX / 7 {
        assert_eq!(decimal_string(n), format!("{}", n));
        assert_eq!(decimal_string(n - 1), format!("{}", n - 1));
        n = n * 7 + 3;
    }
}

#[test]
fn digits_are_appended_to_what_is_there() {
    let mut text = String::from("n=");
    push_digits(&mut text, 420);
    assert_eq!(text, "n=420");
    push_digits(&mut text, 0);
    assert_eq!(text, "n=420");
}

#[test]
fn report_is_the_same_every_time() {
    let first = report_line(123, 40, 30, true, true);
    let second = report_line(123, 40, 30, true, true);
    assert_eq!(first, second);
    assert_eq!(first, "8%");
}
