use space_invade_rs::highscore::bump_high_score;
use space_invade_rs::highscore::parse_highscore;

fn parse(text: &str) -> i32 {
    parse_highscore(&text.as_bytes().to_vec())
}

#[test]
fn parses_a_plain_integer() {
    assert_eq!(parse("123"), 123);
    assert_eq!(parse("0"), 0);
    assert_eq!(parse("+7"), 7);
}

#[test]
fn trims_surrounding_whitespace() {
    assert_eq!(parse(" 42\n"), 42);
    assert_eq!(parse("\t\r\n 9000 \n"), 9000);
}

#[test]
fn unreadable_values_load_as_zero() {
    assert_eq!(parse(""), 0);
    assert_eq!(parse("   "), 0);
    assert_eq!(parse("abc"), 0);
    assert_eq!(parse("12x"), 0);
    assert_eq!(parse("1 2"), 0);
    assert_eq!(parse("+"), 0);
    assert_eq!(parse("++1"), 0);
}

#[test]
fn negative_values_load_as_zero() {
    assert_eq!(parse("-5"), 0);
    assert_eq!(parse("-0"), 0);
    assert_eq!(parse("-2147483648"), 0);
}

#[test]
fn out_of_range_values_load_as_zero() {
    assert_eq!(parse("2147483647"), 2147483647);
    assert_eq!(parse("2147483648"), 0);
    assert_eq!(parse("99999999999999999999"), 0);
}

#[test]
fn leading_zeroes_are_accepted() {
    assert_eq!(parse("007"), 7);
    assert_eq!(parse("000000000000000000000000042"), 42);
}

#[test]
fn bump_raises_only_on_a_new_record() {
    let mut high = 100;
    assert!(!bump_high_score(40, &mut high));
    assert_eq!(high, 100);
    assert!(!bump_high_score(100, &mut high));
    assert_eq!(high, 100);
    assert!(bump_high_score(101, &mut high));
    assert_eq!(high, 101);
}

#[test]
fn bump_never_lowers_the_high_score() {
    let mut high = 0;
    let plays = [30, 10, 250, 40, 250, 600, 0];
    let mut last = high;
    for s in plays {
        bump_high_score(s, &mut high);
        assert!(high >= last);
        assert!(high >= s);
        last = high;
    }
    assert_eq!(high, 600);
}
