use forecast::describe::describe_rain;
use forecast::number::{real_text, settle, Numeral};
use forecast::model::{Clouds, Coord, Rain, Sys, Weather, Wind};
use forecast::text::{decimal, digit, digits, list_text};

fn fraction(x: f64) -> Numeral {
    Numeral::Real(serde_json::Number::from_f64(x).unwrap())
}

#[test]
fn digits_are_written_one_by_one() {
    let all: Vec<&str> = (0..10).map(digit).collect();
    assert_eq!(all, vec!["0", "1", "2", "3", "4", "5", "6", "7", "8", "9"]);
}

#[test]
fn natural_numbers_are_written_in_decimal() {
    assert_eq!(digits(0), "0");
    assert_eq!(digits(9), "9");
    assert_eq!(digits(10), "10");
    assert_eq!(digits(1005), "1005");
    assert_eq!(digits(1234567890), "1234567890");
    assert_eq!(digits(u64::MAX), "18446744073709551615");
}

#[test]
fn whole_numbers_are_written_in_decimal() {
    assert_eq!(decimal(0), "0");
    assert_eq!(decimal(7), "7");
    assert_eq!(decimal(-1), "-1");
    assert_eq!(decimal(-28800), "-28800");
    assert_eq!(decimal(1700000000), "1700000000");
    assert_eq!(decimal(i64::MAX), "9223372036854775807");
    assert_eq!(decimal(i64::MIN), "-9223372036854775808");
    for n in [-1000, -99, -10, 10, 99, 100, 101, 4096] {
        assert_eq!(decimal(n), format!("{:?}", n));
    }
}

#[test]
fn lists_are_written_in_square_brackets() {
    assert_eq!(list_text(&vec![]), "[]");
    assert_eq!(list_text(&vec!["a".to_string()]), "[a]");
    assert_eq!(list_text(&vec!["a".to_string(), String::new(), "c d".to_string()]), "[a, , c d]");
}

#[test]
fn real_numbers_are_written_as_doubles() {
    assert_eq!(real_text(&fraction(290.1)), "290.1");
    assert_eq!(real_text(&fraction(0.0)), "0.0");
    assert_eq!(real_text(&fraction(-0.0)), "-0.0");
    assert_eq!(real_text(&fraction(-122.42)), "-122.42");
    assert_eq!(real_text(&fraction(1e21)), "1e21");
    assert_eq!(real_text(&fraction(1e-7)), "1e-7");
    assert_eq!(real_text(&fraction(f64::MAX)), format!("{:?}", f64::MAX));
    assert_eq!(real_text(&Numeral::Real(serde_json::Number::from(u64::MAX))), "1.8446744073709552e19");
}

#[test]
fn whole_numbers_in_the_place_of_real_ones_are_written_as_doubles() {
    assert_eq!(real_text(&Numeral::Whole(0)), "0.0");
    assert_eq!(real_text(&Numeral::Whole(-5)), "-5.0");
    assert_eq!(real_text(&Numeral::Whole(1012)), "1012.0");
    assert_eq!(real_text(&Numeral::Whole(9007199254740993)), "9007199254740992.0");
    assert_eq!(real_text(&Numeral::Whole(i64::MAX)), "9.223372036854776e18");
    assert_eq!(real_text(&Numeral::Whole(i64::MIN)), "-9.223372036854776e18");
}

#[test]
fn a_text_that_came_is_taken_and_one_that_did_not_is_nan() {
    assert_eq!(settle(Some("1.5".to_string())), "1.5");
    assert_eq!(settle(Some(String::new())), "");
    assert_eq!(settle(None), "NaN");
}

#[test]
fn records_are_written_by_name_with_their_fields_in_braces() {
    assert_eq!(Clouds { all: -3 }.describe(), "Clouds { all: -3 }");
    assert_eq!(
        Coord { lat: fraction(37.77), lon: Numeral::Whole(-122) }.describe(),
        "Coord { lat: 37.77, lon: -122.0 }"
    );
    assert_eq!(
        Wind { speed: fraction(3.1), deg: 200, gust: fraction(4.0) }.describe(),
        "Wind { speed: 3.1, deg: 200, gust: 4.0 }"
    );
    assert_eq!(Rain { h3: fraction(0.5) }.describe(), "Rain { h3: 0.5 }");
}

#[test]
fn texts_are_written_in_quotes_with_escapes() {
    assert_eq!(Sys { pod: "d".to_string() }.describe(), "Sys { pod: \"d\" }");
    assert_eq!(Sys { pod: String::new() }.describe(), "Sys { pod: \"\" }");
    assert_eq!(
        Sys { pod: "a\"b\\c\nd\te'f\u{1}é".to_string() }.describe(),
        "Sys { pod: \"a\\\"b\\\\c\\nd\\te'f\\u{1}é\" }"
    );
    assert_eq!(
        Weather {
            id: 800,
            main: "Clear".to_string(),
            description: "clear sky".to_string(),
            icon: "01d".to_string()
        }
        .describe(),
        "Weather { id: 800, main: \"Clear\", description: \"clear sky\", icon: \"01d\" }"
    );
}

#[test]
fn the_rain_of_an_entry_is_written_as_some_or_none() {
    assert_eq!(describe_rain(&None), "None");
    assert_eq!(describe_rain(&Some(Rain { h3: fraction(1.25) })), "Some(Rain { h3: 1.25 })");
    assert_eq!(describe_rain(&Some(Rain { h3: Numeral::Whole(2) })), "Some(Rain { h3: 2.0 })");
}
