use fleet_backend::json::Json;
use fleet_backend::meter_ocr::reading::{
    anomalies, configured_integer, effective, liters_text, parse_sale_token, reading_body,
    reading_text, sale_number_regression, LitersFacts,
    MeterReadingTokens, DEFAULT_SALE_NUMBER_ROLLOVER_CEILING,
};

fn parse_liters_token(token: &str) -> Option<f64> {
    liters_text(token).and_then(|text| text.parse::<f64>().ok())
}

fn compute_reading(liters: Option<f64>, sale_token: &str, liters_token: &str) -> Option<f64> {
    liters?;
    reading_text(sale_token, liters_token).and_then(|text| text.parse::<f64>().ok())
}

fn tokens(sale: &str, liters: &str, confidence: &str) -> MeterReadingTokens {
    MeterReadingTokens {
        sale_token: sale.to_string(),
        liters_token: liters.to_string(),
        confidence: confidence.to_string(),
        uncertain_digits: String::new(),
    }
}

fn number(text: &str) -> Option<Json> {
    Some(Json::Number(text.to_string()))
}

fn facts(decreased: bool, too_large: bool) -> LitersFacts {
    LitersFacts {
        liters: number("4567.89"),
        pasted: number("24567.89"),
        last_liters: number("4500.5"),
        decreased,
        too_large,
    }
}

#[test]
fn parse_sale_token_drops_leading_zeros() {
    assert_eq!(parse_sale_token("0009"), Some(9));
    assert_eq!(parse_sale_token("00012"), Some(12));
    assert_eq!(parse_sale_token("0"), Some(0));
}

#[test]
fn parse_sale_token_empty_or_unparseable_is_none() {
    assert_eq!(parse_sale_token(""), None);
    assert_eq!(parse_sale_token("   "), None);
    assert_eq!(parse_sale_token("abc"), None);
}

#[test]
fn parse_liters_token_parses_decimal() {
    assert_eq!(parse_liters_token("7530.22"), Some(7530.22));
    assert_eq!(parse_liters_token("0050.00"), Some(50.0));
}

#[test]
fn parse_liters_token_empty_is_none() {
    assert_eq!(parse_liters_token(""), None);
}

#[test]
fn compute_reading_pastes_only_the_last_digit_of_sale_token() {
    let liters = parse_liters_token("4567.89");
    assert_eq!(compute_reading(liters, "00012", "4567.89"), Some(24567.89));
}

#[test]
fn compute_reading_multi_digit_counter_uses_last_digit_not_whole_number() {
    let liters = parse_liters_token("4567.89");
    assert_eq!(compute_reading(liters, "123", "4567.89"), Some(34567.89));
}

#[test]
fn compute_reading_single_digit_counter_is_unaffected_by_the_fix() {
    let liters = parse_liters_token("7530.22");
    assert_eq!(compute_reading(liters, "0009", "7530.22"), Some(97530.22));
    assert_eq!(compute_reading(liters, "9", "7530.22"), Some(97530.22));
}

#[test]
fn compute_reading_zero_counter() {
    let liters = parse_liters_token("1234.56");
    assert_eq!(compute_reading(liters, "0", "1234.56"), Some(1234.56));
}

#[test]
fn compute_reading_none_when_liters_missing() {
    assert_eq!(compute_reading(None, "9", ""), None);
}

#[test]
fn compute_reading_none_when_sale_token_empty_or_unparseable() {
    let liters = parse_liters_token("6252.95");
    assert_eq!(compute_reading(liters, "", "6252.95"), None);
    assert_eq!(compute_reading(liters, "abc", "6252.95"), None);
}

#[test]
fn sale_tokens_are_64_bit_integers() {
    assert_eq!(parse_sale_token(" 42\n"), Some(42));
    assert_eq!(parse_sale_token("+7"), Some(7));
    assert_eq!(parse_sale_token("-7"), Some(-7));
    assert_eq!(parse_sale_token("+"), None);
    assert_eq!(parse_sale_token("-"), None);
    assert_eq!(parse_sale_token("1 2"), None);
    assert_eq!(parse_sale_token("12.0"), None);
    assert_eq!(parse_sale_token("9223372036854775807"), Some(i64::MAX));
    assert_eq!(parse_sale_token("9223372036854775808"), None);
    assert_eq!(parse_sale_token("-9223372036854775808"), Some(i64::MIN));
    assert_eq!(parse_sale_token("-9223372036854775809"), None);
    assert_eq!(parse_sale_token("\u{661}"), None);
}

#[test]
fn the_litres_are_pasted_exactly_as_shown() {
    assert_eq!(reading_text("00012 ", " 4567.890"), Some("2 4567.890".to_string()));
    assert_eq!(reading_text("12x", "1"), None);
    assert_eq!(reading_text("\u{661}", "1"), None);
    assert_eq!(liters_text(" 50.0\t"), Some("50.0".to_string()));
    assert_eq!(liters_text(" \u{a0}"), None);
}

#[test]
fn zeros_in_front_change_nothing() {
    for digits in ["0", "7", "120", "9223372036854775807", "9223372036854775808"] {
        let padded = format!("000{digits}");
        assert_eq!(parse_sale_token(&padded), parse_sale_token(digits));
    }
}

#[test]
fn rows_with_the_same_last_digit_are_combined_alike() {
    for sale in ["2", "12", "99992", " x2 "] {
        assert_eq!(reading_text(sale, "4567.89"), Some("24567.89".to_string()));
    }
}

#[test]
fn the_company_is_asked_before_the_configuration() {
    assert_eq!(effective(Some(1), Some(2), 3), 1);
    assert_eq!(effective(None, Some(2), 3), 2);
    assert_eq!(effective(None, None, 3), 3);
    assert_eq!(configured_integer(&Some("300".to_string())), Some(300));
    assert_eq!(configured_integer(&Some(" 300".to_string())), None);
    assert_eq!(configured_integer(&Some("many".to_string())), None);
    assert_eq!(configured_integer(&None), None);
}

#[test]
fn a_wrapped_counter_is_no_regression() {
    let ceiling = DEFAULT_SALE_NUMBER_ROLLOVER_CEILING;
    assert_eq!(ceiling, 99999);
    assert!(!sale_number_regression(5, 99998, ceiling));
    assert!(sale_number_regression(99990, 99998, ceiling));
    assert!(!sale_number_regression(7, 7, ceiling));
    assert!(!sale_number_regression(8, 7, ceiling));
}

#[test]
fn the_threshold_is_nine_tenths_of_the_ceiling() {
    assert!(sale_number_regression(1, 90000, 100000));
    assert!(!sale_number_regression(0, 90000, 100000));
    // Nine tenths of 99999 are 89999 and a tenth.
    assert!(sale_number_regression(10, 90009, 99999));
    assert!(sale_number_regression(0, 89999, 99999));
    assert!(!sale_number_regression(0, 90000, 99999));
    // With a negative ceiling every fall is a rollover.
    assert!(!sale_number_regression(0, 1, -15));
}

#[test]
fn no_rise_is_a_regression() {
    for ceiling in [i64::MIN, -1, 0, 1, i64::MAX] {
        assert!(!sale_number_regression(10, 3, ceiling));
    }
}

#[test]
fn deeper_falls_stay_rollovers() {
    assert!(!sale_number_regression(9, 99, 100));
    for lower in -200..9 {
        assert!(!sale_number_regression(lower, 99, 100));
    }
}

#[test]
fn extreme_counters_are_judged() {
    assert!(!sale_number_regression(i64::MIN, i64::MAX, i64::MAX));
    assert!(!sale_number_regression(i64::MIN, 0, 10));
    assert!(sale_number_regression(0, 1, i64::MAX));
    assert!(!sale_number_regression(0, 1, i64::MIN));
    assert!(!sale_number_regression(0, i64::MAX, i64::MAX));
}

#[test]
fn anomalies_come_in_order() {
    assert_eq!(
        anomalies(&facts(true, true), Some(12), Some(13), 99999),
        vec!["liters_decreased", "delta_too_large", "sale_number_regression"]
    );
    assert_eq!(anomalies(&facts(false, true), Some(13), Some(13), 99999), vec!["delta_too_large"]);
    assert_eq!(anomalies(&facts(true, false), None, Some(13), 99999), vec!["liters_decreased"]);
    assert!(anomalies(&facts(false, false), Some(14), None, 99999).is_empty());
}

#[test]
fn litres_are_compared_where_both_are_known() {
    let unknown = LitersFacts {
        liters: number("1.5"),
        pasted: None,
        last_liters: None,
        decreased: true,
        too_large: true,
    };
    assert!(anomalies(&unknown, None, None, 99999).is_empty());
}

#[test]
fn a_reading_is_reported_in_full() {
    let body =
        reading_body(&tokens("00012", "4567.89", "high"), facts(false, false), Some(11), 99999, "m");
    let expected = Json::Object(vec![
        ("success".to_string(), Json::Bool(true)),
        ("sale_token".to_string(), Json::Text("00012".to_string())),
        ("liters_token".to_string(), Json::Text("4567.89".to_string())),
        ("sale_number".to_string(), Json::Int(12)),
        ("liters".to_string(), Json::Number("4567.89".to_string())),
        ("reading".to_string(), Json::Number("24567.89".to_string())),
        ("confidence".to_string(), Json::Text("high".to_string())),
        ("uncertain_digits".to_string(), Json::Text(String::new())),
        ("anomalies".to_string(), Json::List(vec![])),
        ("needs_review".to_string(), Json::Bool(false)),
        ("last_liters".to_string(), Json::Number("4500.5".to_string())),
        ("last_sale_number".to_string(), Json::Int(11)),
        ("model".to_string(), Json::Text("m".to_string())),
    ]);
    assert_eq!(body, expected);
}

#[test]
fn doubtful_readings_need_review() {
    let review = |sale: &str, confidence: &str, facts: LitersFacts| {
        reading_body(&tokens(sale, "4567.89", confidence), facts, Some(11), 99999, "m")
            .get_bool("needs_review")
    };
    assert_eq!(review("12", "medium", facts(false, false)), Some(false));
    assert_eq!(review("12", "low", facts(false, false)), Some(true));
    assert_eq!(review("", "high", facts(false, false)), Some(true));
    assert_eq!(review("10", "high", facts(false, false)), Some(true));
    assert_eq!(review("12", "high", facts(true, false)), Some(true));
    let mut illegible = facts(false, false);
    illegible.liters = None;
    assert_eq!(review("12", "high", illegible), Some(true));
}

#[test]
fn without_litres_there_is_no_combined_reading() {
    let mut illegible = facts(false, false);
    illegible.liters = None;
    let body = reading_body(&tokens("12", "x", "high"), illegible, None, 99999, "m");
    assert_eq!(body.get("liters"), Some(&Json::Null));
    assert_eq!(body.get("reading"), Some(&Json::Null));
    assert_eq!(body.get("last_sale_number"), Some(&Json::Null));
}
