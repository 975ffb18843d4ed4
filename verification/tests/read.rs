use fleet_backend::json::Json;
use fleet_backend::meter_ocr::form::ReadRequest;
use fleet_backend::meter_ocr::read::{
    check_shift_event, no_reading, read_settings, CompanyLimits, LastConfirmed, ReadAction,
    ReadEvent, ReadLog, ReadSettings, ReadStage,
};
use fleet_backend::meter_ocr::reading::{LitersFacts, MeterReadingTokens};
use fleet_backend::meter_ocr::vision::VisionCallError;
use fleet_backend::reply::{DbFailure, Reply};

fn request(shift_event: &str) -> ReadRequest {
    ReadRequest {
        company_prefix: "0_".to_string(),
        company_url: "https://example.com".to_string(),
        site: "north".to_string(),
        device_id: "d".to_string(),
        pump_id: "p".to_string(),
        nozzle_id: "n".to_string(),
        shift_event: shift_event.to_string(),
        image_bytes: vec![1],
        image_media_type: "image/jpeg".to_string(),
    }
}

fn tokens(sale: &str) -> MeterReadingTokens {
    MeterReadingTokens {
        sale_token: sale.to_string(),
        liters_token: " 4567.89".to_string(),
        confidence: "high".to_string(),
        uncertain_digits: String::new(),
    }
}

fn settings(daily_cap: i64) -> ReadSettings {
    ReadSettings { daily_cap, rollover_ceiling: None, model: "m".to_string() }
}

fn limits() -> CompanyLimits {
    CompanyLimits { rollover_ceiling: Some(50) }
}

fn facts() -> LitersFacts {
    LitersFacts {
        liters: Some(Json::Int(1)),
        pasted: Some(Json::Int(2)),
        last_liters: None,
        decreased: false,
        too_large: false,
    }
}

fn failure(status: u16, code: &str, message: &str) -> Reply {
    Reply {
        status,
        body: Some(Json::Object(vec![
            ("success".to_string(), Json::Bool(false)),
            ("error".to_string(), Json::Text(code.to_string())),
            ("message".to_string(), Json::Text(message.to_string())),
        ])),
    }
}

fn at_model() -> ReadStage {
    ReadStage::Model {
        request: request("open"),
        limits: limits(),
        last: LastConfirmed { sale_number: Some(12) },
    }
}

fn answered_and_logged(next: (ReadStage, ReadAction)) -> (Reply, Option<ReadLog>) {
    match next {
        (ReadStage::Done, ReadAction::Answer { reply, log }) => (reply, log),
        other => panic!("no answer: {:?}", other),
    }
}

fn list_len(value: Option<&Json>) -> usize {
    match value {
        Some(Json::List(items)) => items.len(),
        other => panic!("no list: {:?}", other),
    }
}

#[test]
fn settings_have_defaults() {
    let plain = read_settings(None, None, None);
    assert_eq!(plain.daily_cap, 2000);
    assert_eq!(plain.rollover_ceiling, None);
    assert_eq!(plain.model, "gpt-4o");
    let set = read_settings(
        Some("17".to_string()),
        Some("9999".to_string()),
        Some("other".to_string()),
    );
    assert_eq!(set.daily_cap, 17);
    assert_eq!(set.rollover_ceiling, Some(9999));
    assert_eq!(set.model, "other");
    let odd = read_settings(Some("1e3".to_string()), Some(String::new()), Some(String::new()));
    assert_eq!(odd.daily_cap, 2000);
    assert_eq!(odd.rollover_ceiling, None);
}

#[test]
fn there_are_two_shift_events() {
    assert!(check_shift_event("open").is_ok());
    assert!(check_shift_event("close").is_ok());
    let refused = failure(400, "bad_request", "shift_event must be \"open\" or \"close\"");
    assert_eq!(check_shift_event("Open"), Err(refused));
    assert!(check_shift_event("").is_err());
}

#[test]
fn a_whole_reading() {
    let settings = settings(10);
    let (stage, action) =
        ReadStage::new().step(&settings, ReadEvent::FormRead(Ok(request("close"))));
    assert_eq!(action, ReadAction::LookUpCompany);
    assert_eq!(stage.request().map(|r| r.pump_id.as_str()), Some("p"));
    let (stage, action) = stage.step(&settings, ReadEvent::CompanyLookedUp(Ok(Some(limits()))));
    assert_eq!(action, ReadAction::CountCalls);
    let (stage, action) = stage.step(&settings, ReadEvent::CallsCounted(Ok(Some(9))));
    assert_eq!(action, ReadAction::LookUpBaseline);
    let (stage, action) = stage.step(
        &settings,
        ReadEvent::BaselineLookedUp(Ok(Some(LastConfirmed { sale_number: Some(12) }))),
    );
    assert_eq!(action, ReadAction::AskModel);
    let (stage, action) = stage.step(&settings, ReadEvent::ModelAnswered(Ok(tokens("013"))));
    assert_eq!(
        action,
        ReadAction::MeasureLiters {
            liters: Some("4567.89".to_string()),
            reading: Some("3 4567.89".to_string()),
        }
    );
    let (reply, log) = answered_and_logged(stage.step(&settings, ReadEvent::LitersMeasured(facts())));
    assert_eq!(reply.status, 200);
    let body = reply.body.unwrap();
    assert_eq!(body.get_bool("success"), Some(true));
    assert_eq!(body.get("sale_number"), Some(&Json::Int(13)));
    assert_eq!(body.get("last_sale_number"), Some(&Json::Int(12)));
    assert_eq!(body.get_text("model"), Some("m"));
    assert_eq!(log, Some(ReadLog::succeeded(&request("close"), &tokens("013"), "m")));
}

#[test]
fn a_form_out_of_order_is_turned_away() {
    let broken = ReadEvent::FormRead(Err("missing image".to_string()));
    assert_eq!(
        answered_and_logged(ReadStage::new().step(&settings(10), broken)),
        (failure(400, "bad_request", "missing image"), None)
    );
    let odd = ReadEvent::FormRead(Ok(request("lunch")));
    assert_eq!(
        answered_and_logged(ReadStage::new().step(&settings(10), odd)),
        (failure(400, "bad_request", "shift_event must be \"open\" or \"close\""), None)
    );
}

#[test]
fn an_unknown_company_is_turned_away() {
    for found in [Ok(None), Err(DbFailure::Other)] {
        let stage = ReadStage::Company { request: request("open") };
        assert_eq!(
            answered_and_logged(stage.step(&settings(10), ReadEvent::CompanyLookedUp(found))),
            (
                failure(400, "unrecognized_company", "unrecognized company_url/company_prefix"),
                None
            )
        );
    }
}

#[test]
fn the_daily_cap_holds() {
    let counting = || ReadStage::Count { request: request("open"), limits: limits() };
    let text = "This company has hit its daily meter-OCR limit — contact support if this is a real spike in captures, not a stuck retry loop.";
    for count in [10, 11] {
        let event = ReadEvent::CallsCounted(Ok(Some(count)));
        assert_eq!(
            answered_and_logged(counting().step(&settings(10), event)),
            (failure(429, "daily_cap_reached", text), None)
        );
    }
    for count in [Ok(Some(9)), Ok(None), Err(DbFailure::Other)] {
        let (_, action) = counting().step(&settings(10), ReadEvent::CallsCounted(count));
        assert_eq!(action, ReadAction::LookUpBaseline);
    }
    let (_, action) = counting().step(&settings(0), ReadEvent::CallsCounted(Ok(None)));
    assert!(matches!(action, ReadAction::Answer { .. }));
}

#[test]
fn without_a_baseline_nothing_is_compared() {
    for found in [Ok(None), Err(DbFailure::Other)] {
        let stage = ReadStage::Baseline { request: request("open"), limits: limits() };
        let (stage, action) = stage.step(&settings(10), ReadEvent::BaselineLookedUp(found));
        assert_eq!(action, ReadAction::AskModel);
        assert_eq!(
            stage,
            ReadStage::Model {
                request: request("open"),
                limits: limits(),
                last: LastConfirmed { sale_number: None },
            }
        );
    }
}

#[test]
fn failures_are_told_with_a_status_that_arrives() {
    let cases = vec![
        (
            VisionCallError::Declined,
            200,
            "declined",
            "The cloud reading was declined — enter the reading manually.",
            "declined",
        ),
        (
            VisionCallError::NoTextDetected,
            200,
            "no_text_detected",
            "Couldn't make out the display in this photo — retake with better lighting/focus.",
            "no_text_detected",
        ),
        (
            VisionCallError::RateLimited("x".to_string()),
            429,
            "rate_limited",
            "The meter reading service is busy right now — wait a few seconds and try again, or enter the reading manually.",
            "rate_limited",
        ),
        (
            VisionCallError::SchemaMismatch("x".to_string()),
            200,
            "upstream_error",
            "Cloud reading is temporarily unavailable — try again, or enter the reading manually.",
            "upstream_unavailable",
        ),
        (
            VisionCallError::Upstream("x".to_string()),
            200,
            "upstream_error",
            "Cloud reading is temporarily unavailable — try again, or enter the reading manually.",
            "upstream_unavailable",
        ),
    ];
    for (error, status, code, message, word) in cases {
        let (reply, log) = no_reading(&request("open"), &error, "m");
        assert_eq!(reply, failure(status, code, message));
        assert_eq!(log, ReadLog::failed(&request("open"), word, "m"));
        let next = at_model().step(&settings(10), ReadEvent::ModelAnswered(Err(error)));
        assert_eq!(answered_and_logged(next), (reply, Some(log)));
    }
}

#[test]
fn the_log_keeps_what_was_read() {
    let log = ReadLog::succeeded(&request("open"), &tokens("13"), "m");
    assert_eq!(log.company_prefix, "0_");
    assert_eq!(log.company_url, "https://example.com");
    assert_eq!(log.site, "north");
    assert_eq!(log.device_id, "d");
    assert_eq!(log.shift_event, "open");
    assert!(log.ok);
    assert_eq!(log.error, None);
    assert_eq!(log.sale_token, Some("13".to_string()));
    assert_eq!(log.liters_token, Some(" 4567.89".to_string()));
    assert_eq!(log.confidence, Some("high".to_string()));
    assert_eq!(log.model, "m");
    let log = ReadLog::failed(&request("open"), "declined", "m");
    assert!(!log.ok);
    assert_eq!(log.error, Some("declined".to_string()));
    assert_eq!(log.sale_token, None);
    assert_eq!(log.liters_token, None);
    assert_eq!(log.confidence, None);
}

#[test]
fn the_company_ceiling_comes_first() {
    let anomalies = |company: Option<i64>, configured: Option<i64>| {
        let stage = ReadStage::Liters {
            request: request("open"),
            limits: CompanyLimits { rollover_ceiling: company },
            last: LastConfirmed { sale_number: Some(60) },
            tokens: tokens("10"),
        };
        let settings = ReadSettings {
            daily_cap: 1,
            rollover_ceiling: configured,
            model: "m".to_string(),
        };
        let next = stage.step(&settings, ReadEvent::LitersMeasured(facts()));
        list_len(answered_and_logged(next).0.body.unwrap().get("anomalies"))
    };
    // A fall by 50 is a rollover below a ceiling of 50, but none below the default.
    assert_eq!(anomalies(Some(50), Some(99999)), 0);
    assert_eq!(anomalies(None, Some(50)), 0);
    assert_eq!(anomalies(None, None), 1);
    assert_eq!(anomalies(Some(99999), Some(50)), 1);
}

#[test]
fn a_reading_with_an_extreme_ceiling_is_flagged() {
    let stage = ReadStage::Liters {
        request: request("open"),
        limits: CompanyLimits { rollover_ceiling: Some(i64::MAX) },
        last: LastConfirmed { sale_number: Some(60) },
        tokens: tokens("10"),
    };
    let next = stage.step(&settings(1), ReadEvent::LitersMeasured(facts()));
    let body = answered_and_logged(next).0.body.unwrap();
    assert_eq!(
        body.get("anomalies"),
        Some(&Json::List(vec![Json::text("sale_number_regression")]))
    );
}
