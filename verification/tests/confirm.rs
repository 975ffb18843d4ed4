use fleet_backend::json::{Json, JsonObject};
use fleet_backend::meter_ocr::confirm::{
    audit_columns, audit_recorded, client_timestamp, confirm_reply, confirm_rows, rows_with,
    AuditColumns, ConfirmRequest,
};
use fleet_backend::meter_ocr::form::ReadRequest;
use fleet_backend::meter_ocr::read::no_reading;
use fleet_backend::meter_ocr::reading::{reading_body, LitersFacts, MeterReadingTokens};
use fleet_backend::meter_ocr::vision::VisionCallError;
use fleet_backend::reply::DbFailure;

fn request(shift_event: &str, timestamp: Option<&str>) -> ConfirmRequest<f64> {
    ConfirmRequest {
        company_prefix: "0_".to_string(),
        company_url: "https://example.com".to_string(),
        site: "north".to_string(),
        pump_id: "p".to_string(),
        nozzle_id: "n".to_string(),
        shift_event: shift_event.to_string(),
        raw_model_response: Some(
            JsonObject::new()
                .with("confidence", Json::text("low"))
                .with("needs_review", Json::flag(true))
                .build(),
        ),
        anomaly_flags: vec!["delta_too_large".to_string()],
        confirmed_sale_number: Some(12),
        confirmed_liters: Some(4567.89),
        confirmed_reading: None,
        was_edited: true,
        image_ref: Some("i".to_string()),
        attendant_id: None,
        timestamp: timestamp.map(str::to_string),
    }
}

fn nothing() -> AuditColumns {
    AuditColumns { confidence: None, sale_token: None, liters_token: None, needs_review: false }
}

#[test]
fn timestamps_are_read() {
    let at = |text: &str| client_timestamp(&Some(text.to_string()));
    assert_eq!(at("1970-01-01T00:00:00Z"), Some((0, 0)));
    assert_eq!(at(" 2024-02-29T12:00:00.25+02:00 "), Some((1_709_200_800, 250_000_000)));
    assert_eq!(at("1969-12-31T23:59:59Z"), Some((-1, 0)));
    assert_eq!(at(""), None);
    assert_eq!(at("  "), None);
    assert_eq!(at("yesterday"), None);
    assert_eq!(at("2023-02-29T00:00:00Z"), None);
    assert_eq!(client_timestamp(&None), None);
}

#[test]
fn the_audit_trail_takes_what_is_there() {
    let response = JsonObject::new()
        .with("confidence", Json::text("high"))
        .with("sale_token", Json::integer(9))
        .with("liters_token", Json::text("1.0"))
        .with("needs_review", Json::text("true"))
        .build();
    assert_eq!(
        audit_columns(&Some(response)),
        AuditColumns {
            confidence: Some("high".to_string()),
            sale_token: None,
            liters_token: Some("1.0".to_string()),
            needs_review: false,
        }
    );
    assert_eq!(audit_columns(&None), nothing());
    assert_eq!(audit_columns(&Some(Json::list(vec![]))), nothing());
}

#[test]
fn a_reading_passed_through_is_kept() {
    let tokens = MeterReadingTokens {
        sale_token: "0012".to_string(),
        liters_token: "4567.89".to_string(),
        confidence: "low".to_string(),
        uncertain_digits: String::new(),
    };
    let facts = LitersFacts {
        liters: Some(Json::Number("4567.89".to_string())),
        pasted: None,
        last_liters: None,
        decreased: false,
        too_large: false,
    };
    let body = reading_body(&tokens, facts, None, 99999, "m");
    assert_eq!(
        audit_columns(&Some(body)),
        AuditColumns {
            confidence: Some("low".to_string()),
            sale_token: Some("0012".to_string()),
            liters_token: Some("4567.89".to_string()),
            needs_review: true,
        }
    );
}

#[test]
fn a_failure_passed_through_leaves_nothing() {
    let request = ReadRequest {
        company_prefix: String::new(),
        company_url: String::new(),
        site: String::new(),
        device_id: String::new(),
        pump_id: String::new(),
        nozzle_id: String::new(),
        shift_event: "open".to_string(),
        image_bytes: vec![1],
        image_media_type: String::new(),
    };
    let (reply, _) = no_reading(&request, &VisionCallError::Declined, "m");
    assert_eq!(audit_columns(&reply.body), nothing());
}

#[test]
fn a_confirmation_writes_two_rows() {
    let (audit, baseline) = confirm_rows(request("close", Some("1970-01-02T00:00:00Z"))).unwrap();
    assert_eq!(audit.company_prefix, "0_");
    assert_eq!(audit.company_url, "https://example.com");
    assert_eq!(audit.site, "north");
    assert_eq!(audit.pump_id, "p");
    assert_eq!(audit.nozzle_id, "n");
    assert_eq!(audit.shift_event, "close");
    assert_eq!(audit.columns.confidence, Some("low".to_string()));
    assert!(audit.columns.needs_review);
    assert_eq!(audit.raw_model_response, request("close", None).raw_model_response);
    assert_eq!(audit.anomaly_flags, vec!["delta_too_large"]);
    assert_eq!(audit.confirmed_sale_number, Some(12));
    assert_eq!(audit.confirmed_liters, Some(4567.89));
    assert_eq!(audit.confirmed_reading, None);
    assert!(audit.was_edited);
    assert_eq!(audit.image_ref, Some("i".to_string()));
    assert_eq!(audit.attendant_id, None);
    assert_eq!(audit.client_timestamp, Some((86400, 0)));
    assert_eq!(baseline.company_prefix, "0_");
    assert_eq!(baseline.company_url, "https://example.com");
    assert_eq!(baseline.site, "north");
    assert_eq!(baseline.pump_id, "p");
    assert_eq!(baseline.nozzle_id, "n");
    assert_eq!(baseline.last_liters, Some(4567.89));
    assert_eq!(baseline.last_sale_number, Some(12));
    assert_eq!(baseline.last_confirmed_at, Some((86400, 0)));
}

#[test]
fn the_instant_goes_into_both_rows() {
    let (audit, baseline) = rows_with(request("open", None), Some((1, 2))).unwrap();
    assert_eq!(audit.client_timestamp, Some((1, 2)));
    assert_eq!(baseline.last_confirmed_at, Some((1, 2)));
    assert!(rows_with(request("noon", None), None).is_err());
}

#[test]
fn a_confirmation_names_a_shift_event() {
    let reply = confirm_rows(request("", None)).unwrap_err();
    assert_eq!(reply.status, 400);
    let body = reply.body.unwrap();
    assert_eq!(body.get_text("error"), Some("bad_request"));
    assert_eq!(body.get_text("message"), Some("shift_event must be \"open\" or \"close\""));
}

#[test]
fn the_audit_row_decides_the_answer() {
    assert_eq!(audit_recorded(Ok(7)), Ok(7));
    let reply = audit_recorded(Err(DbFailure::Other)).unwrap_err();
    assert_eq!(reply.status, 500);
    let body = reply.body.unwrap();
    assert_eq!(body.get_bool("success"), Some(false));
    assert_eq!(body.get_text("error"), Some("database_error"));
    assert_eq!(
        body.get_text("message"),
        Some("Could not record the confirmed reading — try again.")
    );
    for updated in [Ok(()), Err(DbFailure::Other)] {
        let reply = confirm_reply(7, updated);
        assert_eq!(reply.status, 200);
        assert_eq!(
            reply.body,
            Some(JsonObject::new().with("success", Json::flag(true)).with("audit_id", Json::integer(7)).build())
        );
    }
}
