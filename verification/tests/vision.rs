use fleet_backend::json::{Json, JsonObject};
use fleet_backend::meter_ocr::form::ReadRequest;
use fleet_backend::meter_ocr::reading::MeterReadingTokens;
use fleet_backend::meter_ocr::vision::{
    accept_tokens, after_send, answer_content, api_key, call_again, resolve_openai_model,
    status_class, vision_request, SendEvent, SendStep, StatusClass, VisionCallError, PROMPT,
};

fn request(image: &[u8], media_type: &str) -> ReadRequest {
    ReadRequest {
        company_prefix: "0_".to_string(),
        company_url: "https://example.com".to_string(),
        site: String::new(),
        device_id: String::new(),
        pump_id: "p".to_string(),
        nozzle_id: "n".to_string(),
        shift_event: "open".to_string(),
        image_bytes: image.to_vec(),
        image_media_type: media_type.to_string(),
    }
}

fn image_url(image: &[u8], media_type: &str) -> String {
    let body = vision_request(&request(image, media_type), "m");
    let message = body.get("messages").unwrap().first().unwrap();
    match message.get("content").unwrap() {
        Json::List(items) => {
            items[1].get("image_url").unwrap().get_text("url").unwrap().to_string()
        }
        _ => panic!("the content is a list"),
    }
}

fn answer(message: JsonObject, finish_reason: &str) -> Json {
    let choice = JsonObject::new()
        .with("message", message.build())
        .with("finish_reason", Json::text(finish_reason))
        .build();
    JsonObject::new().with("choices", Json::list(vec![choice])).build()
}

fn tokens(sale: &str, liters: &str) -> MeterReadingTokens {
    MeterReadingTokens {
        sale_token: sale.to_string(),
        liters_token: liters.to_string(),
        confidence: "high".to_string(),
        uncertain_digits: String::new(),
    }
}

fn turned_away(code: u16, status: &str, text: &str) -> SendEvent {
    SendEvent::TurnedAway { code, status: status.to_string(), text: text.to_string() }
}

fn mismatch(text: &str) -> VisionCallError {
    VisionCallError::SchemaMismatch(text.to_string())
}

#[test]
fn the_model_can_be_configured() {
    assert_eq!(resolve_openai_model(None), "gpt-4o");
    assert_eq!(resolve_openai_model(Some(" \t".to_string())), "gpt-4o");
    assert_eq!(resolve_openai_model(Some(" other ".to_string())), " other ");
}

#[test]
fn the_key_has_to_be_configured() {
    assert_eq!(api_key(Some(String::new())), Ok(String::new()));
    assert_eq!(
        api_key(None),
        Err(VisionCallError::Upstream("OPENAI_API_KEY not set".to_string()))
    );
}

#[test]
fn photos_are_sent_as_base64() {
    assert_eq!(image_url(b"f", "image/jpeg"), "data:image/jpeg;base64,Zg==");
    assert_eq!(image_url(b"fo", "image/png"), "data:image/png;base64,Zm8=");
    assert_eq!(image_url(b"foo", "image/jpeg"), "data:image/jpeg;base64,Zm9v");
    assert_eq!(image_url(b"foobar", "x"), "data:x;base64,Zm9vYmFy");
    assert_eq!(image_url(&[0xfb, 0xff, 0xfe], "x"), "data:x;base64,+//+");
}

#[test]
fn the_request_asks_for_a_strict_schema() {
    let body = vision_request(&request(b"foo", "image/jpeg"), "gpt-4o");
    assert_eq!(body.get_text("model"), Some("gpt-4o"));
    assert_eq!(body.get("max_completion_tokens"), Some(&Json::Int(4096)));
    assert_eq!(body.get("temperature"), Some(&Json::Int(0)));
    let format = body.get("response_format").unwrap();
    assert_eq!(format.get_text("type"), Some("json_schema"));
    let wrapper = format.get("json_schema").unwrap();
    assert_eq!(wrapper.get_text("name"), Some("meter_reading"));
    assert_eq!(wrapper.get_bool("strict"), Some(true));
    let schema = wrapper.get("schema").unwrap();
    assert_eq!(schema.get_text("type"), Some("object"));
    assert_eq!(schema.get_bool("additionalProperties"), Some(false));
    let names = vec!["sale_token", "liters_token", "confidence", "uncertain_digits"];
    assert_eq!(
        schema.get("required"),
        Some(&Json::List(names.iter().map(|name| Json::text(name)).collect()))
    );
    let properties = schema.get("properties").unwrap();
    for name in names {
        assert_eq!(properties.get(name).unwrap().get_text("type"), Some("string"));
    }
    assert_eq!(
        properties.get("confidence").unwrap().get("enum"),
        Some(&Json::List(vec![Json::text("high"), Json::text("medium"), Json::text("low")]))
    );
    let message = body.get("messages").unwrap().first().unwrap();
    assert_eq!(message.get_text("role"), Some("user"));
    let instruction = message.get("content").unwrap().first().unwrap();
    assert_eq!(instruction.get_text("type"), Some("text"));
    assert_eq!(instruction.get_text("text"), Some(PROMPT));
    assert!(PROMPT.starts_with("This is a photo of a fuel pump's digital totalizer display."));
    assert!(PROMPT.ends_with("do not silently guess and report high confidence."));
}

#[test]
fn statuses_are_told_apart() {
    assert_eq!(status_class(200), StatusClass::Success);
    assert_eq!(status_class(299), StatusClass::Success);
    assert_eq!(status_class(429), StatusClass::TooBusy);
    assert_eq!(status_class(500), StatusClass::ServerFault);
    assert_eq!(status_class(599), StatusClass::ServerFault);
    assert_eq!(status_class(199), StatusClass::Rejected);
    assert_eq!(status_class(300), StatusClass::Rejected);
    assert_eq!(status_class(400), StatusClass::Rejected);
    assert_eq!(status_class(600), StatusClass::Rejected);
}

#[test]
fn what_may_pass_is_sent_again_once() {
    assert_eq!(
        after_send(0, SendEvent::NoAnswer("timeout".to_string())),
        SendStep::Again { backoff_ms: 600 }
    );
    assert_eq!(
        after_send(1, SendEvent::NoAnswer("timeout".to_string())),
        SendStep::Finished(Err(VisionCallError::Upstream("request failed: timeout".to_string())))
    );
    assert_eq!(
        after_send(0, turned_away(503, "503 Service Unavailable", "down")),
        SendStep::Again { backoff_ms: 600 }
    );
    assert_eq!(
        after_send(1, turned_away(503, "503 Service Unavailable", "down")),
        SendStep::Finished(Err(VisionCallError::Upstream(
            "HTTP 503 Service Unavailable: down".to_string()
        )))
    );
}

#[test]
fn a_busy_service_is_given_more_time() {
    assert_eq!(
        after_send(0, turned_away(429, "429 Too Many Requests", "slow down")),
        SendStep::Again { backoff_ms: 5000 }
    );
    assert_eq!(
        after_send(1, turned_away(429, "429 Too Many Requests", "slow down")),
        SendStep::Finished(Err(VisionCallError::RateLimited("HTTP 429: slow down".to_string())))
    );
}

#[test]
fn a_rejected_request_is_not_sent_again() {
    for attempt in [0, 1] {
        assert_eq!(
            after_send(attempt, turned_away(401, "401 Unauthorized", "")),
            SendStep::Finished(Err(VisionCallError::Upstream(
                "HTTP 401 Unauthorized: ".to_string()
            )))
        );
    }
}

#[test]
fn an_answer_ends_the_sending() {
    assert_eq!(
        after_send(0, SendEvent::Answered(Ok(Json::Bool(true)))),
        SendStep::Finished(Ok(Json::Bool(true)))
    );
    assert_eq!(
        after_send(0, SendEvent::Answered(Err("eof".to_string()))),
        SendStep::Finished(Err(VisionCallError::Upstream("bad JSON response: eof".to_string())))
    );
}

#[test]
fn the_content_of_an_answer_is_found() {
    let message = JsonObject::new().with("content", Json::text("{}"));
    assert_eq!(answer_content(&answer(message, "stop")), Ok("{}".to_string()));
    let blank_refusal =
        JsonObject::new().with("refusal", Json::text(" ")).with("content", Json::text("{}"));
    assert_eq!(answer_content(&answer(blank_refusal, "stop")), Ok("{}".to_string()));
    let null_refusal = JsonObject::new().with("refusal", Json::Null).with("content", Json::text(""));
    assert_eq!(answer_content(&answer(null_refusal, "stop")), Ok(String::new()));
}

#[test]
fn a_declined_answer_is_told() {
    let refusal =
        JsonObject::new().with("refusal", Json::text("no")).with("content", Json::text("{}"));
    assert_eq!(answer_content(&answer(refusal, "length")), Err(VisionCallError::Declined));
    let filtered = JsonObject::new().with("content", Json::text("{}"));
    assert_eq!(answer_content(&answer(filtered, "content_filter")), Err(VisionCallError::Declined));
}

#[test]
fn an_answer_without_a_reading_is_told() {
    let cut_off = JsonObject::new().with("content", Json::text("{\"sale"));
    assert_eq!(
        answer_content(&answer(cut_off, "length")),
        Err(mismatch("response truncated at max_completion_tokens before finishing valid JSON"))
    );
    let empty = mismatch("no message content in OpenAI response");
    assert_eq!(answer_content(&answer(JsonObject::new(), "stop")), Err(empty));
    for odd in [
        Json::Null,
        Json::list(vec![]),
        JsonObject::new().build(),
        JsonObject::new().with("choices", Json::list(vec![])).build(),
        JsonObject::new().with("choices", Json::text("x")).build(),
    ] {
        assert_eq!(
            answer_content(&odd),
            Err(mismatch("no message content in OpenAI response"))
        );
    }
}

#[test]
fn a_reading_without_text_is_none() {
    assert_eq!(accept_tokens(Ok(tokens(" ", ""))), Err(VisionCallError::NoTextDetected));
    assert_eq!(accept_tokens(Ok(tokens("", "1.0"))), Ok(tokens("", "1.0")));
    assert_eq!(accept_tokens(Ok(tokens("9", " "))), Ok(tokens("9", " ")));
    assert_eq!(
        accept_tokens(Err("missing field".to_string())),
        Err(mismatch("response didn't match schema: missing field"))
    );
}

#[test]
fn only_a_malformed_answer_is_asked_for_again() {
    assert!(call_again(0, &Err(mismatch("x"))));
    assert!(!call_again(1, &Err(mismatch("x"))));
    assert!(!call_again(0, &Err(VisionCallError::Declined)));
    assert!(!call_again(0, &Err(VisionCallError::NoTextDetected)));
    assert!(!call_again(0, &Err(VisionCallError::RateLimited("x".to_string()))));
    assert!(!call_again(0, &Err(VisionCallError::Upstream("x".to_string()))));
    assert!(!call_again(0, &Ok(tokens("1", "2"))));
}
