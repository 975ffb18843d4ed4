//! The vision model: the request that it is sent, what its answers mean, and when it is asked
//! again.
use vstd::prelude::*;
use vstd::string::*;

use crate::external::{base64_text, encode_base64};
use crate::json::{items_view, member_text, no_members, Json, JsonObject, JsonView};
use crate::meter_ocr::form::ReadRequest;
use crate::meter_ocr::reading::MeterReadingTokens;
use crate::text::{is_blank, is_blank_text, join3, same_text};

verus! {

/// The model that is asked where the configuration names none.
pub const DEFAULT_MODEL: &'static str = "gpt-4o";

/// What the model is asked to do.
pub const PROMPT: &'static str = "This is a photo of a fuel pump's digital totalizer display. Reading top to bottom, the display shows up to three rows: SALE (labeled \"LL\" on-screen — a short whole-number transaction/sale counter), LITERS (below it — a decimal cumulative volume totalizer), and sometimes a PRICE row below that. Ignore any PRICE row completely if it's present in the photo — never read or report it, it isn't relevant here.\n\nRead the SALE row and the LITERS row carefully. Seven-segment displays like this one commonly cause specific digit confusions — 0/8/9, 1/7, 3/8, 5/6 — especially where a segment is dim, viewed at an angle, or has glare on it. Reason about each digit's individual shape before deciding what it is, rather than pattern-matching the row as a whole.\n\nReturn sale_token and liters_token as the EXACT digit strings shown on the display, not as parsed or re-formatted numbers — preserve leading zeros in sale_token, and preserve the decimal point exactly where it's lit in liters_token. If a row is genuinely illegible after careful reasoning, return an empty string for that token rather than guessing at a plausible value.\n\nIf there is genuine doubt about any digit, set confidence to \"low\" and use uncertain_digits to note which digit(s) and which row were ambiguous — do not silently guess and report high confidence.";

/// Why there is no reading.
#[derive(Debug, PartialEq)]
pub enum VisionCallError {
    /// The model declined: it refused, or its answer was filtered.
    Declined,
    /// A well-formed answer in which both rows are empty.
    NoTextDetected,
    /// An answer that does not hold a reading in the form that was asked for, or was cut off.
    SchemaMismatch(String),
    /// The service was too busy, and still was when it was asked again.
    RateLimited(String),
    /// Any other failure to get an answer.
    Upstream(String),
}

/// The mathematical value of a [`VisionCallError`].
pub enum VisionErrorView {
    Declined,
    NoTextDetected,
    SchemaMismatch(Seq<char>),
    RateLimited(Seq<char>),
    Upstream(Seq<char>),
}

impl View for VisionCallError {
    type V = VisionErrorView;

    open spec fn view(&self) -> VisionErrorView {
        match self {
            VisionCallError::Declined => VisionErrorView::Declined,
            VisionCallError::NoTextDetected => VisionErrorView::NoTextDetected,
            VisionCallError::SchemaMismatch(m) => VisionErrorView::SchemaMismatch(m@),
            VisionCallError::RateLimited(m) => VisionErrorView::RateLimited(m@),
            VisionCallError::Upstream(m) => VisionErrorView::Upstream(m@),
        }
    }
}

/// The model that is in force.
pub open spec fn model_of(variable: Option<String>) -> Seq<char> {
    match variable {
        Some(name) => if is_blank_text(name@) {
            DEFAULT_MODEL@
        } else {
            name@
        },
        None => DEFAULT_MODEL@,
    }
}

/// The model that is in force: the configured one unless it is blank.
pub fn resolve_openai_model(variable: Option<String>) -> (model: String)
    ensures
        model@ == model_of(variable),
{
    match variable {
        Some(name) => if is_blank(name.as_str()) {
            DEFAULT_MODEL.to_owned()
        } else {
            name
        },
        None => DEFAULT_MODEL.to_owned(),
    }
}

/// The key that the service is asked with.
pub fn api_key(variable: Option<String>) -> (key: Result<String, VisionCallError>)
    ensures
        match variable {
            Some(k) => key == Ok::<String, VisionCallError>(k),
            None => key matches Err(e) && e@ == VisionErrorView::Upstream(
                "OPENAI_API_KEY not set"@,
            ),
        },
{
    match variable {
        Some(key) => Ok(key),
        None => Err(VisionCallError::Upstream("OPENAI_API_KEY not set".to_owned())),
    }
}

// ---------------------------------------------------------------------------
// The request
// ---------------------------------------------------------------------------

/// A photo as a data URL.
pub open spec fn data_url_of(media_type: Seq<char>, image: Seq<u8>) -> Seq<char> {
    "data:"@ + media_type + ";base64,"@ + base64_text(image)
}

/// A photo as a data URL.
fn data_url(request: &ReadRequest) -> (url: String)
    requires
        request.well_formed(),
    ensures
        url@ == data_url_of(request.image_media_type@, request.image_bytes@),
{
    let encoded = encode_base64(&request.image_bytes);
    let lead = join3("data:", request.image_media_type.as_str(), ";base64,");
    let url = join3(lead.as_str(), encoded.as_str(), "");
    proof {
        reveal_strlit("");
        assert(lead@ + encoded@ + ""@ =~= lead@ + encoded@);
    }
    url
}

/// The schema `{ "type": "string" }`.
pub open spec fn string_schema() -> JsonView {
    JsonView::Object(no_members().push(("type"@, JsonView::Text("string"@))))
}

/// The schema of the confidence: one of three words.
pub open spec fn confidence_schema() -> JsonView {
    JsonView::Object(
        no_members()
            .push(("type"@, JsonView::Text("string"@)))
            .push(
                (
                    "enum"@,
                    JsonView::List(
                        Seq::<JsonView>::empty()
                            .push(JsonView::Text("high"@))
                            .push(JsonView::Text("medium"@))
                            .push(JsonView::Text("low"@)),
                    ),
                ),
            ),
    )
}

/// The schema that an answer has to meet: the four texts of a reading, and nothing else.
pub open spec fn reading_schema() -> JsonView {
    JsonView::Object(
        no_members()
            .push(("type"@, JsonView::Text("object"@)))
            .push(
                (
                    "properties"@,
                    JsonView::Object(
                        no_members()
                            .push(("sale_token"@, string_schema()))
                            .push(("liters_token"@, string_schema()))
                            .push(("confidence"@, confidence_schema()))
                            .push(("uncertain_digits"@, string_schema())),
                    ),
                ),
            )
            .push(
                (
                    "required"@,
                    JsonView::List(
                        Seq::<JsonView>::empty()
                            .push(JsonView::Text("sale_token"@))
                            .push(JsonView::Text("liters_token"@))
                            .push(JsonView::Text("confidence"@))
                            .push(JsonView::Text("uncertain_digits"@)),
                    ),
                ),
            )
            .push(("additionalProperties"@, JsonView::Bool(false))),
    )
}

/// The form of answer that is asked for.
pub open spec fn response_format() -> JsonView {
    JsonView::Object(
        no_members()
            .push(("type"@, JsonView::Text("json_schema"@)))
            .push(
                (
                    "json_schema"@,
                    JsonView::Object(
                        no_members()
                            .push(("name"@, JsonView::Text("meter_reading"@)))
                            .push(("strict"@, JsonView::Bool(true)))
                            .push(("schema"@, reading_schema())),
                    ),
                ),
            ),
    )
}

/// The message to the model: what it is to do, and the photo.
pub open spec fn user_message(url: Seq<char>) -> JsonView {
    let instruction = JsonView::Object(
        no_members()
            .push(("type"@, JsonView::Text("text"@)))
            .push(("text"@, JsonView::Text(PROMPT@))),
    );
    let photo = JsonView::Object(
        no_members()
            .push(("type"@, JsonView::Text("image_url"@)))
            .push(
                (
                    "image_url"@,
                    JsonView::Object(no_members().push(("url"@, JsonView::Text(url)))),
                ),
            ),
    );
    JsonView::Object(
        no_members()
            .push(("role"@, JsonView::Text("user"@)))
            .push(
                (
                    "content"@,
                    JsonView::List(Seq::<JsonView>::empty().push(instruction).push(photo)),
                ),
            ),
    )
}

/// The body of the request to the model. Sampling is switched off: a photo has one reading.
pub open spec fn vision_request_view(model: Seq<char>, url: Seq<char>) -> JsonView {
    JsonView::Object(
        no_members()
            .push(("model"@, JsonView::Text(model)))
            .push(("max_completion_tokens"@, JsonView::Int(4096)))
            .push(("temperature"@, JsonView::Int(0)))
            .push(("response_format"@, response_format()))
            .push(
                ("messages"@, JsonView::List(Seq::<JsonView>::empty().push(user_message(url)))),
            ),
    )
}

fn push_item(items: &mut Vec<Json>, item: Json)
    ensures
        items_view(final(items)@) == items_view(old(items)@).push(item@),
{
    items.push(item);
    assert(items_view(items@) =~= items_view(old(items)@).push(item@));
}

fn no_items() -> (items: Vec<Json>)
    ensures
        items_view(items@) == Seq::<JsonView>::empty(),
{
    let items: Vec<Json> = Vec::new();
    assert(items_view(items@) =~= Seq::<JsonView>::empty());
    items
}

fn string_schema_document() -> (document: Json)
    ensures
        document@ == string_schema(),
{
    JsonObject::new().with("type", Json::text("string")).build()
}

fn confidence_schema_document() -> (document: Json)
    ensures
        document@ == confidence_schema(),
{
    let mut words = no_items();
    push_item(&mut words, Json::text("high"));
    push_item(&mut words, Json::text("medium"));
    push_item(&mut words, Json::text("low"));
    JsonObject::new().with("type", Json::text("string")).with("enum", Json::list(words)).build()
}

fn reading_schema_document() -> (document: Json)
    ensures
        document@ == reading_schema(),
{
    let mut required = no_items();
    push_item(&mut required, Json::text("sale_token"));
    push_item(&mut required, Json::text("liters_token"));
    push_item(&mut required, Json::text("confidence"));
    push_item(&mut required, Json::text("uncertain_digits"));
    let properties = JsonObject::new()
        .with("sale_token", string_schema_document())
        .with("liters_token", string_schema_document())
        .with("confidence", confidence_schema_document())
        .with("uncertain_digits", string_schema_document())
        .build();
    JsonObject::new()
        .with("type", Json::text("object"))
        .with("properties", properties)
        .with("required", Json::list(required))
        .with("additionalProperties", Json::flag(false))
        .build()
}

fn response_format_document() -> (document: Json)
    ensures
        document@ == response_format(),
{
    let schema = JsonObject::new()
        .with("name", Json::text("meter_reading"))
        .with("strict", Json::flag(true))
        .with("schema", reading_schema_document())
        .build();
    JsonObject::new().with("type", Json::text("json_schema")).with("json_schema", schema).build()
}

fn user_message_document(url: &str) -> (document: Json)
    ensures
        document@ == user_message(url@),
{
    let instruction = JsonObject::new()
        .with("type", Json::text("text"))
        .with("text", Json::text(PROMPT))
        .build();
    let photo = JsonObject::new()
        .with("type", Json::text("image_url"))
        .with("image_url", JsonObject::new().with("url", Json::text(url)).build())
        .build();
    let mut content = no_items();
    push_item(&mut content, instruction);
    push_item(&mut content, photo);
    JsonObject::new().with("role", Json::text("user")).with("content", Json::list(content)).build()
}

/// The body of the request to the model for a photo.
pub fn vision_request(request: &ReadRequest, model: &str) -> (body: Json)
    requires
        request.well_formed(),
    ensures
        body@ == vision_request_view(
            model@,
            data_url_of(request.image_media_type@, request.image_bytes@),
        ),
{
    let url = data_url(request);
    let mut messages = no_items();
    push_item(&mut messages, user_message_document(url.as_str()));
    JsonObject::new()
        .with("model", Json::text(model))
        .with("max_completion_tokens", Json::integer(4096))
        .with("temperature", Json::integer(0))
        .with("response_format", response_format_document())
        .with("messages", Json::list(messages))
        .build()
}

// ---------------------------------------------------------------------------
// Sending
// ---------------------------------------------------------------------------

/// How many times a request is sent at the most.
pub const MAX_SENDS: u8 = 2;

/// How long to wait before a request is sent again, in milliseconds.
pub const DEFAULT_BACKOFF_MS: u64 = 600;

/// How long to wait where the service was too busy: its window is counted by the minute.
pub const RATE_LIMIT_BACKOFF_MS: u64 = 5000;

/// What a status code means to the sender.
#[derive(PartialEq, Eq, Structural, Clone, Copy, Debug)]
pub enum StatusClass {
    Success,
    TooBusy,
    ServerFault,
    /// The same request would be turned away again.
    Rejected,
}

pub open spec fn status_class_of(code: u16) -> StatusClass {
    if 200 <= code < 300 {
        StatusClass::Success
    } else if code == 429 {
        StatusClass::TooBusy
    } else if 500 <= code < 600 {
        StatusClass::ServerFault
    } else {
        StatusClass::Rejected
    }
}

/// What a status code means to the sender.
pub fn status_class(code: u16) -> (class: StatusClass)
    ensures
        class == status_class_of(code),
{
    if 200 <= code && code < 300 {
        StatusClass::Success
    } else if code == 429 {
        StatusClass::TooBusy
    } else if 500 <= code && code < 600 {
        StatusClass::ServerFault
    } else {
        StatusClass::Rejected
    }
}

/// What came of sending a request.
#[derive(Debug, PartialEq)]
pub enum SendEvent {
    /// No answer came: the network failed, or the time ran out.
    NoAnswer(String),
    /// A successful answer, as JSON or with what is wrong about it.
    Answered(Result<Json, String>),
    /// An answer without success: its code, the code with its reason, and its text.
    TurnedAway { code: u16, status: String, text: String },
}

/// What to do next.
#[derive(Debug, PartialEq)]
pub enum SendStep {
    /// Wait, and send the request again.
    Again { backoff_ms: u64 },
    /// It is over.
    Finished(Result<Json, VisionCallError>),
}

/// The mathematical value of a [`SendStep`].
pub enum SendStepView {
    Again(u64),
    Answer(JsonView),
    Failure(VisionErrorView),
}

impl View for SendStep {
    type V = SendStepView;

    open spec fn view(&self) -> SendStepView {
        match self {
            SendStep::Again { backoff_ms } => SendStepView::Again(*backoff_ms),
            SendStep::Finished(Ok(document)) => SendStepView::Answer(document@),
            SendStep::Finished(Err(error)) => SendStepView::Failure(error@),
        }
    }
}

/// Whether it may help to send the request again.
pub open spec fn is_transient(event: SendEvent) -> bool {
    match event {
        SendEvent::NoAnswer(_) => true,
        SendEvent::Answered(_) => false,
        SendEvent::TurnedAway { code, .. } => status_class_of(code) is TooBusy || status_class_of(
            code,
        ) is ServerFault,
    }
}

/// Whether the service was too busy.
pub open spec fn is_rate_limited(event: SendEvent) -> bool {
    event matches SendEvent::TurnedAway { code, .. } && status_class_of(code) is TooBusy
}

/// The failure that an event is where nothing more is tried.
pub open spec fn failure_of(event: SendEvent) -> VisionErrorView {
    match event {
        SendEvent::NoAnswer(detail) => VisionErrorView::Upstream("request failed: "@ + detail@),
        SendEvent::Answered(Ok(_)) => VisionErrorView::Upstream(Seq::empty()),
        SendEvent::Answered(Err(detail)) => VisionErrorView::Upstream(
            "bad JSON response: "@ + detail@,
        ),
        SendEvent::TurnedAway { code, status, text } => if status_class_of(code) is TooBusy {
            VisionErrorView::RateLimited("HTTP 429: "@ + text@)
        } else {
            VisionErrorView::Upstream("HTTP "@ + status@ + ": "@ + text@)
        },
    }
}

/// What to do next after the send with a number, counted from 0.
pub open spec fn next_send(attempt: nat, event: SendEvent) -> SendStepView {
    match event {
        SendEvent::Answered(Ok(document)) => SendStepView::Answer(document@),
        _ => if is_transient(event) && attempt + 1 < MAX_SENDS {
            SendStepView::Again(
                if is_rate_limited(event) {
                    RATE_LIMIT_BACKOFF_MS
                } else {
                    DEFAULT_BACKOFF_MS
                },
            )
        } else {
            SendStepView::Failure(failure_of(event))
        },
    }
}

fn with_lead(lead: &str, detail: &str) -> (text: String)
    ensures
        text@ == lead@ + detail@,
{
    lead.to_owned().concat(detail)
}

/// What to do next after a request was sent for the first time (`attempt` 0) or the second. Only
/// what may pass is tried again, and only once.
pub fn after_send(attempt: u8, event: SendEvent) -> (step: SendStep)
    ensures
        step@ == next_send(attempt as nat, event),
{
    let last = attempt >= MAX_SENDS - 1;
    match event {
        SendEvent::NoAnswer(detail) => if last {
            SendStep::Finished(
                Err(VisionCallError::Upstream(with_lead("request failed: ", detail.as_str()))),
            )
        } else {
            SendStep::Again { backoff_ms: DEFAULT_BACKOFF_MS }
        },
        SendEvent::Answered(Ok(document)) => SendStep::Finished(Ok(document)),
        SendEvent::Answered(Err(detail)) => SendStep::Finished(
            Err(VisionCallError::Upstream(with_lead("bad JSON response: ", detail.as_str()))),
        ),
        SendEvent::TurnedAway { code, status, text } => {
            let class = status_class(code);
            if class == StatusClass::TooBusy {
                if last {
                    SendStep::Finished(
                        Err(VisionCallError::RateLimited(with_lead("HTTP 429: ", text.as_str()))),
                    )
                } else {
                    SendStep::Again { backoff_ms: RATE_LIMIT_BACKOFF_MS }
                }
            } else if class == StatusClass::ServerFault && !last {
                SendStep::Again { backoff_ms: DEFAULT_BACKOFF_MS }
            } else {
                let lead = join3("HTTP ", status.as_str(), ": ");
                SendStep::Finished(
                    Err(VisionCallError::Upstream(with_lead(lead.as_str(), text.as_str()))),
                )
            }
        },
    }
}

/// How many times a request is sent from the attempt with a number on, where `events` are what
/// comes of each send.
pub open spec fn sends_made(events: Seq<SendEvent>, attempt: nat) -> nat
    decreases events.len() - attempt,
{
    if attempt >= events.len() {
        0
    } else {
        match next_send(attempt, events[attempt as int]) {
            SendStepView::Again(_) => 1 + sends_made(events, attempt + 1),
            _ => 1,
        }
    }
}

/// A request is sent twice at the most, whatever comes of it.
pub proof fn at_most_two_sends(events: Seq<SendEvent>)
    ensures
        sends_made(events, 0) <= MAX_SENDS,
{
    reveal_with_fuel(sends_made, 3);
}

/// A request that was turned away for another reason than the load of the service or a fault of
/// its own is not sent again.
pub proof fn rejected_requests_are_sent_once(events: Seq<SendEvent>)
    requires
        events.len() > 0,
        events[0] matches SendEvent::TurnedAway { code, .. } && status_class_of(code)
            is Rejected,
    ensures
        sends_made(events, 0) == 1,
{
    reveal_with_fuel(sends_made, 2);
}

/// The service is reported as too busy just where it still was at the last send.
pub proof fn rate_limit_is_reported_if_it_stays(event: SendEvent)
    ensures
        (next_send((MAX_SENDS - 1) as nat, event) matches SendStepView::Failure(e) && e
            is RateLimited) <==> is_rate_limited(event),
{
}

// ---------------------------------------------------------------------------
// The answer
// ---------------------------------------------------------------------------

/// The first choice of an answer, where there is one.
pub open spec fn choice_of(answer: JsonView) -> Option<JsonView> {
    match answer.member("choices"@) {
        Some(choices) => choices.first(),
        None => None,
    }
}

/// The text of a member of the first choice.
pub open spec fn choice_text(answer: JsonView, key: Seq<char>) -> Option<Seq<char>> {
    match choice_of(answer) {
        Some(choice) => member_text(choice, key),
        None => None,
    }
}

/// The text of a member of the message in the first choice.
pub open spec fn message_text(answer: JsonView, key: Seq<char>) -> Option<Seq<char>> {
    match choice_of(answer) {
        Some(choice) => match choice.member("message"@) {
            Some(message) => member_text(message, key),
            None => None,
        },
        None => None,
    }
}

/// Whether the model declined: its message holds a refusal that is not blank, or the answer was
/// filtered.
pub open spec fn declined(answer: JsonView) -> bool {
    ||| (message_text(answer, "refusal"@) matches Some(refusal) && !is_blank_text(refusal))
    ||| choice_text(answer, "finish_reason"@) == Some("content_filter"@)
}

/// What an answer holds: the text that is to be read as a reading, or why there is none.
pub open spec fn content_of(answer: JsonView) -> Result<Seq<char>, VisionErrorView> {
    if declined(answer) {
        Err(VisionErrorView::Declined)
    } else if choice_text(answer, "finish_reason"@) == Some("length"@) {
        Err(
            VisionErrorView::SchemaMismatch(
                "response truncated at max_completion_tokens before finishing valid JSON"@,
            ),
        )
    } else {
        match message_text(answer, "content"@) {
            Some(text) => Ok(text),
            None => Err(
                VisionErrorView::SchemaMismatch("no message content in OpenAI response"@),
            ),
        }
    }
}

fn is_text(value: Option<&str>, wanted: &str) -> (same: bool)
    ensures
        same == (value matches Some(v) && v@ == wanted@),
{
    match value {
        Some(v) => same_text(v, wanted),
        None => false,
    }
}

/// What an answer holds: the text that is to be read as a reading, or why there is none.
pub fn answer_content(answer: &Json) -> (content: Result<String, VisionCallError>)
    ensures
        content is Ok <==> content_of(answer@) is Ok,
        content matches Ok(text) ==> content_of(answer@) == Ok::<Seq<char>, VisionErrorView>(text@),
        content matches Err(e) ==> content_of(answer@) == Err::<Seq<char>, VisionErrorView>(e@),
{
    let choice = match answer.get("choices") {
        Some(choices) => choices.first(),
        None => None,
    };
    let message = match choice {
        Some(c) => c.get("message"),
        None => None,
    };
    let finish_reason = match choice {
        Some(c) => c.get_text("finish_reason"),
        None => None,
    };
    let refusal = match message {
        Some(m) => m.get_text("refusal"),
        None => None,
    };
    let refused = match refusal {
        Some(r) => !is_blank(r),
        None => false,
    };
    if refused || is_text(finish_reason, "content_filter") {
        return Err(VisionCallError::Declined);
    }
    if is_text(finish_reason, "length") {
        return Err(
            VisionCallError::SchemaMismatch(
                "response truncated at max_completion_tokens before finishing valid JSON".to_owned(),
            ),
        );
    }
    let text = match message {
        Some(m) => m.get_text("content"),
        None => None,
    };
    match text {
        Some(t) => Ok(t.to_owned()),
        None => Err(
            VisionCallError::SchemaMismatch("no message content in OpenAI response".to_owned()),
        ),
    }
}

/// Whether both rows of a reading are blank.
pub open spec fn shows_nothing(tokens: MeterReadingTokens) -> bool {
    is_blank_text(tokens.sale_token@) && is_blank_text(tokens.liters_token@)
}

/// The reading that the content of an answer was read as, with `Err` where it does not have the
/// form that was asked for. A reading without any text is none.
pub fn accept_tokens(parsed: Result<MeterReadingTokens, String>) -> (outcome: Result<
    MeterReadingTokens,
    VisionCallError,
>)
    ensures
        match parsed {
            Ok(tokens) => if shows_nothing(tokens) {
                outcome matches Err(e) && e is NoTextDetected
            } else {
                outcome == Ok::<MeterReadingTokens, VisionCallError>(tokens)
            },
            Err(detail) => outcome matches Err(e) && e@ == VisionErrorView::SchemaMismatch(
                "response didn't match schema: "@ + detail@,
            ),
        },
{
    match parsed {
        Ok(tokens) => {
            if is_blank(tokens.sale_token.as_str()) && is_blank(tokens.liters_token.as_str()) {
                Err(VisionCallError::NoTextDetected)
            } else {
                Ok(tokens)
            }
        },
        Err(detail) => Err(
            VisionCallError::SchemaMismatch(
                with_lead("response didn't match schema: ", detail.as_str()),
            ),
        ),
    }
}

// ---------------------------------------------------------------------------
// Asking
// ---------------------------------------------------------------------------

/// How many times the model is asked about one photo at the most.
pub const MAX_CALLS: u8 = 2;

/// Whether the model is to be asked again after the call with a number, counted from 0.
pub open spec fn calls_again(
    call: nat,
    outcome: Result<MeterReadingTokens, VisionCallError>,
) -> bool {
    &&& call + 1 < MAX_CALLS
    &&& outcome matches Err(e)
    &&& e is SchemaMismatch
}

/// Whether the model is to be asked again about the same photo: once, and only where the answer
/// came but did not hold a reading in the form that was asked for.
pub fn call_again(call: u8, outcome: &Result<MeterReadingTokens, VisionCallError>) -> (again: bool)
    ensures
        again == calls_again(call as nat, *outcome),
{
    if call >= MAX_CALLS - 1 {
        return false;
    }
    match outcome {
        Err(VisionCallError::SchemaMismatch(_)) => true,
        _ => false,
    }
}

/// How many calls are made from the call with a number on, where `outcomes` are what they bring.
pub open spec fn calls_made(
    outcomes: Seq<Result<MeterReadingTokens, VisionCallError>>,
    call: nat,
) -> nat
    decreases outcomes.len() - call,
{
    if call >= outcomes.len() {
        0
    } else if calls_again(call, outcomes[call as int]) {
        1 + calls_made(outcomes, call + 1)
    } else {
        1
    }
}

/// The model is asked twice about a photo at the most, and once where the first answer is
/// anything but malformed.
pub proof fn at_most_two_calls(outcomes: Seq<Result<MeterReadingTokens, VisionCallError>>)
    ensures
        calls_made(outcomes, 0) <= MAX_CALLS,
        outcomes.len() > 0 && !(outcomes[0] matches Err(e) && e is SchemaMismatch) ==> calls_made(
            outcomes,
            0,
        ) == 1,
{
    reveal_with_fuel(calls_made, 3);
}

// ---------------------------------------------------------------------------
// Laws
// ---------------------------------------------------------------------------

/// A configured model is asked under the very name that is configured, and the default only where
/// none is or the name is blank.
pub proof fn the_configured_model_is_asked(name: String)
    ensures
        !is_blank_text(name@) ==> model_of(Some(name)) == name@,
        is_blank_text(name@) ==> model_of(Some(name)) == "gpt-4o"@,
        model_of(None) == "gpt-4o"@,
{
}

/// The model is asked about the very photo: the request names the model, and its one message holds
/// the instruction and the photo as a data URL with its media type and all its bytes.
pub proof fn requests_hold_the_photo(model: Seq<char>, media_type: Seq<char>, image: Seq<u8>)
    ensures
        ({
            let url = data_url_of(media_type, image);
            let body = vision_request_view(model, url);
            let messages = body->Object_0[4].1;
            let message = messages->List_0[0];
            let content = message->Object_0[1].1;
            let instruction = content->List_0[0];
            let photo = content->List_0[1];
            let link = photo->Object_0[1].1;
            &&& url == "data:"@ + media_type + ";base64,"@ + base64_text(image)
            &&& body.size() == 5
            &&& body.tells(0, "model"@, JsonView::Text(model))
            &&& body.tells(1, "max_completion_tokens"@, JsonView::Int(4096))
            &&& body.tells(2, "temperature"@, JsonView::Int(0))
            &&& body.tells(3, "response_format"@, response_format())
            &&& body.tells(4, "messages"@, messages)
            &&& messages is List
            &&& messages.size() == 1
            &&& message.size() == 2
            &&& message.tells(0, "role"@, JsonView::Text("user"@))
            &&& message.tells(1, "content"@, content)
            &&& content is List
            &&& content.size() == 2
            &&& instruction.size() == 2
            &&& instruction.tells(0, "type"@, JsonView::Text("text"@))
            &&& instruction.tells(1, "text"@, JsonView::Text(PROMPT@))
            &&& photo.size() == 2
            &&& photo.tells(0, "type"@, JsonView::Text("image_url"@))
            &&& photo.tells(1, "image_url"@, link)
            &&& link.size() == 1
            &&& link.tells(0, "url"@, JsonView::Text(url))
        }),
{
}

/// Every status is one of four: the twos are a success, 429 is a busy service, the fives are a
/// fault of the service, and all others are a rejection.
pub proof fn statuses_are_told_apart(code: u16)
    ensures
        status_class_of(code) is Success <==> code / 100 == 2,
        status_class_of(code) is TooBusy <==> code == 429,
        status_class_of(code) is ServerFault <==> code / 100 == 5,
        status_class_of(code) is Rejected <==> code / 100 != 2 && code / 100 != 5 && code != 429,
{
}

/// After the first send a request goes out once more where no answer came or the service failed,
/// after 600 milliseconds, and where it was busy, after 5000. Any other answer ends it.
pub proof fn what_may_pass_is_sent_again(
    detail: String,
    code: u16,
    status: String,
    text: String,
    document: Json,
    attempt: nat,
)
    ensures
        next_send(0, SendEvent::NoAnswer(detail)) == SendStepView::Again(600),
        code / 100 == 5 ==> next_send(0, SendEvent::TurnedAway { code, status, text })
            == SendStepView::Again(600),
        code == 429 ==> next_send(0, SendEvent::TurnedAway { code, status, text })
            == SendStepView::Again(5000),
        next_send(attempt, SendEvent::Answered(Ok(document))) == SendStepView::Answer(document@),
        next_send(attempt, SendEvent::Answered(Err(detail))) == SendStepView::Failure(
            VisionErrorView::Upstream("bad JSON response: "@ + detail@),
        ),
        code != 429 && code / 100 != 5 ==> next_send(
            attempt,
            SendEvent::TurnedAway { code, status, text },
        ) == SendStepView::Failure(
            VisionErrorView::Upstream("HTTP "@ + status@ + ": "@ + text@),
        ),
{
}

/// After the second send whatever came is final, and is told with its status and text.
pub proof fn the_second_send_is_the_last(
    attempt: nat,
    detail: String,
    code: u16,
    status: String,
    text: String,
)
    requires
        attempt >= 1,
    ensures
        next_send(attempt, SendEvent::NoAnswer(detail)) == SendStepView::Failure(
            VisionErrorView::Upstream("request failed: "@ + detail@),
        ),
        code == 429 ==> next_send(attempt, SendEvent::TurnedAway { code, status, text })
            == SendStepView::Failure(VisionErrorView::RateLimited("HTTP 429: "@ + text@)),
        code != 429 ==> next_send(attempt, SendEvent::TurnedAway { code, status, text })
            == SendStepView::Failure(
            VisionErrorView::Upstream("HTTP "@ + status@ + ": "@ + text@),
        ),
{
}

/// A step is taken as it is meant: the wait, the answer and the error are those that it holds.
pub proof fn steps_are_taken_as_they_are_meant(
    step: SendStep,
    error: VisionCallError,
    ms: u64,
    document: JsonView,
)
    ensures
        step@ == SendStepView::Again(ms) <==> step == (SendStep::Again { backoff_ms: ms }),
        step@ == SendStepView::Answer(document) <==> (step matches SendStep::Finished(Ok(d)) && d@
            == document),
        step@ == SendStepView::Failure(error@) <==> (step matches SendStep::Finished(Err(e)) && e@
            == error@),
        error@ is Declined <==> error is Declined,
        error@ is NoTextDetected <==> error is NoTextDetected,
        error matches VisionCallError::SchemaMismatch(m) ==> error@
            == VisionErrorView::SchemaMismatch(m@),
        error matches VisionCallError::RateLimited(m) ==> error@ == VisionErrorView::RateLimited(
            m@,
        ),
        error matches VisionCallError::Upstream(m) ==> error@ == VisionErrorView::Upstream(m@),
{
}

/// The content of an answer is the text of the message in its first choice, unless the model
/// declined there or was cut off; and an answer without such a text holds no reading.
pub proof fn contents_are_those_of_the_first_choice(
    answer: JsonView,
    choices: Seq<JsonView>,
    message: JsonView,
)
    requires
        answer.member("choices"@) == Some(JsonView::List(choices)),
        choices.len() > 0,
        choices[0].member("message"@) == Some(message),
    ensures
        ({
            let ended = choices[0].member("finish_reason"@);
            let filtered = ended == Some(JsonView::Text("content_filter"@));
            let cut_off = ended == Some(JsonView::Text("length"@));
            let refused = message.member("refusal"@) matches Some(JsonView::Text(r))
                && !is_blank_text(r);
            &&& refused || filtered ==> content_of(answer) == Err::<Seq<char>, VisionErrorView>(
                VisionErrorView::Declined,
            )
            &&& !refused && !filtered && cut_off ==> content_of(answer) == Err::<
                Seq<char>,
                VisionErrorView,
            >(
                VisionErrorView::SchemaMismatch(
                    "response truncated at max_completion_tokens before finishing valid JSON"@,
                ),
            )
            &&& !refused && !filtered && !cut_off ==> match message.member("content"@) {
                Some(JsonView::Text(text)) => content_of(answer) == Ok::<
                    Seq<char>,
                    VisionErrorView,
                >(text),
                _ => content_of(answer) == Err::<Seq<char>, VisionErrorView>(
                    VisionErrorView::SchemaMismatch("no message content in OpenAI response"@),
                ),
            }
        }),
{
}

/// An answer without a choice holds no reading.
pub proof fn answers_without_a_choice_hold_nothing(answer: JsonView)
    requires
        match answer.member("choices"@) {
            Some(JsonView::List(choices)) => choices.len() == 0,
            _ => true,
        },
    ensures
        content_of(answer) == Err::<Seq<char>, VisionErrorView>(
            VisionErrorView::SchemaMismatch("no message content in OpenAI response"@),
        ),
{
}

/// A reading shows nothing just where both its rows are blank.
pub proof fn one_row_is_enough(tokens: MeterReadingTokens)
    ensures
        shows_nothing(tokens) <==> is_blank_text(tokens.sale_token@) && is_blank_text(
            tokens.liters_token@,
        ),
{
}

/// Only a malformed answer to the first call is asked for again, whatever is wrong with it.
pub proof fn only_malformed_answers_are_asked_for_again(
    call: nat,
    text: String,
    tokens: MeterReadingTokens,
)
    ensures
        calls_again(call, Err(VisionCallError::SchemaMismatch(text))) <==> call == 0,
        !calls_again(call, Err(VisionCallError::Declined)),
        !calls_again(call, Err(VisionCallError::NoTextDetected)),
        !calls_again(call, Err(VisionCallError::RateLimited(text))),
        !calls_again(call, Err(VisionCallError::Upstream(text))),
        !calls_again(call, Ok(tokens)),
{
}

} // verus!
