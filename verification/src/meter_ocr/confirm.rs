//! Recording the numbers that an attendant confirmed.
use vstd::prelude::*;

use crate::external::{parse_rfc3339, rfc3339_instant};
use crate::json::{
    member_flag, member_from, member_text, no_members, Json, JsonObject, JsonView,
};
use crate::meter_ocr::read::{
    check_shift_event, is_shift_event, no_reading_answer, shift_event_answer,
};
use crate::meter_ocr::reading::{reading_view, review_needed, LitersFacts, MeterReadingTokens};
use crate::meter_ocr::vision::VisionCallError;
use crate::reply::{
    answer, failure_answer, DbFailure, Reply, ReplyView, INTERNAL_SERVER_ERROR, OK,
};
use crate::text::{text_of, trimmed};

verus! {

/// The instant that a client's timestamp denotes, as seconds since the start of 1970 and
/// nanoseconds beyond them: none where the timestamp is missing or unparseable.
pub fn client_timestamp(timestamp: &Option<String>) -> (instant: Option<(i64, u32)>)
    ensures
        instant == instant_of(text_of(*timestamp)),
{
    match timestamp {
        Some(text) => {
            let t = text.trim();
            if t.is_empty() {
                None
            } else {
                parse_rfc3339(t)
            }
        },
        None => None,
    }
}

/// What the audit trail keeps of the model's reading.
#[derive(Debug, PartialEq)]
pub struct AuditColumns {
    pub confidence: Option<String>,
    pub sale_token: Option<String>,
    pub liters_token: Option<String>,
    pub needs_review: bool,
}

/// The mathematical value of [`AuditColumns`].
pub struct AuditView {
    pub confidence: Option<Seq<char>>,
    pub sale_token: Option<Seq<char>>,
    pub liters_token: Option<Seq<char>>,
    pub needs_review: bool,
}

impl View for AuditColumns {
    type V = AuditView;

    open spec fn view(&self) -> AuditView {
        AuditView {
            confidence: text_of(self.confidence),
            sale_token: text_of(self.sale_token),
            liters_token: text_of(self.liters_token),
            needs_review: self.needs_review,
        }
    }
}

/// What the audit trail keeps of a model response: nothing where the model was not asked.
pub open spec fn audit_of(response: Option<JsonView>) -> AuditView {
    match response {
        Some(document) => AuditView {
            confidence: member_text(document, "confidence"@),
            sale_token: member_text(document, "sale_token"@),
            liters_token: member_text(document, "liters_token"@),
            needs_review: member_flag(document, "needs_review"@) == Some(true),
        },
        None => AuditView {
            confidence: None,
            sale_token: None,
            liters_token: None,
            needs_review: false,
        },
    }
}

fn owned(text: Option<&str>) -> (copy: Option<String>)
    ensures
        copy is Some <==> text is Some,
        copy matches Some(c) ==> text matches Some(t) && c@ == t@,
{
    match text {
        Some(t) => Some(t.to_owned()),
        None => None,
    }
}

/// What the audit trail keeps of the response that the client passes through.
pub fn audit_columns(response: &Option<Json>) -> (columns: AuditColumns)
    ensures
        columns@ == audit_of(
            match *response {
                Some(document) => Some(document@),
                None => None,
            },
        ),
{
    match response {
        Some(document) => AuditColumns {
            confidence: owned(document.get_text("confidence")),
            sale_token: owned(document.get_text("sale_token")),
            liters_token: owned(document.get_text("liters_token")),
            needs_review: match document.get_bool("needs_review") {
                Some(flag) => flag,
                None => false,
            },
        },
        None => AuditColumns {
            confidence: None,
            sale_token: None,
            liters_token: None,
            needs_review: false,
        },
    }
}

/// What an attendant confirmed. `F` is how a measured quantity is held.
#[derive(Debug, PartialEq)]
pub struct ConfirmRequest<F> {
    pub company_prefix: String,
    pub company_url: String,
    pub site: String,
    pub pump_id: String,
    pub nozzle_id: String,
    /// "open" or "close".
    pub shift_event: String,
    /// The whole answer to the request to read the meter, where there was one.
    pub raw_model_response: Option<Json>,
    pub anomaly_flags: Vec<String>,
    pub confirmed_sale_number: Option<i64>,
    pub confirmed_liters: Option<F>,
    pub confirmed_reading: Option<F>,
    pub was_edited: bool,
    pub image_ref: Option<String>,
    pub attendant_id: Option<String>,
    pub timestamp: Option<String>,
}

/// A row of the audit trail.
#[derive(Debug, PartialEq)]
pub struct AuditRow<F> {
    pub company_prefix: String,
    pub company_url: String,
    pub site: String,
    pub pump_id: String,
    pub nozzle_id: String,
    pub shift_event: String,
    pub columns: AuditColumns,
    pub raw_model_response: Option<Json>,
    pub anomaly_flags: Vec<String>,
    pub confirmed_sale_number: Option<i64>,
    pub confirmed_liters: Option<F>,
    pub confirmed_reading: Option<F>,
    pub was_edited: bool,
    pub image_ref: Option<String>,
    pub attendant_id: Option<String>,
    pub client_timestamp: Option<(i64, u32)>,
}

/// What becomes the last known reading of a nozzle, as far as it was confirmed.
#[derive(Debug, PartialEq)]
pub struct BaselineRow<F> {
    pub company_prefix: String,
    pub company_url: String,
    pub site: String,
    pub pump_id: String,
    pub nozzle_id: String,
    pub last_liters: Option<F>,
    pub last_sale_number: Option<i64>,
    pub last_confirmed_at: Option<(i64, u32)>,
}

/// The instant that the text of a timestamp denotes.
pub open spec fn instant_of(timestamp: Option<Seq<char>>) -> Option<(i64, u32)> {
    match timestamp {
        Some(text) => if trimmed(text).len() == 0 {
            None
        } else {
            rfc3339_instant(trimmed(text))
        },
        None => None,
    }
}

impl<F> AuditRow<F> {
    /// Whether this row records a request whose timestamp denotes an instant.
    pub open spec fn records(
        self,
        request: ConfirmRequest<F>,
        instant: Option<(i64, u32)>,
    ) -> bool {
        &&& self.company_prefix == request.company_prefix
        &&& self.company_url == request.company_url
        &&& self.site == request.site
        &&& self.pump_id == request.pump_id
        &&& self.nozzle_id == request.nozzle_id
        &&& self.shift_event == request.shift_event
        &&& self.columns@ == audit_of(
            match request.raw_model_response {
                Some(document) => Some(document@),
                None => None,
            },
        )
        &&& self.raw_model_response == request.raw_model_response
        &&& self.anomaly_flags == request.anomaly_flags
        &&& self.confirmed_sale_number == request.confirmed_sale_number
        &&& self.confirmed_liters == request.confirmed_liters
        &&& self.confirmed_reading == request.confirmed_reading
        &&& self.was_edited == request.was_edited
        &&& self.image_ref == request.image_ref
        &&& self.attendant_id == request.attendant_id
        &&& self.client_timestamp == instant
    }
}

impl<F> BaselineRow<F> {
    /// Whether this is the reading that a request confirms whose timestamp denotes an instant.
    pub open spec fn confirmed_by(
        self,
        request: ConfirmRequest<F>,
        instant: Option<(i64, u32)>,
    ) -> bool {
        &&& self.company_prefix == request.company_prefix
        &&& self.company_url == request.company_url
        &&& self.site == request.site
        &&& self.pump_id == request.pump_id
        &&& self.nozzle_id == request.nozzle_id
        &&& self.last_liters == request.confirmed_liters
        &&& self.last_sale_number == request.confirmed_sale_number
        &&& self.last_confirmed_at == instant
    }
}

/// The two rows that a confirmation writes whose timestamp denotes an instant, unless its shift
/// event is none of the two there are.
pub fn rows_with<F: Copy>(
    request: ConfirmRequest<F>,
    instant: Option<(i64, u32)>,
) -> (rows: Result<(AuditRow<F>, BaselineRow<F>), Reply>)
    ensures
        match rows {
            Ok(written) => {
                &&& is_shift_event(request.shift_event@)
                &&& written.0.records(request, instant)
                &&& written.1.confirmed_by(request, instant)
            },
            Err(reply) => !is_shift_event(request.shift_event@) && reply@ == shift_event_answer(),
        },
{
    match check_shift_event(request.shift_event.as_str()) {
        Ok(_) => {},
        Err(reply) => return Err(reply),
    }
    let columns = audit_columns(&request.raw_model_response);
    let baseline = BaselineRow {
        company_prefix: request.company_prefix.clone(),
        company_url: request.company_url.clone(),
        site: request.site.clone(),
        pump_id: request.pump_id.clone(),
        nozzle_id: request.nozzle_id.clone(),
        last_liters: request.confirmed_liters,
        last_sale_number: request.confirmed_sale_number,
        last_confirmed_at: instant,
    };
    let audit = AuditRow {
        company_prefix: request.company_prefix,
        company_url: request.company_url,
        site: request.site,
        pump_id: request.pump_id,
        nozzle_id: request.nozzle_id,
        shift_event: request.shift_event,
        columns,
        raw_model_response: request.raw_model_response,
        anomaly_flags: request.anomaly_flags,
        confirmed_sale_number: request.confirmed_sale_number,
        confirmed_liters: request.confirmed_liters,
        confirmed_reading: request.confirmed_reading,
        was_edited: request.was_edited,
        image_ref: request.image_ref,
        attendant_id: request.attendant_id,
        client_timestamp: instant,
    };
    Ok((audit, baseline))
}

/// The two rows that a confirmation writes, unless its shift event is none of the two there are.
pub fn confirm_rows<F: Copy>(request: ConfirmRequest<F>) -> (rows: Result<
    (AuditRow<F>, BaselineRow<F>),
    Reply,
>)
    ensures
        match rows {
            Ok(written) => {
                let instant = instant_of(text_of(request.timestamp));
                &&& is_shift_event(request.shift_event@)
                &&& written.0.records(request, instant)
                &&& written.1.confirmed_by(request, instant)
            },
            Err(reply) => !is_shift_event(request.shift_event@) && reply@ == shift_event_answer(),
        },
{
    let instant = client_timestamp(&request.timestamp);
    rows_with(request, instant)
}

/// What is answered where the audit trail could not be written.
pub open spec fn not_recorded_answer() -> ReplyView {
    failure_answer(
        INTERNAL_SERVER_ERROR,
        "database_error"@,
        "Could not record the confirmed reading — try again."@,
    )
}

/// What is answered where it was.
pub open spec fn recorded_answer(audit_id: i64) -> ReplyView {
    answer(
        OK,
        JsonView::Object(
            no_members()
                .push(("success"@, JsonView::Bool(true)))
                .push(("audit_id"@, JsonView::Int(audit_id as int))),
        ),
    )
}

/// The number of the audit row, or the answer where it could not be written: then the last known
/// reading is left as it is.
pub fn audit_recorded(inserted: Result<i64, DbFailure>) -> (audit_id: Result<i64, Reply>)
    ensures
        match inserted {
            Ok(id) => audit_id == Ok::<i64, Reply>(id),
            Err(_) => audit_id matches Err(reply) && reply@ == not_recorded_answer(),
        },
{
    match inserted {
        Ok(id) => Ok(id),
        Err(_) => Err(
            Reply::failure(
                INTERNAL_SERVER_ERROR,
                "database_error",
                "Could not record the confirmed reading — try again.",
            ),
        ),
    }
}

/// The answer once the audit row is written. The row is the durable record, so it does not matter
/// whether the last known reading could be updated too.
pub fn confirm_reply(audit_id: i64, _updated: Result<(), DbFailure>) -> (reply: Reply)
    ensures
        reply@ == recorded_answer(audit_id),
{
    Reply::new(
        OK,
        JsonObject::new()
            .with("success", Json::flag(true))
            .with("audit_id", Json::integer(audit_id))
            .build(),
    )
}

/// A body that reports a reading, passed through by the client, gives back to the audit trail what
/// the reading reported.
pub proof fn audit_keeps_the_reading(
    tokens: MeterReadingTokens,
    facts: LitersFacts,
    last_sale: Option<i64>,
    ceiling: i64,
    model: Seq<char>,
)
    ensures
        audit_of(Some(reading_view(tokens, facts, last_sale, ceiling, model))) == (AuditView {
            confidence: Some(tokens.confidence@),
            sale_token: Some(tokens.sale_token@),
            liters_token: Some(tokens.liters_token@),
            needs_review: review_needed(tokens, facts, last_sale, ceiling),
        }),
{
    reveal_with_fuel(member_from, 11);
    lemma_member_names();
}

/// The names of the members of a reading up to the last that the audit trail looks for differ.
proof fn lemma_member_names()
    ensures
        "success"@ != "sale_token"@,
        "success"@ != "liters_token"@,
        "success"@ != "confidence"@,
        "success"@ != "needs_review"@,
        "sale_token"@ != "liters_token"@,
        "sale_token"@ != "confidence"@,
        "sale_token"@ != "needs_review"@,
        "liters_token"@ != "confidence"@,
        "liters_token"@ != "needs_review"@,
        "sale_number"@ != "confidence"@,
        "sale_number"@ != "needs_review"@,
        "liters"@ != "confidence"@,
        "liters"@ != "needs_review"@,
        "reading"@ != "confidence"@,
        "reading"@ != "needs_review"@,
        "confidence"@ != "needs_review"@,
        "uncertain_digits"@ != "needs_review"@,
        "anomalies"@ != "needs_review"@,
{
    reveal_strlit("success");
    reveal_strlit("sale_token");
    reveal_strlit("liters_token");
    reveal_strlit("confidence");
    reveal_strlit("needs_review");
    reveal_strlit("sale_number");
    reveal_strlit("liters");
    reveal_strlit("reading");
    reveal_strlit("uncertain_digits");
    reveal_strlit("anomalies");
    assert("success"@[0] == 's' && "success"@[1] == 'u' && "sale_token"@[1] == 'a');
    assert("liters_token"@.len() == 12 && "needs_review"@.len() == 12 && "liters_token"@[0] == 'l'
        && "needs_review"@[0] == 'n');
    assert("sale_token"@.len() == 10 && "confidence"@.len() == 10 && "sale_token"@[0] == 's'
        && "confidence"@[0] == 'c');
}

/// A body that reports that there is no reading leaves nothing in the audit trail.
pub proof fn audit_of_a_failure_is_empty(error: VisionCallError)
    ensures
        audit_of(no_reading_answer(error).body) == audit_of(None),
{
    reveal_with_fuel(member_from, 5);
    lemma_member_names();
    lemma_failure_names();
}

/// The names of the members of a failure differ from those that the audit trail looks for.
proof fn lemma_failure_names()
    ensures
        "error"@ != "confidence"@,
        "error"@ != "sale_token"@,
        "error"@ != "liters_token"@,
        "error"@ != "needs_review"@,
        "message"@ != "confidence"@,
        "message"@ != "sale_token"@,
        "message"@ != "liters_token"@,
        "message"@ != "needs_review"@,
{
    reveal_strlit("error");
    reveal_strlit("message");
    reveal_strlit("confidence");
    reveal_strlit("sale_token");
    reveal_strlit("liters_token");
    reveal_strlit("needs_review");
    assert("error"@.len() == 5 && "message"@.len() == 7);
    assert("confidence"@.len() == 10 && "sale_token"@.len() == 10);
    assert("liters_token"@.len() == 12 && "needs_review"@.len() == 12);
}

/// The audit trail keeps what the attendant confirmed, every number, flag and text of it in its own
/// place, and the instant of it.
pub proof fn the_audit_trail_keeps_the_confirmation<F>(
    row: AuditRow<F>,
    request: ConfirmRequest<F>,
    instant: Option<(i64, u32)>,
)
    requires
        row.records(request, instant),
    ensures
        row.confirmed_sale_number == request.confirmed_sale_number,
        row.confirmed_liters == request.confirmed_liters,
        row.confirmed_reading == request.confirmed_reading,
        row.was_edited == request.was_edited,
        row.attendant_id == request.attendant_id,
        row.image_ref == request.image_ref,
        row.anomaly_flags@ == request.anomaly_flags@,
        row.raw_model_response == request.raw_model_response,
        row.company_prefix@ == request.company_prefix@,
        row.company_url@ == request.company_url@,
        row.site@ == request.site@,
        row.pump_id@ == request.pump_id@,
        row.nozzle_id@ == request.nozzle_id@,
        row.shift_event@ == request.shift_event@,
        row.client_timestamp == instant,
        request.raw_model_response is None ==> {
            &&& row.columns.confidence is None
            &&& row.columns.sale_token is None
            &&& row.columns.liters_token is None
            &&& !row.columns.needs_review
        },
{
}

/// What becomes the last known reading of a nozzle are the confirmed litres and the confirmed sale
/// number, for the nozzle of the request, at the instant of it.
pub proof fn the_baseline_is_what_is_confirmed<F>(
    row: BaselineRow<F>,
    request: ConfirmRequest<F>,
    instant: Option<(i64, u32)>,
)
    requires
        row.confirmed_by(request, instant),
    ensures
        row.last_liters == request.confirmed_liters,
        row.last_sale_number == request.confirmed_sale_number,
        row.last_confirmed_at == instant,
        row.company_prefix@ == request.company_prefix@,
        row.company_url@ == request.company_url@,
        row.site@ == request.site@,
        row.pump_id@ == request.pump_id@,
        row.nozzle_id@ == request.nozzle_id@,
{
}

/// The instant of a confirmation is the one that its trimmed timestamp writes, and none where there
/// is nothing to read.
pub proof fn timestamps_are_read_without_white_space(text: Seq<char>)
    ensures
        trimmed(text).len() > 0 ==> instant_of(Some(text)) == rfc3339_instant(trimmed(text)),
        trimmed(text).len() == 0 ==> instant_of(Some(text)) is None,
        instant_of(None) is None,
{
}

/// The audit trail takes each text from the member of its name, where that is a text, and the flag
/// from the member of its name, where that is the flag `true`.
pub proof fn the_audit_trail_reads_members_by_name(
    columns: AuditColumns,
    response: JsonView,
    text: Seq<char>,
)
    requires
        columns@ == audit_of(Some(response)),
    ensures
        response.member("confidence"@) == Some(JsonView::Text(text)) <==> (
        columns.confidence matches Some(t) && t@ == text),
        response.member("sale_token"@) == Some(JsonView::Text(text)) <==> (
        columns.sale_token matches Some(t) && t@ == text),
        response.member("liters_token"@) == Some(JsonView::Text(text)) <==> (
        columns.liters_token matches Some(t) && t@ == text),
        response.member("needs_review"@) == Some(JsonView::Bool(true)) <==> columns.needs_review,
{
}

/// A confirmation is answered with the number of its own audit row.
pub proof fn confirmations_tell_their_audit_row(audit_id: i64)
    ensures
        recorded_answer(audit_id).status == 200,
        recorded_answer(audit_id).body matches Some(body) && body.size() == 2 && body.tells(
            0,
            "success"@,
            JsonView::Bool(true),
        ) && body.tells(1, "audit_id"@, JsonView::Int(audit_id as int)),
{
}

} // verus!
