//! Reading a meter, step by step: what is looked up, when the model is asked, and what is
//! answered and logged.
use vstd::prelude::*;

use crate::json::JsonView;
use crate::meter_ocr::form::ReadRequest;
use crate::meter_ocr::reading::{
    configured_i64, configured_integer, effective, in_force, liters_text, liters_text_of,
    reading_body, reading_text, reading_text_of, reading_view, LitersFacts, MeterReadingTokens,
    DEFAULT_SALE_NUMBER_ROLLOVER_CEILING,
};
use crate::meter_ocr::vision::{model_of, resolve_openai_model, VisionCallError};
use crate::paging::{count_or_zero, counted};
use crate::reply::{
    answer, failure_answer, DbFailure, Reply, ReplyView, BAD_REQUEST, OK, TOO_MANY_REQUESTS,
};
use crate::text::{same_text, text_of, trimmed};

verus! {

/// How many readings a company gets in a day where the configuration sets no cap. Every capture
/// of every nozzle is one, so a busy station alone makes a few hundred.
pub const DEFAULT_DAILY_CAP_PER_COMPANY: i64 = 2000;

// ---------------------------------------------------------------------------
// The log
// ---------------------------------------------------------------------------

/// The record of one call of the model, for counting costs.
#[derive(Debug, PartialEq)]
pub struct ReadLog {
    pub company_prefix: String,
    pub company_url: String,
    pub site: String,
    pub device_id: String,
    pub shift_event: String,
    pub ok: bool,
    pub error: Option<String>,
    pub sale_token: Option<String>,
    pub liters_token: Option<String>,
    pub confidence: Option<String>,
    pub model: String,
}

/// The mathematical value of a [`ReadLog`].
pub struct ReadLogView {
    pub company_prefix: Seq<char>,
    pub company_url: Seq<char>,
    pub site: Seq<char>,
    pub device_id: Seq<char>,
    pub shift_event: Seq<char>,
    pub ok: bool,
    pub error: Option<Seq<char>>,
    pub sale_token: Option<Seq<char>>,
    pub liters_token: Option<Seq<char>>,
    pub confidence: Option<Seq<char>>,
    pub model: Seq<char>,
}

impl View for ReadLog {
    type V = ReadLogView;

    open spec fn view(&self) -> ReadLogView {
        ReadLogView {
            company_prefix: self.company_prefix@,
            company_url: self.company_url@,
            site: self.site@,
            device_id: self.device_id@,
            shift_event: self.shift_event@,
            ok: self.ok,
            error: text_of(self.error),
            sale_token: text_of(self.sale_token),
            liters_token: text_of(self.liters_token),
            confidence: text_of(self.confidence),
            model: self.model@,
        }
    }
}

/// The record of a call that brought a reading.
pub open spec fn success_log(
    request: ReadRequest,
    tokens: MeterReadingTokens,
    model: Seq<char>,
) -> ReadLogView {
    ReadLogView {
        company_prefix: request.company_prefix@,
        company_url: request.company_url@,
        site: request.site@,
        device_id: request.device_id@,
        shift_event: request.shift_event@,
        ok: true,
        error: None,
        sale_token: Some(tokens.sale_token@),
        liters_token: Some(tokens.liters_token@),
        confidence: Some(tokens.confidence@),
        model,
    }
}

/// The record of a call that brought none.
pub open spec fn failure_log(
    request: ReadRequest,
    error: Seq<char>,
    model: Seq<char>,
) -> ReadLogView {
    ReadLogView {
        company_prefix: request.company_prefix@,
        company_url: request.company_url@,
        site: request.site@,
        device_id: request.device_id@,
        shift_event: request.shift_event@,
        ok: false,
        error: Some(error),
        sale_token: None,
        liters_token: None,
        confidence: None,
        model,
    }
}

impl ReadLog {
    /// The record of a call that brought a reading.
    pub fn succeeded(req: &ReadRequest, reading: &MeterReadingTokens, model: &str) -> (log: Self)
        ensures
            log@ == success_log(*req, *reading, model@),
    {
        ReadLog {
            company_prefix: req.company_prefix.clone(),
            company_url: req.company_url.clone(),
            site: req.site.clone(),
            device_id: req.device_id.clone(),
            shift_event: req.shift_event.clone(),
            ok: true,
            error: None,
            sale_token: Some(reading.sale_token.clone()),
            liters_token: Some(reading.liters_token.clone()),
            confidence: Some(reading.confidence.clone()),
            model: model.to_owned(),
        }
    }

    /// The record of a call that brought none.
    pub fn failed(req: &ReadRequest, error: &str, model: &str) -> (log: Self)
        ensures
            log@ == failure_log(*req, error@, model@),
    {
        ReadLog {
            company_prefix: req.company_prefix.clone(),
            company_url: req.company_url.clone(),
            site: req.site.clone(),
            device_id: req.device_id.clone(),
            shift_event: req.shift_event.clone(),
            ok: false,
            error: Some(error.to_owned()),
            sale_token: None,
            liters_token: None,
            confidence: None,
            model: model.to_owned(),
        }
    }
}

// ---------------------------------------------------------------------------
// Settings and checks
// ---------------------------------------------------------------------------

/// What the configuration sets.
#[derive(Debug, PartialEq)]
pub struct ReadSettings {
    /// How many readings a company gets in a day.
    pub daily_cap: i64,
    /// The rollover ceiling, where one is configured.
    pub rollover_ceiling: Option<i64>,
    /// The model that is asked.
    pub model: String,
}

/// What the configuration variables set: the cap, the rollover ceiling and the model. A number
/// that does not parse counts as not set.
pub fn read_settings(
    daily_cap: Option<String>,
    rollover_ceiling: Option<String>,
    model: Option<String>,
) -> (settings: ReadSettings)
    ensures
        settings.daily_cap == in_force(
            None,
            configured_i64(daily_cap),
            DEFAULT_DAILY_CAP_PER_COMPANY,
        ),
        settings.rollover_ceiling == configured_i64(rollover_ceiling),
        settings.model@ == model_of(model),
{
    ReadSettings {
        daily_cap: effective(
            None,
            configured_integer(&daily_cap),
            DEFAULT_DAILY_CAP_PER_COMPANY,
        ),
        rollover_ceiling: configured_integer(&rollover_ceiling),
        model: resolve_openai_model(model),
    }
}

/// Whether a shift event is one of the two there are.
pub open spec fn is_shift_event(event: Seq<char>) -> bool {
    event == "open"@ || event == "close"@
}

/// What is answered to a request that is not in order.
pub open spec fn bad_request_answer(message: Seq<char>) -> ReplyView {
    failure_answer(BAD_REQUEST, "bad_request"@, message)
}

/// What is answered to a shift event that there is not.
pub open spec fn shift_event_answer() -> ReplyView {
    bad_request_answer("shift_event must be \"open\" or \"close\""@)
}

/// The answer to a request that is not in order.
pub fn bad_request(message: &str) -> (reply: Reply)
    ensures
        reply@ == bad_request_answer(message@),
{
    Reply::failure(BAD_REQUEST, "bad_request", message)
}

/// Lets the two shift events pass, and answers any other.
pub fn check_shift_event(event: &str) -> (checked: Result<(), Reply>)
    ensures
        checked is Ok <==> is_shift_event(event@),
        checked matches Err(reply) ==> reply@ == shift_event_answer(),
{
    if same_text(event, "open") || same_text(event, "close") {
        Ok(())
    } else {
        Err(bad_request("shift_event must be \"open\" or \"close\""))
    }
}

pub open spec fn unrecognized_company_answer() -> ReplyView {
    failure_answer(
        BAD_REQUEST,
        "unrecognized_company"@,
        "unrecognized company_url/company_prefix"@,
    )
}

pub open spec fn cap_reached_answer() -> ReplyView {
    failure_answer(
        TOO_MANY_REQUESTS,
        "daily_cap_reached"@,
        "This company has hit its daily meter-OCR limit — contact support if this is a real spike in captures, not a stuck retry loop."@,
    )
}

/// What is answered where there is no reading. The status stays out of the range of the gateway
/// errors: a proxy in front of the service replaces the body of those.
pub open spec fn no_reading_answer(error: VisionCallError) -> ReplyView {
    match error {
        VisionCallError::Declined => failure_answer(
            OK,
            "declined"@,
            "The cloud reading was declined — enter the reading manually."@,
        ),
        VisionCallError::NoTextDetected => failure_answer(
            OK,
            "no_text_detected"@,
            "Couldn't make out the display in this photo — retake with better lighting/focus."@,
        ),
        VisionCallError::RateLimited(_) => failure_answer(
            TOO_MANY_REQUESTS,
            "rate_limited"@,
            "The meter reading service is busy right now — wait a few seconds and try again, or enter the reading manually."@,
        ),
        VisionCallError::SchemaMismatch(_) | VisionCallError::Upstream(_) => failure_answer(
            OK,
            "upstream_error"@,
            "Cloud reading is temporarily unavailable — try again, or enter the reading manually."@,
        ),
    }
}

/// What the log says of a call without a reading.
pub open spec fn no_reading_word(error: VisionCallError) -> Seq<char> {
    match error {
        VisionCallError::Declined => "declined"@,
        VisionCallError::NoTextDetected => "no_text_detected"@,
        VisionCallError::RateLimited(_) => "rate_limited"@,
        VisionCallError::SchemaMismatch(_) | VisionCallError::Upstream(_) => "upstream_unavailable"@,
    }
}

/// The answer and the record where there is no reading.
pub fn no_reading(request: &ReadRequest, error: &VisionCallError, model: &str) -> (outcome: (
    Reply,
    ReadLog,
))
    ensures
        outcome.0@ == no_reading_answer(*error),
        outcome.1@ == failure_log(*request, no_reading_word(*error), model@),
{
    match error {
        VisionCallError::Declined => (
            Reply::failure(
                OK,
                "declined",
                "The cloud reading was declined — enter the reading manually.",
            ),
            ReadLog::failed(request, "declined", model),
        ),
        VisionCallError::NoTextDetected => (
            Reply::failure(
                OK,
                "no_text_detected",
                "Couldn't make out the display in this photo — retake with better lighting/focus.",
            ),
            ReadLog::failed(request, "no_text_detected", model),
        ),
        VisionCallError::RateLimited(_) => (
            Reply::failure(
                TOO_MANY_REQUESTS,
                "rate_limited",
                "The meter reading service is busy right now — wait a few seconds and try again, or enter the reading manually.",
            ),
            ReadLog::failed(request, "rate_limited", model),
        ),
        VisionCallError::SchemaMismatch(_) | VisionCallError::Upstream(_) => (
            Reply::failure(
                OK,
                "upstream_error",
                "Cloud reading is temporarily unavailable — try again, or enter the reading manually.",
            ),
            ReadLog::failed(request, "upstream_unavailable", model),
        ),
    }
}

// ---------------------------------------------------------------------------
// The steps
// ---------------------------------------------------------------------------

/// What the directory says of a company.
#[derive(PartialEq, Eq, Structural, Clone, Copy, Debug)]
pub struct CompanyLimits {
    /// The company's own rollover ceiling, where it has one.
    pub rollover_ceiling: Option<i64>,
}

/// What was last confirmed for a nozzle.
#[derive(PartialEq, Eq, Structural, Clone, Copy, Debug)]
pub struct LastConfirmed {
    pub sale_number: Option<i64>,
}

/// Where a reading stands.
#[derive(Debug, PartialEq)]
pub enum ReadStage {
    /// The form is awaited.
    Form,
    /// The company is looked up.
    Company { request: ReadRequest },
    /// The readings of the company in the last day are counted.
    Count { request: ReadRequest, limits: CompanyLimits },
    /// The last confirmed reading is looked up.
    Baseline { request: ReadRequest, limits: CompanyLimits },
    /// The model is asked.
    Model { request: ReadRequest, limits: CompanyLimits, last: LastConfirmed },
    /// The litres are measured.
    Liters {
        request: ReadRequest,
        limits: CompanyLimits,
        last: LastConfirmed,
        tokens: MeterReadingTokens,
    },
    /// The answer is known.
    Done,
}

/// What came of a step.
#[derive(Debug, PartialEq)]
pub enum ReadEvent {
    FormRead(Result<ReadRequest, String>),
    CompanyLookedUp(Result<Option<CompanyLimits>, DbFailure>),
    CallsCounted(Result<Option<i64>, DbFailure>),
    BaselineLookedUp(Result<Option<LastConfirmed>, DbFailure>),
    ModelAnswered(Result<MeterReadingTokens, VisionCallError>),
    LitersMeasured(LitersFacts),
}

/// What is to be done next.
#[derive(Debug, PartialEq)]
pub enum ReadAction {
    LookUpCompany,
    CountCalls,
    LookUpBaseline,
    AskModel,
    /// Read two texts as numbers: the LITERS row, and the combined reading.
    MeasureLiters { liters: Option<String>, reading: Option<String> },
    /// Give the answer, and write the record where there is one.
    Answer { reply: Reply, log: Option<ReadLog> },
}

/// The mathematical value of a [`ReadAction`].
pub enum ReadActionView {
    LookUpCompany,
    CountCalls,
    LookUpBaseline,
    AskModel,
    MeasureLiters { liters: Option<Seq<char>>, reading: Option<Seq<char>> },
    Answer { reply: ReplyView, log: Option<ReadLogView> },
}

impl View for ReadAction {
    type V = ReadActionView;

    open spec fn view(&self) -> ReadActionView {
        match self {
            ReadAction::LookUpCompany => ReadActionView::LookUpCompany,
            ReadAction::CountCalls => ReadActionView::CountCalls,
            ReadAction::LookUpBaseline => ReadActionView::LookUpBaseline,
            ReadAction::AskModel => ReadActionView::AskModel,
            ReadAction::MeasureLiters { liters, reading } => ReadActionView::MeasureLiters {
                liters: text_of(*liters),
                reading: text_of(*reading),
            },
            ReadAction::Answer { reply, log } => ReadActionView::Answer {
                reply: reply@,
                log: match log {
                    Some(record) => Some(record@),
                    None => None,
                },
            },
        }
    }
}

/// An answer without a record.
pub open spec fn turned_away(reply: ReplyView) -> ReadActionView {
    ReadActionView::Answer { reply, log: None }
}

/// The rollover ceiling that a reading is judged by.
pub open spec fn ceiling_in_force(limits: CompanyLimits, settings: ReadSettings) -> i64 {
    in_force(
        limits.rollover_ceiling,
        settings.rollover_ceiling,
        DEFAULT_SALE_NUMBER_ROLLOVER_CEILING,
    )
}

/// What was last confirmed: nothing where the lookup failed or found nothing.
pub open spec fn baseline_of(found: Result<Option<LastConfirmed>, DbFailure>) -> LastConfirmed {
    match found {
        Ok(Some(last)) => last,
        _ => LastConfirmed { sale_number: None },
    }
}

impl ReadStage {
    /// Whether an event is the one that is awaited.
    pub open spec fn awaits(self, event: ReadEvent) -> bool {
        match self {
            ReadStage::Form => event is FormRead,
            ReadStage::Company { .. } => event is CompanyLookedUp,
            ReadStage::Count { .. } => event is CallsCounted,
            ReadStage::Baseline { .. } => event is BaselineLookedUp,
            ReadStage::Model { .. } => event is ModelAnswered,
            ReadStage::Liters { .. } => event is LitersMeasured,
            ReadStage::Done => false,
        }
    }

    /// The request, once it has come and until the answer is known.
    pub open spec fn request_of(self) -> Option<ReadRequest> {
        match self {
            ReadStage::Form => None,
            ReadStage::Company { request } => Some(request),
            ReadStage::Count { request, .. } => Some(request),
            ReadStage::Baseline { request, .. } => Some(request),
            ReadStage::Model { request, .. } => Some(request),
            ReadStage::Liters { request, .. } => Some(request),
            ReadStage::Done => None,
        }
    }

    /// Whether the request is well formed and its shift event is one of the two.
    pub open spec fn well_formed(self) -> bool {
        self.request_of() matches Some(request) ==> {
            &&& request.well_formed()
            &&& is_shift_event(request.shift_event@)
        }
    }

    /// How far a reading has come.
    pub open spec fn rank(self) -> nat {
        match self {
            ReadStage::Form => 0,
            ReadStage::Company { .. } => 1,
            ReadStage::Count { .. } => 2,
            ReadStage::Baseline { .. } => 3,
            ReadStage::Model { .. } => 4,
            ReadStage::Liters { .. } => 5,
            ReadStage::Done => 6,
        }
    }
}

/// Where a reading stands after an event that was awaited.
pub open spec fn next_stage(
    stage: ReadStage,
    settings: ReadSettings,
    event: ReadEvent,
) -> ReadStage {
    match (stage, event) {
        (ReadStage::Form, ReadEvent::FormRead(Ok(request))) => if is_shift_event(
            request.shift_event@,
        ) {
            ReadStage::Company { request }
        } else {
            ReadStage::Done
        },
        (ReadStage::Company { request }, ReadEvent::CompanyLookedUp(Ok(Some(limits)))) => {
            ReadStage::Count { request, limits }
        },
        (ReadStage::Count { request, limits }, ReadEvent::CallsCounted(count)) => if counted(count)
            < settings.daily_cap {
            ReadStage::Baseline { request, limits }
        } else {
            ReadStage::Done
        },
        (ReadStage::Baseline { request, limits }, ReadEvent::BaselineLookedUp(found)) => {
            ReadStage::Model { request, limits, last: baseline_of(found) }
        },
        (ReadStage::Model { request, limits, last }, ReadEvent::ModelAnswered(Ok(tokens))) => {
            ReadStage::Liters { request, limits, last, tokens }
        },
        _ => ReadStage::Done,
    }
}

/// What is to be done after an event, where it was awaited.
pub open spec fn next_action(
    stage: ReadStage,
    settings: ReadSettings,
    event: ReadEvent,
) -> Option<ReadActionView> {
    match (stage, event) {
        (ReadStage::Form, ReadEvent::FormRead(Ok(request))) => Some(
            if is_shift_event(request.shift_event@) {
                ReadActionView::LookUpCompany
            } else {
                turned_away(shift_event_answer())
            },
        ),
        (ReadStage::Form, ReadEvent::FormRead(Err(fault))) => Some(
            turned_away(bad_request_answer(fault@)),
        ),
        (ReadStage::Company { .. }, ReadEvent::CompanyLookedUp(found)) => Some(
            if found matches Ok(Some(_)) {
                ReadActionView::CountCalls
            } else {
                turned_away(unrecognized_company_answer())
            },
        ),
        (ReadStage::Count { .. }, ReadEvent::CallsCounted(count)) => Some(
            if counted(count) < settings.daily_cap {
                ReadActionView::LookUpBaseline
            } else {
                turned_away(cap_reached_answer())
            },
        ),
        (ReadStage::Baseline { .. }, ReadEvent::BaselineLookedUp(_)) => Some(
            ReadActionView::AskModel,
        ),
        (ReadStage::Model { .. }, ReadEvent::ModelAnswered(Ok(tokens))) => Some(
            ReadActionView::MeasureLiters {
                liters: liters_text_of(tokens.liters_token@),
                reading: reading_text_of(tokens.sale_token@, tokens.liters_token@),
            },
        ),
        (ReadStage::Model { request, .. }, ReadEvent::ModelAnswered(Err(error))) => Some(
            ReadActionView::Answer {
                reply: no_reading_answer(error),
                log: Some(failure_log(request, no_reading_word(error), settings.model@)),
            },
        ),
        (ReadStage::Liters { request, limits, last, tokens }, ReadEvent::LitersMeasured(facts)) => {
            Some(
                ReadActionView::Answer {
                    reply: answer(
                        OK,
                        reading_view(
                            tokens,
                            facts,
                            last.sale_number,
                            ceiling_in_force(limits, settings),
                            settings.model@,
                        ),
                    ),
                    log: Some(success_log(request, tokens, settings.model@)),
                },
            )
        },
        _ => None,
    }
}

fn turn_away(reply: Reply) -> (next: (ReadStage, ReadAction))
    ensures
        next.0 == ReadStage::Done,
        next.1@ == turned_away(reply@),
{
    (ReadStage::Done, ReadAction::Answer { reply, log: None })
}

impl ReadStage {
    /// The first stage.
    pub fn new() -> (stage: ReadStage)
        ensures
            stage == ReadStage::Form,
            stage.well_formed(),
    {
        ReadStage::Form
    }

    /// The request, once it has come and until the answer is known.
    pub fn request(&self) -> (request: Option<&ReadRequest>)
        ensures
            request is Some <==> self.request_of() is Some,
            request matches Some(r) ==> self.request_of() == Some(*r),
    {
        match self {
            ReadStage::Form => None,
            ReadStage::Company { request } => Some(request),
            ReadStage::Count { request, .. } => Some(request),
            ReadStage::Baseline { request, .. } => Some(request),
            ReadStage::Model { request, .. } => Some(request),
            ReadStage::Liters { request, .. } => Some(request),
            ReadStage::Done => None,
        }
    }

    /// The next stage, and what is to be done, after the event that was awaited.
    pub fn step(self, settings: &ReadSettings, event: ReadEvent) -> (next: (ReadStage, ReadAction))
        requires
            self.awaits(event),
        ensures
            next.0 == next_stage(self, *settings, event),
            Some(next.1@) == next_action(self, *settings, event),
            self.well_formed() && (event matches ReadEvent::FormRead(Ok(r)) ==> r.well_formed())
                ==> next.0.well_formed(),
    {
        match (self, event) {
            (ReadStage::Form, ReadEvent::FormRead(Ok(request))) => {
                match check_shift_event(request.shift_event.as_str()) {
                    Ok(_) => (ReadStage::Company { request }, ReadAction::LookUpCompany),
                    Err(reply) => turn_away(reply),
                }
            },
            (ReadStage::Form, ReadEvent::FormRead(Err(fault))) => {
                turn_away(bad_request(fault.as_str()))
            },
            (ReadStage::Company { request }, ReadEvent::CompanyLookedUp(found)) => {
                match found {
                    Ok(Some(limits)) => (
                        ReadStage::Count { request, limits },
                        ReadAction::CountCalls,
                    ),
                    _ => turn_away(
                        Reply::failure(
                            BAD_REQUEST,
                            "unrecognized_company",
                            "unrecognized company_url/company_prefix",
                        ),
                    ),
                }
            },
            (ReadStage::Count { request, limits }, ReadEvent::CallsCounted(count)) => {
                if count_or_zero(count) >= settings.daily_cap {
                    turn_away(
                        Reply::failure(
                            TOO_MANY_REQUESTS,
                            "daily_cap_reached",
                            "This company has hit its daily meter-OCR limit — contact support if this is a real spike in captures, not a stuck retry loop.",
                        ),
                    )
                } else {
                    (ReadStage::Baseline { request, limits }, ReadAction::LookUpBaseline)
                }
            },
            (ReadStage::Baseline { request, limits }, ReadEvent::BaselineLookedUp(found)) => {
                let last = match found {
                    Ok(Some(last)) => last,
                    _ => LastConfirmed { sale_number: None },
                };
                (ReadStage::Model { request, limits, last }, ReadAction::AskModel)
            },
            (ReadStage::Model { request, limits, last }, ReadEvent::ModelAnswered(outcome)) => {
                match outcome {
                    Ok(tokens) => {
                        let liters = liters_text(tokens.liters_token.as_str());
                        let reading = reading_text(
                            tokens.sale_token.as_str(),
                            tokens.liters_token.as_str(),
                        );
                        (
                            ReadStage::Liters { request, limits, last, tokens },
                            ReadAction::MeasureLiters { liters, reading },
                        )
                    },
                    Err(error) => {
                        let (reply, log) = no_reading(&request, &error, settings.model.as_str());
                        (ReadStage::Done, ReadAction::Answer { reply, log: Some(log) })
                    },
                }
            },
            (
                ReadStage::Liters { request, limits, last, tokens },
                ReadEvent::LitersMeasured(facts),
            ) => {
                let ceiling = effective(
                    limits.rollover_ceiling,
                    settings.rollover_ceiling,
                    DEFAULT_SALE_NUMBER_ROLLOVER_CEILING,
                );
                let log = ReadLog::succeeded(&request, &tokens, settings.model.as_str());
                let body = reading_body(
                    &tokens,
                    facts,
                    last.sale_number,
                    ceiling,
                    settings.model.as_str(),
                );
                (
                    ReadStage::Done,
                    ReadAction::Answer { reply: Reply::new(OK, body), log: Some(log) },
                )
            },
            _ => vstd::pervasive::unreached(),
        }
    }
}

// ---------------------------------------------------------------------------
// Laws
// ---------------------------------------------------------------------------

/// Where a reading stands after the first `n` events.
pub open spec fn stage_after(settings: ReadSettings, events: Seq<ReadEvent>, n: nat) -> ReadStage
    decreases n,
{
    if n == 0 {
        ReadStage::Form
    } else {
        next_stage(
            stage_after(settings, events, (n - 1) as nat),
            settings,
            events[n - 1],
        )
    }
}

/// What is to be done after the event with a number, counted from 0.
pub open spec fn action_after(settings: ReadSettings, events: Seq<ReadEvent>, i: nat) -> Option<
    ReadActionView,
> {
    next_action(stage_after(settings, events, i), settings, events[i as int])
}

/// Nothing is spent before the checks have passed: the model is asked only for a request that is
/// in order, of a company that the directory knows, whose readings of the last day are fewer than
/// the cap.
pub proof fn spending_is_guarded(settings: ReadSettings, events: Seq<ReadEvent>, i: nat)
    requires
        i < events.len(),
        action_after(settings, events, i) == Some(ReadActionView::AskModel),
    ensures
        i == 3,
        events[0] matches ReadEvent::FormRead(Ok(request)) && is_shift_event(request.shift_event@),
        events[1] matches ReadEvent::CompanyLookedUp(Ok(Some(_))),
        events[2] matches ReadEvent::CallsCounted(count) && counted(count) < settings.daily_cap,
{
    lemma_rank_bounded(settings, events, i);
    reveal_with_fuel(stage_after, 4);
}

proof fn lemma_rank_bounded(settings: ReadSettings, events: Seq<ReadEvent>, n: nat)
    ensures
        stage_after(settings, events, n).rank() == n || stage_after(settings, events, n) is Done,
    decreases n,
{
    if n > 0 {
        lemma_rank_bounded(settings, events, (n - 1) as nat);
    }
}

/// The model is asked once in a reading at the most.
pub proof fn model_is_asked_once(settings: ReadSettings, events: Seq<ReadEvent>, i: nat, j: nat)
    requires
        i < events.len(),
        j < events.len(),
        action_after(settings, events, i) == Some(ReadActionView::AskModel),
        action_after(settings, events, j) == Some(ReadActionView::AskModel),
    ensures
        i == j,
{
    spending_is_guarded(settings, events, i);
    spending_is_guarded(settings, events, j);
}

/// No answer has a status from 502 to 504: a proxy would replace its body. The statuses are 200,
/// 400 and 429.
pub proof fn answers_reach_the_client(stage: ReadStage, settings: ReadSettings, event: ReadEvent)
    ensures
        next_action(stage, settings, event) matches Some(
            ReadActionView::Answer { reply, .. },
        ) ==> reply.status == OK || reply.status == BAD_REQUEST || reply.status
            == TOO_MANY_REQUESTS,
{
}

/// Every call of the model is logged, and nothing else is: an answer carries a record just where
/// the model had been asked.
pub proof fn model_calls_are_logged(stage: ReadStage, settings: ReadSettings, event: ReadEvent)
    ensures
        next_action(stage, settings, event) matches Some(ReadActionView::Answer { log, .. }) ==> (
        log is Some <==> stage is Model || stage is Liters),
{
}

/// Each awaited event brings a reading forward, so it ends after six at the most; it has ended
/// just where an answer is given.
pub proof fn readings_end(stage: ReadStage, settings: ReadSettings, event: ReadEvent)
    requires
        stage.awaits(event),
    ensures
        next_stage(stage, settings, event).rank() > stage.rank(),
        next_stage(stage, settings, event).rank() <= 6,
        next_stage(stage, settings, event) is Done <==> next_action(stage, settings, event)
            matches Some(ReadActionView::Answer { .. }),
{
}

/// A record of a call keeps who called and for which shift, the model, and the rows and confidence
/// that it read, each in its own place.
pub proof fn records_keep_what_was_read(
    log: ReadLog,
    request: ReadRequest,
    tokens: MeterReadingTokens,
    model: Seq<char>,
)
    requires
        log@ == success_log(request, tokens, model),
    ensures
        log.company_prefix@ == request.company_prefix@,
        log.company_url@ == request.company_url@,
        log.site@ == request.site@,
        log.device_id@ == request.device_id@,
        log.shift_event@ == request.shift_event@,
        log.ok,
        log.error is None,
        log.sale_token matches Some(text) && text@ == tokens.sale_token@,
        log.liters_token matches Some(text) && text@ == tokens.liters_token@,
        log.confidence matches Some(text) && text@ == tokens.confidence@,
        log.model@ == model,
{
}

/// A record of a call without a reading keeps who called and for which shift, the model and the
/// error, and nothing of a reading.
pub proof fn records_keep_the_error(
    log: ReadLog,
    request: ReadRequest,
    error: Seq<char>,
    model: Seq<char>,
)
    requires
        log@ == failure_log(request, error, model),
    ensures
        log.company_prefix@ == request.company_prefix@,
        log.company_url@ == request.company_url@,
        log.site@ == request.site@,
        log.device_id@ == request.device_id@,
        log.shift_event@ == request.shift_event@,
        !log.ok,
        log.error matches Some(text) && text@ == error,
        log.sale_token is None,
        log.liters_token is None,
        log.confidence is None,
        log.model@ == model,
{
}

/// There are the two shift events, written just so.
pub proof fn there_are_two_shift_events(event: Seq<char>)
    ensures
        is_shift_event(event) <==> event == "open"@ || event == "close"@,
{
}

/// A request that is not in order is told what is wrong with it, as it was found.
pub proof fn faults_are_told_as_they_are(fault: Seq<char>)
    ensures
        bad_request_answer(fault) == failure_answer(400, "bad_request"@, fault),
{
}

/// Why there is no reading is told by the error alone: what detail came with it changes neither the
/// answer nor the word in the record.
pub proof fn details_are_not_told(a: String, b: String)
    ensures
        no_reading_answer(VisionCallError::Upstream(a)) == no_reading_answer(
            VisionCallError::Upstream(b),
        ),
        no_reading_answer(VisionCallError::SchemaMismatch(a)) == no_reading_answer(
            VisionCallError::Upstream(b),
        ),
        no_reading_answer(VisionCallError::RateLimited(a)) == no_reading_answer(
            VisionCallError::RateLimited(b),
        ),
        no_reading_word(VisionCallError::Upstream(a)) == no_reading_word(
            VisionCallError::SchemaMismatch(b),
        ),
        no_reading_word(VisionCallError::Upstream(a)) == "upstream_unavailable"@,
        no_reading_word(VisionCallError::RateLimited(a)) == "rate_limited"@,
        no_reading_answer(VisionCallError::RateLimited(a)).status == 429,
        no_reading_answer(VisionCallError::Upstream(a)).status == 200,
        no_reading_answer(VisionCallError::Upstream(a)).body matches Some(body) && body.tells(
            1,
            "error"@,
            JsonView::Text("upstream_error"@),
        ),
        no_reading_answer(VisionCallError::RateLimited(a)).body matches Some(body) && body.tells(
            1,
            "error"@,
            JsonView::Text("rate_limited"@),
        ),
{
}

/// The ceiling of a company that has one is its own, whatever it is; else the configured one, else
/// the default.
pub proof fn the_ceiling_is_the_nearest(own: i64, set: i64, settings: ReadSettings)
    ensures
        ceiling_in_force(CompanyLimits { rollover_ceiling: Some(own) }, settings) == own,
        settings.rollover_ceiling == Some(set) ==> ceiling_in_force(
            CompanyLimits { rollover_ceiling: None },
            settings,
        ) == set,
        settings.rollover_ceiling is None ==> ceiling_in_force(
            CompanyLimits { rollover_ceiling: None },
            settings,
        ) == 99999,
{
}

/// A form in order leads to the company with the very request, and any other is turned away with
/// what is wrong.
pub proof fn forms_lead_to_the_company(request: ReadRequest, fault: String, settings: ReadSettings)
    ensures
        request.shift_event@ == "open"@ || request.shift_event@ == "close"@ ==> {
            let event = ReadEvent::FormRead(Ok(request));
            &&& next_stage(ReadStage::Form, settings, event) == (ReadStage::Company { request })
            &&& next_action(ReadStage::Form, settings, event) == Some(ReadActionView::LookUpCompany)
        },
        request.shift_event@ != "open"@ && request.shift_event@ != "close"@ ==> next_action(
            ReadStage::Form,
            settings,
            ReadEvent::FormRead(Ok(request)),
        ) == Some(
            ReadActionView::Answer {
                reply: failure_answer(
                    400,
                    "bad_request"@,
                    "shift_event must be \"open\" or \"close\""@,
                ),
                log: None,
            },
        ),
        next_action(ReadStage::Form, settings, ReadEvent::FormRead(Err(fault))) == Some(
            ReadActionView::Answer {
                reply: failure_answer(400, "bad_request"@, fault@),
                log: None,
            },
        ),
{
}

/// A company that the directory knows goes on to the count with its own limits; an unknown one is
/// turned away.
pub proof fn known_companies_are_counted(
    request: ReadRequest,
    limits: CompanyLimits,
    settings: ReadSettings,
    unknown: Result<Option<CompanyLimits>, DbFailure>,
)
    requires
        unknown is Err || unknown == Ok::<Option<CompanyLimits>, DbFailure>(None),
    ensures
        ({
            let stage = ReadStage::Company { request };
            let known = ReadEvent::CompanyLookedUp(Ok(Some(limits)));
            let none = ReadEvent::CompanyLookedUp(unknown);
            &&& next_stage(stage, settings, known) == (ReadStage::Count { request, limits })
            &&& next_action(stage, settings, known) == Some(ReadActionView::CountCalls)
            &&& next_stage(stage, settings, none) == ReadStage::Done
            &&& next_action(stage, settings, none) == Some(
                ReadActionView::Answer { reply: unrecognized_company_answer(), log: None },
            )
        }),
{
}

/// A company goes on just while it made fewer calls in the last day than the cap, whatever the cap
/// is; a count that failed counts as none.
pub proof fn the_cap_is_the_limit(
    request: ReadRequest,
    limits: CompanyLimits,
    settings: ReadSettings,
    calls: i64,
    failure: DbFailure,
)
    ensures
        ({
            let stage = ReadStage::Count { request, limits };
            let event = ReadEvent::CallsCounted(Ok(Some(calls)));
            let unknown = ReadEvent::CallsCounted(Err(failure));
            &&& calls < settings.daily_cap ==> {
                &&& next_stage(stage, settings, event) == (ReadStage::Baseline { request, limits })
                &&& next_action(stage, settings, event) == Some(ReadActionView::LookUpBaseline)
            }
            &&& calls >= settings.daily_cap ==> {
                &&& next_stage(stage, settings, event) == ReadStage::Done
                &&& next_action(stage, settings, event) == Some(
                    ReadActionView::Answer { reply: cap_reached_answer(), log: None },
                )
            }
            &&& settings.daily_cap > 0 ==> {
                &&& next_stage(stage, settings, unknown) == (ReadStage::Baseline {
                    request,
                    limits,
                })
                &&& next_action(stage, settings, unknown) == Some(ReadActionView::LookUpBaseline)
            }
        }),
{
}

/// The model is asked with what was last confirmed for the nozzle, and with nothing where that is
/// not known.
pub proof fn the_baseline_is_what_was_confirmed(
    request: ReadRequest,
    limits: CompanyLimits,
    settings: ReadSettings,
    last: LastConfirmed,
    failure: DbFailure,
)
    ensures
        ({
            let stage = ReadStage::Baseline { request, limits };
            let failed = ReadEvent::BaselineLookedUp(Err(failure));
            let found = ReadEvent::BaselineLookedUp(Ok(Some(last)));
            let none = ReadEvent::BaselineLookedUp(Ok(None));
            let nothing = LastConfirmed { sale_number: None };
            &&& next_stage(stage, settings, found) == (ReadStage::Model { request, limits, last })
            &&& next_stage(stage, settings, none) == (ReadStage::Model {
                request,
                limits,
                last: nothing,
            })
            &&& next_stage(stage, settings, failed) == next_stage(stage, settings, none)
            &&& next_action(stage, settings, found) == Some(ReadActionView::AskModel)
            &&& next_action(stage, settings, none) == Some(ReadActionView::AskModel)
            &&& next_action(stage, settings, failed) == Some(ReadActionView::AskModel)
        }),
{
}

/// What the model read is measured by the very rows that it gave: the trimmed LITERS row, and the
/// last digit of the SALE row before the LITERS row.
pub proof fn what_the_model_read_is_measured(
    request: ReadRequest,
    limits: CompanyLimits,
    settings: ReadSettings,
    last: LastConfirmed,
    tokens: MeterReadingTokens,
)
    ensures
        ({
            let stage = ReadStage::Model { request, limits, last };
            let event = ReadEvent::ModelAnswered(Ok(tokens));
            let sale = trimmed(tokens.sale_token@);
            let row = trimmed(tokens.liters_token@);
            let action = next_action(stage, settings, event);
            &&& next_stage(stage, settings, event) == (ReadStage::Liters {
                request,
                limits,
                last,
                tokens,
            })
            &&& action matches Some(ReadActionView::MeasureLiters { liters, reading }) && {
                &&& row.len() > 0 ==> liters == Some(row)
                &&& row.len() == 0 ==> liters is None
                &&& sale.len() > 0 && '0' <= sale.last() <= '9' ==> reading == Some(
                    seq![sale.last()] + tokens.liters_token@,
                )
                &&& sale.len() == 0 || !('0' <= sale.last() <= '9') ==> reading is None
            }
        }),
{
}

/// A reading is answered with the body that reports it, measured against the last confirmed sale
/// number and the ceiling in force, and with the record of the very rows; a failure of the model
/// with its answer and record.
pub proof fn readings_are_answered_and_recorded(
    request: ReadRequest,
    limits: CompanyLimits,
    settings: ReadSettings,
    last: LastConfirmed,
    tokens: MeterReadingTokens,
    facts: LitersFacts,
    error: VisionCallError,
)
    ensures
        next_action(
            ReadStage::Liters { request, limits, last, tokens },
            settings,
            ReadEvent::LitersMeasured(facts),
        ) == Some(
            ReadActionView::Answer {
                reply: answer(
                    200,
                    reading_view(
                        tokens,
                        facts,
                        last.sale_number,
                        ceiling_in_force(limits, settings),
                        settings.model@,
                    ),
                ),
                log: Some(success_log(request, tokens, settings.model@)),
            },
        ),
        next_action(
            ReadStage::Model { request, limits, last },
            settings,
            ReadEvent::ModelAnswered(Err(error)),
        ) == Some(
            ReadActionView::Answer {
                reply: no_reading_answer(error),
                log: Some(failure_log(request, no_reading_word(error), settings.model@)),
            },
        ),
{
}

/// An action is carried out as it is meant: with its texts, its answer and its record.
pub proof fn actions_are_carried_out_as_they_are_meant(
    action: ReadAction,
    a: Option<Seq<char>>,
    b: Option<Seq<char>>,
    reply: ReplyView,
    record: ReadLogView,
)
    ensures
        action@ is LookUpCompany <==> action is LookUpCompany,
        action@ is CountCalls <==> action is CountCalls,
        action@ is LookUpBaseline <==> action is LookUpBaseline,
        action@ is AskModel <==> action is AskModel,
        action@ == (ReadActionView::MeasureLiters { liters: a, reading: b }) <==> (
        action matches ReadAction::MeasureLiters { liters, reading } && text_of(liters) == a
            && text_of(reading) == b),
        action@ == (ReadActionView::Answer { reply, log: Some(record) }) <==> (
        action matches ReadAction::Answer { reply: r, log: Some(l) } && r@ == reply && l@ == record),
        action@ == (ReadActionView::Answer { reply, log: None }) <==> (
        action matches ReadAction::Answer { reply: r, log: None } && r@ == reply),
{
}

/// The request of a reading is the one that came in the form, at every stage up to the answer.
pub proof fn the_request_stays_the_same(
    stage: ReadStage,
    settings: ReadSettings,
    event: ReadEvent,
    request: ReadRequest,
)
    requires
        stage.awaits(event),
        stage.request_of() == Some(request),
    ensures
        next_stage(stage, settings, event) is Done || next_stage(
            stage,
            settings,
            event,
        ).request_of() == Some(request),
{
}

} // verus!
