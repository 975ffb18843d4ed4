//! The pings of devices, and the views of the fleet.
use vstd::prelude::*;
use vstd::string::*;

use crate::external::{parse_rfc3339, rfc3339_instant};
use crate::json::{items_view, no_members, Json, JsonObject, JsonView};
use crate::paging::{page_window, rows_before, PageWindow};
use crate::reply::{
    answer, database_error_answer, error_answer, one_text, DbFailure, Reply, ReplyView, INTERNAL_SERVER_ERROR, OK,
};
use crate::text::{
    before, or_empty, segment_before, segments_end_at_the_first_separator, text_or_empty, trimmed,
};

verus! {

/// What a device reports. `F` is the type of its coordinates.
#[derive(Debug, PartialEq)]
pub struct TelemetryPayload<F> {
    pub company_url: Option<String>,
    pub company_prefix: String,
    pub company_name: Option<String>,
    pub user_id: String,
    pub app_version: String,
    pub abi: String,
    pub model: String,
    pub brand: String,
    pub android_version: String,
    pub device_id: String,
    pub timestamp: Option<String>,
    /// The last known position, where the device has one at hand. The three travel together or
    /// not at all.
    pub lat: Option<F>,
    pub lon: Option<F>,
    pub location_accuracy: Option<F>,
}

/// Which pings are to be listed.
#[derive(Debug, PartialEq)]
pub struct PingQuery {
    pub page: i64,
    pub page_size: i64,
    pub company_prefix: Option<String>,
}

/// The page that is listed where none is named.
pub fn default_page() -> (page: i64)
    ensures
        page == 1,
{
    1
}

/// How many pings a page has where no size is named.
pub fn default_page_size() -> (page_size: i64)
    ensures
        page_size == 20,
{
    20
}

/// The most pings that a page has.
pub const MAX_PAGE_SIZE: i64 = 100;

/// The page of pings that is asked for, unless the page is so far behind that it has no window.
pub fn list_window(params: &PingQuery) -> (window: Option<PageWindow>)
    ensures
        match window {
            Some(w) => w.shows(params.page as int, params.page_size as int, MAX_PAGE_SIZE as int),
            None => rows_before(
                params.page as int,
                params.page_size as int,
                MAX_PAGE_SIZE as int,
            ) > i64::MAX,
        },
{
    page_window(params.page, params.page_size, MAX_PAGE_SIZE)
}

/// The address that a ping came from: what stands first in the `X-Forwarded-For` header, else
/// the address of the peer.
pub open spec fn address_of(forwarded: Option<&str>, peer: Seq<char>) -> Seq<char> {
    match forwarded {
        Some(addresses) => trimmed(segment_before(addresses@, ',')),
        None => peer,
    }
}

/// The address that a ping came from. `forwarded` is the value of the `X-Forwarded-For` header,
/// where there is one that is text.
pub fn extract_ip(forwarded: Option<&str>, peer: &str) -> (address: String)
    ensures
        address@ == address_of(forwarded, peer@),
{
    match forwarded {
        Some(addresses) => before(addresses, ',').trim().to_owned(),
        None => peer.to_owned(),
    }
}

/// A ping to be stored.
#[derive(Debug, PartialEq)]
pub struct NewPing<F> {
    pub company_url: String,
    pub company_prefix: String,
    pub company_name: String,
    pub user_id: String,
    pub app_version: String,
    pub abi: String,
    pub model: String,
    pub brand: String,
    pub android_version: String,
    pub device_id: String,
    pub ip_address: String,
    /// The time on the device: seconds since the start of 1970, and nanoseconds.
    pub client_timestamp: Option<(i64, u32)>,
    pub lat: Option<F>,
    pub lon: Option<F>,
    pub location_accuracy: Option<F>,
}

/// The position in a report: latitude, longitude and accuracy. A partial one is none.
pub open spec fn fix_of<F>(payload: TelemetryPayload<F>) -> (Option<F>, Option<F>, Option<F>) {
    if payload.lat is Some && payload.lon is Some && payload.location_accuracy is Some {
        (payload.lat, payload.lon, payload.location_accuracy)
    } else {
        (None, None, None)
    }
}

impl<F> NewPing<F> {
    /// Whether this is the ping for a report that came from an address.
    pub open spec fn records(self, payload: TelemetryPayload<F>, address: Seq<char>) -> bool {
        &&& self.company_url@ == text_or_empty(payload.company_url)
        &&& self.company_prefix == payload.company_prefix
        &&& self.company_name@ == text_or_empty(payload.company_name)
        &&& self.user_id == payload.user_id
        &&& self.app_version == payload.app_version
        &&& self.abi == payload.abi
        &&& self.model == payload.model
        &&& self.brand == payload.brand
        &&& self.android_version == payload.android_version
        &&& self.device_id == payload.device_id
        &&& self.ip_address@ == address
        &&& (self.lat, self.lon, self.location_accuracy) == fix_of(payload)
    }
}

/// The instant that a report names: none where it names none or does not write it by RFC 3339.
pub open spec fn reported_instant(timestamp: Option<String>) -> Option<(i64, u32)> {
    match timestamp {
        Some(text) => rfc3339_instant(text@),
        None => None,
    }
}

/// The ping for a report that came from an address, with the instant that was read from it.
pub fn ping_with<F>(
    payload: TelemetryPayload<F>,
    address: String,
    client_timestamp: Option<(i64, u32)>,
) -> (ping: NewPing<F>)
    ensures
        ping.records(payload, address@),
        ping.client_timestamp == client_timestamp,
{
    let (lat, lon, location_accuracy) = match (payload.lat, payload.lon, payload.location_accuracy)
    {
        (Some(lat), Some(lon), Some(accuracy)) => (Some(lat), Some(lon), Some(accuracy)),
        _ => (None, None, None),
    };
    NewPing {
        company_url: or_empty(payload.company_url),
        company_prefix: payload.company_prefix,
        company_name: or_empty(payload.company_name),
        user_id: payload.user_id,
        app_version: payload.app_version,
        abi: payload.abi,
        model: payload.model,
        brand: payload.brand,
        android_version: payload.android_version,
        device_id: payload.device_id,
        ip_address: address,
        client_timestamp,
        lat,
        lon,
        location_accuracy,
    }
}

/// The ping to be stored for a report.
pub fn new_ping<F>(
    payload: TelemetryPayload<F>,
    forwarded: Option<&str>,
    peer: &str,
) -> (ping: NewPing<F>)
    ensures
        ping.records(payload, address_of(forwarded, peer@)),
        ping.client_timestamp == reported_instant(payload.timestamp),
{
    let client_timestamp = match &payload.timestamp {
        Some(text) => parse_rfc3339(text.as_str()),
        None => None,
    };
    ping_with(payload, extract_ip(forwarded, peer), client_timestamp)
}

/// What is answered to a report.
pub open spec fn ping_answer(inserted: Result<(), DbFailure>) -> ReplyView {
    match inserted {
        Ok(_) => answer(OK, one_text("status"@, "ok"@)),
        Err(_) => ReplyView { status: INTERNAL_SERVER_ERROR, body: None },
    }
}

/// The answer to a report, from what came of storing it.
pub fn ping_reply(inserted: Result<(), DbFailure>) -> (reply: Reply)
    ensures
        reply@ == ping_answer(inserted),
{
    match inserted {
        Ok(_) => Reply::new(OK, JsonObject::new().with("status", Json::text("ok")).build()),
        Err(_) => Reply::bare(INTERNAL_SERVER_ERROR),
    }
}

/// How the fleet does as a whole.
#[derive(Debug, PartialEq)]
pub struct SummaryTotals {
    pub total_pings: i64,
    pub distinct_devices: i64,
    pub distinct_companies: i64,
    pub active_24h: i64,
    pub active_1h: i64,
    /// The devices that pinged once but not in the last seven days.
    pub stale_7d: i64,
}

/// How many devices run a version of the app.
#[derive(Debug, PartialEq)]
pub struct VersionBreakdown {
    pub app_version: String,
    pub device_count: i64,
}

/// The totals as an object.
pub open spec fn totals_view(totals: SummaryTotals) -> JsonView {
    JsonView::Object(
        no_members()
            .push(("total_pings"@, JsonView::Int(totals.total_pings as int)))
            .push(("distinct_devices"@, JsonView::Int(totals.distinct_devices as int)))
            .push(("distinct_companies"@, JsonView::Int(totals.distinct_companies as int)))
            .push(("active_24h"@, JsonView::Int(totals.active_24h as int)))
            .push(("active_1h"@, JsonView::Int(totals.active_1h as int)))
            .push(("stale_7d"@, JsonView::Int(totals.stale_7d as int))),
    )
}

fn totals_json(totals: &SummaryTotals) -> (document: Json)
    ensures
        document@ == totals_view(*totals),
{
    JsonObject::new()
        .with("total_pings", Json::integer(totals.total_pings))
        .with("distinct_devices", Json::integer(totals.distinct_devices))
        .with("distinct_companies", Json::integer(totals.distinct_companies))
        .with("active_24h", Json::integer(totals.active_24h))
        .with("active_1h", Json::integer(totals.active_1h))
        .with("stale_7d", Json::integer(totals.stale_7d))
        .build()
}

/// A version and its devices as an object.
pub open spec fn version_view(version: VersionBreakdown) -> JsonView {
    JsonView::Object(
        no_members()
            .push(("app_version"@, JsonView::Text(version.app_version@)))
            .push(("device_count"@, JsonView::Int(version.device_count as int))),
    )
}

/// The versions and their devices as a list of objects.
pub open spec fn versions_view(versions: Seq<VersionBreakdown>) -> JsonView {
    JsonView::List(Seq::new(versions.len(), |i: int| version_view(versions[i])))
}

fn versions_json(versions: &Vec<VersionBreakdown>) -> (document: Json)
    ensures
        document@ == versions_view(versions@),
{
    let mut items: Vec<Json> = Vec::new();
    for i in 0..versions.len()
        invariant
            items@.len() == i,
            forall|k: int| 0 <= k < i ==> (#[trigger] items@[k])@ == version_view(versions@[k]),
    {
        let version = &versions[i];
        let item = JsonObject::new()
            .with("app_version", Json::text(version.app_version.as_str()))
            .with("device_count", Json::integer(version.device_count))
            .build();
        items.push(item);
    }
    assert(items_view(items@) =~= Seq::new(
        versions@.len(),
        |i: int| version_view(versions@[i]),
    ));
    Json::list(items)
}

/// What is answered to a request for the state of the fleet.
pub open spec fn summary_answer(
    totals: Result<SummaryTotals, DbFailure>,
    by_company: Result<Vec<Json>, DbFailure>,
    by_version: Result<Vec<VersionBreakdown>, DbFailure>,
) -> ReplyView {
    match (totals, by_company, by_version) {
        (Ok(t), Ok(c), Ok(v)) => answer(
            OK,
            JsonView::Object(
                no_members()
                    .push(("totals"@, totals_view(t)))
                    .push(("by_company"@, JsonView::List(items_view(c@))))
                    .push(("by_version"@, versions_view(v@))),
            ),
        ),
        _ => database_error_answer(),
    }
}

/// The answer to a request for the state of the fleet: its three parts, or an error where the
/// database failed on any of them.
pub fn summary_reply(
    totals: Result<SummaryTotals, DbFailure>,
    by_company: Result<Vec<Json>, DbFailure>,
    by_version: Result<Vec<VersionBreakdown>, DbFailure>,
) -> (reply: Reply)
    ensures
        reply@ == summary_answer(totals, by_company, by_version),
{
    match (totals, by_company, by_version) {
        (Ok(t), Ok(c), Ok(v)) => Reply::new(
            OK,
            JsonObject::new()
                .with("totals", totals_json(&t))
                .with("by_company", Json::list(c))
                .with("by_version", versions_json(&v))
                .build(),
        ),
        _ => Reply::database_error(),
    }
}

/// Which devices are to be located.
#[derive(Debug, PartialEq)]
pub struct DeviceLocationQuery {
    pub company_prefix: Option<String>,
}

/// The filter for devices: whether it is active, and the prefix that it asks for.
pub fn device_filter(params: DeviceLocationQuery) -> (filter: (bool, String))
    ensures
        filter.0 == (params.company_prefix is Some),
        filter.1@ == text_or_empty(params.company_prefix),
{
    let active = params.company_prefix.is_some();
    (active, or_empty(params.company_prefix))
}

/// A stored position is whole: its three parts are there together or not at all.
pub proof fn positions_are_whole<F>(
    payload: TelemetryPayload<F>,
    address: Seq<char>,
    ping: NewPing<F>,
)
    requires
        ping.records(payload, address),
    ensures
        ping.lat is Some <==> ping.lon is Some,
        ping.lon is Some <==> ping.location_accuracy is Some,
        ping.lat is Some ==> ping.lat == payload.lat && ping.lon == payload.lon
            && ping.location_accuracy == payload.location_accuracy,
{
}

// ---------------------------------------------------------------------------
// Laws
// ---------------------------------------------------------------------------

/// A ping is stored as it was reported, each text in its own place, with the address it came from.
/// A company URL or name that is not reported is stored as the empty text.
pub proof fn pings_are_stored_as_reported<F>(
    payload: TelemetryPayload<F>,
    address: Seq<char>,
    ping: NewPing<F>,
)
    requires
        ping.records(payload, address),
    ensures
        ping.company_prefix@ == payload.company_prefix@,
        ping.user_id@ == payload.user_id@,
        ping.app_version@ == payload.app_version@,
        ping.abi@ == payload.abi@,
        ping.model@ == payload.model@,
        ping.brand@ == payload.brand@,
        ping.android_version@ == payload.android_version@,
        ping.device_id@ == payload.device_id@,
        ping.ip_address@ == address,
        payload.company_url matches Some(url) ==> ping.company_url@ == url@,
        payload.company_url is None ==> ping.company_url@.len() == 0,
        payload.company_name matches Some(name) ==> ping.company_name@ == name@,
        payload.company_name is None ==> ping.company_name@.len() == 0,
{
}

/// A whole position is kept as it was reported, and any other is none.
pub proof fn whole_positions_are_kept<F>(
    payload: TelemetryPayload<F>,
    address: Seq<char>,
    ping: NewPing<F>,
)
    requires
        ping.records(payload, address),
    ensures
        payload.lat is Some && payload.lon is Some && payload.location_accuracy is Some ==> {
            &&& ping.lat == payload.lat
            &&& ping.lon == payload.lon
            &&& ping.location_accuracy == payload.location_accuracy
        },
        payload.lat is None || payload.lon is None || payload.location_accuracy is None ==> {
            &&& ping.lat is None
            &&& ping.lon is None
            &&& ping.location_accuracy is None
        },
{
}

/// The address is the trimmed text before the first comma of the forwarded ones, which is all of it
/// where there is no comma, and that of the peer only where nothing was forwarded.
pub proof fn addresses_stand_before_the_first_comma(
    forwarded: &str,
    peer: Seq<char>,
    first: Seq<char>,
    others: Seq<char>,
)
    requires
        !first.contains(','),
    ensures
        forwarded@ == first ==> address_of(Some(forwarded), peer) == trimmed(first),
        forwarded@ == first + seq![','] + others ==> address_of(Some(forwarded), peer) == trimmed(
            first,
        ),
        address_of(None, peer) == peer,
{
    let segment = segment_before(forwarded@, ',');
    segments_end_at_the_first_separator(forwarded@, ',');
    if forwarded@ == first {
        if segment.len() < first.len() {
            assert(first[segment.len() as int] == ',');
            assert(first.contains(','));
        }
        assert(segment =~= first);
    }
    if forwarded@ == first + seq![','] + others {
        assert(forwarded@[first.len() as int] == ',');
        if segment.len() < first.len() {
            assert(first[segment.len() as int] == forwarded@[segment.len() as int]);
            assert(first.contains(','));
        }
        if segment.len() > first.len() {
            assert(segment[first.len() as int] == ',');
            assert(segment.contains(','));
        }
        assert(segment =~= first);
    }
}

/// The time on the device is the instant that the report writes, where it writes one.
pub proof fn reported_instants_are_read(text: String)
    ensures
        reported_instant(Some(text)) == rfc3339_instant(text@),
        reported_instant(None) is None,
{
}

/// The state of the fleet is told in full: each total by its own name, each company at its place,
/// and each version at its place with its own name and number of devices.
pub proof fn summaries_tell_every_part(
    totals: SummaryTotals,
    companies: Vec<Json>,
    versions: Vec<VersionBreakdown>,
    i: int,
)
    ensures
        summary_answer(Ok(totals), Ok(companies), Ok(versions)).status == 200,
        summary_answer(Ok(totals), Ok(companies), Ok(versions)).body matches Some(body)
            && body.size() == 3 && ({
            let sums = body->Object_0[0].1;
            let by_company = body->Object_0[1].1;
            let by_version = body->Object_0[2].1;
            &&& body.tells(0, "totals"@, sums)
            &&& sums.size() == 6
            &&& sums.tells(0, "total_pings"@, JsonView::Int(totals.total_pings as int))
            &&& sums.tells(1, "distinct_devices"@, JsonView::Int(totals.distinct_devices as int))
            &&& sums.tells(
                2,
                "distinct_companies"@,
                JsonView::Int(totals.distinct_companies as int),
            )
            &&& sums.tells(3, "active_24h"@, JsonView::Int(totals.active_24h as int))
            &&& sums.tells(4, "active_1h"@, JsonView::Int(totals.active_1h as int))
            &&& sums.tells(5, "stale_7d"@, JsonView::Int(totals.stale_7d as int))
            &&& body.tells(1, "by_company"@, by_company)
            &&& by_company is List
            &&& by_company.size() == companies@.len()
            &&& 0 <= i < companies@.len() ==> by_company.lists(i, companies@[i]@)
            &&& body.tells(2, "by_version"@, by_version)
            &&& by_version is List
            &&& by_version.size() == versions@.len()
            &&& 0 <= i < versions@.len() ==> ({
                let item = by_version->List_0[i];
                &&& item.size() == 2
                &&& item.tells(0, "app_version"@, JsonView::Text(versions@[i].app_version@))
                &&& item.tells(
                    1,
                    "device_count"@,
                    JsonView::Int(versions@[i].device_count as int),
                )
            })
        }),
{
}

/// Where the database fails on any of the three parts, that is the answer.
pub proof fn summaries_are_whole_or_none(
    totals: Result<SummaryTotals, DbFailure>,
    companies: Result<Vec<Json>, DbFailure>,
    versions: Result<Vec<VersionBreakdown>, DbFailure>,
)
    requires
        totals is Err || companies is Err || versions is Err,
    ensures
        summary_answer(totals, companies, versions) == error_answer(500, "Database error"@),
{
}

/// A report is answered with `ok` where it was stored, and with a bare 500 however it failed.
pub proof fn reports_are_answered(failure: DbFailure)
    ensures
        ping_answer(Ok(())).status == 200,
        ping_answer(Ok(())).body matches Some(body) && body.size() == 1 && body.tells(
            0,
            "status"@,
            JsonView::Text("ok"@),
        ),
        ping_answer(Err(failure)).status == 500,
        ping_answer(Err(failure)).body is None,
{
}

} // verus!
