//! Publishing, listing and removing releases.
use vstd::prelude::*;
use vstd::string::*;

use crate::external::{is_random_uuid, new_uuid, uuid_text, uuid_text_of};
use crate::json::{no_members, Json, JsonObject, JsonView};
use crate::paging::{page_window, rows_before, PageWindow};
use crate::reply::{
    affected_answer, affected_reply, answer, database_error_answer, error_answer, DbFailure, Reply,
    ReplyView, CONFLICT, CREATED,
};
use crate::text::{is_blank, is_blank_text, or_empty, text_or_empty};

verus! {

/// A release to be published.
#[derive(Debug, PartialEq)]
pub struct ConfigPayload {
    pub url: String,
    pub force_update: bool,
    pub reason_for_update: String,
    pub update_display: String,
    pub memo: String,
    pub version_no: String,
    /// With a URL and a prefix the release is for that company alone; without, it is for all.
    pub company_url: Option<String>,
    pub company_prefix: Option<String>,
}

/// Which releases are to be listed.
#[derive(Debug, PartialEq)]
pub struct PaginationParams {
    pub page: i64,
    pub page_size: i64,
    /// With a URL and a prefix, the releases for that company and those for all; without, every
    /// release.
    pub company_url: Option<String>,
    pub company_prefix: Option<String>,
}

/// The page that is listed where none is named.
pub fn default_page() -> (page: i64)
    ensures
        page == 1,
{
    1
}

/// How many releases a page has where no size is named.
pub fn default_page_size() -> (page_size: i64)
    ensures
        page_size == 20,
{
    20
}

/// The most releases that a page has.
pub const MAX_PAGE_SIZE: i64 = 100;

/// The page of releases that is asked for, unless the page is so far behind that it has no window.
pub fn list_window(params: &PaginationParams) -> (window: Option<PageWindow>)
    ensures
        match window {
            Some(w) => w.shows(params.page as int, params.page_size as int, MAX_PAGE_SIZE as int),
            None => rows_before(
                params.page as int,
                params.page_size as int,
                MAX_PAGE_SIZE as int,
            ) > i64::MAX,
        },
{
    page_window(params.page, params.page_size, MAX_PAGE_SIZE)
}

/// Whose releases are listed: every release where the filter is not active, else those for all
/// and those for the company.
#[derive(Debug, PartialEq)]
pub struct CompanyFilter {
    pub active: bool,
    pub company_url: String,
    pub company_prefix: String,
}

/// The filter for a list. It is active where the parameters name the URL of a company, be it
/// empty.
pub fn company_filter(params: PaginationParams) -> (filter: CompanyFilter)
    ensures
        filter.active == (params.company_url is Some),
        filter.company_url@ == text_or_empty(params.company_url),
        filter.company_prefix@ == text_or_empty(params.company_prefix),
{
    let active = params.company_url.is_some();
    CompanyFilter {
        active,
        company_url: or_empty(params.company_url),
        company_prefix: or_empty(params.company_prefix),
    }
}

/// A text that counts: a blank one counts as none.
pub open spec fn filled_in(value: Option<String>) -> Option<String> {
    match value {
        Some(text) => if is_blank_text(text@) {
            None
        } else {
            Some(text)
        },
        None => None,
    }
}

fn not_blank(value: Option<String>) -> (text: Option<String>)
    ensures
        text == filled_in(value),
{
    match value {
        Some(text) => if is_blank(text.as_str()) {
            None
        } else {
            Some(text)
        },
        None => None,
    }
}

/// A release to be stored. It is for all companies where it has no `company_url`.
#[derive(Debug, PartialEq)]
pub struct NewRelease {
    pub id: u128,
    pub url: String,
    pub force_update: bool,
    pub reason_for_update: String,
    pub update_display: String,
    pub memo: String,
    pub version_no: String,
    pub company_url: Option<String>,
    pub company_prefix: Option<String>,
}

impl NewRelease {
    /// Whether this is the release that a payload describes.
    pub open spec fn describes(self, payload: ConfigPayload) -> bool {
        &&& self.url == payload.url
        &&& self.force_update == payload.force_update
        &&& self.reason_for_update == payload.reason_for_update
        &&& self.update_display == payload.update_display
        &&& self.memo == payload.memo
        &&& self.version_no == payload.version_no
        &&& self.company_url == filled_in(payload.company_url)
        &&& self.company_prefix == filled_in(payload.company_prefix)
    }
}

/// The release to be stored for a payload, under an identifier.
pub fn release_with(payload: ConfigPayload, id: u128) -> (release: NewRelease)
    ensures
        release.describes(payload),
        release.id == id,
{
    NewRelease {
        id,
        url: payload.url,
        force_update: payload.force_update,
        reason_for_update: payload.reason_for_update,
        update_display: payload.update_display,
        memo: payload.memo,
        version_no: payload.version_no,
        company_url: not_blank(payload.company_url),
        company_prefix: not_blank(payload.company_prefix),
    }
}

/// The release to be stored for a payload, under a fresh identifier.
pub fn new_release(payload: ConfigPayload) -> (release: NewRelease)
    ensures
        release.describes(payload),
        is_random_uuid(release.id),
{
    release_with(payload, new_uuid())
}

/// What is answered to the publication of a release.
pub open spec fn published_answer(
    release: NewRelease,
    inserted: Result<(), DbFailure>,
) -> ReplyView {
    match inserted {
        Ok(_) => answer(
            CREATED,
            JsonView::Object(
                no_members()
                    .push(("message"@, JsonView::Text("config created successfully"@)))
                    .push(("id"@, JsonView::Text(uuid_text_of(release.id)))),
            ),
        ),
        Err(DbFailure::UniqueViolation) => error_answer(
            CONFLICT,
            if release.company_url is Some {
                "This company already has a release with that version_no"@
            } else {
                "A global release with that version_no already exists"@
            },
        ),
        Err(DbFailure::Other) => database_error_answer(),
    }
}

/// The answer to the publication of a release, from what came of storing it.
pub fn release_published_reply(release: &NewRelease, inserted: Result<(), DbFailure>) -> (reply:
    Reply)
    ensures
        reply@ == published_answer(*release, inserted),
{
    match inserted {
        Ok(_) => Reply::new(
            CREATED,
            JsonObject::new()
                .with("message", Json::text("config created successfully"))
                .with("id", Json::text(uuid_text(release.id).as_str()))
                .build(),
        ),
        Err(DbFailure::UniqueViolation) => if release.company_url.is_some() {
            Reply::error(CONFLICT, "This company already has a release with that version_no")
        } else {
            Reply::error(CONFLICT, "A global release with that version_no already exists")
        },
        Err(DbFailure::Other) => Reply::database_error(),
    }
}

/// The answer to the removal of a release, from how many rows it affected.
pub fn release_deleted_reply(affected: Result<u64, DbFailure>) -> (reply: Reply)
    ensures
        reply@ == affected_answer(affected, "Release not found"@, "Release deleted"@),
{
    affected_reply(affected, "Release not found", "Release deleted")
}

/// A release with a blank company URL is for all companies, as one without any, whatever its
/// prefix: the company's own releases are those whose payload names one.
pub proof fn a_blank_company_is_none(payload: ConfigPayload, release: NewRelease)
    requires
        release.describes(payload),
    ensures
        release.company_url is None <==> is_blank_text(text_or_empty(payload.company_url)),
{
}

/// A stored release is the one in the payload: it forces an update just where the payload does, and
/// its URL, version and texts are the payload's, each in its own place.
pub proof fn releases_are_stored_as_published(payload: ConfigPayload, release: NewRelease)
    requires
        release.describes(payload),
    ensures
        release.force_update <==> payload.force_update,
        release.url@ == payload.url@,
        release.version_no@ == payload.version_no@,
        release.reason_for_update@ == payload.reason_for_update@,
        release.update_display@ == payload.update_display@,
        release.memo@ == payload.memo@,
{
}

/// The company of a release is kept as it is written where it is filled in, URL and prefix each for
/// itself, and is none where it is blank or missing.
pub proof fn companies_are_kept_where_they_are_filled_in(
    payload: ConfigPayload,
    release: NewRelease,
)
    requires
        release.describes(payload),
    ensures
        payload.company_url matches Some(url) && !is_blank_text(url@) ==> release.company_url
            == payload.company_url,
        payload.company_url matches Some(url) && is_blank_text(url@) ==> release.company_url
            is None,
        payload.company_url is None ==> release.company_url is None,
        payload.company_prefix matches Some(prefix) && !is_blank_text(prefix@)
            ==> release.company_prefix == payload.company_prefix,
        payload.company_prefix matches Some(prefix) && is_blank_text(prefix@)
            ==> release.company_prefix is None,
        payload.company_prefix is None ==> release.company_prefix is None,
{
}

/// Publishing is answered with the identifier of the release; a version that is taken is told by
/// whom: by the company where the release has one, else for all.
pub proof fn publishing_tells_the_identifier(release: NewRelease)
    ensures
        published_answer(release, Ok(())).status == 201,
        published_answer(release, Ok(())).body matches Some(body) && body.size() == 2
            && body.tells(0, "message"@, JsonView::Text("config created successfully"@))
            && body.tells(1, "id"@, JsonView::Text(uuid_text_of(release.id))),
        release.company_url is Some ==> published_answer(release, Err(DbFailure::UniqueViolation))
            == error_answer(409, "This company already has a release with that version_no"@),
        release.company_url is None ==> published_answer(release, Err(DbFailure::UniqueViolation))
            == error_answer(409, "A global release with that version_no already exists"@),
        published_answer(release, Err(DbFailure::Other)) == error_answer(500, "Database error"@),
{
}

} // verus!
