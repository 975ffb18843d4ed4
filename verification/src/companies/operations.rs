//! Listing, adding, changing and removing the sites of companies.
use vstd::prelude::*;
use vstd::string::*;

use crate::json::Json;
use crate::paging::{
    page_window, pages_show_the_whole_list, quotient_rounded_up, rows_before, shown_size,
    shown_so_far, PageWindow,
};
use crate::reply::{
    affected_answer, affected_reply, answer, database_error_answer, error_answer, DbFailure, Reply,
    ReplyView, BAD_REQUEST, CONFLICT, CREATED, NOT_FOUND, OK,
};
use crate::text::{is_blank, is_blank_text, join3, text_or_empty, trimmed};

verus! {

/// A site to be added.
#[derive(Debug, PartialEq)]
pub struct CompanyPayload {
    pub site_name: String,
    pub site_description: Option<String>,
    pub branch_: String,
    pub company_prefix: String,
    pub company_url: String,
    pub site_key: String,
}

/// The prefix of a site whose payload has none.
pub fn default_prefix() -> (prefix: String)
    ensures
        prefix@ == "0_"@,
{
    "0_".to_owned()
}

/// What is to be changed of a site. What is `None` stays as it is.
#[derive(Debug, PartialEq)]
pub struct CompanyUpdatePayload {
    pub site_name: Option<String>,
    pub site_description: Option<String>,
    pub branch_: Option<String>,
    pub company_prefix: Option<String>,
    pub company_url: Option<String>,
    pub site_key: Option<String>,
}

/// Which sites are to be listed.
#[derive(Debug, PartialEq)]
pub struct ListParams {
    pub page: i64,
    pub page_size: i64,
    pub search: Option<String>,
}

/// The page that is listed where none is named.
pub fn default_page() -> (page: i64)
    ensures
        page == 1,
{
    1
}

/// How many sites a page has where no size is named.
pub fn default_page_size() -> (page_size: i64)
    ensures
        page_size == 50,
{
    50
}

/// The most sites that a page has.
pub const MAX_PAGE_SIZE: i64 = 200;

/// The page of sites that is asked for, unless the page is so far behind that it has no window.
pub fn list_window(params: &ListParams) -> (window: Option<PageWindow>)
    ensures
        match window {
            Some(w) => w.shows(params.page as int, params.page_size as int, MAX_PAGE_SIZE as int),
            None => rows_before(
                params.page as int,
                params.page_size as int,
                MAX_PAGE_SIZE as int,
            ) > i64::MAX,
        },
{
    page_window(params.page, params.page_size, MAX_PAGE_SIZE)
}

/// Whether a character has a meaning of its own in a pattern.
pub open spec fn is_pattern_sign(c: char) -> bool {
    c == '%' || c == '_' || c == '\\'
}

/// A text as it stands in a pattern that is to match the text itself: with a backslash before
/// each character that has a meaning of its own.
pub open spec fn escaped(text: Seq<char>) -> Seq<char>
    decreases text.len(),
{
    if text.len() == 0 {
        text
    } else if is_pattern_sign(text.last()) {
        escaped(text.drop_last()).push('\\').push(text.last())
    } else {
        escaped(text.drop_last()).push(text.last())
    }
}

/// A text as it stands in a pattern that is to match the text itself.
fn escape(text: &str) -> (pattern: String)
    ensures
        pattern@ == escaped(text@),
{
    let len = text.unicode_len();
    let mut pattern = String::new();
    let mut i: usize = 0;
    proof {
        assert(text@.take(0) =~= Seq::<char>::empty());
        assert(pattern@ =~= escaped(text@.take(0)));
    }
    while i < len
        invariant
            0 <= i <= len,
            len == text@.len(),
            pattern@ == escaped(text@.take(i as int)),
        decreases len - i,
    {
        let c = text.get_char(i);
        let letter = text.substring_char(i, i + 1);
        let ghost before = pattern@;
        if c == '%' || c == '_' || c == '\\' {
            pattern = pattern.concat("\\").concat(letter);
        } else {
            pattern = pattern.concat(letter);
        }
        proof {
            reveal_strlit("\\");
            let grown = text@.take(i + 1);
            assert(grown.drop_last() =~= text@.take(i as int));
            assert(letter@ =~= seq![c]);
            if is_pattern_sign(c) {
                assert(pattern@ =~= before.push('\\').push(c));
            } else {
                assert(pattern@ =~= before.push(c));
            }
        }
        i += 1;
    }
    assert(text@.take(len as int) =~= text@);
    pattern
}

/// The pattern that matches the texts that hold what is searched for. It matches every text
/// where nothing is searched for.
pub fn search_pattern(search: &Option<String>) -> (pattern: String)
    ensures
        pattern@ == "%"@ + escaped(trimmed(text_or_empty(*search))) + "%"@,
{
    let wanted = match search {
        Some(text) => text.as_str(),
        None => "",
    };
    proof {
        reveal_strlit("");
        assert(wanted@ =~= text_or_empty(*search));
    }
    let literal = escape(wanted.trim());
    join3("%", literal.as_str(), "%")
}

/// Whether a text matches a pattern as the operator LIKE has it: a percent sign stands for any
/// characters, an underscore for any one, and a backslash takes the character behind it by
/// itself. `same` says which characters count as the same.
pub open spec fn like(
    pattern: Seq<char>,
    text: Seq<char>,
    same: spec_fn(char, char) -> bool,
) -> bool
    decreases pattern.len(), text.len(),
{
    if pattern.len() == 0 {
        text.len() == 0
    } else if pattern[0] == '%' {
        ||| like(pattern.skip(1), text, same)
        ||| text.len() > 0 && like(pattern, text.skip(1), same)
    } else if pattern[0] == '_' {
        text.len() > 0 && like(pattern.skip(1), text.skip(1), same)
    } else if pattern[0] == '\\' {
        &&& pattern.len() > 1
        &&& text.len() > 0
        &&& same(pattern[1], text[0])
        &&& like(pattern.skip(2), text.skip(1), same)
    } else {
        &&& text.len() > 0
        &&& same(pattern[0], text[0])
        &&& like(pattern.skip(1), text.skip(1), same)
    }
}

/// Whether a text holds a part at a place.
pub open spec fn holds_at(
    text: Seq<char>,
    part: Seq<char>,
    place: int,
    same: spec_fn(char, char) -> bool,
) -> bool {
    &&& 0 <= place
    &&& place + part.len() <= text.len()
    &&& forall|i: int| 0 <= i < part.len() ==> same(#[trigger] part[i], text[place + i])
}

/// A search finds just the texts that hold what is searched for, whichever characters count as
/// the same: no character of it has another meaning than itself.
pub proof fn searches_find_what_is_written(
    wanted: Seq<char>,
    text: Seq<char>,
    same: spec_fn(char, char) -> bool,
)
    ensures
        like("%"@ + escaped(wanted) + "%"@, text, same) <==> exists|place: int|
            holds_at(text, wanted, place, same),
{
    reveal_strlit("%");
    let any = seq!['%'];
    let tail = escaped(wanted) + any;
    assert("%"@ =~= any);
    assert("%"@ + escaped(wanted) + "%"@ =~= any + tail);
    lemma_any_front(tail, text, same);
    if like(any + tail, text, same) {
        let place = choose|place: int|
            0 <= place <= text.len() && like(tail, #[trigger] text.skip(place), same);
        lemma_escaped_matches(wanted, text.skip(place), same);
        assert forall|i: int| 0 <= i < wanted.len() implies same(
            #[trigger] wanted[i],
            text[place + i],
        ) by {
            assert(text.skip(place)[i] == text[place + i]);
        }
        assert(holds_at(text, wanted, place, same));
    }
    if exists|place: int| holds_at(text, wanted, place, same) {
        let place = choose|place: int| holds_at(text, wanted, place, same);
        let rest = text.skip(place);
        assert forall|i: int| 0 <= i < wanted.len() implies same(#[trigger] wanted[i], rest[0 + i]) by {
            assert(rest[i] == text[place + i]);
        }
        assert(holds_at(rest, wanted, 0, same));
        lemma_escaped_matches(wanted, rest, same);
    }
}

/// The texts of a site that a search looks into.
pub struct SiteTexts {
    pub site_name: Seq<char>,
    pub branch_: Seq<char>,
    pub company_url: Seq<char>,
}

/// Whether one of the three texts of a site matches a pattern.
pub open spec fn site_matches(
    pattern: Seq<char>,
    site: SiteTexts,
    same: spec_fn(char, char) -> bool,
) -> bool {
    ||| like(pattern, site.site_name, same)
    ||| like(pattern, site.branch_, same)
    ||| like(pattern, site.company_url, same)
}

/// Whether a text holds a part somewhere.
pub open spec fn holds(
    text: Seq<char>,
    part: Seq<char>,
    same: spec_fn(char, char) -> bool,
) -> bool {
    exists|place: int| holds_at(text, part, place, same)
}

/// A site is on one of the pages of a list just where it is in the directory and its name, its
/// branch or its URL holds what is searched for; and the pages together show those sites in their
/// order, each as often as the directory has it.
pub proof fn lists_hold_the_sites_searched_for(
    sites: Seq<SiteTexts>,
    wanted: Seq<char>,
    page_size: int,
    same: spec_fn(char, char) -> bool,
    site: SiteTexts,
)
    ensures
        ({
            let pattern = "%"@ + escaped(wanted) + "%"@;
            let found = sites.filter(|s: SiteTexts| site_matches(pattern, s, same));
            let size = shown_size(page_size, MAX_PAGE_SIZE as int);
            let pages = quotient_rounded_up(found.len() as int, size) as nat;
            let listed = shown_so_far(found, pages, page_size, MAX_PAGE_SIZE as int);
            &&& listed == found
            &&& listed.contains(site) <==> sites.contains(site) && (holds(
                site.site_name,
                wanted,
                same,
            ) || holds(site.branch_, wanted, same) || holds(site.company_url, wanted, same))
        }),
{
    let pattern = "%"@ + escaped(wanted) + "%"@;
    let matching = |s: SiteTexts| site_matches(pattern, s, same);
    let found = sites.filter(matching);
    pages_show_the_whole_list(found, page_size, MAX_PAGE_SIZE as int);
    searches_find_what_is_written(wanted, site.site_name, same);
    searches_find_what_is_written(wanted, site.branch_, same);
    searches_find_what_is_written(wanted, site.company_url, same);
    lemma_filter_holds(sites, matching, site);
}

proof fn lemma_filter_holds(
    sites: Seq<SiteTexts>,
    matching: spec_fn(SiteTexts) -> bool,
    site: SiteTexts,
)
    ensures
        sites.filter(matching).contains(site) <==> sites.contains(site) && matching(site),
    decreases sites.len(),
{
    reveal(Seq::filter);
    if sites.len() > 0 {
        let front = sites.drop_last();
        let kept = front.filter(matching);
        lemma_filter_holds(front, matching, site);
        assert(sites =~= front.push(sites.last()));
        assert(sites.contains(site) <==> front.contains(site) || sites.last() == site) by {
            vstd::seq_lib::lemma_seq_contains_after_push(front, sites.last(), site);
        }
        assert(kept.push(sites.last()).contains(site) <==> kept.contains(site) || sites.last()
            == site) by {
            vstd::seq_lib::lemma_seq_contains_after_push(kept, sites.last(), site);
        }
    }
}

/// A percent sign in front lets the rest of a pattern match from any place on.
proof fn lemma_any_front(tail: Seq<char>, text: Seq<char>, same: spec_fn(char, char) -> bool)
    ensures
        like(seq!['%'] + tail, text, same) <==> exists|place: int|
            0 <= place <= text.len() && like(tail, #[trigger] text.skip(place), same),
    decreases text.len(),
{
    let pattern = seq!['%'] + tail;
    assert(pattern.skip(1) =~= tail);
    assert(text.skip(0) =~= text);
    if text.len() > 0 {
        let rest = text.skip(1);
        lemma_any_front(tail, rest, same);
        assert forall|place: int| 0 <= place <= rest.len() implies #[trigger] rest.skip(place)
            == text.skip(place + 1) by {
            assert(rest.skip(place) =~= text.skip(place + 1));
        }
        if like(pattern, rest, same) {
            let place = choose|place: int|
                0 <= place <= rest.len() && like(tail, #[trigger] rest.skip(place), same);
            assert(like(tail, text.skip(place + 1), same));
        }
        if exists|place: int| 0 < place <= text.len() && like(tail, #[trigger] text.skip(place), same) {
            let place = choose|place: int|
                0 < place <= text.len() && like(tail, #[trigger] text.skip(place), same);
            assert(rest.skip(place - 1) == text.skip(place));
        }
    }
}

/// An escaped text with a percent sign behind it matches just what starts with the text.
proof fn lemma_escaped_matches(
    wanted: Seq<char>,
    text: Seq<char>,
    same: spec_fn(char, char) -> bool,
)
    ensures
        like(escaped(wanted) + seq!['%'], text, same) <==> holds_at(text, wanted, 0, same),
    decreases wanted.len(),
{
    let any = seq!['%'];
    let pattern = escaped(wanted) + any;
    if wanted.len() == 0 {
        assert(pattern =~= any + Seq::<char>::empty());
        lemma_any_front(Seq::empty(), text, same);
        assert(text.skip(text.len() as int).len() == 0);
    } else {
        lemma_escaped_front(wanted);
        let rest = wanted.skip(1);
        let c = wanted[0];
        if is_pattern_sign(c) {
            assert(pattern =~= seq!['\\', c] + (escaped(rest) + any));
            assert(pattern.skip(2) =~= escaped(rest) + any);
        } else {
            assert(pattern =~= seq![c] + (escaped(rest) + any));
            assert(pattern.skip(1) =~= escaped(rest) + any);
        }
        if text.len() > 0 {
            lemma_escaped_matches(rest, text.skip(1), same);
            if holds_at(text, wanted, 0, same) {
                assert(same(wanted[0], text[0int + 0]));
                assert forall|i: int| 0 <= i < rest.len() implies same(
                    #[trigger] rest[i],
                    text.skip(1)[0 + i],
                ) by {
                    assert(same(wanted[i + 1], text[0 + (i + 1)]));
                }
            }
            if same(c, text[0]) && holds_at(text.skip(1), rest, 0, same) {
                assert forall|i: int| 0 <= i < wanted.len() implies same(
                    #[trigger] wanted[i],
                    text[0 + i],
                ) by {
                    if i > 0 {
                        assert(same(rest[i - 1], text.skip(1)[0 + (i - 1)]));
                    }
                }
            }
        }
    }
}

/// The first character of a text is escaped by itself.
proof fn lemma_escaped_front(text: Seq<char>)
    requires
        text.len() > 0,
    ensures
        is_pattern_sign(text[0]) ==> escaped(text) == seq!['\\', text[0]] + escaped(text.skip(1)),
        !is_pattern_sign(text[0]) ==> escaped(text) == seq![text[0]] + escaped(text.skip(1)),
    decreases text.len(),
{
    let last = text.last();
    if text.len() == 1 {
        assert(text.drop_last() =~= Seq::<char>::empty());
        assert(text.skip(1) =~= Seq::<char>::empty());
        assert(escaped(text.drop_last()) =~= Seq::<char>::empty());
        if is_pattern_sign(last) {
            assert(escaped(text) =~= seq!['\\', last] + escaped(text.skip(1)));
        } else {
            assert(escaped(text) =~= seq![last] + escaped(text.skip(1)));
        }
    } else {
        let front = text.drop_last();
        lemma_escaped_front(front);
        assert(text.skip(1).drop_last() =~= front.skip(1));
        assert(text.skip(1).last() == last);
        if is_pattern_sign(text[0]) {
            assert(escaped(text) =~= seq!['\\', text[0]] + escaped(text.skip(1)));
        } else {
            assert(escaped(text) =~= seq![text[0]] + escaped(text.skip(1)));
        }
    }
}

/// Whether a site has what every site needs.
pub open spec fn is_complete(payload: CompanyPayload) -> bool {
    &&& !is_blank_text(payload.site_name@)
    &&& !is_blank_text(payload.branch_@)
    &&& !is_blank_text(payload.company_url@)
}

pub open spec fn incomplete_answer() -> ReplyView {
    error_answer(BAD_REQUEST, "site_name, branch_ and company_url are required"@)
}

/// Lets a site pass that has a name, a branch and a URL, and answers for any other.
pub fn check_company(payload: &CompanyPayload) -> (checked: Result<(), Reply>)
    ensures
        match checked {
            Ok(_) => is_complete(*payload),
            Err(reply) => !is_complete(*payload) && reply@ == incomplete_answer(),
        },
{
    if is_blank(payload.site_name.as_str()) || is_blank(payload.branch_.as_str()) || is_blank(
        payload.company_url.as_str(),
    ) {
        return Err(Reply::error(BAD_REQUEST, "site_name, branch_ and company_url are required"));
    }
    Ok(())
}

pub open spec fn taken_answer() -> ReplyView {
    error_answer(CONFLICT, "A site with this company_url and company_prefix already exists"@)
}

/// What is answered to the addition of a site.
pub open spec fn created_answer(row: Result<Json, DbFailure>) -> ReplyView {
    match row {
        Ok(site) => answer(CREATED, site@),
        Err(DbFailure::UniqueViolation) => taken_answer(),
        Err(DbFailure::Other) => database_error_answer(),
    }
}

/// The answer to the addition of a site, from the row that the database stored.
pub fn company_created_reply(row: Result<Json, DbFailure>) -> (reply: Reply)
    ensures
        reply@ == created_answer(row),
{
    match row {
        Ok(site) => Reply::new(CREATED, site),
        Err(failure) => company_failure(failure),
    }
}

fn company_failure(failure: DbFailure) -> (reply: Reply)
    ensures
        reply@ == match failure {
            DbFailure::UniqueViolation => taken_answer(),
            DbFailure::Other => database_error_answer(),
        },
{
    match failure {
        DbFailure::UniqueViolation => Reply::error(
            CONFLICT,
            "A site with this company_url and company_prefix already exists",
        ),
        DbFailure::Other => Reply::database_error(),
    }
}

/// What is answered to the change of a site.
pub open spec fn updated_answer(row: Result<Option<Json>, DbFailure>) -> ReplyView {
    match row {
        Ok(Some(site)) => answer(OK, site@),
        Ok(None) => error_answer(NOT_FOUND, "Site not found"@),
        Err(DbFailure::UniqueViolation) => taken_answer(),
        Err(DbFailure::Other) => database_error_answer(),
    }
}

/// The answer to the change of a site, from the row as it now is: `None` where there is no such
/// site.
pub fn company_updated_reply(row: Result<Option<Json>, DbFailure>) -> (reply: Reply)
    ensures
        reply@ == updated_answer(row),
{
    match row {
        Ok(Some(site)) => Reply::new(OK, site),
        Ok(None) => Reply::error(NOT_FOUND, "Site not found"),
        Err(failure) => company_failure(failure),
    }
}

/// The answer to the removal of a site, from how many rows it affected.
pub fn company_deleted_reply(affected: Result<u64, DbFailure>) -> (reply: Reply)
    ensures
        reply@ == affected_answer(affected, "Site not found"@, "Site deleted"@),
{
    affected_reply(affected, "Site not found", "Site deleted")
}

// ---------------------------------------------------------------------------
// Laws
// ---------------------------------------------------------------------------

/// A site is taken just where its name, its branch and its URL are all filled in.
pub proof fn sites_are_filled_in(payload: CompanyPayload)
    ensures
        is_complete(payload) <==> !is_blank_text(payload.site_name@) && !is_blank_text(
            payload.branch_@,
        ) && !is_blank_text(payload.company_url@),
{
}

/// A pattern holds the text as it is, character by character, with a backslash before each percent
/// sign, underscore and backslash and nowhere else.
pub proof fn patterns_hold_every_character(text: Seq<char>, c: char)
    ensures
        escaped(Seq::<char>::empty()).len() == 0,
        c == '%' || c == '_' || c == '\\' ==> escaped(text.push(c)) == escaped(text) + seq![
            '\\',
            c,
        ],
        c != '%' && c != '_' && c != '\\' ==> escaped(text.push(c)) == escaped(text) + seq![c],
{
    assert(text.push(c).drop_last() =~= text);
    assert(escaped(text.push(c)) =~= escaped(text) + (if is_pattern_sign(c) {
        seq!['\\', c]
    } else {
        seq![c]
    }));
}

/// A site is told as the database has it: 201 where it was added, 200 where it was changed, and
/// the one message where its URL and prefix are taken.
pub proof fn sites_are_told_as_they_are(site: Json)
    ensures
        created_answer(Ok(site)).status == 201,
        created_answer(Ok(site)).body == Some(site@),
        updated_answer(Ok(Some(site))).status == 200,
        updated_answer(Ok(Some(site))).body == Some(site@),
        updated_answer(Ok(None)) == error_answer(404, "Site not found"@),
        created_answer(Err(DbFailure::UniqueViolation)) == error_answer(
            409,
            "A site with this company_url and company_prefix already exists"@,
        ),
        updated_answer(Err(DbFailure::UniqueViolation)) == created_answer(
            Err(DbFailure::UniqueViolation),
        ),
        created_answer(Err(DbFailure::Other)) == error_answer(500, "Database error"@),
        updated_answer(Err(DbFailure::Other)) == error_answer(500, "Database error"@),
{
}

} // verus!
