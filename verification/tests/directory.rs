use fleet_backend::companies::operations as companies;
use fleet_backend::configuration::operations as releases;
use fleet_backend::json::{Json, JsonObject};
use fleet_backend::paging::{
    count_or_zero, list_reply, page_reply, page_window, total_pages, PageWindow,
    LARGEST_EXACT_TOTAL,
};
use fleet_backend::reply::{data_reply, panic_reply, DbFailure, Reply};
use fleet_backend::telemetry::pings;

fn error(reply: &Reply) -> (u16, Option<&str>) {
    (reply.status, reply.body.as_ref().and_then(|body| body.get_text("error")))
}

fn message(reply: &Reply) -> (u16, Option<&str>) {
    (reply.status, reply.body.as_ref().and_then(|body| body.get_text("message")))
}

fn site(name: &str, branch: &str, url: &str) -> companies::CompanyPayload {
    companies::CompanyPayload {
        site_name: name.to_string(),
        site_description: None,
        branch_: branch.to_string(),
        company_prefix: companies::default_prefix(),
        company_url: url.to_string(),
        site_key: String::new(),
    }
}

fn release(url: Option<&str>, prefix: Option<&str>) -> releases::ConfigPayload {
    releases::ConfigPayload {
        url: "https://example.com/app.apk".to_string(),
        force_update: true,
        reason_for_update: "r".to_string(),
        update_display: "d".to_string(),
        memo: "m".to_string(),
        version_no: "1.2.3".to_string(),
        company_url: url.map(str::to_string),
        company_prefix: prefix.map(str::to_string),
    }
}

fn report(lat: Option<f64>, lon: Option<f64>, accuracy: Option<f64>) -> pings::TelemetryPayload<f64> {
    pings::TelemetryPayload {
        company_url: None,
        company_prefix: "0_".to_string(),
        company_name: Some("C".to_string()),
        user_id: "u".to_string(),
        app_version: "1.0".to_string(),
        abi: "arm64".to_string(),
        model: "m".to_string(),
        brand: "b".to_string(),
        android_version: "14".to_string(),
        device_id: "d".to_string(),
        timestamp: Some("1970-01-01T01:00:00+01:00".to_string()),
        lat,
        lon,
        location_accuracy: accuracy,
    }
}

fn window(page: i64, page_size: i64, offset: i64) -> PageWindow {
    PageWindow { page, page_size, offset }
}

#[test]
fn windows_are_clamped() {
    assert_eq!(page_window(3, 20, 100), Some(window(3, 20, 40)));
    assert_eq!(page_window(0, 0, 100), Some(window(1, 1, 0)));
    assert_eq!(page_window(-5, 1000, 100), Some(window(1, 100, 0)));
}

#[test]
fn pages_follow_each_other_without_gaps() {
    for page in 1..10 {
        let here = page_window(page, 7, 100).unwrap();
        let next = page_window(page + 1, 7, 100).unwrap();
        assert_eq!(next.offset, here.offset + here.page_size);
    }
}

#[test]
fn far_pages_have_no_window() {
    assert_eq!(page_window(i64::MAX, 1, 100), Some(window(i64::MAX, 1, i64::MAX - 1)));
    assert_eq!(page_window(i64::MAX, 2, 100), None);
    let last = i64::MAX / 100 + 1;
    assert_eq!(page_window(last, 100, 100), Some(window(last, 100, (last - 1) * 100)));
    assert_eq!(page_window(last + 1, 100, 100), None);
}

#[test]
fn the_last_page_may_be_shorter() {
    assert_eq!(total_pages(0, 20), Some(0));
    assert_eq!(total_pages(1, 20), Some(1));
    assert_eq!(total_pages(20, 20), Some(1));
    assert_eq!(total_pages(21, 20), Some(2));
    assert_eq!(total_pages(41, 20), Some(3));
    assert_eq!(total_pages(-41, 20), Some(-2));
    assert_eq!(total_pages(LARGEST_EXACT_TOTAL, 1), Some(LARGEST_EXACT_TOTAL));
    assert_eq!(total_pages(LARGEST_EXACT_TOTAL + 1, 1), None);
    assert_eq!(total_pages(-LARGEST_EXACT_TOTAL - 1, 1), None);
}

#[test]
fn page_counts_agree_with_divided_floats() {
    for total in [0, 1, 49, 50, 51, 12_345_678, LARGEST_EXACT_TOTAL - 1, LARGEST_EXACT_TOTAL] {
        for size in [1, 3, 7, 50, 100, 200] {
            let divided = (total as f64 / size as f64).ceil() as i64;
            assert_eq!(total_pages(total, size), Some(divided));
        }
    }
}

#[test]
fn a_page_holds_rows_up_to_the_last() {
    for total in 0..30 {
        let pages = total_pages(total, 7).unwrap();
        for page in 1..8 {
            assert_eq!(page_window(page, 7, 100).unwrap().offset < total, page <= pages);
        }
    }
}

#[test]
fn a_failed_count_is_zero() {
    assert_eq!(count_or_zero(Ok(Some(5))), 5);
    assert_eq!(count_or_zero(Ok(None)), 0);
    assert_eq!(count_or_zero(Err(DbFailure::Other)), 0);
}

#[test]
fn pages_are_answered() {
    let window = window(2, 20, 20);
    let reply = page_reply(Ok(vec![Json::integer(1)]), window, 41, 3);
    assert_eq!(reply.status, 200);
    let meta = JsonObject::new()
        .with("page", Json::integer(2))
        .with("page_size", Json::integer(20))
        .with("total", Json::integer(41))
        .with("total_pages", Json::integer(3))
        .build();
    assert_eq!(
        reply.body,
        Some(
            JsonObject::new()
                .with("data", Json::list(vec![Json::integer(1)]))
                .with("meta", meta)
                .build()
        )
    );
    let failed = page_reply(Err(DbFailure::Other), window, 41, 3);
    assert_eq!(error(&failed), (500, Some("Database error")));
}

#[test]
fn the_pages_are_those_of_the_total() {
    let told = |total: Result<Option<i64>, DbFailure>, beyond: i64| {
        let reply = list_reply(Ok(vec![]), window(1, 20, 0), total, beyond);
        assert_eq!(reply.status, 200);
        match reply.body.unwrap().get("meta") {
            Some(meta) => match (meta.get("total"), meta.get("total_pages")) {
                (Some(Json::Int(total)), Some(Json::Int(pages))) => (*total, *pages),
                other => panic!("no numbers: {:?}", other),
            },
            None => panic!("no meta"),
        }
    };
    assert_eq!(told(Ok(Some(41)), 7), (41, 3));
    assert_eq!(told(Ok(Some(0)), 7), (0, 0));
    assert_eq!(told(Ok(None), 7), (0, 0));
    assert_eq!(told(Err(DbFailure::Other), 7), (0, 0));
    assert_eq!(told(Ok(Some(LARGEST_EXACT_TOTAL + 1)), 7), (LARGEST_EXACT_TOTAL + 1, 7));
    let failed = list_reply(Err(DbFailure::Other), window(1, 20, 0), Ok(Some(1)), 7);
    assert_eq!(error(&failed), (500, Some("Database error")));
}

#[test]
fn pages_show_every_row_once() {
    let all: Vec<i64> = (0..45).collect();
    let pages = total_pages(45, 20).unwrap();
    let mut shown: Vec<i64> = Vec::new();
    for page in 1..pages + 1 {
        let here = page_window(page, 20, 100).unwrap();
        shown.extend(all.iter().skip(here.offset as usize).take(here.page_size as usize));
    }
    assert_eq!(shown, all);
}

#[test]
fn lists_are_answered() {
    let reply = data_reply(Ok(vec![Json::Null]));
    assert_eq!(reply.status, 200);
    assert_eq!(
        reply.body,
        Some(JsonObject::new().with("data", Json::list(vec![Json::Null])).build())
    );
    assert_eq!(error(&data_reply(Err(DbFailure::Other))), (500, Some("Database error")));
    assert_eq!(error(&panic_reply()), (500, Some("Internal server error")));
}

#[test]
fn defaults_of_lists() {
    assert_eq!(companies::default_prefix(), "0_");
    assert_eq!((companies::default_page(), companies::default_page_size()), (1, 50));
    assert_eq!((releases::default_page(), releases::default_page_size()), (1, 20));
    assert_eq!((pings::default_page(), pings::default_page_size()), (1, 20));
}

#[test]
fn lists_have_a_largest_page() {
    let sites = companies::ListParams { page: 2, page_size: 500, search: None };
    assert_eq!(companies::list_window(&sites), Some(window(2, 200, 200)));
    let all = releases::PaginationParams {
        page: 2,
        page_size: 500,
        company_url: None,
        company_prefix: None,
    };
    assert_eq!(releases::list_window(&all), Some(window(2, 100, 100)));
    let query = pings::PingQuery { page: 2, page_size: 500, company_prefix: None };
    assert_eq!(pings::list_window(&query), Some(window(2, 100, 100)));
    let far = pings::PingQuery { page: i64::MAX, page_size: 20, company_prefix: None };
    assert_eq!(pings::list_window(&far), None);
}

#[test]
fn a_search_is_a_pattern() {
    assert_eq!(companies::search_pattern(&None), "%%");
    assert_eq!(companies::search_pattern(&Some("  ".to_string())), "%%");
    assert_eq!(companies::search_pattern(&Some(" north 1 ".to_string())), "%north 1%");
}

#[test]
fn a_search_is_taken_by_the_letter() {
    let pattern = |text: &str| companies::search_pattern(&Some(text.to_string()));
    assert_eq!(pattern("_"), "%\\_%");
    assert_eq!(pattern(" 50% "), "%50\\%%");
    assert_eq!(pattern("a\\b"), "%a\\\\b%");
    assert_eq!(pattern("é_%\\ x"), "%é\\_\\%\\\\ x%");
}

#[test]
fn a_site_has_a_name_a_branch_and_a_url() {
    assert!(companies::check_company(&site("n", "b", "u")).is_ok());
    for payload in [site(" ", "b", "u"), site("n", "", "u"), site("n", "b", "\t")] {
        let reply = companies::check_company(&payload).unwrap_err();
        assert_eq!(
            error(&reply),
            (400, Some("site_name, branch_ and company_url are required"))
        );
    }
}

#[test]
fn changes_of_sites_are_answered() {
    let taken = "A site with this company_url and company_prefix already exists";
    let created = companies::company_created_reply(Ok(Json::integer(1)));
    assert_eq!(created, Reply { status: 201, body: Some(Json::integer(1)) });
    let conflict = companies::company_created_reply(Err(DbFailure::UniqueViolation));
    assert_eq!(error(&conflict), (409, Some(taken)));
    let failed = companies::company_created_reply(Err(DbFailure::Other));
    assert_eq!(error(&failed), (500, Some("Database error")));
    let updated = companies::company_updated_reply(Ok(Some(Json::integer(1))));
    assert_eq!(updated, Reply { status: 200, body: Some(Json::integer(1)) });
    let missing = companies::company_updated_reply(Ok(None));
    assert_eq!(error(&missing), (404, Some("Site not found")));
    let conflict = companies::company_updated_reply(Err(DbFailure::UniqueViolation));
    assert_eq!(error(&conflict), (409, Some(taken)));
    let failed = companies::company_updated_reply(Err(DbFailure::Other));
    assert_eq!(error(&failed), (500, Some("Database error")));
    assert_eq!(message(&companies::company_deleted_reply(Ok(1))), (200, Some("Site deleted")));
    assert_eq!(error(&companies::company_deleted_reply(Ok(0))), (404, Some("Site not found")));
}

#[test]
fn releases_are_filtered_by_company() {
    let filter = |url: Option<&str>, prefix: Option<&str>| {
        releases::company_filter(releases::PaginationParams {
            page: 1,
            page_size: 20,
            company_url: url.map(str::to_string),
            company_prefix: prefix.map(str::to_string),
        })
    };
    let company = filter(Some("u"), Some("0_"));
    assert!(company.active);
    assert_eq!((company.company_url.as_str(), company.company_prefix.as_str()), ("u", "0_"));
    assert!(filter(Some(""), None).active);
    let all = filter(None, Some("0_"));
    assert!(!all.active);
    assert_eq!((all.company_url.as_str(), all.company_prefix.as_str()), ("", "0_"));
}

#[test]
fn a_blank_company_makes_a_global_release() {
    assert_eq!(releases::release_with(release(Some(" "), Some("")), 1).company_url, None);
    assert_eq!(releases::release_with(release(Some(" "), Some("")), 1).company_prefix, None);
    assert_eq!(releases::release_with(release(None, Some("0_")), 1).company_url, None);
    let own = releases::release_with(release(Some(" u"), Some("0_")), 1);
    assert_eq!(own.company_url, Some(" u".to_string()));
    assert_eq!(own.company_prefix, Some("0_".to_string()));
}

#[test]
fn a_release_is_stored_as_described() {
    let stored = releases::new_release(release(None, None));
    assert_eq!(stored.url, "https://example.com/app.apk");
    assert!(stored.force_update);
    assert_eq!(stored.reason_for_update, "r");
    assert_eq!(stored.update_display, "d");
    assert_eq!(stored.memo, "m");
    assert_eq!(stored.version_no, "1.2.3");
    assert_eq!((stored.id >> 76) & 0xf, 4);
    assert_eq!((stored.id >> 62) & 0x3, 2);
    assert_ne!(stored.id, releases::new_release(release(None, None)).id);
}

#[test]
fn changes_of_releases_are_answered() {
    let global = releases::release_with(release(None, None), 0xabc);
    let own = releases::release_with(release(Some("u"), Some("0_")), 1);
    let reply = releases::release_published_reply(&global, Ok(()));
    assert_eq!(message(&reply), (201, Some("config created successfully")));
    assert_eq!(
        reply.body.unwrap().get_text("id"),
        Some("00000000-0000-0000-0000-000000000abc")
    );
    let conflict = Err(DbFailure::UniqueViolation);
    assert_eq!(
        error(&releases::release_published_reply(&global, conflict)),
        (409, Some("A global release with that version_no already exists"))
    );
    assert_eq!(
        error(&releases::release_published_reply(&own, conflict)),
        (409, Some("This company already has a release with that version_no"))
    );
    assert_eq!(
        error(&releases::release_published_reply(&own, Err(DbFailure::Other))),
        (500, Some("Database error"))
    );
    assert_eq!(message(&releases::release_deleted_reply(Ok(1))), (200, Some("Release deleted")));
    assert_eq!(error(&releases::release_deleted_reply(Ok(0))), (404, Some("Release not found")));
}

#[test]
fn addresses_come_from_the_proxy() {
    assert_eq!(pings::extract_ip(Some(" 1.2.3.4 , 5.6.7.8"), "9.9.9.9"), "1.2.3.4");
    assert_eq!(pings::extract_ip(Some("1.2.3.4"), "9.9.9.9"), "1.2.3.4");
    assert_eq!(pings::extract_ip(Some(""), "9.9.9.9"), "");
    assert_eq!(pings::extract_ip(None, "9.9.9.9"), "9.9.9.9");
}

#[test]
fn a_ping_is_stored_as_reported() {
    let ping = pings::new_ping(report(Some(1.5), Some(2.5), Some(3.5)), None, "9.9.9.9");
    assert_eq!(ping.company_url, "");
    assert_eq!(ping.company_prefix, "0_");
    assert_eq!(ping.company_name, "C");
    assert_eq!(ping.user_id, "u");
    assert_eq!(ping.app_version, "1.0");
    assert_eq!(ping.abi, "arm64");
    assert_eq!(ping.model, "m");
    assert_eq!(ping.brand, "b");
    assert_eq!(ping.android_version, "14");
    assert_eq!(ping.device_id, "d");
    assert_eq!(ping.ip_address, "9.9.9.9");
    assert_eq!(ping.client_timestamp, Some((0, 0)));
    assert_eq!((ping.lat, ping.lon, ping.location_accuracy), (Some(1.5), Some(2.5), Some(3.5)));
}

#[test]
fn a_partial_position_is_none() {
    for (lat, lon, accuracy) in [
        (None, Some(2.5), Some(3.5)),
        (Some(1.5), None, Some(3.5)),
        (Some(1.5), Some(2.5), None),
        (None, None, None),
    ] {
        let ping = pings::new_ping(report(lat, lon, accuracy), None, "9.9.9.9");
        assert_eq!((ping.lat, ping.lon, ping.location_accuracy), (None, None, None));
    }
}

#[test]
fn a_ping_may_have_no_time() {
    let mut payload = report(None, None, None);
    payload.timestamp = Some(" 1970-01-01T00:00:00Z".to_string());
    assert_eq!(pings::new_ping(payload, None, "").client_timestamp, None);
    let mut payload = report(None, None, None);
    payload.timestamp = None;
    assert_eq!(pings::new_ping(payload, None, "").client_timestamp, None);
    let instant = Some((1, 2));
    let ping = pings::ping_with(report(None, None, None), "a".to_string(), instant);
    assert_eq!((ping.client_timestamp, ping.ip_address.as_str()), (instant, "a"));
}

#[test]
fn pings_are_answered() {
    let stored = pings::ping_reply(Ok(()));
    assert_eq!(stored.status, 200);
    assert_eq!(stored.body, Some(JsonObject::new().with("status", Json::text("ok")).build()));
    let failed = pings::ping_reply(Err(DbFailure::Other));
    assert_eq!(failed, Reply { status: 500, body: None });
}

#[test]
fn the_fleet_is_summed_up() {
    let totals = || pings::SummaryTotals {
        total_pings: 1,
        distinct_devices: 2,
        distinct_companies: 3,
        active_24h: 4,
        active_1h: 5,
        stale_7d: 6,
    };
    let versions =
        || vec![pings::VersionBreakdown { app_version: "1.0".to_string(), device_count: 7 }];
    let reply = pings::summary_reply(Ok(totals()), Ok(vec![Json::integer(8)]), Ok(versions()));
    assert_eq!(reply.status, 200);
    let expected_totals = JsonObject::new()
        .with("total_pings", Json::integer(1))
        .with("distinct_devices", Json::integer(2))
        .with("distinct_companies", Json::integer(3))
        .with("active_24h", Json::integer(4))
        .with("active_1h", Json::integer(5))
        .with("stale_7d", Json::integer(6))
        .build();
    let expected_version = JsonObject::new()
        .with("app_version", Json::text("1.0"))
        .with("device_count", Json::integer(7))
        .build();
    assert_eq!(
        reply.body,
        Some(
            JsonObject::new()
                .with("totals", expected_totals)
                .with("by_company", Json::list(vec![Json::integer(8)]))
                .with("by_version", Json::list(vec![expected_version]))
                .build()
        )
    );
    let failed = (500, Some("Database error"));
    let e = DbFailure::Other;
    assert_eq!(error(&pings::summary_reply(Err(e), Ok(vec![]), Ok(versions()))), failed);
    assert_eq!(error(&pings::summary_reply(Ok(totals()), Err(e), Ok(vec![]))), failed);
    assert_eq!(error(&pings::summary_reply(Ok(totals()), Ok(vec![]), Err(e))), failed);
}

#[test]
fn devices_are_filtered_by_prefix() {
    let filter = |prefix: Option<&str>| {
        pings::device_filter(pings::DeviceLocationQuery {
            company_prefix: prefix.map(str::to_string),
        })
    };
    assert_eq!(filter(Some("0_")), (true, "0_".to_string()));
    assert_eq!(filter(Some("")), (true, String::new()));
    assert_eq!(filter(None), (false, String::new()));
}
