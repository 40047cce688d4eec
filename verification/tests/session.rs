use std::collections::HashMap;

use k_ruoka_mcp::browser::ApiError;
use k_ruoka_mcp::browser::limiter::{RateLimiter, min_request_interval};
use k_ruoka_mcp::browser::page::{Clearance, PageProbe, judge_page, navigation_failed, read_probe};
use k_ruoka_mcp::browser::response::{
    ApiErrorBody, ApiErrorInner, BLOCK_MARKERS, CHALLENGE_MARKERS, RawResponse, classify,
    cloudflare_marker, first_marker,
};
use k_ruoka_mcp::browser::script::fetch_script;
use k_ruoka_mcp::browser::session::{
    Attempts, Call, CallStep, LaunchMode, LiveStep, Predecessor, Recovery, Retry, Session, UrlProbe,
    closed_underneath_us, learn_build, plan_recovery, relaunch_costs_a_human_their_login,
    should_replace, unexpected_fetch_shape,
};
use k_ruoka_mcp::types::{BasketEvent, events_json};
use serde_json::Value;

fn raw(status: u16, body: &str, ct: &str, cf: Option<&str>) -> RawResponse {
    RawResponse {
        status,
        build: Some("31844".into()),
        cf_mitigated: cf.map(str::to_string),
        content_type: Some(ct.into()),
        body: body.into(),
    }
}

fn error_body(message: &str) -> ApiErrorBody {
    ApiErrorBody {
        error: ApiErrorInner {
            message: message.into(),
        },
    }
}

/// Classifies a response whose body is read as an error body of one text, where it is one.
fn classified(raw: RawResponse) -> Result<Value, ApiError> {
    let refusal = serde_json::from_str::<HashMap<String, HashMap<String, String>>>(&raw.body)
        .ok()
        .and_then(|body| Some(error_body(body.get("error")?.get("message")?)));
    classify(raw, refusal)
}

const JSON: &str = "application/json; charset=utf-8";

#[test]
fn success_returns_parsed_body() {
    let v = classified(raw(200, r#"{"id":"abc"}"#, JSON, None)).unwrap();
    assert_eq!(v["id"], "abc");
}

#[test]
fn stale_build_is_recoverable_and_carries_the_wanted_value() {
    let body = r#"{"error":{"message":"Client version is too old - reload"}}"#;
    match classified(raw(409, body, JSON, None)) {
        Err(ApiError::StaleBuild { wanted }) => assert_eq!(wanted.as_deref(), Some("31844")),
        other => panic!("expected StaleBuild, got {other:?}"),
    }
}

/// The two "- reload" messages look alike and mean opposite things: one is a retry, the
/// other must never retry or touch the profile.
#[test]
fn token_renewal_is_auth_expiry_not_a_stale_build() {
    let body = r#"{"error":{"message":"Token renewal error - reload"}}"#;
    assert!(matches!(
        classified(raw(409, body, JSON, None)),
        Err(ApiError::AuthExpired)
    ));
    assert!(matches!(
        classified(raw(401, "{}", JSON, None)),
        Err(ApiError::AuthExpired)
    ));
}

#[test]
fn html_body_or_cf_header_is_a_cloudflare_block() {
    let html = "<!DOCTYPE html><title>Just a moment...</title>";
    assert!(matches!(
        classified(raw(403, html, "text/html", None)),
        Err(ApiError::Cloudflare { .. })
    ));
    // The `cf-mitigated` header alone is enough, even with a JSON body.
    match classified(raw(403, "{}", JSON, Some("challenge"))) {
        Err(ApiError::Cloudflare { detail }) => {
            assert!(detail.contains("cf-mitigated: challenge"), "{detail}");
            assert_eq!(detail, "API response, status 403, cf-mitigated: challenge");
        }
        other => panic!("expected Cloudflare, got {other:?}"),
    }
}

#[test]
fn html_429_is_not_treated_as_a_relaunchable_block() {
    let html = "<html><body>Too many requests</body></html>";
    assert!(matches!(
        classified(raw(429, html, "text/html", None)),
        Err(ApiError::Api { status: 429, .. })
    ));
}

#[test]
fn bare_401_is_auth_expiry() {
    assert!(matches!(
        classified(raw(401, "", "application/json", None)),
        Err(ApiError::AuthExpired)
    ));
}

#[test]
fn a_2xx_whose_body_mentions_a_challenge_marker_is_not_a_block() {
    let body = r#"{"id":"b1","items":[{"id":"1","name":{"finnish":"Just a moment"}}]}"#;
    let v = classified(raw(200, body, JSON, None)).expect("a 200 must stay a success");
    assert_eq!(v["id"], "b1");
}

#[test]
fn html_404_is_not_a_cloudflare_block() {
    let html = "<!DOCTYPE html><html><body>Not found</body></html>";
    assert!(matches!(
        classified(raw(404, html, "text/html", None)),
        Err(ApiError::Api { status: 404, .. })
    ));
}

#[test]
fn json_error_is_an_api_error_not_a_block() {
    let body = r#"{"error":{"message":"Basket not found"}}"#;
    match classified(raw(404, body, JSON, None)) {
        Err(ApiError::Api { status, message }) => {
            assert_eq!(status, 404);
            assert_eq!(message, "Basket not found");
        }
        other => panic!("expected Api, got {other:?}"),
    }
}

/// The message is the one that the body was read to carry, by whatever road: nothing of it is
/// read again out of the body.
#[test]
fn an_error_body_is_taken_as_it_was_read() {
    for body in [
        r#"[["Client version is too old"]]"#,
        r#"{"error":{"message":"Client version is too old"},"n":1e999}"#,
    ] {
        match classify(
            raw(409, body, JSON, None),
            Some(error_body("Client version is too old")),
        ) {
            Err(ApiError::StaleBuild { wanted }) => assert_eq!(wanted.as_deref(), Some("31844")),
            other => panic!("expected StaleBuild, got {other:?}"),
        }
    }
    // A message that is there twice is none.
    let twice = r#"{"error":{"message":"a","message":"Token renewal error"}}"#;
    match classify(raw(409, twice, JSON, None), None) {
        Err(ApiError::Api { status: 409, message }) => assert_eq!(message, twice),
        other => panic!("expected Api, got {other:?}"),
    }
    // Nor does an error body make a success a failure, or a block anything else.
    let v = classify(raw(200, "{}", JSON, None), Some(error_body("Token renewal error")));
    assert!(v.is_ok());
    assert!(matches!(
        classify(
            raw(403, "{}", JSON, Some("challenge")),
            Some(error_body("Token renewal error")),
        ),
        Err(ApiError::Cloudflare { .. })
    ));
}

/// A page without a marker is a block under 403 and 503, by its header or by its first
/// character; an error body of another shape is quoted, as far as it goes.
#[test]
fn unmarked_pages_and_odd_bodies() {
    for status in [403, 503] {
        assert!(matches!(
            classified(raw(status, " \n <html>", JSON, None)),
            Err(ApiError::Cloudflare { .. })
        ));
    }
    let long = "ä".repeat(400);
    match classified(raw(500, &long, JSON, None)) {
        Err(ApiError::Api { status: 500, message }) => assert_eq!(message, "ä".repeat(300)),
        other => panic!("expected Api, got {other:?}"),
    }
    match classified(raw(500, r#"{"error":"x"}"#, JSON, None)) {
        Err(ApiError::Api { message, .. }) => assert_eq!(message, r#"{"error":"x"}"#),
        other => panic!("expected Api, got {other:?}"),
    }
    match classified(raw(204, "", JSON, None)) {
        Err(ApiError::Other(m)) => assert_eq!(
            m,
            "K-Ruoka returned a success status with a body that is not JSON"
        ),
        other => panic!("expected Other, got {other:?}"),
    }
}

/// A challenge is transient and must be waited out during a page load, not treated as a
/// refusal. In an API response it is still a failure for that request.
#[test]
fn a_challenge_is_distinguished_from_a_refusal() {
    assert!(first_marker("Just a moment...", &CHALLENGE_MARKERS).is_some());
    assert!(first_marker("Just a moment...", &BLOCK_MARKERS).is_none());

    assert!(first_marker("Pyyntö estetty (CF/WB)", &BLOCK_MARKERS).is_some());
    assert!(first_marker("Pyyntö estetty (CF/WB)", &CHALLENGE_MARKERS).is_none());

    // Both are Cloudflare as far as response classification goes.
    assert!(cloudflare_marker("Just a moment...").is_some());
    assert!(cloudflare_marker("Pyyntö estetty (CF/WB)").is_some());
    // The real shop page is neither.
    assert!(cloudflare_marker("Tuotteet Kaupat Reseptit Ostoskori").is_none());
}

fn cf() -> ApiError {
    ApiError::Cloudflare {
        detail: "blocked".into(),
    }
}

#[test]
fn a_cloudflare_block_is_relaunched_once_then_given_up_on() {
    assert_eq!(plan_recovery(&cf(), false, false), Recovery::Relaunch);
    assert_eq!(plan_recovery(&cf(), true, false), Recovery::GiveUp);
}

#[test]
fn a_stale_build_is_refreshed_once_then_given_up_on() {
    let stale = ApiError::StaleBuild {
        wanted: Some("31844".into()),
    };
    assert_eq!(
        plan_recovery(&stale, false, false),
        Recovery::RefreshBuild("31844".into())
    );
    assert_eq!(plan_recovery(&stale, false, true), Recovery::GiveUp);
}

#[test]
fn a_stale_build_carrying_no_value_is_not_retryable() {
    let e = ApiError::StaleBuild { wanted: None };
    assert_eq!(plan_recovery(&e, false, false), Recovery::GiveUp);
}

const MS: u128 = 1_000_000;

#[test]
fn the_first_request_is_not_delayed() {
    let limiter = RateLimiter::new(500 * MS);
    assert_eq!(limiter.wait(7), 0);
}

/// Four requests at once, three gaps: the last cannot go out before 150 ms.
#[test]
fn concurrent_callers_are_spaced_out_not_batched() {
    let mut limiter = RateLimiter::new(50 * MS);
    let mut sent = Vec::new();
    let mut now = 0;
    for _ in 0..4 {
        now += limiter.wait(now);
        limiter.granted(now);
        sent.push(now);
    }
    assert_eq!(sent, [0, 50 * MS, 100 * MS, 150 * MS]);
    // Whoever comes late has waited already.
    assert_eq!(limiter.wait(200 * MS), 0);
    assert_eq!(limiter.wait(199 * MS), MS);
}

#[test]
fn a_zero_interval_disables_the_limiter() {
    let mut limiter = RateLimiter::new(0);
    for _ in 0..20 {
        assert_eq!(limiter.wait(0), 0);
        limiter.granted(0);
    }
}

#[test]
fn the_interval_is_read_and_a_typo_is_warned_of() {
    assert_eq!(min_request_interval(None).millis, 500);
    assert_eq!(min_request_interval(Some(" 1000\n")).millis, 1000);
    assert_eq!(min_request_interval(Some("0")).millis, 0);
    assert!(min_request_interval(Some("0")).warning.is_none());
    let typo = min_request_interval(Some("1 s"));
    assert_eq!(typo.millis, 500);
    assert_eq!(
        typo.warning.as_deref(),
        Some(
            "k-ruoka-mcp: K_RUOKA_MIN_REQUEST_INTERVAL_MS=\"1 s\" is not a number of \
             milliseconds; using the default"
        )
    );
}

/// `serve` must be able to recover from a block; `login` must not, because the browser is
/// the window someone is typing a password into.
#[test]
fn only_headless_may_relaunch_out_from_under_the_browser() {
    assert!(!relaunch_costs_a_human_their_login(LaunchMode::Headless));
    assert!(relaunch_costs_a_human_their_login(LaunchMode::Headful {
        debug_port: 9222
    }));

    // And the flag really does suppress the relaunch once set.
    let block = ApiError::Cloudflare {
        detail: "page load rejected".into(),
    };
    assert_eq!(plan_recovery(&block, false, false), Recovery::Relaunch);
    assert_eq!(plan_recovery(&block, true, false), Recovery::GiveUp);
}

/// The de-duplication that turns a wave of blocked calls into one relaunch.
#[test]
fn only_the_browser_that_got_blocked_is_replaced() {
    assert!(should_replace(Some(7), Some(7)));
    assert!(!should_replace(Some(8), Some(7)));
    assert!(should_replace(None, Some(7)));
    assert!(should_replace(None, None));
}

#[test]
fn no_browser_to_blame_is_not_the_same_as_generation_zero() {
    assert!(!should_replace(Some(1), Some(0)));
    assert!(should_replace(None, None));
    assert!(should_replace(Some(0), Some(0)));
    assert!(!should_replace(Some(0), None));
}

#[test]
fn auth_expiry_and_plain_api_errors_are_never_retried() {
    assert_eq!(
        plan_recovery(&ApiError::AuthExpired, false, false),
        Recovery::GiveUp
    );
    assert_eq!(
        plan_recovery(
            &ApiError::Api {
                status: 404,
                message: "nope".into()
            },
            false,
            false
        ),
        Recovery::GiveUp
    );
    assert_eq!(
        plan_recovery(&ApiError::InvalidRequest("bad".into()), false, false),
        Recovery::GiveUp
    );
}

#[test]
fn each_remedy_is_spent_once() {
    let stale = || ApiError::StaleBuild {
        wanted: Some("1".into()),
    };
    let mut attempts = Attempts::new(LaunchMode::Headless);
    match attempts.failed(stale()) {
        Retry::WithBuild { build, note } => {
            assert_eq!(build, "1");
            assert_eq!(note, "k-ruoka-mcp: build number was stale, retrying with 1");
        }
        other => panic!("expected a build number, got {other:?}"),
    }
    match attempts.failed(cf()) {
        Retry::WithNewBrowser { note } => assert_eq!(
            note,
            "k-ruoka-mcp: Cloudflare blocked us: blocked; relaunching the browser against the \
             same profile (never deleting it) and retrying once"
        ),
        other => panic!("expected a new browser, got {other:?}"),
    }
    assert!(matches!(attempts.failed(stale()), Retry::Fail(ApiError::StaleBuild { .. })));
    assert!(matches!(attempts.failed(cf()), Retry::Fail(ApiError::Cloudflare { .. })));

    let mut attempts = Attempts::new(LaunchMode::Headful { debug_port: 9222 });
    assert!(matches!(attempts.failed(cf()), Retry::Fail(ApiError::Cloudflare { .. })));
    assert!(matches!(attempts.failed(ApiError::AuthExpired), Retry::Fail(ApiError::AuthExpired)));
}

#[test]
fn a_call_is_retried_on_the_browser_that_was_blocked() {
    let mut call = Call::new(LaunchMode::Headless);
    assert!(matches!(call.got_page(Ok(7)), CallStep::Fetch { generation: 7 }));
    let stale = ApiError::StaleBuild {
        wanted: Some("31844".into()),
    };
    match call.answered(7, Err(stale)) {
        CallStep::KeepBuild { build, note } => {
            assert_eq!(build, "31844");
            assert!(note.contains("31844"), "{note}");
        }
        other => panic!("expected a build number, got {other:?}"),
    }
    match call.answered(7, Err(cf())) {
        CallStep::Relaunch { blocked, note } => {
            assert_eq!(blocked, Some(7));
            assert!(note.contains("never deleting it"), "{note}");
        }
        other => panic!("expected a relaunch, got {other:?}"),
    }
    assert!(matches!(Call::relaunched(Ok(())), CallStep::GetPage));
    assert!(matches!(Call::relaunched(Err(cf())), CallStep::Done(Err(_))));
    assert!(matches!(call.answered(8, Err(cf())), CallStep::Done(Err(_))));
    match call.answered(8, Ok(Value::from("basket"))) {
        CallStep::Done(Ok(v)) => assert_eq!(v, "basket"),
        other => panic!("expected the answer, got {other:?}"),
    }
}

#[test]
fn a_refused_page_load_is_relaunched_with_no_browser_to_blame() {
    let mut call = Call::new(LaunchMode::Headless);
    assert!(matches!(
        call.got_page(Err(cf())),
        CallStep::Relaunch { blocked: None, .. }
    ));
    assert!(matches!(call.got_page(Err(cf())), CallStep::Done(Err(_))));
    let mut call = Call::new(LaunchMode::Headful { debug_port: 9222 });
    assert!(matches!(call.got_page(Err(cf())), CallStep::Done(Err(_))));
}

#[test]
fn a_browser_is_launched_lazily_and_left_alone() {
    let mut session = Session::new(LaunchMode::Headless);
    assert!(matches!(session.ensure_live(), LiveStep::Launch(Predecessor::Absent)));
    assert!(matches!(session.launched(Ok(())), LiveStep::Navigate { generation: 0 }));
    assert!(matches!(session.navigated(0, Ok(())), LiveStep::Done(Ok(()))));
    assert_eq!(session.current().unwrap(), 0);
    assert!(matches!(session.ensure_live(), LiveStep::ReadUrl));
    let at = |url: &str| UrlProbe::At(Some(url.to_string()));
    assert!(matches!(
        session.url_read(at("https://www.k-ruoka.fi/kauppa")),
        LiveStep::Done(Ok(()))
    ));
    assert!(matches!(
        session.url_read(at("https://login.kesko.fi/?redirect=k-ruoka.fi")),
        LiveStep::Renavigate
    ));
    assert!(matches!(session.renavigated(Ok(())), LiveStep::Done(Ok(()))));
    assert!(matches!(session.url_read(UrlProbe::At(None)), LiveStep::Renavigate));
    assert!(matches!(session.renavigated(Err(cf())), LiveStep::ShutDown(ApiError::Cloudflare { .. })));
    assert_eq!(session.live, None);
    match session.current() {
        Err(e) => assert_eq!(e.describe(), closed_underneath_us().describe()),
        Ok(g) => panic!("no browser should be live, got {g}"),
    }
}

#[test]
fn a_dead_browser_is_launched_anew_and_a_failed_launch_is_reported() {
    let mut session = Session::new(LaunchMode::Headless);
    session.launched(Ok(()));
    session.navigated(0, Ok(()));
    assert!(matches!(session.url_read(UrlProbe::Dead), LiveStep::Launch(Predecessor::Gone)));
    match session.launched(Err("no Chrome".to_string())) {
        LiveStep::Done(Err(e)) => assert_eq!(e.describe(), "no Chrome"),
        other => panic!("expected a failure, got {other:?}"),
    }
    assert!(matches!(session.launched(Ok(())), LiveStep::Navigate { generation: 1 }));
    assert!(matches!(session.navigated(1, Err(cf())), LiveStep::ShutDown(_)));
    assert_eq!(session.live, None);
}

#[test]
fn a_wave_of_blocked_calls_is_one_relaunch() {
    let mut session = Session::new(LaunchMode::Headless);
    session.launched(Ok(()));
    session.navigated(0, Ok(()));
    assert!(matches!(session.relaunch(Some(0)), LiveStep::Launch(Predecessor::Running)));
    session.launched(Ok(()));
    session.navigated(1, Ok(()));
    for _ in 0..5 {
        assert!(matches!(session.relaunch(Some(0)), LiveStep::Done(Ok(()))));
        assert!(matches!(session.relaunch(None), LiveStep::Done(Ok(()))));
    }
    assert_eq!(session.current().unwrap(), 1);
    assert_eq!(session.next_generation, 2);
}

#[test]
fn a_closed_session_launches_nothing() {
    let mut session = Session::new(LaunchMode::Headless);
    session.launched(Ok(()));
    session.navigated(0, Ok(()));
    assert!(session.close());
    assert!(!session.close());
    session.resume_after_login();
    for step in [session.ensure_live(), session.relaunch(None)] {
        match step {
            LiveStep::Done(Err(e)) => assert_eq!(
                e.describe(),
                "the server is shutting down; no new browser will be started"
            ),
            other => panic!("expected a refusal, got {other:?}"),
        }
    }
    assert!(session.release_for_login().is_err());
}

#[test]
fn the_profile_is_handed_over_to_one_login_at_a_time() {
    let mut session = Session::new(LaunchMode::Headless);
    session.launched(Ok(()));
    session.navigated(0, Ok(()));
    assert!(session.release_for_login().unwrap());
    match session.ensure_live() {
        LiveStep::Done(Err(ApiError::InvalidRequest(m))) => {
            assert!(m.contains("a login is in progress"), "{m}");
            assert!(m.contains("cancel_login"), "{m}");
        }
        other => panic!("expected a refusal, got {other:?}"),
    }
    assert!(session.release_for_login().is_err());
    session.resume_after_login();
    assert!(!session.release_for_login().unwrap());
}

#[test]
fn a_build_number_is_learned_and_never_forgotten() {
    let mut build = None;
    learn_build(&mut build, &None);
    assert_eq!(build, None);
    learn_build(&mut build, &Some("31844".to_string()));
    assert_eq!(build.as_deref(), Some("31844"));
    learn_build(&mut build, &None);
    assert_eq!(build.as_deref(), Some("31844"));
}

#[test]
fn errors_are_described() {
    assert_eq!(cf().describe(), "Cloudflare blocked us: blocked");
    assert_eq!(
        ApiError::AuthExpired.describe(),
        "K-Plussa session has expired -- run `k-ruoka-mcp login` again"
    );
    assert_eq!(
        ApiError::StaleBuild { wanted: Some("3\"1".into()) }.describe(),
        "stale X-K-Build-Number (server wants Some(\"3\\\"1\"))"
    );
    assert_eq!(
        ApiError::StaleBuild { wanted: None }.describe(),
        "stale X-K-Build-Number (server wants None)"
    );
    assert_eq!(
        ApiError::Api { status: 404, message: "nope".into() }.describe(),
        "K-Ruoka API error (status 404): nope"
    );
    assert_eq!(ApiError::InvalidRequest("bad".into()).describe(), "bad");
    assert_eq!(
        unexpected_fetch_shape().describe(),
        "unexpected shape from the in-page fetch helper"
    );
    assert_eq!(
        navigation_failed("timeout").describe(),
        "navigating to https://www.k-ruoka.fi/kauppa: timeout"
    );
}

fn probe(json: &str) -> PageProbe {
    read_probe(&serde_json::from_str::<Value>(json).unwrap())
}

#[test]
fn a_page_is_ready_on_the_shops_origin_alone() {
    let shop = probe(r#"{"origin":"https://www.k-ruoka.fi","text":"Tuotteet"}"#);
    assert!(matches!(judge_page(&shop, false), Clearance::Ready));
    assert!(matches!(judge_page(&shop, true), Clearance::Ready));
    for not_yet in [
        r#"{"origin":"https://login.kesko.fi","text":"Tuotteet"}"#,
        r#"{"origin":"https://www.k-ruoka.fi","text":" \n "}"#,
        r#"{"origin":"https://www.k-ruoka.fi","text":null}"#,
        r#"{"origin":"https://www.k-ruoka.fi","text":"Just a moment..."}"#,
        "null",
    ] {
        assert!(matches!(judge_page(&probe(not_yet), false), Clearance::Wait), "{not_yet}");
        match judge_page(&probe(not_yet), true) {
            Clearance::Failed(e) => assert_eq!(
                e.describe(),
                "Cloudflare blocked us: challenge did not clear within 45s"
            ),
            other => panic!("expected a block, got {other:?}"),
        }
    }
    let refused = probe(r#"{"origin":"https://www.k-ruoka.fi","text":"Pyyntö estetty (CF/WB)"}"#);
    match judge_page(&refused, false) {
        Clearance::Failed(ApiError::Cloudflare { detail }) => assert_eq!(
            detail,
            "page load rejected (\"Pyyntö estetty\") -- the browser fingerprint is being refused; \
             a UA containing HeadlessChrome is the usual cause"
        ),
        other => panic!("expected a block, got {other:?}"),
    }
}

#[test]
fn fetch_script_escapes_its_inputs() {
    let s = fetch_script("POST", "/kr-api/basket/active", None, Some("31844"));
    assert!(s.contains(r#"const build = "31844""#));
    assert!(s.contains(r#"fetch("/kr-api/basket/active""#));
    assert!(s.contains("const body = undefined"));
}

/// The body is interpolated into the script too, and `item_id` reaches it from input that
/// the caller supplies. A quote or backslash must not be able to break out of the string
/// and become code.
#[test]
fn fetch_script_escapes_the_body() {
    let hostile = r#"a"); alert('x'); //\"#;
    let body = events_json(&vec![BasketEvent::RemoveItem {
        item_id: hostile.to_string(),
    }]);
    let s = fetch_script("PATCH", "/kr-api/basket/by-id/1", Some(&body), None);

    // The dangerous characters survive only in escaped form.
    assert!(
        !s.contains(r#"itemId":"a");"#),
        "raw injection present:\n{s}"
    );
    assert!(
        s.contains(r#"\"); alert('x'); //\\"#),
        "not escaped as expected:\n{s}"
    );

    // And the escaped form reads back as the very same text through JSON.
    let line = s
        .lines()
        .find(|l| l.contains("JSON.stringify("))
        .expect("the body line");
    let json = line
        .trim()
        .trim_start_matches("const body = JSON.stringify(")
        .trim_end_matches(';')
        .trim_end_matches(')');
    let parsed: Value = serde_json::from_str(json).expect("valid JSON literal");
    assert_eq!(parsed[0]["itemId"], hostile);
}

#[test]
fn the_script_is_written_out_in_full() {
    assert_eq!(
        fetch_script("POST", "/p\"", Some("{\"a\":1}"), None),
        r#"(async () => {
             const headers = { 'Accept': 'application/json' };
             const build = null;
             if (build) headers['X-K-Build-Number'] = build;
             const body = JSON.stringify({"a":1});
             if (body !== undefined) headers['Content-Type'] = 'application/json';
             const r = await fetch("/p\"", {
               method: "POST",
               headers,
               body,
               credentials: 'include',
             });
             return {
               status: r.status,
               build: r.headers.get('k-ruoka-build'),
               cfMitigated: r.headers.get('cf-mitigated'),
               contentType: r.headers.get('content-type'),
               body: await r.text(),
             };
           })()"#
    );
}
