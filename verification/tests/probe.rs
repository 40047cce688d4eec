use k_ruoka_mcp::probe::{
    ProbeArgs, SpikeArgs, body_is_json, cookie_line, is_clearance_cookie, is_shop_cookie,
};

fn args(args: &[&str]) -> Vec<String> {
    args.iter().map(|a| a.to_string()).collect()
}

#[test]
fn a_probe_has_defaults() {
    let probe = ProbeArgs::parse(&args(&[]));
    assert!(!probe.drop_clearance);
    assert_eq!(probe.build, None);
    assert_eq!(probe.method, "POST");
    assert_eq!(probe.path, "/kr-api/basket/active");
    assert_eq!(probe.body, None);
}

#[test]
fn flags_stand_anywhere_on_the_line() {
    let probe = ProbeArgs::parse(&args(&[
        "GET",
        "--build=1",
        "/kr-api/x",
        "--drop-clearance",
        "--build=2",
        r#"{"storeId":"N137"}"#,
        "more",
    ]));
    assert!(probe.drop_clearance);
    assert_eq!(probe.build.as_deref(), Some("1"));
    assert_eq!(probe.method, "GET");
    assert_eq!(probe.path, "/kr-api/x");
    assert_eq!(probe.body.as_deref(), Some(r#"{"storeId":"N137"}"#));
    assert_eq!(ProbeArgs::parse(&args(&["--build="])).build.as_deref(), Some(""));
}

#[test]
fn only_json_is_sent_as_a_body() {
    for body in [r#"{"storeId":"N137"}"#, "null", " [1, 2] ", r#""text""#] {
        assert!(body_is_json(body), "{body}");
    }
    for body in ["", "{", "N137", "{'storeId':1}", "1 2"] {
        assert!(!body_is_json(body), "{body}");
    }
}

#[test]
fn a_spike_takes_a_profile() {
    let spike = SpikeArgs::parse(&args(&["--head", "/tmp/p"]));
    assert!(spike.headful);
    assert_eq!(spike.profile, "/tmp/p");
    let spike = SpikeArgs::parse(&args(&["--other"]));
    assert!(!spike.headful);
    assert_eq!(spike.profile, "/tmp/k-ruoka-spike-profile");
}

#[test]
fn cookies_are_told_apart_and_shown() {
    assert!(is_shop_cookie(".k-ruoka.fi"));
    assert!(!is_shop_cookie(".kesko.fi"));
    assert!(is_clearance_cookie("cf_clearance"));
    assert!(is_clearance_cookie("__cf_bm"));
    assert!(!is_clearance_cookie("cf"));
    assert_eq!(
        cookie_line("a", "b", "/", "None"),
        "a (domain=b path=/ partition=None)"
    );
}
