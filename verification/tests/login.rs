use k_ruoka_mcp::browser::ApiError;
use k_ruoka_mcp::browser::chrome::Platform;
use k_ruoka_mcp::browser::session::{LaunchMode, Session};
use k_ruoka_mcp::login::{
    Display, Reexec, Surroundings, Watch, Watching, announce, hostname, instructions,
    poller_script, port_taken, reexec_under_xvfb_if_headless,
};
use k_ruoka_mcp::login_flow::{
    CancelStep, ChildLogin, ChildState, LoginProgress, StartStep, StatusStep, TerminateStep,
    Termination, signed_in_account, wrap,
};
use k_ruoka_mcp::amount::Double;
use k_ruoka_mcp::types::{Basket, PriceSummary, UserInfo};

#[test]
fn the_account_is_read_out_of_logins_own_output() {
    let output = "Opening a browser against /x\n\nSigned in as Niko Savola <a@b.c>.\n\
                  Session saved to /x.\n";
    assert_eq!(
        signed_in_account(output).as_deref(),
        Some("Niko Savola <a@b.c>")
    );
}

#[test]
fn no_account_line_is_not_an_account() {
    assert_eq!(signed_in_account("timed out after 15 minutes\n"), None);
}

#[test]
fn what_is_announced_is_read_back() {
    let output = format!("Opening\r\n{}Session saved", announce("Test User <t@e.x>"));
    assert_eq!(signed_in_account(&output).as_deref(), Some("Test User <t@e.x>"));
    assert_eq!(signed_in_account("  Signed in as A. B...\r\n").as_deref(), Some("A. B"));
    assert_eq!(signed_in_account("Signed in as \nSigned in as B.").as_deref(), Some("B"));
}

/// Nobody is left to give the profile back but whoever gives the login up.
#[test]
fn cancelling_frees_the_profile_even_with_no_child_left() {
    let mut session = Session::new(LaunchMode::Headless);
    session.release_for_login().unwrap();
    assert!(
        session.release_for_login().is_err(),
        "a second login must be refused while one owns the profile"
    );

    match ChildLogin::new().cancel() {
        CancelStep::Resume(progress) => {
            assert_eq!(progress.state, "notStarted");
            session.resume_after_login();
        }
        other => panic!("expected the profile to be handed back, got {other:?}"),
    }

    session.release_for_login()
        .expect("cancel_login must hand the profile back");
}

fn started(login: &ChildLogin, port: u16) -> (String, Vec<String>) {
    assert!(matches!(login.start(), StartStep::Release { resume_first: false }));
    assert!(matches!(ChildLogin::released(Ok(())), StartStep::Locate));
    match ChildLogin::located(Ok("/usr/bin/k-ruoka-mcp".to_string()), port) {
        StartStep::Spawn { program, args } => (program, args),
        other => panic!("expected a program to start, got {other:?}"),
    }
}

#[test]
fn a_child_that_dies_before_printing_the_marker_reports_why_and_frees_the_profile() {
    let login = ChildLogin::new();
    let (program, args) = started(&login, 0);
    assert!(matches!(ChildLogin::spawned(&program, &args, Ok(())), StartStep::Read));
    assert!(matches!(ChildLogin::read("boom from child\n"), StartStep::Observe));
    assert!(matches!(
        ChildLogin::observed(ChildState::Exited { success: false }, false),
        StartStep::ReadLastWords
    ));
    match ChildLogin::died("boom from child\n") {
        StartStep::Resume(e) => assert_eq!(
            e.describe(),
            "login exited before it was ready:\nboom from child"
        ),
        other => panic!("the profile must be handed back, got {other:?}"),
    }
    assert!(!login.running);
}

#[test]
fn a_second_start_after_the_first_child_died_unobserved_spawns_a_fresh_one() {
    let mut login = ChildLogin::new();
    let (program, args) = started(&login, 0);
    ChildLogin::spawned(&program, &args, Ok(()));
    assert!(matches!(ChildLogin::read("Sign in by hand\n"), StartStep::Present));
    assert_eq!(login.present("Sign in by hand\n".to_string()).state, "waiting");

    assert!(matches!(login.start(), StartStep::CheckChild));
    assert!(matches!(
        login.checked(ChildState::Exited { success: true }),
        StartStep::Release { resume_first: true }
    ));
    assert!(!login.running);
    assert_eq!(login.present(String::new()).state, "waiting");
}

#[test]
fn a_child_that_only_prints_the_marker_stays_waiting_until_cancelled() {
    let mut login = ChildLogin::new();
    let first = login.present("Sign in by hand\n".to_string());
    assert_eq!(first.state, "waiting");
    assert!(first.instructions.unwrap().contains("Sign in by hand"));

    assert!(matches!(login.start(), StartStep::CheckChild));
    assert!(matches!(login.checked(ChildState::Running), StartStep::ReportOutput));
    let second = ChildLogin::already_running("Sign in by hand\n".to_string());
    assert!(second.detail.contains("already in progress"));
    assert_eq!(second.instructions.as_deref(), Some("Sign in by hand\n"));

    assert!(matches!(login.status(), StatusStep::CheckChild));
    match login.status_checked(ChildState::Running, "Sign in by hand\n".to_string()) {
        StatusStep::Done(Ok(progress)) => {
            assert_eq!(progress.state, "waiting");
            assert_eq!(progress.instructions.as_deref(), Some("Sign in by hand\n"));
        }
        other => panic!("expected to wait, got {other:?}"),
    }

    match login.cancel() {
        CancelStep::Terminate(progress) => assert_eq!(progress.state, "notStarted"),
        other => panic!("the child must be stopped, got {other:?}"),
    }
    assert!(!login.running);
    assert!(!login.shutdown());
}

#[test]
fn a_child_that_signs_in_reports_the_account_once_it_exits() {
    let mut login = ChildLogin::new();
    login.present("Sign in by hand\n".to_string());
    let output = "Sign in by hand\nSigned in as Test User <test@example.com>.\n";
    match login.status_checked(ChildState::Exited { success: true }, output.to_string()) {
        StatusStep::Resume(progress) => {
            assert_eq!(progress.state, "signedIn");
            assert_eq!(progress.account.as_deref(), Some("Test User <test@example.com>"));
            assert_eq!(progress.instructions, None);
        }
        other => panic!("the profile must be handed back, got {other:?}"),
    }
    assert!(!login.running);
}

#[test]
fn a_child_that_fails_says_so_with_its_own_words() {
    let mut login = ChildLogin::new();
    login.present(String::new());
    match login.status_checked(ChildState::Exited { success: false }, "timed out".to_string()) {
        StatusStep::Resume(progress) => {
            assert_eq!(progress.state, "failed");
            assert!(progress.detail.contains("left untouched"));
            assert_eq!(progress.instructions.as_deref(), Some("timed out"));
        }
        other => panic!("the profile must be handed back, got {other:?}"),
    }
    match login.status() {
        StatusStep::Done(Ok(progress)) => {
            assert_eq!(progress.state, "notStarted");
            assert!(progress.detail.contains("Call start_login"));
        }
        other => panic!("expected nothing in progress, got {other:?}"),
    }
}

#[test]
fn a_login_that_cannot_be_started_says_why() {
    let login = ChildLogin::new();
    let (program, args) = started(&login, 9333);
    assert_eq!(args, ["login", "--port", "9333"]);
    match ChildLogin::spawned(&program, &args, Err("denied".to_string())) {
        StartStep::Resume(e) => assert_eq!(
            e.describe(),
            "could not start `/usr/bin/k-ruoka-mcp login --port 9333`: denied"
        ),
        other => panic!("the profile must be handed back, got {other:?}"),
    }
    match ChildLogin::located(Err("gone".to_string()), 9222) {
        StartStep::Done(Err(e)) => assert_eq!(
            e.describe(),
            "cannot find this executable to re-run it: gone"
        ),
        other => panic!("expected a failure, got {other:?}"),
    }
    match ChildLogin::released(Err(ApiError::AuthExpired)) {
        StartStep::Done(Err(ApiError::AuthExpired)) => {}
        other => panic!("expected the session's own refusal, got {other:?}"),
    }
    match ChildLogin::observed(ChildState::Unknown("EIO".to_string()), false) {
        StartStep::Done(Err(e)) => assert_eq!(e.describe(), wrap("EIO").describe()),
        other => panic!("expected a failure, got {other:?}"),
    }
    assert!(matches!(ChildLogin::observed(ChildState::Running, false), StartStep::Sleep));
    assert!(matches!(ChildLogin::observed(ChildState::Running, true), StartStep::Present));
    assert_eq!(wrap("EIO").describe(), "watching the login process: EIO");
}

#[test]
fn nothing_started_is_the_default() {
    let progress = LoginProgress::default();
    assert_eq!(progress.state, "notStarted");
    assert_eq!(progress.detail, "");
    assert_eq!(progress.account, None);
    assert_eq!(progress.instructions, None);
}

#[test]
fn a_child_that_will_not_stop_is_made_to() {
    let mut termination = Termination::begin();
    assert_eq!(termination.next(), TerminateStep::Check);
    for _ in 0..19 {
        assert_eq!(termination.checked(false), TerminateStep::Check);
    }
    assert_eq!(termination.checked(false), TerminateStep::Kill);
    assert_eq!(termination.next(), TerminateStep::Kill);

    let mut termination = Termination::begin();
    assert_eq!(termination.checked(true), TerminateStep::Gone);
}

#[test]
fn the_instructions_fit_the_display() {
    let real = instructions(Display::Real, 9222, "host");
    assert!(real.starts_with("\n┌─ Sign in by hand ──"));
    assert!(real.contains("1. Switch to it and pick the tab titled\n\n         Tuotteet | K-Ruoka Verkkokauppa\n\n   and NOT the one marked \"[k-ruoka-mcp] poller - do NOT use this tab\" -- that one is this process\n"));
    assert!(real.contains("under you every 3 seconds.\n\n2. Click \"Kirjaudu\""));
    assert!(real.ends_with("that is expected.\n\nNothing here types your credentials for you, and this process never sees\nthem -- it only watches for K-Ruoka to start reporting an account.\nWaiting (Ctrl-C to give up)...\n"));

    let tunnel = instructions(Display::Virtual, 9333, "host");
    assert!(tunnel.contains("Sign in by hand"));
    assert!(tunnel.contains("\n    ssh -N -L 9333:localhost:9333 host\n"));
    assert!(tunnel.contains("click Configure and add   localhost:9333\n"));
    for line in real.lines().chain(tunnel.lines()).filter(|l| l.starts_with(['┌', '│', '└'])) {
        assert_eq!(line.chars().count(), 72, "{line}");
    }
}

#[test]
fn the_display_is_told_from_the_surroundings() {
    assert_eq!(Display::detect(true, true), Display::Virtual);
    assert_eq!(Display::detect(false, true), Display::Real);
    assert_eq!(Display::detect(false, false), Display::Virtual);

    let bare = Surroundings {
        platform: Platform::Linux,
        display: false,
        wayland: false,
        no_xvfb: false,
        under_xvfb: false,
    };
    assert_eq!(reexec_under_xvfb_if_headless(bare, true), Reexec::UnderXvfb);
    assert_eq!(reexec_under_xvfb_if_headless(bare, false), Reexec::Missing);
    for around in [
        Surroundings { display: true, ..bare },
        Surroundings { wayland: true, ..bare },
        Surroundings { no_xvfb: true, ..bare },
        Surroundings { platform: Platform::MacOs, ..bare },
        Surroundings { platform: Platform::Windows, ..bare },
    ] {
        assert_eq!(reexec_under_xvfb_if_headless(around, true), Reexec::Stay);
    }

    // A window is on screen in any session of its own, Wayland's included.
    for around in [
        Surroundings { display: true, ..bare },
        Surroundings { wayland: true, ..bare },
        Surroundings { platform: Platform::MacOs, ..bare },
        Surroundings { platform: Platform::Windows, ..bare },
    ] {
        assert_eq!(around.shown_on(), Display::Real);
        let again = Surroundings { under_xvfb: true, ..around };
        assert_eq!(again.shown_on(), Display::Virtual);
    }
    assert_eq!(bare.shown_on(), Display::Virtual);
    let declined = Surroundings { no_xvfb: true, ..bare };
    assert_eq!(declined.shown_on(), Display::Virtual);
}

#[test]
fn the_host_is_named_by_the_first_that_knows() {
    assert_eq!(hostname(Some("box\n"), Some("env"), None), "box");
    assert_eq!(hostname(Some(" \n"), Some("env"), Some("pc")), "env");
    assert_eq!(hostname(None, Some(""), Some("pc")), "pc");
    assert_eq!(hostname(None, None, None), "<this-host>");
}

#[test]
fn small_texts() {
    assert_eq!(
        port_taken(9222),
        "something is already listening on port 9222 -- most likely a Chrome left over from an \
         earlier `login`. Close it (pkill -f remote-debugging-port=9222) or pass --port with a \
         different one."
    );
    assert_eq!(
        poller_script(),
        "document.title = \"[k-ruoka-mcp] poller - do NOT use this tab\""
    );
}

fn basket(first_name: &str) -> Basket {
    Basket {
        id: "b1".to_string(),
        items: Vec::new(),
        price_summary: PriceSummary {
            items_sub_total: Double { bits: 0 },
            grand_total: Double { bits: 0 },
        },
        store: None,
        user_info: UserInfo {
            first_name: first_name.to_string(),
            last_name: String::new(),
            email: String::new(),
        },
    }
}

#[test]
fn the_wait_for_the_user_ends_with_an_account_or_the_time() {
    let watch = Watch::begin(Ok(basket("")), 5).unwrap();
    assert_eq!(watch.deadline, 5 + 15 * 60 * 1_000_000_000);
    assert!(matches!(watch.next(watch.deadline - 1), Watching::Look));
    match watch.next(watch.deadline) {
        Watching::TimedOut(m) => assert_eq!(
            m,
            "timed out after 15 minutes without seeing a signed-in account"
        ),
        other => panic!("expected the time to be up, got {other:?}"),
    }
    assert_eq!(Watch::looked(&Ok(basket(""))), None);
    assert_eq!(Watch::looked(&Ok(basket("Niko"))).as_deref(), Some("Niko"));
    assert_eq!(Watch::looked(&Err(ApiError::AuthExpired)), None);
    match Watch::begin(Err(ApiError::AuthExpired), 5) {
        Err(m) => assert_eq!(
            m,
            "cannot reach K-Ruoka, so signing in would not be detected: K-Plussa session has \
             expired -- run `k-ruoka-mcp login` again"
        ),
        Ok(_) => panic!("expected a failure"),
    }
}
