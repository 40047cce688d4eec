use k_ruoka_mcp::browser::chrome::{
    Platform, chrome_candidates, chrome_path, chrome_version, first_version_token, launch_failed, launch_plan, launched_note, user_agent, version_from_install_dir,
};
use k_ruoka_mcp::browser::session::LaunchMode;
use k_ruoka_mcp::browser::profile::{
    DataDir, PRIVATE_MODE, data_dir_variable, home_dir_variable, is_exposed, platform_data_dir,
};

fn names(names: &[&str]) -> Vec<String> {
    names.iter().map(|n| n.to_string()).collect()
}

#[test]
fn the_version_is_the_first_word_that_looks_like_one() {
    assert_eq!(
        first_version_token("Google Chrome 150.0.7871.181 \n").as_deref(),
        Some("150.0.7871.181")
    );
    assert_eq!(first_version_token("Chromium 150 v1.2 1.2b 3.4").as_deref(), Some("1.2b"));
    assert_eq!(first_version_token("no version here."), None);
    assert_eq!(first_version_token(""), None);
}

#[test]
fn the_version_is_the_last_directory_named_like_one() {
    let dirs = names(&["Locales", "149.0.1.2", "150.0.7871.181", "150.0", "1.2.3.x", "1..2.3"]);
    assert_eq!(version_from_install_dir(&dirs).as_deref(), Some("150.0.7871.181"));
    // In the order of characters.
    let dirs = names(&["100.0.0.0", "99.0.0.0"]);
    assert_eq!(version_from_install_dir(&dirs).as_deref(), Some("99.0.0.0"));
    assert_eq!(version_from_install_dir(&names(&["a"])), None);
}

#[test]
fn what_chrome_prints_goes_before_the_directories() {
    let dirs = names(&["149.0.1.2"]);
    assert_eq!(
        chrome_version("/chrome", Some("Google Chrome 150.0.7871.181"), &dirs).unwrap(),
        "150.0.7871.181"
    );
    assert_eq!(chrome_version("/chrome", Some("?"), &dirs).unwrap(), "149.0.1.2");
    assert_eq!(chrome_version("/chrome", None, &dirs).unwrap(), "149.0.1.2");
    assert_eq!(
        chrome_version("/chrome", None, &Vec::new()).unwrap_err(),
        "could not determine the Chrome version from `/chrome --version` or from the install \
         directory. Set K_RUOKA_USER_AGENT to a full User-Agent string to bypass this, or \
         K_RUOKA_CHROME if that path is wrong."
    );
}

#[test]
fn the_user_agent_says_nothing_of_a_window() {
    assert_eq!(
        user_agent(Platform::Linux, "150.0.7871.181"),
        "Mozilla/5.0 (X11; Linux x86_64) AppleWebKit/537.36 (KHTML, like Gecko) \
         Chrome/150.0.7871.181 Safari/537.36"
    );
    for platform in [Platform::Linux, Platform::MacOs, Platform::Windows] {
        let agent = user_agent(platform, "150.0.7871.181");
        assert!(!agent.contains("Headless"), "{agent}");
    }
}

#[test]
fn the_first_chrome_that_is_there_is_used() {
    let all = chrome_candidates(Platform::Linux);
    assert_eq!(all.len(), 5);
    assert_eq!(
        chrome_path(None, Platform::Linux, &vec![false, false, true, true, false]),
        "/usr/bin/chromium"
    );
    assert_eq!(chrome_path(None, Platform::Linux, &vec![false; 5]), "/usr/bin/google-chrome");
    assert_eq!(
        chrome_path(None, Platform::Windows, &vec![false, true]),
        r"C:\Program Files (x86)\Google\Chrome\Application\chrome.exe"
    );
    assert_eq!(
        chrome_path(Some("/opt/chrome".to_string()), Platform::MacOs, &vec![true]),
        "/opt/chrome"
    );
}

#[test]
fn the_flags_end_with_the_user_agent() {
    let plan = launch_plan(LaunchMode::Headless, "UA");
    assert!(plan.headless);
    assert_eq!(plan.debug_port, None);
    assert_eq!((plan.width, plan.height), (1440, 900));
    let args = plan.args;
    assert_eq!(args.len(), 20);
    assert_eq!(args[0], "disable-background-networking");
    assert_eq!(args[18], "lang=fi-FI");
    assert_eq!(args[19], "user-agent=UA");
    assert!(args.iter().all(|a| !a.starts_with('-')));
    let plan = launch_plan(LaunchMode::Headful { debug_port: 9333 }, "UA");
    assert!(!plan.headless);
    assert_eq!(plan.debug_port, Some(9333));
    assert_eq!(plan.args, args);
    assert_eq!(launched_note(12), "k-ruoka-mcp: launched browser generation 12");
    let m = launch_failed("/p");
    assert!(m.starts_with("launching Chrome against profile /p. A Chrome left over"), "{m}");
    assert!(m.contains("(pkill -f /p)"), "{m}");
}

#[test]
fn the_data_directory_follows_the_platform() {
    assert_eq!(data_dir_variable(Platform::Linux), "XDG_DATA_HOME");
    assert_eq!(home_dir_variable(Platform::Windows), "USERPROFILE");
    assert!(matches!(
        platform_data_dir(Platform::Linux, true, true),
        Ok(DataDir::Variable("XDG_DATA_HOME"))
    ));
    assert!(matches!(
        platform_data_dir(Platform::Linux, false, true),
        Ok(DataDir::Below { variable: "HOME", place: ".local/share" })
    ));
    assert!(matches!(
        platform_data_dir(Platform::MacOs, false, true),
        Ok(DataDir::Below { variable: "HOME", place: "Library/Application Support" })
    ));
    assert!(matches!(
        platform_data_dir(Platform::Windows, false, true),
        Ok(DataDir::Below { variable: "USERPROFILE", place: "AppData/Local" })
    ));
    assert_eq!(
        platform_data_dir(Platform::Linux, false, false).unwrap_err(),
        "neither XDG_DATA_HOME nor HOME is set"
    );
}

#[test]
fn a_profile_open_to_others_is_noticed() {
    assert!(is_exposed(0o755));
    assert!(is_exposed(0o701));
    assert!(!is_exposed(PRIVATE_MODE));
    assert!(!is_exposed(0o40700));
}
