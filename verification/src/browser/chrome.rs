//! Which Chrome is launched, how, and as what it presents itself.

use crate::browser::session::LaunchMode;
use crate::text;
use vstd::prelude::*;

verus! {

#[derive(Debug, Clone, Copy, PartialEq, Eq, Structural)]
pub enum Platform {
    Linux,
    MacOs,
    Windows,
}

/// The flags every browser gets. Without leading dashes, which the launcher adds itself.
/// The launcher's own defaults are not used: they announce automation, and set another
/// language.
pub const CHROME_ARGS: [&'static str; 19] = [
    "disable-background-networking",
    "disable-background-timer-throttling",
    "disable-backgrounding-occluded-windows",
    "disable-breakpad",
    "disable-client-side-phishing-detection",
    "disable-default-apps",
    "disable-dev-shm-usage",
    "disable-hang-monitor",
    "disable-ipc-flooding-protection",
    "disable-popup-blocking",
    "disable-prompt-on-repost",
    "disable-renderer-backgrounding",
    "disable-sync",
    "metrics-recording-only",
    "no-first-run",
    "password-store=basic",
    "use-mock-keychain",
    "disable-blink-features=AutomationControlled",
    "lang=fi-FI",
];

/// The size of the browser's window, in pixels.
pub const WINDOW_WIDTH: u32 = 1440;

pub const WINDOW_HEIGHT: u32 = 900;

/// How to launch a browser.
#[derive(Debug)]
pub struct LaunchPlan {
    /// Without a window.
    pub headless: bool,
    /// The debugging port, where it matters which.
    pub debug_port: Option<u16>,
    pub args: Vec<String>,
    pub width: u32,
    pub height: u32,
}

/// How to launch a browser that presents itself as `user_agent`. With a window it listens
/// on the port that its user reaches it by; both kinds get the same flags.
pub fn launch_plan(mode: LaunchMode, user_agent: &str) -> (r: LaunchPlan)
    ensures
        r.headless == (mode is Headless),
        r.debug_port == (match mode {
            LaunchMode::Headless => None,
            LaunchMode::Headful { debug_port } => Some(debug_port),
        }),
        r.width == WINDOW_WIDTH,
        r.height == WINDOW_HEIGHT,
        r.args@.len() == CHROME_ARGS@.len() + 1,
        forall|i: int|
            0 <= i < CHROME_ARGS@.len() ==> (#[trigger] r.args@[i])@ == CHROME_ARGS@[i]@,
        r.args@.last()@ == "user-agent="@ + user_agent@,
{
    let mut args: Vec<String> = Vec::new();
    let mut i: usize = 0;
    while i < CHROME_ARGS.len()
        invariant
            i <= CHROME_ARGS@.len(),
            args@.len() == i,
            forall|j: int| 0 <= j < i ==> (#[trigger] args@[j])@ == CHROME_ARGS@[j]@,
        decreases CHROME_ARGS@.len() - i,
    {
        args.push(CHROME_ARGS[i].to_owned());
        i = i + 1;
    }
    let mut agent = "user-agent=".to_owned();
    agent.append(user_agent);
    args.push(agent);
    let (headless, debug_port) = match mode {
        LaunchMode::Headless => (true, None),
        LaunchMode::Headful { debug_port } => (false, Some(debug_port)),
    };
    LaunchPlan { headless, debug_port, args, width: WINDOW_WIDTH, height: WINDOW_HEIGHT }
}

/// What is said of a browser that could not be launched. A leftover browser that holds the
/// profile's lock is the likely cause, not a broken profile.
pub fn launch_failed(profile: &str) -> (r: String)
    ensures
        r@ == "launching Chrome against profile "@ + profile@
            + ". A Chrome left over from an earlier run can hold the profile's lock -- check for one (pkill -f "@
            + profile@
            + ") before considering the profile itself broken, because it holds your login and re-running `login` is the only way back."@,
{
    let mut m = "launching Chrome against profile ".to_owned();
    m.append(profile);
    m.append(
        ". A Chrome left over from an earlier run can hold the profile's lock -- check for one (pkill -f ",
    );
    m.append(profile);
    m.append(
        ") before considering the profile itself broken, because it holds your login and re-running `login` is the only way back.",
    );
    m
}

/// The line that reports a launch.
pub fn launched_note(generation: u64) -> (r: String)
    ensures
        r@ == "k-ruoka-mcp: launched browser generation "@ + text::decimal(generation as nat),
{
    let mut m = "k-ruoka-mcp: launched browser generation ".to_owned();
    let n = text::number(generation);
    m.append(n.as_str());
    m
}

/// Where Chrome usually lives.
pub open spec fn candidates(platform: Platform) -> Seq<&'static str> {
    match platform {
        Platform::MacOs => seq![
            "/Applications/Google Chrome.app/Contents/MacOS/Google Chrome",
            "/Applications/Chromium.app/Contents/MacOS/Chromium",
        ],
        Platform::Windows => seq![
            "C:\\Program Files\\Google\\Chrome\\Application\\chrome.exe",
            "C:\\Program Files (x86)\\Google\\Chrome\\Application\\chrome.exe",
        ],
        Platform::Linux => seq![
            "/usr/bin/google-chrome",
            "/usr/bin/google-chrome-stable",
            "/usr/bin/chromium",
            "/usr/bin/chromium-browser",
            "/snap/bin/chromium",
        ],
    }
}

/// Where Chrome usually lives.
pub fn chrome_candidates(platform: Platform) -> (r: Vec<&'static str>)
    ensures
        r@ == candidates(platform),
{
    let mut r: Vec<&'static str> = Vec::new();
    match platform {
        Platform::MacOs => {
            r.push("/Applications/Google Chrome.app/Contents/MacOS/Google Chrome");
            r.push("/Applications/Chromium.app/Contents/MacOS/Chromium");
        },
        Platform::Windows => {
            r.push("C:\\Program Files\\Google\\Chrome\\Application\\chrome.exe");
            r.push("C:\\Program Files (x86)\\Google\\Chrome\\Application\\chrome.exe");
        },
        Platform::Linux => {
            r.push("/usr/bin/google-chrome");
            r.push("/usr/bin/google-chrome-stable");
            r.push("/usr/bin/chromium");
            r.push("/usr/bin/chromium-browser");
            r.push("/snap/bin/chromium");
        },
    }
    assert(r@ =~= candidates(platform));
    r
}

/// The `k`-th candidate is there.
pub open spec fn is_present(present: Seq<bool>, k: int) -> bool {
    0 <= k < present.len() && present[k]
}

/// The Chrome to launch: the one that is asked for, or else the first candidate that is
/// there, or else the first one anyway, so that the failure names a concrete path.
/// `present` says of each candidate whether it is there.
pub fn chrome_path(explicit: Option<String>, platform: Platform, present: &Vec<bool>) -> (r: String)
    ensures
        explicit matches Some(path) ==> r == path,
        explicit is None ==> {
            let all = candidates(platform);
            ||| exists|k: int|
                #![trigger is_present(present@, k)]
                0 <= k < all.len() && is_present(present@, k) && r@ == all[k]@ && forall|j: int|
                    0 <= j < k ==> !is_present(present@, j)
            ||| r@ == all[0]@ && forall|j: int| 0 <= j < all.len() ==> !is_present(present@, j)
        },
{
    if let Some(path) = explicit {
        return path;
    }
    let all = chrome_candidates(platform);
    let mut i: usize = 0;
    while i < all.len() && i < present.len()
        invariant
            all@ == candidates(platform),
            explicit is None,
            i <= all@.len(),
            i <= present@.len(),
            forall|j: int| 0 <= j < i ==> !is_present(present@, j),
        decreases all@.len() - i,
    {
        if present[i] {
            assert(is_present(present@, i as int));
            return all[i].to_owned();
        }
        i = i + 1;
    }
    all[0].to_owned()
}

/// A word that starts with a digit and holds a dot.
pub open spec fn is_version_token(word: Seq<char>) -> bool {
    word.len() > 0 && text::is_digit(word[0]) && word.contains('.')
}

/// `v` is the first word of `t` that is a version.
pub open spec fn is_first_version(t: Seq<char>, v: Seq<char>) -> bool {
    let words = text::words(t);
    exists|k: int|
        0 <= k < words.len() && words[k] == v && is_version_token(#[trigger] words[k])
            && forall|j: int| 0 <= j < k ==> !is_version_token(#[trigger] words[j])
}

/// No word of `t` is a version.
pub open spec fn has_no_version(t: Seq<char>) -> bool {
    let words = text::words(t);
    forall|j: int| 0 <= j < words.len() ==> !is_version_token(#[trigger] words[j])
}

fn version_token(word: &str) -> (r: bool)
    ensures
        r == is_version_token(word@),
{
    let cs = text::chars_of(word);
    if cs.len() == 0 || !('0' <= cs[0] && cs[0] <= '9') {
        return false;
    }
    let mut i: usize = 0;
    while i < cs.len()
        invariant
            cs@ == word@,
            i <= cs@.len(),
            cs@.len() > 0,
            text::is_digit(cs@[0]),
            forall|j: int| 0 <= j < i ==> cs@[j] != '.',
        decreases cs@.len() - i,
    {
        if cs[i] == '.' {
            assert(cs@[i as int] == '.');
            return true;
        }
        i = i + 1;
    }
    false
}

/// The first word of what `chrome --version` prints that is a version.
pub fn first_version_token(t: &str) -> (r: Option<String>)
    ensures
        r is None == has_no_version(t@),
        r matches Some(v) ==> is_first_version(t@, v@),
{
    let words = text::split_words(t);
    let ghost all = text::words(t@);
    let mut i: usize = 0;
    while i < words.len()
        invariant
            text::views(words@) == all,
            all == text::words(t@),
            i <= words@.len(),
            forall|j: int| 0 <= j < i ==> !is_version_token(#[trigger] all[j]),
        decreases words@.len() - i,
    {
        assert(all[i as int] == words@[i as int]@);
        if version_token(words[i].as_str()) {
            return Some(words[i].clone());
        }
        i = i + 1;
    }
    None
}

/// Four numbers with dots between them, as in `150.0.7871.181`.
pub open spec fn is_version_name(name: Seq<char>) -> bool {
    let parts = text::pieces(name, '.');
    parts.len() == 4 && forall|i: int|
        0 <= i < 4 ==> (#[trigger] parts[i]).len() > 0 && text::all_digits(parts[i])
}

fn digits_only(part: &str) -> (r: bool)
    ensures
        r == (part@.len() > 0 && text::all_digits(part@)),
{
    let cs = text::chars_of(part);
    let mut i: usize = 0;
    while i < cs.len()
        invariant
            cs@ == part@,
            i <= cs@.len(),
            forall|j: int| 0 <= j < i ==> text::is_digit(#[trigger] cs@[j]),
        decreases cs@.len() - i,
    {
        let c: char = cs[i];
        if !('0' <= c && c <= '9') {
            assert(!text::is_digit(cs@[i as int]));
            return false;
        }
        i = i + 1;
    }
    cs.len() > 0
}

fn version_name(name: &str) -> (r: bool)
    ensures
        r == is_version_name(name@),
{
    let parts = text::split(name, '.');
    let ghost all = text::pieces(name@, '.');
    assert(all.len() == parts@.len());
    if parts.len() != 4 {
        return false;
    }
    let mut i: usize = 0;
    while i < 4
        invariant
            text::views(parts@) == all,
            all == text::pieces(name@, '.'),
            parts@.len() == 4,
            i <= 4,
            forall|j: int|
                0 <= j < i ==> (#[trigger] all[j]).len() > 0 && text::all_digits(all[j]),
        decreases 4 - i,
    {
        assert(all[i as int] == parts@[i as int]@);
        if !digits_only(parts[i].as_str()) {
            return false;
        }
        i = i + 1;
    }
    true
}

/// Of the directories next to the executable, the one that is named like a version; the
/// last in order, where several are.
pub fn version_from_install_dir(names: &Vec<String>) -> (r: Option<String>)
    ensures
        r is None == forall|i: int|
            0 <= i < names@.len() ==> !is_version_name((#[trigger] names@[i])@),
        r matches Some(v) ==> {
            &&& is_version_name(v@)
            &&& exists|i: int| 0 <= i < names@.len() && (#[trigger] names@[i])@ == v@
            &&& forall|i: int|
                0 <= i < names@.len() && is_version_name((#[trigger] names@[i])@)
                    ==> !text::comes_before(v@, names@[i]@)
        },
{
    let mut best: Option<usize> = None;
    let mut i: usize = 0;
    while i < names.len()
        invariant
            i <= names@.len(),
            best is None ==> forall|j: int|
                0 <= j < i ==> !is_version_name((#[trigger] names@[j])@),
            best matches Some(b) ==> b < i && is_version_name(names@[b as int]@) && forall|j: int|
                0 <= j < i && is_version_name((#[trigger] names@[j])@) ==> !text::comes_before(
                    names@[b as int]@,
                    names@[j]@,
                ),
        decreases names@.len() - i,
    {
        if version_name(names[i].as_str()) {
            let newer = match best {
                Some(b) => text::less(names[b].as_str(), names[i].as_str()),
                None => true,
            };
            if newer {
                proof {
                    let v = names@[i as int]@;
                    text::comes_before_irreflexive(v);
                    if let Some(b) = best {
                        assert forall|j: int|
                            0 <= j < i && is_version_name(
                                (#[trigger] names@[j])@,
                            ) implies !text::comes_before(v, names@[j]@) by {
                            if text::comes_before(v, names@[j]@) {
                                text::comes_before_transitive(names@[b as int]@, v, names@[j]@);
                            }
                        }
                    }
                }
                best = Some(i);
            }
        }
        i = i + 1;
    }
    match best {
        Some(b) => Some(names[b].clone()),
        None => None,
    }
}

/// What is said where no version can be found.
pub open spec fn no_version(path: Seq<char>) -> Seq<char> {
    "could not determine the Chrome version from `"@ + path
        + " --version` or from the install directory. Set K_RUOKA_USER_AGENT to a full User-Agent string to bypass this, or K_RUOKA_CHROME if that path is wrong."@
}

/// The installed Chrome's version: from what it prints, where it was asked and answered,
/// or else from the directories next to it.
pub fn chrome_version(path: &str, printed: Option<&str>, siblings: &Vec<String>) -> (r: Result<
    String,
    String,
>)
    ensures
        printed matches Some(t) && !has_no_version(t@) ==> (r matches Ok(v) && is_first_version(
            printed->0@,
            v@,
        )),
        (printed is None || has_no_version(printed->0@)) ==> match r {
            Ok(v) => {
                &&& is_version_name(v@)
                &&& exists|i: int| 0 <= i < siblings@.len() && (#[trigger] siblings@[i])@ == v@
                &&& forall|i: int|
                    0 <= i < siblings@.len() && is_version_name((#[trigger] siblings@[i])@)
                        ==> !text::comes_before(v@, siblings@[i]@)
            },
            Err(m) => {
                &&& m@ == no_version(path@)
                &&& forall|i: int|
                    0 <= i < siblings@.len() ==> !is_version_name((#[trigger] siblings@[i])@)
            },
        },
{
    if let Some(t) = printed {
        if let Some(v) = first_version_token(t) {
            return Ok(v);
        }
    }
    if let Some(v) = version_from_install_dir(siblings) {
        return Ok(v);
    }
    let mut m = "could not determine the Chrome version from `".to_owned();
    m.append(path);
    m.append(
        " --version` or from the install directory. Set K_RUOKA_USER_AGENT to a full User-Agent string to bypass this, or K_RUOKA_CHROME if that path is wrong.",
    );
    Err(m)
}

/// The platform token that real Chrome puts in its User-Agent.
pub open spec fn platform_token(platform: Platform) -> Seq<char> {
    match platform {
        Platform::MacOs => "Macintosh; Intel Mac OS X 10_15_7"@,
        Platform::Windows => "Windows NT 10.0; Win64; x64"@,
        Platform::Linux => "X11; Linux x86_64"@,
    }
}

/// The User-Agent of a Chrome of this version, with or without a window.
pub open spec fn agent(platform: Platform, version: Seq<char>) -> Seq<char> {
    "Mozilla/5.0 ("@ + platform_token(platform)
        + ") AppleWebKit/537.36 (KHTML, like Gecko) Chrome/"@ + version + " Safari/537.36"@
}

/// The User-Agent of a Chrome of this version. It does not tell a browser without a window
/// from one with: the clearance that the one gets is bound to the string, and the other
/// has to present the same.
pub fn user_agent(platform: Platform, version: &str) -> (r: String)
    ensures
        r@ == agent(platform, version@),
{
    let mut r = "Mozilla/5.0 (".to_owned();
    match platform {
        Platform::MacOs => r.append("Macintosh; Intel Mac OS X 10_15_7"),
        Platform::Windows => r.append("Windows NT 10.0; Win64; x64"),
        Platform::Linux => r.append("X11; Linux x86_64"),
    }
    r.append(") AppleWebKit/537.36 (KHTML, like Gecko) Chrome/");
    r.append(version);
    r.append(" Safari/537.36");
    r
}

/// No `H` of the text is followed by an `e`, and none ends it.
spec fn no_he(s: Seq<char>) -> bool {
    forall|i: int| 0 <= i < s.len() && #[trigger] s[i] == 'H' ==> i + 1 < s.len() && s[i + 1] != 'e'
}

proof fn no_he_joins(a: Seq<char>, b: Seq<char>)
    requires
        no_he(a),
        no_he(b),
    ensures
        no_he(a + b),
{
    let s = a + b;
    assert forall|i: int| 0 <= i < s.len() && #[trigger] s[i] == 'H' implies i + 1 < s.len() && s[i
        + 1] != 'e' by {
        if i < a.len() {
            assert(a[i] == 'H');
            assert(s[i + 1] == a[i + 1]);
        } else {
            assert(b[i - a.len()] == 'H');
            assert(s[i + 1] == b[i - a.len() + 1]);
        }
    }
}

/// The User-Agent never says `HeadlessChrome`, which would be blocked outright, on any
/// platform and for any version without a capital H.
pub proof fn agent_never_says_headless(platform: Platform, version: Seq<char>)
    requires
        !version.contains('H'),
    ensures
        !text::occurs(agent(platform, version), "HeadlessChrome"@),
{
    reveal_strlit("Mozilla/5.0 (");
    reveal_strlit("Macintosh; Intel Mac OS X 10_15_7");
    reveal_strlit("Windows NT 10.0; Win64; x64");
    reveal_strlit("X11; Linux x86_64");
    reveal_strlit(") AppleWebKit/537.36 (KHTML, like Gecko) Chrome/");
    reveal_strlit(" Safari/537.36");
    reveal_strlit("HeadlessChrome");
    let a = "Mozilla/5.0 ("@;
    let b = platform_token(platform);
    let c = ") AppleWebKit/537.36 (KHTML, like Gecko) Chrome/"@;
    let d = " Safari/537.36"@;
    assert(no_he(a));
    assert(no_he(b));
    assert(no_he(c));
    assert(no_he(version));
    assert(no_he(d));
    no_he_joins(a, b);
    no_he_joins(a + b, c);
    no_he_joins(a + b + c, version);
    no_he_joins(a + b + c + version, d);
    let all = agent(platform, version);
    let h = "HeadlessChrome"@;
    assert forall|i: int| !#[trigger] text::occurs_at(all, h, i) by {
        if text::occurs_at(all, h, i) {
            let sub = all.subrange(i, i + h.len());
            assert(sub[0] == 'H' && sub[1] == 'e');
            assert(all[i] == 'H');
            assert(all[i + 1] == 'e');
        }
    }
}

/// A version among what is printed is a word that begins with a digit and holds a dot.
pub proof fn versions_begin_with_a_digit(word: Seq<char>)
    ensures
        is_version_token(word) <==> word.len() > 0 && '0' <= word[0] <= '9' && exists|i: int|
            0 <= i < word.len() && #[trigger] word[i] == '.',
{
    if word.contains('.') {
        let i = choose|i: int| 0 <= i < word.len() && word[i] == '.';
        assert(word[i] == '.');
    }
}

/// The version that a Chrome prints is found wherever it stands: it is the first word that
/// begins with a digit and holds a dot, whatever other words go before, and whatever follows.
pub proof fn a_printed_version_is_found(
    before: Seq<char>,
    version: Seq<char>,
    after: Seq<char>,
    space: char,
    end: char,
)
    requires
        text::is_white(space),
        text::is_white(end),
        has_no_version(before),
        version.len() > 0,
        '0' <= version[0] <= '9',
        version.contains('.'),
        forall|i: int| 0 <= i < version.len() ==> !text::is_white(#[trigger] version[i]),
    ensures
        is_first_version(before.push(space) + (version.push(end) + after), version),
        forall|v: Seq<char>|
            is_first_version(before.push(space) + (version.push(end) + after), v) ==> v == version,
        !has_no_version(before.push(space) + (version.push(end) + after)),
{
    let t = before.push(space) + (version.push(end) + after);
    text::words_join(before, space, version.push(end) + after);
    text::words_join(version, end, after);
    text::a_word_is_a_word(version);
    let front = text::words(before);
    let all = text::words(t);
    let n = front.len() as int;
    assert(all =~= front + (seq![version] + text::words(after)));
    assert(all[n] == version);
    assert forall|j: int| 0 <= j < n implies !is_version_token(#[trigger] all[j]) by {
        assert(all[j] == front[j]);
    }
    assert forall|v: Seq<char>| is_first_version(t, v) implies v == version by {
        let k = choose|k: int|
            0 <= k < all.len() && all[k] == v && is_version_token(#[trigger] all[k]) && forall|j: int|
                0 <= j < k ==> !is_version_token(#[trigger] all[j]);
        assert(k == n);
    }
}

/// Four runs of digits with dots between them are the name of a version.
pub proof fn four_numbers_are_a_version_name(
    a: Seq<char>,
    b: Seq<char>,
    c: Seq<char>,
    d: Seq<char>,
)
    requires
        a.len() > 0 && text::all_digits(a),
        b.len() > 0 && text::all_digits(b),
        c.len() > 0 && text::all_digits(c),
        d.len() > 0 && text::all_digits(d),
    ensures
        is_version_name(a.push('.') + (b.push('.') + (c.push('.') + d))),
{
    text::pieces_join(a, b.push('.') + (c.push('.') + d), '.');
    text::pieces_join(b, c.push('.') + d, '.');
    text::pieces_join(c, d, '.');
    text::pieces_of_one(a, '.');
    text::pieces_of_one(b, '.');
    text::pieces_of_one(c, '.');
    text::pieces_of_one(d, '.');
    let name = a.push('.') + (b.push('.') + (c.push('.') + d));
    assert(text::pieces(name, '.') =~= seq![a, b, c, d]);
}

/// The name of a version is nothing but four runs of digits with dots between them.
pub proof fn a_version_name_is_four_numbers(name: Seq<char>)
    requires
        is_version_name(name),
    ensures
        exists|a: Seq<char>, b: Seq<char>, c: Seq<char>, d: Seq<char>|
            name == #[trigger] (a.push('.') + (b.push('.') + (c.push('.') + d))) && a.len() > 0
                && text::all_digits(a) && b.len() > 0 && text::all_digits(b) && c.len() > 0
                && text::all_digits(c) && d.len() > 0 && text::all_digits(d),
{
    let p = text::pieces(name, '.');
    let dot = seq!['.'];
    let (a, b, c, d) = (p[0], p[1], p[2], p[3]);
    text::pieces_are_the_text(name, '.');
    text::joined_grows(seq![a], b, dot);
    assert(seq![a].push(b) =~= seq![a, b]);
    text::joined_grows(seq![a], a, dot);
    text::joined_grows(seq![a, b], c, dot);
    assert(seq![a, b].push(c) =~= seq![a, b, c]);
    text::joined_grows(seq![a, b, c], d, dot);
    assert(seq![a, b, c].push(d) =~= p);
    assert(a + dot + b + dot + c + dot + d =~= a.push('.') + (b.push('.') + (c.push('.') + d)));
}

/// The User-Agent carries the version and names the platform.
pub proof fn the_agent_carries_the_version(platform: Platform, version: Seq<char>)
    ensures
        text::occurs(agent(platform, version), version),
        text::begins_with(agent(platform, version), "Mozilla/5.0 ("@),
        platform is Linux ==> text::occurs(agent(platform, version), "X11; Linux x86_64"@),
        platform is MacOs ==> text::occurs(
            agent(platform, version),
            "Macintosh; Intel Mac OS X 10_15_7"@,
        ),
        platform is Windows ==> text::occurs(
            agent(platform, version),
            "Windows NT 10.0; Win64; x64"@,
        ),
{
    let a = "Mozilla/5.0 ("@;
    let b = platform_token(platform);
    let c = ") AppleWebKit/537.36 (KHTML, like Gecko) Chrome/"@;
    let d = " Safari/537.36"@;
    let all = agent(platform, version);
    text::occurs_inside(a + b + c, version, d);
    text::occurs_inside(a, b, c + version + d);
    assert(a + b + (c + version + d) =~= all);
    assert(all =~= a + (b + c + version + d));
    text::beginning_is_standing_first(all, a);
}

/// Where Chrome is looked for first, and how many places there are, on each platform.
pub proof fn chrome_is_looked_for_here(platform: Platform)
    ensures
        platform is Linux ==> candidates(platform).len() == 5 && candidates(platform)[0]@
            == "/usr/bin/google-chrome"@ && candidates(platform)[1]@
            == "/usr/bin/google-chrome-stable"@ && candidates(platform)[2]@ == "/usr/bin/chromium"@
            && candidates(platform)[3]@ == "/usr/bin/chromium-browser"@ && candidates(platform)[4]@
            == "/snap/bin/chromium"@,
        platform is MacOs ==> candidates(platform).len() == 2 && candidates(platform)[0]@
            == "/Applications/Google Chrome.app/Contents/MacOS/Google Chrome"@ && candidates(
            platform,
        )[1]@ == "/Applications/Chromium.app/Contents/MacOS/Chromium"@,
        platform is Windows ==> candidates(platform).len() == 2 && candidates(platform)[0]@
            == "C:\\Program Files\\Google\\Chrome\\Application\\chrome.exe"@ && candidates(
            platform,
        )[1]@ == "C:\\Program Files (x86)\\Google\\Chrome\\Application\\chrome.exe"@,
{
}

/// What is said where no version can be found names the path that was asked.
pub proof fn a_missing_version_names_the_path(path: Seq<char>)
    ensures
        text::occurs(no_version(path), path),
{
    text::occurs_inside(
        "could not determine the Chrome version from `"@,
        path,
        " --version` or from the install directory. Set K_RUOKA_USER_AGENT to a full User-Agent string to bypass this, or K_RUOKA_CHROME if that path is wrong."@,
    );
}

/// A candidate is there only where the list says so of its place.
pub proof fn presence_goes_by_the_place(present: Seq<bool>, k: int)
    ensures
        is_present(present, k) <==> 0 <= k < present.len() && present[k],
{
}

/// The flags are names without dashes, which the launcher adds itself, and among them are the
/// one that keeps a browser from announcing automation and the one for the shop's language.
pub proof fn the_flags_keep_quiet()
    ensures
        CHROME_ARGS@.len() == 19,
        forall|i: int|
            0 <= i < CHROME_ARGS@.len() ==> !text::begins_with(
                (#[trigger] CHROME_ARGS@[i])@,
                "-"@,
            ) && CHROME_ARGS@[i]@ != "enable-automation"@,
        exists|i: int|
            0 <= i < CHROME_ARGS@.len() && (#[trigger] CHROME_ARGS@[i])@
                == "disable-blink-features=AutomationControlled"@,
        exists|i: int|
            0 <= i < CHROME_ARGS@.len() && (#[trigger] CHROME_ARGS@[i])@ == "lang=fi-FI"@,
        exists|i: int|
            0 <= i < CHROME_ARGS@.len() && (#[trigger] CHROME_ARGS@[i])@ == "password-store=basic"@,
{
    reveal_strlit("disable-background-networking");
    reveal_strlit("disable-background-timer-throttling");
    reveal_strlit("disable-backgrounding-occluded-windows");
    reveal_strlit("disable-breakpad");
    reveal_strlit("disable-client-side-phishing-detection");
    reveal_strlit("disable-default-apps");
    reveal_strlit("disable-dev-shm-usage");
    reveal_strlit("disable-hang-monitor");
    reveal_strlit("disable-ipc-flooding-protection");
    reveal_strlit("disable-popup-blocking");
    reveal_strlit("disable-prompt-on-repost");
    reveal_strlit("disable-renderer-backgrounding");
    reveal_strlit("disable-sync");
    reveal_strlit("metrics-recording-only");
    reveal_strlit("no-first-run");
    reveal_strlit("password-store=basic");
    reveal_strlit("use-mock-keychain");
    reveal_strlit("disable-blink-features=AutomationControlled");
    reveal_strlit("lang=fi-FI");
    reveal_strlit("-");
    reveal_strlit("enable-automation");
    assert forall|i: int| 0 <= i < 19 implies !text::begins_with(
        (#[trigger] CHROME_ARGS@[i])@,
        "-"@,
    ) && CHROME_ARGS@[i]@ != "enable-automation"@ by {
        let a = CHROME_ARGS@[i]@;
        assert(a.len() > 0 && a[0] != '-' && a[0] != 'e');
        if text::begins_with(a, "-"@) {
            assert(a.subrange(0, 1)[0] == '-');
        }
    }
    assert(CHROME_ARGS@[17]@ == "disable-blink-features=AutomationControlled"@);
    assert(CHROME_ARGS@[18]@ == "lang=fi-FI"@);
    assert(CHROME_ARGS@[15]@ == "password-store=basic"@);
}

} // verus!
