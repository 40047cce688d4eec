//! The interactive sign-in: what the user is told, and when they are taken to be signed
//! in.
//!
//! Credentials are never automated. A real browser is put in front of the user, and the
//! account is watched for from a tab of its own.

use crate::browser::chrome::Platform;
use crate::browser::error::{ApiError, ErrorView};
use crate::types::Basket;
use crate::{json, text};
use vstd::prelude::*;

verus! {

/// How long to wait for the user, in minutes: long enough for a password manager, a hop to
/// another site and a second factor.
pub const LOGIN_TIMEOUT_MINUTES: u64 = 15;

/// How long to wait between two looks at the account, in seconds.
pub const POLL_EVERY_SECS: u64 = 3;

/// The store that is asked for the account. Any would do.
pub const DEFAULT_PROBE_STORE: &'static str = "N137";

/// The title that the watching tab is given, again at each look.
pub const POLLER_TITLE: &'static str = "[k-ruoka-mcp] poller - do NOT use this tab";

/// The title of the tab that is the user's.
pub const USER_TAB_TITLE: &'static str = "Tuotteet | K-Ruoka Verkkokauppa";

/// Set on a process that was started again under a virtual display.
pub const UNDER_XVFB_ENV: &'static str = "K_RUOKA_UNDER_XVFB";

/// Set by a user who wants no virtual display, and on a process that has one.
pub const NO_XVFB_ENV: &'static str = "K_RUOKA_NO_XVFB";

/// Whether the user can see the browser. What they are to do differs completely.
#[derive(Debug, Clone, Copy, PartialEq, Eq, Structural)]
pub enum Display {
    /// The window is on their screen.
    Real,
    /// There is no screen: the only way in is over the debugging port.
    Virtual,
}

impl Display {
    /// Which it is, given whether this process was started again under a virtual display
    /// and whether it has a display at all, of whichever kind. Without one it is about to
    /// get a virtual one.
    pub fn detect(under_xvfb: bool, has_display: bool) -> (r: Display)
        ensures
            r == (if !under_xvfb && has_display {
                Display::Real
            } else {
                Display::Virtual
            }),
    {
        if under_xvfb {
            Display::Virtual
        } else if has_display {
            Display::Real
        } else {
            Display::Virtual
        }
    }
}

/// What shows that the browser is up and the user is waited for.
pub const READY_MARKER: &'static str = "Sign in by hand";

/// Before the marker, in its frame.
pub const BANNER_START: &'static str = "┌─ ";

/// Behind the marker, in its frame.
pub const BANNER_END: &'static str = " ────────────────────────────────────────────────────┐
";

/// The steps where the window is on screen, up to the title of the user's tab.
pub const REAL_STEPS: &'static str =
    "│ A Chrome window has just opened on this machine.                     │
└──────────────────────────────────────────────────────────────────────┘

1. Switch to it and pick the tab titled

         ";

/// Between the title of the user's tab and that of the watching one.
pub const NOT_THE_POLLER: &'static str = "

   and NOT the one marked \"";

/// Behind the title of the watching tab, up to how often it is navigated.
pub const REAL_STEPS_POLLER: &'static str =
    "\" -- that one is this process
   checking whether you are signed in yet, and it gets navigated out from
   under you every ";

/// Behind that.
pub const REAL_STEPS_END: &'static str =
    " seconds.

2. Click \"Kirjaudu\" and sign in to K-Plussa as you normally would. It
   hands off to login.kesko.fi; that is expected.
";

/// The steps where the window is on screen.
pub open spec fn real_steps() -> Seq<char> {
    BANNER_START@ + READY_MARKER@ + BANNER_END@ + REAL_STEPS@ + USER_TAB_TITLE@ + NOT_THE_POLLER@ + POLLER_TITLE@ + REAL_STEPS_POLLER@
        + text::decimal(POLL_EVERY_SECS as nat) + REAL_STEPS_END@
}

/// The steps where the window is on screen.
pub fn real_display_steps() -> (r: String)
    ensures
        r@ == real_steps(),
{
    let mut r = BANNER_START.to_owned();
    r.append(READY_MARKER);
    r.append(BANNER_END);
    r.append(REAL_STEPS);
    r.append(USER_TAB_TITLE);
    r.append(NOT_THE_POLLER);
    r.append(POLLER_TITLE);
    r.append(REAL_STEPS_POLLER);
    let poll = text::number(POLL_EVERY_SECS);
    r.append(poll.as_str());
    r.append(REAL_STEPS_END);
    r
}

/// The steps where there is no screen, up to the tunnel.
pub const VIRTUAL_STEPS: &'static str =
    "│ The browser is running on this machine with no screen attached, so   │
│ reach it over an SSH tunnel and drive it from your own Chrome.       │
└──────────────────────────────────────────────────────────────────────┘

1. On your laptop:

    ssh -N -L ";

/// Behind the tunnel, up to the port to add.
pub const VIRTUAL_STEPS_INSPECT: &'static str =
    "

2. Open chrome://inspect in your local Chrome. Under \"Discover network
   targets\", click Configure and add   localhost:";

/// Behind the port to add, up to the title of the user's tab.
pub const VIRTUAL_STEPS_TAB: &'static str =
    "

3. Under \"Remote Target\" there will be two k-ruoka.fi tabs. Click
   \"inspect\" on the one titled

         ";

/// Behind the title of the watching tab.
pub const VIRTUAL_STEPS_END: &'static str =
    "\" -- that one is this process
   checking whether you are signed in yet.

4. In the inspector's screencast view, click \"Kirjaudu\" and sign in to
   K-Plussa as you normally would. It hands off to login.kesko.fi; that
   is expected.
";

/// The steps where there is no screen.
pub open spec fn virtual_steps(port: u16, host: Seq<char>) -> Seq<char> {
    BANNER_START@ + READY_MARKER@ + BANNER_END@ + VIRTUAL_STEPS@ + text::decimal(port as nat) + ":localhost:"@ + text::decimal(port as nat)
        + " "@ + host + VIRTUAL_STEPS_INSPECT@ + text::decimal(port as nat) + VIRTUAL_STEPS_TAB@
        + USER_TAB_TITLE@ + NOT_THE_POLLER@ + POLLER_TITLE@ + VIRTUAL_STEPS_END@
}

/// The steps where there is no screen: a tunnel to the debugging port of `host`.
pub fn virtual_display_steps(port: u16, host: &str) -> (r: String)
    ensures
        r@ == virtual_steps(port, host@),
{
    let number = text::number(port as u64);
    let mut r = BANNER_START.to_owned();
    r.append(READY_MARKER);
    r.append(BANNER_END);
    r.append(VIRTUAL_STEPS);
    r.append(number.as_str());
    r.append(":localhost:");
    r.append(number.as_str());
    r.append(" ");
    r.append(host);
    r.append(VIRTUAL_STEPS_INSPECT);
    r.append(number.as_str());
    r.append(VIRTUAL_STEPS_TAB);
    r.append(USER_TAB_TITLE);
    r.append(NOT_THE_POLLER);
    r.append(POLLER_TITLE);
    r.append(VIRTUAL_STEPS_END);
    r
}

/// What follows the steps.
pub const REASSURANCE: &'static str =
    "
Nothing here types your credentials for you, and this process never sees
them -- it only watches for K-Ruoka to start reporting an account.
Waiting (Ctrl-C to give up)...
";

/// What the user is told.
pub open spec fn instructions_view(display: Display, port: u16, host: Seq<char>) -> Seq<char> {
    "\n"@ + (match display {
        Display::Real => real_steps(),
        Display::Virtual => virtual_steps(port, host),
    }) + REASSURANCE@
}

/// What the user is told.
pub fn instructions(display: Display, port: u16, host: &str) -> (r: String)
    ensures
        r@ == instructions_view(display, port, host@),
{
    let steps = match display {
        Display::Real => real_display_steps(),
        Display::Virtual => virtual_display_steps(port, host),
    };
    let mut r = "\n".to_owned();
    r.append(steps.as_str());
    r.append(REASSURANCE);
    r
}

proof fn stands_behind(all: Seq<char>, before: Seq<char>, part: Seq<char>)
    requires
        before.len() + part.len() <= all.len(),
        all.take((before.len() + part.len()) as int) == before + part,
    ensures
        text::occurs(all, part),
{
    let i = before.len() as int;
    let head = all.take((before.len() + part.len()) as int);
    assert(all.subrange(i, i + part.len()) =~= head.subrange(i, i + part.len()));
    assert(head.subrange(i, i + part.len()) =~= part);
    assert(text::occurs_at(all, part, i));
}

proof fn led_by(head: Seq<char>, tail: Seq<char>, more: Seq<char>)
    requires
        head.len() <= tail.len(),
        tail.take(head.len() as int) == head,
    ensures
        head.len() <= (tail + more).len(),
        (tail + more).take(head.len() as int) == head,
{
    assert((tail + more).take(head.len() as int) =~= tail.take(head.len() as int));
}

/// What a login tells its user is what shows that it is ready: the marker stands in the
/// instructions, with a screen or without.
pub proof fn instructions_show_readiness(display: Display, port: u16, host: Seq<char>)
    ensures
        text::occurs(instructions_view(display, port, host), READY_MARKER@),
{
    let head = BANNER_START@ + READY_MARKER@;
    assert(head.take(head.len() as int) =~= head);
    let number = text::decimal(port as nat);
    let steps = match display {
        Display::Real => {
            let a = head + BANNER_END@;
            led_by(head, head, BANNER_END@);
            led_by(head, a, REAL_STEPS@);
            let a = a + REAL_STEPS@;
            led_by(head, a, USER_TAB_TITLE@);
            let a = a + USER_TAB_TITLE@;
            led_by(head, a, NOT_THE_POLLER@);
            let a = a + NOT_THE_POLLER@;
            led_by(head, a, POLLER_TITLE@);
            let a = a + POLLER_TITLE@;
            led_by(head, a, REAL_STEPS_POLLER@);
            let a = a + REAL_STEPS_POLLER@;
            led_by(head, a, text::decimal(POLL_EVERY_SECS as nat));
            let a = a + text::decimal(POLL_EVERY_SECS as nat);
            led_by(head, a, REAL_STEPS_END@);
            real_steps()
        },
        Display::Virtual => {
            let a = head + BANNER_END@;
            led_by(head, head, BANNER_END@);
            led_by(head, a, VIRTUAL_STEPS@);
            let a = a + VIRTUAL_STEPS@;
            led_by(head, a, number);
            let a = a + number;
            led_by(head, a, ":localhost:"@);
            let a = a + ":localhost:"@;
            led_by(head, a, number);
            let a = a + number;
            led_by(head, a, " "@);
            let a = a + " "@;
            led_by(head, a, host);
            let a = a + host;
            led_by(head, a, VIRTUAL_STEPS_INSPECT@);
            let a = a + VIRTUAL_STEPS_INSPECT@;
            led_by(head, a, number);
            let a = a + number;
            led_by(head, a, VIRTUAL_STEPS_TAB@);
            let a = a + VIRTUAL_STEPS_TAB@;
            led_by(head, a, USER_TAB_TITLE@);
            let a = a + USER_TAB_TITLE@;
            led_by(head, a, NOT_THE_POLLER@);
            let a = a + NOT_THE_POLLER@;
            led_by(head, a, POLLER_TITLE@);
            let a = a + POLLER_TITLE@;
            led_by(head, a, VIRTUAL_STEPS_END@);
            virtual_steps(port, host)
        },
    };
    let line = "\n"@;
    assert(steps.take(head.len() as int) == head);
    assert((line + steps).take((line + head).len() as int) =~= line + steps.take(
        head.len() as int,
    ));
    led_by(line + head, line + steps, REASSURANCE@);
    assert((line + BANNER_START@) + READY_MARKER@ =~= line + head);
    stands_behind(instructions_view(display, port, host), line + BANNER_START@, READY_MARKER@);
}

/// The name of this machine: what its file says, or else the first variable that says
/// anything, or else a placeholder.
pub open spec fn host_view(
    file: Option<&str>,
    variable: Option<&str>,
    computer_name: Option<&str>,
) -> Seq<char> {
    if file is Some && !text::is_blank(file->0@) {
        text::trimmed(file->0@)
    } else if variable is Some && variable->0@.len() > 0 {
        variable->0@
    } else if computer_name is Some && computer_name->0@.len() > 0 {
        computer_name->0@
    } else {
        "<this-host>"@
    }
}

/// The name of this machine, from what `/etc/hostname`, `HOSTNAME` and `COMPUTERNAME` hold.
/// Only used to print a command to copy, so a placeholder is harmless.
pub fn hostname(file: Option<&str>, variable: Option<&str>, computer_name: Option<&str>) -> (r:
    String)
    ensures
        r@ == host_view(file, variable, computer_name),
{
    if let Some(t) = file {
        proof {
            text::trimmed_empty_iff_blank(t@);
        }
        let name = text::trim(t);
        if !name.is_empty() {
            return name.to_owned();
        }
    }
    if let Some(t) = variable {
        if !t.is_empty() {
            return t.to_owned();
        }
    }
    if let Some(t) = computer_name {
        if !t.is_empty() {
            return t.to_owned();
        }
    }
    "<this-host>".to_owned()
}

/// What is said of a debugging port that is taken.
pub fn port_taken(port: u16) -> (r: String)
    ensures
        r@ == "something is already listening on port "@ + text::decimal(port as nat)
            + " -- most likely a Chrome left over from an earlier `login`. Close it (pkill -f remote-debugging-port="@
            + text::decimal(port as nat) + ") or pass --port with a different one."@,
{
    let number = text::number(port as u64);
    let mut m = "something is already listening on port ".to_owned();
    m.append(number.as_str());
    m.append(
        " -- most likely a Chrome left over from an earlier `login`. Close it (pkill -f remote-debugging-port=",
    );
    m.append(number.as_str());
    m.append(") or pass --port with a different one.");
    m
}

/// What this process knows of displays.
#[derive(Debug, Clone, Copy, PartialEq, Eq, Structural)]
pub struct Surroundings {
    pub platform: Platform,
    /// `DISPLAY` is set.
    pub display: bool,
    /// `WAYLAND_DISPLAY` is set.
    pub wayland: bool,
    /// [`NO_XVFB_ENV`] is set.
    pub no_xvfb: bool,
    /// [`UNDER_XVFB_ENV`] is set.
    pub under_xvfb: bool,
}

impl Surroundings {
    /// A virtual display is needed: there is no other, and none was declined. Only on
    /// Linux; elsewhere there is always a desktop.
    pub open spec fn needs_xvfb(self) -> bool {
        self.platform is Linux && !self.display && !self.wayland && !self.no_xvfb
    }

    /// The windows of this process are on a screen: it has a display, by either variable or
    /// by its platform, and that is not the virtual one it was started again under.
    pub open spec fn on_screen(self) -> bool {
        !self.under_xvfb && (self.display || self.wayland || !(self.platform is Linux))
    }

    /// Where the browser shows. An X session, a Wayland session and any desktop but Linux's
    /// are real displays, short of a virtual one that this process was started again under.
    pub fn shown_on(self) -> (r: Display)
        ensures
            r == (if self.on_screen() {
                Display::Real
            } else {
                Display::Virtual
            }),
    {
        let desktop = match self.platform {
            Platform::Linux => false,
            _ => true,
        };
        Display::detect(self.under_xvfb, self.display || self.wayland || desktop)
    }

    /// The surroundings of the process that is started again under a virtual display: it
    /// has that display, and both variables set.
    pub open spec fn under_virtual_display(self) -> Surroundings {
        Surroundings { display: true, no_xvfb: true, under_xvfb: true, ..self }
    }
}

/// What to do about the display.
#[derive(Debug, Clone, Copy, PartialEq, Eq, Structural)]
pub enum Reexec {
    /// Go on as it is.
    Stay,
    /// Start again under `xvfb-run`, with [`NO_XVFB_ENV`] and [`UNDER_XVFB_ENV`] set.
    UnderXvfb,
    /// `xvfb-run` is needed and not there.
    Missing,
}

/// What is said where `xvfb-run` is needed and not there.
pub const XVFB_MISSING: &'static str =
    "no DISPLAY and `xvfb-run` is not installed. Install it (apt install xvfb) or run `login` somewhere with a display.";

/// What to do about the display, given whether `xvfb-run` is installed.
pub fn reexec_under_xvfb_if_headless(around: Surroundings, xvfb_installed: bool) -> (r: Reexec)
    ensures
        r == (if !around.needs_xvfb() {
            Reexec::Stay
        } else if xvfb_installed {
            Reexec::UnderXvfb
        } else {
            Reexec::Missing
        }),
{
    match around.platform {
        Platform::Linux => {
            if around.display || around.wayland || around.no_xvfb {
                Reexec::Stay
            } else if xvfb_installed {
                Reexec::UnderXvfb
            } else {
                Reexec::Missing
            }
        },
        _ => Reexec::Stay,
    }
}

/// A process is started again once: under its virtual display it goes on as it is, and
/// tells its user how to reach a browser without a screen.
pub proof fn started_again_once(around: Surroundings)
    requires
        around.needs_xvfb(),
    ensures
        !around.under_virtual_display().needs_xvfb(),
        !around.under_virtual_display().on_screen(),
{
}

/// A process that goes on as it is, though no virtual display was declined or arranged, has
/// its windows on a screen: in an X session, in a Wayland session and on every platform but
/// Linux its user is told of the window, and not of a tunnel.
pub proof fn a_session_of_its_own_is_on_screen(around: Surroundings)
    requires
        !around.needs_xvfb(),
        !around.no_xvfb,
        !around.under_xvfb,
    ensures
        around.on_screen(),
{
}

/// The script that titles the watching tab.
pub fn poller_script() -> (r: String)
    ensures
        r@ == "document.title = "@ + json::quoted(POLLER_TITLE@),
{
    let mut r = "document.title = ".to_owned();
    let title = json::quote(POLLER_TITLE);
    r.append(title.as_str());
    r
}

/// What is said where K-Ruoka cannot be reached before the user is asked to sign in.
pub open spec fn unreachable_view(e: ErrorView) -> Seq<char> {
    "cannot reach K-Ruoka, so signing in would not be detected: "@ + e.words()
}

/// What is said once the time is up.
pub open spec fn timed_out_view() -> Seq<char> {
    "timed out after "@ + text::decimal(LOGIN_TIMEOUT_MINUTES as nat)
        + " minutes without seeing a signed-in account"@
}

/// The line that announces a signed-in account, with the line breaks around it.
pub open spec fn announcement(who: Seq<char>) -> Seq<char> {
    "\nSigned in as "@ + who + ".\n"@
}

/// The wait for the user: how long it may last, in nanoseconds since any fixed moment.
#[derive(Debug)]
pub struct Watch {
    pub deadline: u128,
}

/// What the wait has come to.
#[derive(Debug)]
pub enum Watching {
    /// Sleep for [`POLL_EVERY_SECS`], then look at the account.
    Look,
    /// The time is up.
    TimedOut(String),
}

impl Watch {
    /// How long the wait may last, in nanoseconds.
    pub open spec fn timeout() -> int {
        LOGIN_TIMEOUT_MINUTES * 60 * 1_000_000_000
    }

    /// Begin to wait, given K-Ruoka's answer to a first look. That nobody is signed in yet
    /// is expected; that there is no answer would otherwise be found out at the end of the
    /// wait, and blamed on the user.
    pub fn begin(first: Result<Basket, ApiError>, now: u128) -> (r: Result<Watch, String>)
        requires
            now + Watch::timeout() <= u128::MAX,
        ensures
            first is Ok ==> (r matches Ok(w) && w.deadline == now + Watch::timeout()),
            first matches Err(e) ==> (r matches Err(m) && m@ == unreachable_view(first->Err_0@)),
    {
        match first {
            Ok(_) => Ok(
                Watch { deadline: now + LOGIN_TIMEOUT_MINUTES as u128 * 60 * 1_000_000_000 },
            ),
            Err(e) => {
                let mut m =
                    "cannot reach K-Ruoka, so signing in would not be detected: ".to_owned();
                let words = e.describe();
                m.append(words.as_str());
                Err(m)
            },
        }
    }

    /// Whether to look again.
    pub fn next(&self, now: u128) -> (r: Watching)
        ensures
            now < self.deadline ==> r is Look,
            now >= self.deadline ==> (r matches Watching::TimedOut(m) && m@ == timed_out_view()),
    {
        if now < self.deadline {
            return Watching::Look;
        }
        let mut m = "timed out after ".to_owned();
        let minutes = text::number(LOGIN_TIMEOUT_MINUTES);
        m.append(minutes.as_str());
        m.append(" minutes without seeing a signed-in account");
        Watching::TimedOut(m)
    }

    /// The account that a look found. A failed look is expected while the user is away on
    /// the sign-in page, and is no account.
    pub fn looked(reply: &Result<Basket, ApiError>) -> (r: Option<String>)
        ensures
            match reply {
                Ok(basket) => {
                    &&& r is Some == basket.user_info.account() is Some
                    &&& r matches Some(who) ==> basket.user_info.account() == Some(who@)
                },
                Err(_) => r is None,
            },
    {
        match reply {
            Ok(basket) => basket.user_info.display(),
            Err(_) => None,
        }
    }
}

/// The line that announces a signed-in account, with the line breaks around it.
pub fn announce(who: &str) -> (r: String)
    ensures
        r@ == announcement(who@),
{
    let mut r = "\nSigned in as ".to_owned();
    r.append(who);
    r.append(".\n");
    r
}

/// Which processes need a virtual display and which have their windows on a screen goes by
/// their surroundings alone, and a process under a virtual display differs from the one that
/// started it in that display and its two variables.
pub proof fn displays_go_by_the_surroundings(around: Surroundings)
    ensures
        around.needs_xvfb() <==> around.platform is Linux && !around.display && !around.wayland
            && !around.no_xvfb,
        around.on_screen() <==> !around.under_xvfb && (around.display || around.wayland
            || around.platform is MacOs || around.platform is Windows),
        ({
            let under = around.under_virtual_display();
            under.display && under.no_xvfb && under.under_xvfb && under.platform == around.platform
                && under.wayland == around.wayland
        }),
{
}

/// Who has no screen is told the way in: the tunnel, from the port to the same port, to the
/// host by its name, and the two tabs by their titles.
pub proof fn the_tunnel_is_told_in_full(port: u16, host: Seq<char>)
    ensures
        ({
            let told = instructions_view(Display::Virtual, port, host);
            let n = text::decimal(port as nat);
            &&& text::occurs(told, n + ":localhost:"@ + n + " "@ + host)
            &&& text::occurs(told, VIRTUAL_STEPS_INSPECT@ + n)
            &&& text::occurs(told, USER_TAB_TITLE@)
            &&& text::occurs(told, POLLER_TITLE@)
        }),
{
    let told = instructions_view(Display::Virtual, port, host);
    let n = text::decimal(port as nat);
    let a = "\n"@ + (BANNER_START@ + READY_MARKER@ + BANNER_END@ + VIRTUAL_STEPS@);
    let way = n + ":localhost:"@ + n + " "@ + host;
    let b = VIRTUAL_STEPS_INSPECT@ + n;
    let c = VIRTUAL_STEPS_TAB@;
    let d = NOT_THE_POLLER@;
    let e = VIRTUAL_STEPS_END@ + REASSURANCE@;
    assert(told =~= a + way + b + c + USER_TAB_TITLE@ + d + POLLER_TITLE@ + e);
    stands_where_put(told, a, way, b + c + USER_TAB_TITLE@ + d + POLLER_TITLE@ + e);
    stands_where_put(told, a + way, b, c + USER_TAB_TITLE@ + d + POLLER_TITLE@ + e);
    stands_where_put(told, a + way + b + c, USER_TAB_TITLE@, d + POLLER_TITLE@ + e);
    stands_where_put(told, a + way + b + c + USER_TAB_TITLE@ + d, POLLER_TITLE@, e);
}

proof fn stands_where_put(all: Seq<char>, before: Seq<char>, part: Seq<char>, rest: Seq<char>)
    requires
        all =~= before + part + rest,
    ensures
        text::occurs(all, part),
{
    text::occurs_inside(before, part, rest);
}

/// Who has the window on screen is told of it and of the two tabs by their titles, and of no
/// port and no host: whichever they are, the words are the same.
pub proof fn the_window_is_told_without_a_tunnel(
    port: u16,
    host: Seq<char>,
    other_port: u16,
    other_host: Seq<char>,
)
    ensures
        ({
            let told = instructions_view(Display::Real, port, host);
            &&& told == instructions_view(Display::Real, other_port, other_host)
            &&& text::occurs(told, REAL_STEPS@)
            &&& text::occurs(told, USER_TAB_TITLE@)
            &&& text::occurs(told, POLLER_TITLE@)
            &&& text::occurs(told, text::decimal(POLL_EVERY_SECS as nat))
        }),
{
    let told = instructions_view(Display::Real, port, host);
    let a = "\n"@ + (BANNER_START@ + READY_MARKER@ + BANNER_END@);
    let b = REAL_STEPS@;
    let c = USER_TAB_TITLE@;
    let d = NOT_THE_POLLER@;
    let e = POLLER_TITLE@;
    let f = REAL_STEPS_POLLER@;
    let n = text::decimal(POLL_EVERY_SECS as nat);
    let g = REAL_STEPS_END@ + REASSURANCE@;
    assert(told =~= a + b + c + d + e + f + n + g);
    stands_where_put(told, a, b, c + d + e + f + n + g);
    stands_where_put(told, a + b, c, d + e + f + n + g);
    stands_where_put(told, a + b + c + d, e, f + n + g);
    stands_where_put(told, a + b + c + d + e + f, n, g);
}

/// The machine is named by the file where that says anything, without the white space around
/// it, or else by the first of the two variables that does, as it is.
pub proof fn the_host_is_named_in_order(
    file: Option<&str>,
    variable: Option<&str>,
    computer_name: Option<&str>,
)
    ensures
        ({
            let host = host_view(file, variable, computer_name);
            let by_file = file matches Some(t) && text::trimmed(t@).len() > 0;
            let by_variable = variable matches Some(t) && t@.len() > 0;
            let by_name = computer_name matches Some(t) && t@.len() > 0;
            &&& by_file ==> host == text::trimmed(file->0@)
            &&& !by_file && by_variable ==> host == variable->0@
            &&& !by_file && !by_variable && by_name ==> host == computer_name->0@
            &&& !by_file && !by_variable && !by_name ==> host == "<this-host>"@
        }),
{
    if let Some(t) = file {
        text::trimmed_empty_iff_blank(t@);
    }
}

/// The wait lasts fifteen minutes, and says so where it was in vain; one that cannot begin
/// says why.
pub proof fn the_wait_is_a_quarter_of_an_hour(e: ErrorView)
    ensures
        Watch::timeout() == 15 * 60 * 1_000_000_000,
        text::occurs(timed_out_view(), text::decimal(15)),
        text::occurs(unreachable_view(e), e.words()),
{
    let none = Seq::<char>::empty();
    let lead = "cannot reach K-Ruoka, so signing in would not be detected: "@;
    stands_where_put(unreachable_view(e), lead, e.words(), none);
    stands_where_put(
        timed_out_view(),
        "timed out after "@,
        text::decimal(15),
        " minutes without seeing a signed-in account"@,
    );
}

} // verus!
