//! The browser session: when a browser is launched, replaced, given up or refused, and
//! which failed calls are tried again.
//!
//! One browser owns the profile at a time. What the session decides is here, in steps;
//! whoever drives it holds the browser itself, does what a step says, and reports back.

use crate::browser::error::{self, ApiError, ErrorView};
use crate::text;
use vstd::prelude::*;

verus! {

pub const SHOP_URL: &'static str = "https://www.k-ruoka.fi/kauppa";

pub const SHOP_ORIGIN: &'static str = "https://www.k-ruoka.fi";

#[derive(Debug, Clone, Copy, PartialEq, Eq, Structural)]
pub enum LaunchMode {
    /// Without a window, for `serve`.
    Headless,
    /// With a window, for `login`. Needs a display.
    Headful { debug_port: u16 },
}

/// What to do about a failed attempt.
#[derive(Debug, PartialEq, Eq)]
pub enum Recovery {
    /// Keep this build number and try again.
    RefreshBuild(String),
    /// Replace the browser and try again.
    Relaunch,
    /// Not recoverable, or the one retry has been spent.
    GiveUp,
}

impl Recovery {
    /// This is the remedy for `e`: a wanted build number is taken up, and a block costs
    /// the browser, each unless that is off the table. Nothing else is retried.
    pub open spec fn remedies(
        self,
        e: ErrorView,
        relaunch_unavailable: bool,
        refreshed_build: bool,
    ) -> bool {
        match e {
            ErrorView::StaleBuild { wanted: Some(build) } if !refreshed_build => {
                self matches Recovery::RefreshBuild(b) && b@ == build
            },
            ErrorView::Cloudflare { detail } if !relaunch_unavailable => self is Relaunch,
            _ => self is GiveUp,
        }
    }
}

/// The remedy for a failure.
///
/// `relaunch_unavailable` and `refreshed_build` say whether that remedy is off the table:
/// spent on this request, or, for the relaunch, never permitted because a person is using
/// the browser. A build number is only taken up where the failure carried one.
pub fn plan_recovery(error: &ApiError, relaunch_unavailable: bool, refreshed_build: bool) -> (r:
    Recovery)
    ensures
        r.remedies(error@, relaunch_unavailable, refreshed_build),
{
    match error {
        ApiError::StaleBuild { wanted } => match wanted {
            Some(build) => {
                if !refreshed_build {
                    Recovery::RefreshBuild(build.clone())
                } else {
                    Recovery::GiveUp
                }
            },
            None => Recovery::GiveUp,
        },
        ApiError::Cloudflare { .. } => {
            if !relaunch_unavailable {
                Recovery::Relaunch
            } else {
                Recovery::GiveUp
            }
        },
        _ => Recovery::GiveUp,
    }
}

/// The browser went away because the process is stopping.
pub open spec fn closed_view() -> ErrorView {
    ErrorView::Other("the server is shutting down; no new browser will be started"@)
}

/// The browser went away because the process is stopping: it was asked for after the
/// close, or the close came in between. Never retried.
pub fn closed_underneath_us() -> (r: ApiError)
    ensures
        r@ == closed_view(),
{
    ApiError::Other("the server is shutting down; no new browser will be started".to_owned())
}

/// Whether relaunching would destroy something a person is in the middle of: the browser
/// with a window is the one they are signing in through.
pub fn relaunch_costs_a_human_their_login(mode: LaunchMode) -> (r: bool)
    ensures
        r == (mode is Headful),
{
    match mode {
        LaunchMode::Headful { .. } => true,
        LaunchMode::Headless => false,
    }
}

/// A relaunch on account of the browser `blocked` should replace the browser `current`:
/// there is none, or it is the one that was blocked.
pub open spec fn replaces(current: Option<u64>, blocked: Option<u64>) -> bool {
    current is None || current == blocked
}

/// Whether a relaunch should replace the live browser.
///
/// `current` is the browser now live, `blocked` the one the failed attempt used. An attempt
/// that never had a browser has none to blame: whatever is there arrived after it gave up.
pub fn should_replace(current: Option<u64>, blocked: Option<u64>) -> (r: bool)
    ensures
        r == replaces(current, blocked),
{
    match (current, blocked) {
        (None, _) => true,
        (Some(current), Some(blocked)) => current == blocked,
        (Some(_), None) => false,
    }
}

/// The remedies that one request has left. Each is allowed once.
#[derive(Debug)]
pub struct Attempts {
    pub mode: LaunchMode,
    pub relaunched: bool,
    pub refreshed_build: bool,
}

/// What to do after a failed attempt.
#[derive(Debug)]
pub enum Retry {
    /// Keep this build number, and try again.
    WithBuild { build: String, note: String },
    /// Replace the browser, and try again.
    WithNewBrowser { note: String },
    /// The request failed.
    Fail(ApiError),
}

/// `retry` is what to do about `error`, and `after` the remedies left: a wanted build number
/// is taken up and a block costs the browser, each once, and every other failure stands.
pub open spec fn failed_to(before: Attempts, error: ApiError, after: Attempts, retry: Retry) -> bool {
    let unavailable = before.relaunched || before.mode is Headful;
    match retry {
        Retry::WithBuild { build, note } => {
            &&& error@ == (ErrorView::StaleBuild { wanted: Some(build@) })
            &&& !before.refreshed_build
            &&& after == (Attempts { refreshed_build: true, ..before })
            &&& note@ == "k-ruoka-mcp: build number was stale, retrying with "@ + build@
        },
        Retry::WithNewBrowser { note } => {
            &&& error@ is Cloudflare
            &&& !unavailable
            &&& after == (Attempts { relaunched: true, ..before })
            &&& note@ == "k-ruoka-mcp: "@ + error@.words()
                + "; relaunching the browser against the same profile (never deleting it) and retrying once"@
        },
        Retry::Fail(e) => {
            &&& e == error
            &&& after == before
            &&& Recovery::GiveUp.remedies(error@, unavailable, before.refreshed_build)
        },
    }
}

impl Attempts {
    /// The remedies that are left, by their number.
    pub open spec fn left(&self) -> nat {
        (if self.relaunched || self.mode is Headful {
            0nat
        } else {
            1nat
        }) + (if self.refreshed_build {
            0nat
        } else {
            1nat
        })
    }

    pub fn new(mode: LaunchMode) -> (r: Attempts)
        ensures
            r.mode == mode,
            !r.relaunched,
            !r.refreshed_build,
            r.left() <= 2,
    {
        Attempts { mode, relaunched: false, refreshed_build: false }
    }

    /// Takes note of a failed attempt and says what to do about it: try again with a build
    /// number or a new browser, where that remedy is left, or fail with the error as it is.
    /// Every remedy that is taken is spent, so a request is attempted three times at most.
    pub fn failed(&mut self, error: ApiError) -> (r: Retry)
        ensures
            failed_to(*old(self), error, *final(self), r),
    {
        let unavailable = self.relaunched || relaunch_costs_a_human_their_login(self.mode);
        match plan_recovery(&error, unavailable, self.refreshed_build) {
            Recovery::RefreshBuild(build) => {
                self.refreshed_build = true;
                let mut note = "k-ruoka-mcp: build number was stale, retrying with ".to_owned();
                note.append(build.as_str());
                Retry::WithBuild { build, note }
            },
            Recovery::Relaunch => {
                self.relaunched = true;
                let mut note = "k-ruoka-mcp: ".to_owned();
                let words = error.describe();
                note.append(words.as_str());
                note.append(
                    "; relaunching the browser against the same profile (never deleting it) and retrying once",
                );
                Retry::WithNewBrowser { note }
            },
            Recovery::GiveUp => Retry::Fail(error),
        }
    }
}

/// One step of a call.
#[derive(Debug)]
pub enum CallStep {
    /// Get a live page; then [`Call::got_page`].
    GetPage,
    /// Make the request on the page of this browser; then [`Call::answered`].
    Fetch { generation: u64 },
    /// Keep this build number, say so, and get a live page again.
    KeepBuild { build: String, note: String },
    /// Say so, and replace the browser that was blocked, where there was one; then
    /// [`Call::relaunched`].
    Relaunch { blocked: Option<u64>, note: String },
    Done(Result<serde_json::Value, ApiError>),
}

impl CallStep {
    /// This is what follows a failed attempt on the browser `blocked`, given what the
    /// attempts that are left come to.
    pub open spec fn follows(self, blocked: Option<u64>, retry: Retry) -> bool {
        match retry {
            Retry::WithBuild { build, note } => self == (CallStep::KeepBuild { build, note }),
            Retry::WithNewBrowser { note } => self == (CallStep::Relaunch { blocked, note }),
            Retry::Fail(e) => self == CallStep::Done(Err(e)),
        }
    }
}

/// A call of a `/kr-api/` endpoint: attempts, with the two remedies between them. A failure
/// to get a page is an attempt that failed too, on no browser in particular, and takes the
/// same way: a refused page load is where a block mostly shows.
#[derive(Debug)]
pub struct Call {
    pub attempts: Attempts,
}

impl Call {
    pub fn new(mode: LaunchMode) -> (r: Call)
        ensures
            r.attempts.mode == mode,
            !r.attempts.relaunched,
            !r.attempts.refreshed_build,
            r.attempts.left() <= 2,
    {
        Call { attempts: Attempts::new(mode) }
    }

    fn recover(&mut self, blocked: Option<u64>, error: ApiError) -> (r: CallStep)
        ensures
            exists|retry: Retry|
                #[trigger] failed_to(old(self).attempts, error, final(self).attempts, retry)
                    && r.follows(blocked, retry),
    {
        let ghost before = self.attempts;
        let retry = self.attempts.failed(error);
        assert(failed_to(before, error, self.attempts, retry));
        match retry {
            Retry::WithBuild { build, note } => CallStep::KeepBuild { build, note },
            Retry::WithNewBrowser { note } => CallStep::Relaunch { blocked, note },
            Retry::Fail(e) => CallStep::Done(Err(e)),
        }
    }

    /// A live page was got, or was not.
    pub fn got_page(&mut self, result: Result<u64, ApiError>) -> (r: CallStep)
        ensures
            result matches Ok(generation) ==> r == (CallStep::Fetch { generation })
                && *final(self) == *old(self),
            result matches Err(e) ==> exists|retry: Retry|
                #[trigger] failed_to(old(self).attempts, e, final(self).attempts, retry)
                    && r.follows(None, retry),
    {
        match result {
            Ok(generation) => CallStep::Fetch { generation },
            Err(e) => self.recover(None, e),
        }
    }

    /// The request was answered, or failed, on the page of this browser.
    pub fn answered(&mut self, generation: u64, result: Result<serde_json::Value, ApiError>) -> (r:
        CallStep)
        ensures
            result is Ok ==> r == CallStep::Done(result) && *final(self) == *old(self),
            result matches Err(e) ==> exists|retry: Retry|
                #[trigger] failed_to(old(self).attempts, e, final(self).attempts, retry)
                    && r.follows(Some(generation), retry),
    {
        match result {
            Ok(value) => CallStep::Done(Ok(value)),
            Err(e) => self.recover(Some(generation), e),
        }
    }

    /// The browser was replaced, or could not be. That it could not be ends the call.
    pub fn relaunched(result: Result<(), ApiError>) -> (r: CallStep)
        ensures
            result is Ok ==> r is GetPage,
            result matches Err(e) ==> r == CallStep::Done(Err(e)),
    {
        match result {
            Ok(()) => CallStep::GetPage,
            Err(e) => CallStep::Done(Err(e)),
        }
    }
}

/// A call ends: each of its remedies leaves fewer, and there are two at most. Whatever
/// happens it is attempted three times at most.
pub proof fn calls_end(before: Attempts, error: ApiError, after: Attempts, retry: Retry)
    requires
        failed_to(before, error, after, retry),
    ensures
        before.left() <= 2,
        !(retry is Fail) ==> after.left() < before.left(),
        after.left() <= before.left(),
{
}

/// An expired session is never retried, nor is anything else but a block and a wanted build
/// number.
pub proof fn only_two_failures_are_retried(
    before: Attempts,
    error: ApiError,
    after: Attempts,
    retry: Retry,
)
    requires
        failed_to(before, error, after, retry),
        !(error@ is Cloudflare),
        !(error@ is StaleBuild),
    ensures
        retry == Retry::Fail(error),
        after == before,
{
}

/// A browser with a window is never replaced: a person may be signing in through it.
pub proof fn a_window_is_never_taken_away(
    before: Attempts,
    error: ApiError,
    after: Attempts,
    retry: Retry,
)
    requires
        failed_to(before, error, after, retry),
        before.mode is Headful,
    ensures
        !(retry is WithNewBrowser),
{
}

/// Takes up the build number that a response carries, where it carries one, so that the
/// first call of a process gets going off its own refusal.
pub fn learn_build(known: &mut Option<String>, seen: &Option<String>)
    ensures
        seen is Some ==> *final(known) == *seen,
        seen is None ==> *final(known) == *old(known),
{
    if let Some(build) = seen {
        *known = Some(build.clone());
    }
}

/// The in-page request answered in a shape of its own.
pub fn unexpected_fetch_shape() -> (r: ApiError)
    ensures
        r@ == ErrorView::Other("unexpected shape from the in-page fetch helper"@),
{
    ApiError::Other("unexpected shape from the in-page fetch helper".to_owned())
}

/// The session of the one browser: which one is live, by its generation, and whether one may
/// be launched.
#[derive(Debug)]
pub struct Session {
    pub mode: LaunchMode,
    /// The process is stopping: no browser is launched any more.
    pub closed: bool,
    /// An interactive login owns the profile.
    pub login_in_progress: bool,
    /// The generation of the next browser.
    pub next_generation: u64,
    /// The generation of the live browser.
    pub live: Option<u64>,
}

/// What the page of the live browser answered when asked for its address.
#[derive(Debug)]
pub enum UrlProbe {
    /// The address, where it has one.
    At(Option<String>),
    /// Nothing: the browser is gone.
    Dead,
}

/// What to do with the browser that was live, before another one is launched.
#[derive(Debug, Clone, Copy, PartialEq, Eq, Structural)]
pub enum Predecessor {
    /// There was none.
    Absent,
    /// It is gone already: let go of it.
    Gone,
    /// Close it, so that it writes its cookies back to the profile, and wait for it.
    Running,
}

/// One step on the way to a live browser on the shop's page.
#[derive(Debug)]
pub enum LiveStep {
    /// Ask the live page for its address; then [`Session::url_read`].
    ReadUrl,
    /// Take the live page back to the shop; then [`Session::renavigated`].
    Renavigate,
    /// Deal with the predecessor and launch a browser; then [`Session::launched`].
    Launch(Predecessor),
    /// Take the new browser to the shop; then [`Session::navigated`].
    Navigate { generation: u64 },
    /// Shut the browser down, and be done with this error.
    ShutDown(ApiError),
    Done(Result<(), ApiError>),
}

impl LiveStep {
    /// Done, with a live browser.
    pub open spec fn ready(self) -> bool {
        self == LiveStep::Done(Ok(()))
    }

    /// Done, without a live browser.
    pub open spec fn fails(self, e: ErrorView) -> bool {
        self matches LiveStep::Done(Err(x)) && x@ == e
    }
}

/// What is said while a login owns the profile.
pub open spec fn login_view() -> ErrorView {
    ErrorView::InvalidRequest(
        "a login is in progress and it owns the browser profile until it finishes. Call login_status to see how it is going, or cancel_login to give up, then retry."@,
    )
}

impl Session {
    /// A browser may be launched.
    pub open spec fn available(&self) -> bool {
        !self.closed && !self.login_in_progress
    }

    /// What is said where none may be.
    pub open spec fn refusal(&self) -> ErrorView {
        if self.closed {
            closed_view()
        } else {
            login_view()
        }
    }

    /// The live browser has a generation below the next one, and owns the profile: none is
    /// live while a login does, nor once the process is stopping.
    pub open spec fn wf(&self) -> bool {
        self.live matches Some(g) ==> g < self.next_generation && self.available()
    }

    /// With no live browser.
    pub open spec fn emptied(self) -> Session {
        Session { live: None, ..self }
    }

    /// After a launch.
    pub open spec fn after_launch(self) -> Session {
        Session { next_generation: self.next_generation.wrapping_add(1), ..self }
    }

    /// With a new browser live.
    pub open spec fn filled(self, generation: u64) -> Session {
        Session { live: Some(generation), ..self }
    }

    /// After a close.
    pub open spec fn after_close(self) -> Session {
        Session { closed: true, live: None, ..self }
    }

    /// While a login owns the profile.
    pub open spec fn after_release(self) -> Session {
        Session { login_in_progress: true, live: None, ..self }
    }

    /// After a login.
    pub open spec fn after_resume(self) -> Session {
        Session { login_in_progress: false, ..self }
    }

    pub fn new(mode: LaunchMode) -> (r: Session)
        ensures
            r.wf(),
            r == (Session {
                mode,
                closed: false,
                login_in_progress: false,
                next_generation: 0,
                live: None,
            }),
    {
        Session { mode, closed: false, login_in_progress: false, next_generation: 0, live: None }
    }

    pub fn refuse_if_unavailable(&self) -> (r: Result<(), ApiError>)
        ensures
            r is Ok == self.available(),
            r matches Err(e) ==> e@ == self.refusal(),
    {
        if self.closed {
            return Err(closed_underneath_us());
        }
        if self.login_in_progress {
            return Err(
                ApiError::InvalidRequest(
                    "a login is in progress and it owns the browser profile until it finishes. Call login_status to see how it is going, or cancel_login to give up, then retry.".to_owned(),
                ),
            );
        }
        Ok(())
    }

    /// Begin to get a live browser on the shop's page. A live one that is still there is
    /// left alone: relaunching for each call would be slow and fight over the profile.
    pub fn ensure_live(&self) -> (r: LiveStep)
        ensures
            !self.available() ==> r.fails(self.refusal()),
            self.available() && self.live is Some ==> r is ReadUrl,
            self.available() && self.live is None ==> r == LiveStep::Launch(Predecessor::Absent),
    {
        if let Err(e) = self.refuse_if_unavailable() {
            return LiveStep::Done(Err(e));
        }
        if self.live.is_some() {
            LiveStep::ReadUrl
        } else {
            LiveStep::Launch(Predecessor::Absent)
        }
    }

    /// The live page answered. By its prefix, the address is the shop's or not: one that
    /// merely mentions the shop, as the sign-in page's does, is another origin.
    pub fn url_read(&mut self, probe: UrlProbe) -> (r: LiveStep)
        ensures
            old(self).wf() ==> final(self).wf(),
            match probe {
                UrlProbe::At(Some(url)) if text::begins_with(url@, SHOP_ORIGIN@) => r.ready()
                    && *final(self) == *old(self),
                UrlProbe::At(_) => r is Renavigate && *final(self) == *old(self),
                UrlProbe::Dead => r == LiveStep::Launch(Predecessor::Gone) && *final(self) == old(
                    self,
                ).emptied(),
            },
    {
        match probe {
            UrlProbe::At(url) => {
                if let Some(url) = url {
                    if text::starts_with(url.as_str(), SHOP_ORIGIN) {
                        return LiveStep::Done(Ok(()));
                    }
                }
                LiveStep::Renavigate
            },
            UrlProbe::Dead => {
                self.live = None;
                LiveStep::Launch(Predecessor::Gone)
            },
        }
    }

    /// The live page was taken back to the shop, or was not. A browser that could not be
    /// is not left live, where a relaunch could not tell it from a newer one.
    pub fn renavigated(&mut self, result: Result<(), ApiError>) -> (r: LiveStep)
        ensures
            old(self).wf() ==> final(self).wf(),
            result is Ok ==> r.ready() && *final(self) == *old(self),
            result matches Err(e) ==> r == LiveStep::ShutDown(e) && *final(self) == old(
                self,
            ).emptied(),
    {
        match result {
            Ok(()) => LiveStep::Done(Ok(())),
            Err(e) => {
                self.live = None;
                LiveStep::ShutDown(e)
            },
        }
    }

    /// A browser was launched, or could not be. Every browser gets a generation of its own.
    pub fn launched(&mut self, result: Result<(), String>) -> (r: LiveStep)
        ensures
            old(self).wf() && old(self).next_generation < u64::MAX ==> final(self).wf(),
            result is Ok ==> {
                &&& r == (LiveStep::Navigate { generation: old(self).next_generation })
                &&& *final(self) == old(self).after_launch()
            },
            result matches Err(m) ==> r.fails(ErrorView::Other(m@)) && *final(self) == *old(self),
    {
        match result {
            Ok(()) => {
                let generation: u64 = self.next_generation;
                self.next_generation = generation.wrapping_add(1);
                LiveStep::Navigate { generation }
            },
            Err(m) => LiveStep::Done(Err(ApiError::Other(m))),
        }
    }

    /// The new browser got to the shop, or did not.
    pub fn navigated(&mut self, generation: u64, result: Result<(), ApiError>) -> (r: LiveStep)
        ensures
            old(self).wf() && old(self).available() && generation < old(self).next_generation
                ==> final(self).wf(),
            result is Ok ==> r.ready() && *final(self) == old(self).filled(generation),
            result matches Err(e) ==> r == LiveStep::ShutDown(e) && *final(self) == *old(self),
    {
        match result {
            Ok(()) => {
                self.live = Some(generation);
                LiveStep::Done(Ok(()))
            },
            Err(e) => LiveStep::ShutDown(e),
        }
    }

    /// Begin to replace the browser `blocked`, unless someone already has. The profile is
    /// kept: it holds a real login, which has to survive a block.
    pub fn relaunch(&mut self, blocked: Option<u64>) -> (r: LiveStep)
        ensures
            old(self).wf() ==> final(self).wf(),
            !old(self).available() ==> r.fails(old(self).refusal()) && *final(self) == *old(self),
            old(self).available() && !replaces(old(self).live, blocked) ==> r.ready()
                && *final(self) == *old(self),
            old(self).available() && replaces(old(self).live, blocked) ==> {
                &&& r == LiveStep::Launch(
                    if old(self).live is Some {
                        Predecessor::Running
                    } else {
                        Predecessor::Absent
                    },
                )
                &&& *final(self) == old(self).emptied()
            },
    {
        if let Err(e) = self.refuse_if_unavailable() {
            return LiveStep::Done(Err(e));
        }
        if !should_replace(self.live, blocked) {
            return LiveStep::Done(Ok(()));
        }
        if self.live.is_some() {
            self.live = None;
            LiveStep::Launch(Predecessor::Running)
        } else {
            LiveStep::Launch(Predecessor::Absent)
        }
    }

    /// The generation of the live browser. It can have been closed since it was made sure
    /// of, by a close that came in between.
    pub fn current(&self) -> (r: Result<u64, ApiError>)
        ensures
            self.live matches Some(g) ==> r == Ok::<u64, ApiError>(g),
            self.live is None ==> (r matches Err(e) && e@ == closed_view()),
    {
        match self.live {
            Some(g) => Ok(g),
            None => Err(closed_underneath_us()),
        }
    }

    /// Stop for good. The result says whether there is a browser to shut down.
    pub fn close(&mut self) -> (r: bool)
        ensures
            final(self).wf(),
            r == (old(self).live is Some),
            *final(self) == old(self).after_close(),
    {
        let live = self.live.is_some();
        self.closed = true;
        self.live = None;
        live
    }

    /// Hand the profile over to an interactive login, and launch nothing until that is
    /// done. The result says whether there is a browser to shut down.
    pub fn release_for_login(&mut self) -> (r: Result<bool, ApiError>)
        ensures
            old(self).wf() ==> final(self).wf(),
            old(self).available() ==> {
                &&& r == Ok::<bool, ApiError>(old(self).live is Some)
                &&& *final(self) == old(self).after_release()
            },
            !old(self).available() ==> {
                &&& r matches Err(e) && e@ == old(self).refusal()
                &&& *final(self) == *old(self)
            },
    {
        if let Err(e) = self.refuse_if_unavailable() {
            return Err(e);
        }
        let live = self.live.is_some();
        self.login_in_progress = true;
        self.live = None;
        Ok(live)
    }

    /// The login is over, whatever came of it. The browser comes back with the next call.
    pub fn resume_after_login(&mut self)
        ensures
            old(self).wf() ==> final(self).wf(),
            *final(self) == old(self).after_resume(),
    {
        self.login_in_progress = false;
    }
}

/// The profile has one owner: whatever happens, a browser is live only while no login runs
/// and the process is not stopping, and its generation is one that no later browser gets, as
/// long as there is a next one to give.
pub proof fn profile_has_one_owner(session: Session)
    requires
        session.wf(),
        session.next_generation < u64::MAX,
    ensures
        session.emptied().wf(),
        session.after_launch().next_generation > session.next_generation,
        session.after_launch().wf(),
        session.available() ==> session.after_launch().filled(session.next_generation).wf(),
        session.after_close().wf(),
        session.after_release().wf(),
        session.after_resume().wf(),
        session.login_in_progress || session.closed ==> session.live is None,
{
}

/// A wave of calls that were blocked on one browser costs one relaunch: once the first has
/// replaced it, the others find a newer browser and leave it alone.
pub proof fn one_relaunch_for_a_wave(session: Session, blocked: u64)
    requires
        session.wf(),
        session.available(),
        session.live == Some(blocked),
    ensures
        replaces(session.live, Some(blocked)),
        ({
            let replaced = session.emptied().after_launch().filled(session.next_generation);
            replaced.available() && !replaces(replaced.live, Some(blocked))
        }),
{
}

/// A closed session stays closed and is never available, whatever follows.
pub proof fn closed_for_good(session: Session, generation: u64)
    ensures
        !session.after_close().available(),
        session.closed ==> {
            &&& !session.available()
            &&& session.emptied().closed
            &&& session.after_launch().closed
            &&& session.filled(generation).closed
            &&& session.after_close().closed
            &&& session.after_release().closed
            &&& session.after_resume().closed
        },
{
}

/// While a login owns the profile, nothing is launched and no second login begins; once it
/// is over, however it went, the profile is free again, unless the process is stopping.
pub proof fn login_owns_the_profile(session: Session)
    ensures
        !session.after_release().available(),
        session.after_resume().available() == !session.closed,
        session.available() ==> session.after_release().after_resume().available(),
{
}

/// The remedy follows from the failure: a wanted build number is taken up, and it is that
/// number, unless one was already; a block costs the browser, unless that is off the table;
/// everything else is given up, a stale build that names no number included.
pub proof fn the_remedy_follows_from_the_failure(
    r: Recovery,
    e: ErrorView,
    relaunch_unavailable: bool,
    refreshed_build: bool,
)
    requires
        r.remedies(e, relaunch_unavailable, refreshed_build),
    ensures
        e matches ErrorView::StaleBuild { wanted: Some(build) } ==> if refreshed_build {
            r is GiveUp
        } else {
            r matches Recovery::RefreshBuild(b) && b@ == build
        },
        e matches ErrorView::StaleBuild { wanted: None } ==> r is GiveUp,
        e is Cloudflare ==> if relaunch_unavailable {
            r is GiveUp
        } else {
            r is Relaunch
        },
        !(e is StaleBuild) && !(e is Cloudflare) ==> r is GiveUp,
{
}

/// A failed attempt is tried again with the build number that is wanted, once, or with a new
/// browser, once and only where nobody sits before it; what is spent is spent, what is not
/// stays, and every other failure is the result, as it is.
pub proof fn what_is_tried_again(before: Attempts, error: ApiError, after: Attempts, retry: Retry)
    requires
        failed_to(before, error, after, retry),
    ensures
        after.mode == before.mode,
        ({
            let stale = error matches ApiError::StaleBuild { wanted } && wanted is Some
                && !before.refreshed_build;
            let blocked = error is Cloudflare && !before.relaunched && before.mode is Headless;
            &&& stale ==> (retry matches Retry::WithBuild { build, note } && {
                &&& error->wanted->0@ == build@
                &&& text::occurs(note@, build@)
                &&& after.refreshed_build
                &&& after.relaunched == before.relaunched
            })
            &&& blocked ==> (retry matches Retry::WithNewBrowser { note } && {
                &&& text::occurs(note@, error->detail@)
                &&& after.relaunched
                &&& after.refreshed_build == before.refreshed_build
            })
            &&& !stale && !blocked ==> retry == Retry::Fail(error) && after == before
        }),
{
    let none = Seq::<char>::empty();
    if let Retry::WithBuild { build, note } = retry {
        let lead = "k-ruoka-mcp: build number was stale, retrying with "@;
        text::occurs_inside(lead, build@, none);
        assert(lead + build@ + none =~= note@);
    }
    if let Retry::WithNewBrowser { note } = retry {
        let detail = error->detail@;
        let a = "k-ruoka-mcp: "@;
        let b = "Cloudflare blocked us: "@;
        let c =
            "; relaunching the browser against the same profile (never deleting it) and retrying once"@;
        text::occurs_inside(a + b, detail, c);
        assert(a + b + detail + c =~= a + (b + detail) + c);
    }
}

/// What follows a failed attempt is what is tried again, on account of the browser that the
/// attempt used, or the failure.
pub proof fn a_call_follows_its_attempts(
    step: CallStep,
    blocked: Option<u64>,
    retry: Retry,
)
    requires
        step.follows(blocked, retry),
    ensures
        retry matches Retry::WithBuild { build, note } ==> step == (CallStep::KeepBuild {
            build,
            note,
        }),
        retry matches Retry::WithNewBrowser { note } ==> step == (CallStep::Relaunch {
            blocked,
            note,
        }),
        retry matches Retry::Fail(e) ==> step == CallStep::Done(Err(e)),
{
}

/// A relaunch replaces the browser that was blocked, and it alone; where none is live there
/// is nothing to preserve, and where none was used there is none to blame.
pub proof fn only_the_blocked_browser_is_replaced(current: u64, blocked: u64)
    ensures
        replaces(Some(current), Some(blocked)) <==> current == blocked,
        !replaces(Some(current), None),
        replaces(None, Some(blocked)),
        replaces(None, None),
{
}

/// A browser may be launched exactly where the process is not stopping and no login runs.
/// Neither refusal is a failure that is tried again, and a login says how to end it.
pub proof fn refusals_say_why(session: Session)
    ensures
        session.available() <==> !session.closed && !session.login_in_progress,
        session.closed ==> session.refusal() == ErrorView::Other(
            "the server is shutting down; no new browser will be started"@,
        ),
        !session.closed ==> (session.refusal() matches ErrorView::InvalidRequest(m)
            && text::occurs(m, "cancel_login"@) && text::occurs(m, "login_status"@)),
        !(session.refusal() is Cloudflare) && !(session.refusal() is StaleBuild),
{
    let m =
        "a login is in progress and it owns the browser profile until it finishes. Call login_status to see how it is going, or cancel_login to give up, then retry."@;
    let cancel = "cancel_login"@;
    let status = "login_status"@;
    reveal_strlit(
        "a login is in progress and it owns the browser profile until it finishes. Call login_status to see how it is going, or cancel_login to give up, then retry.",
    );
    reveal_strlit("cancel_login");
    reveal_strlit("login_status");
    assert(m.subrange(79, 79 + status.len() as int) =~= status);
    assert(text::occurs_at(m, status, 79));
    assert(m.subrange(119, 119 + cancel.len() as int) =~= cancel);
    assert(text::occurs_at(m, cancel, 119));
}

/// What each event does to the session, and what it leaves alone.
pub proof fn each_event_changes_what_it_should(session: Session, generation: u64)
    ensures
        ({
            let s = session.emptied();
            s.live is None && s.mode == session.mode && s.closed == session.closed
                && s.login_in_progress == session.login_in_progress && s.next_generation
                == session.next_generation
        }),
        ({
            let s = session.after_launch();
            &&& session.next_generation < u64::MAX ==> s.next_generation == session.next_generation
                + 1
            &&& s.live == session.live && s.mode == session.mode && s.closed == session.closed
                && s.login_in_progress == session.login_in_progress
        }),
        ({
            let s = session.filled(generation);
            s.live == Some(generation) && s.mode == session.mode && s.closed == session.closed
                && s.login_in_progress == session.login_in_progress && s.next_generation
                == session.next_generation
        }),
        ({
            let s = session.after_close();
            s.closed && s.live is None && s.mode == session.mode && s.login_in_progress
                == session.login_in_progress && s.next_generation == session.next_generation
        }),
        ({
            let s = session.after_release();
            s.login_in_progress && s.live is None && s.mode == session.mode && s.closed
                == session.closed && s.next_generation == session.next_generation
        }),
        ({
            let s = session.after_resume();
            !s.login_in_progress && s.live == session.live && s.mode == session.mode && s.closed
                == session.closed && s.next_generation == session.next_generation
        }),
{
}

/// The steps are what they are called.
pub proof fn live_steps_are_what_they_say(step: LiveStep, e: ErrorView)
    ensures
        step.ready() <==> step == LiveStep::Done(Ok(())),
        step.fails(e) <==> (step matches LiveStep::Done(Err(x)) && x@ == e),
{
}

/// What is well formed has one owner: a browser that is live was given its generation, and
/// neither a login nor the end of the process has come since.
pub proof fn well_formed_sessions_have_one_owner(session: Session)
    ensures
        session.wf() <==> (session.live matches Some(g) ==> g < session.next_generation
            && !session.closed && !session.login_in_progress),
{
}

/// A call has each remedy once: two at first, one where a person sits before the browser.
pub proof fn remedies_are_counted(attempts: Attempts)
    ensures
        !attempts.relaunched && !attempts.refreshed_build && attempts.mode is Headless
            ==> attempts.left() == 2,
        !attempts.refreshed_build && attempts.mode is Headful ==> attempts.left() == 1,
        attempts.left() == 0 <==> attempts.refreshed_build && (attempts.relaunched
            || attempts.mode is Headful),
{
}

/// The page that a browser is taken to is one of the shop's origin, over a safe connection.
pub proof fn the_shop_is_at_its_origin()
    ensures
        text::begins_with(SHOP_URL@, SHOP_ORIGIN@),
        SHOP_ORIGIN@ == "https://www.k-ruoka.fi"@,
{
    reveal_strlit("https://www.k-ruoka.fi/kauppa");
    reveal_strlit("https://www.k-ruoka.fi");
    assert(SHOP_URL@.subrange(0, SHOP_ORIGIN@.len() as int) =~= SHOP_ORIGIN@);
}

} // verus!
