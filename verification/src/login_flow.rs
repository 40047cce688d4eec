//! Driving `login` as a child process, so that an assistant can walk a user through it.
//!
//! A profile supports one browser, so the session lets go of it while the child runs. What
//! happens next is decided here, in steps; whoever drives them holds the child itself.

use crate::browser::error::{self, ApiError, ErrorView};
use crate::browser::session::Session;
use crate::{login, text};
use vstd::prelude::*;

verus! {

/// How long to wait for the child's instructions before answering anyway, in seconds.
pub const INSTRUCTIONS_TIMEOUT_SECS: u64 = 20;

/// How long to wait between two looks at the child, in milliseconds.
pub const READY_POLL_MS: u64 = 250;

/// How a login is going.
#[derive(Debug)]
pub struct LoginProgress {
    /// `waiting`, `signedIn`, `failed` or `notStarted`.
    pub state: String,
    pub detail: String,
    pub account: Option<String>,
    /// What the child printed. While waiting, these are the steps to give to the user
    /// verbatim.
    pub instructions: Option<String>,
}

impl LoginProgress {
    /// This says just that.
    pub open spec fn says(&self, state: Seq<char>, detail: Seq<char>) -> bool {
        self.state@ == state && self.detail@ == detail
    }

    pub fn new(state: &str, detail: &str) -> (r: LoginProgress)
        ensures
            r.says(state@, detail@),
            r.account is None,
            r.instructions is None,
    {
        LoginProgress {
            state: state.to_owned(),
            detail: detail.to_owned(),
            account: None,
            instructions: None,
        }
    }
}

impl Default for LoginProgress {
    fn default() -> (r: Self)
        ensures
            r.says("notStarted"@, ""@),
            r.account is None,
            r.instructions is None,
    {
        LoginProgress::new("notStarted", "")
    }
}

/// The account that a line of the child's output announces.
pub open spec fn announced(line: Seq<char>) -> Option<Seq<char>> {
    let t = text::trimmed(line);
    let prefix = "Signed in as "@;
    if text::begins_with(t, prefix) {
        Some(text::without_trailing(t.skip(prefix.len() as int), '.'))
    } else {
        None
    }
}

/// The account that the first of the lines to announce one announces.
pub open spec fn first_announced(lines: Seq<Seq<char>>) -> Option<Seq<char>>
    decreases lines.len(),
{
    if lines.len() == 0 {
        None
    } else if announced(lines[0]) is Some {
        announced(lines[0])
    } else {
        first_announced(lines.drop_first())
    }
}

/// The account that the child's output announces.
pub open spec fn account_in(output: Seq<char>) -> Option<Seq<char>> {
    first_announced(text::pieces(output, '\n'))
}

/// The account that the child's output announces.
pub fn signed_in_account(output: &str) -> (r: Option<String>)
    ensures
        error::opt_view(r) == account_in(output@),
{
    let lines = text::split(output, '\n');
    let ghost all = text::pieces(output@, '\n');
    let prefix = "Signed in as ";
    let skip: usize = prefix.unicode_len();
    let mut i: usize = 0;
    assert(all.skip(0) =~= all);
    while i < lines.len()
        invariant
            text::views(lines@) == all,
            all == text::pieces(output@, '\n'),
            prefix@ == "Signed in as "@,
            skip == prefix@.len(),
            i <= lines@.len(),
            account_in(output@) == first_announced(all.skip(i as int)),
        decreases lines@.len() - i,
    {
        assert(all.skip(i as int)[0] == lines@[i as int]@);
        let line = text::trim(lines[i].as_str());
        if text::starts_with(line, prefix) {
            let len: usize = line.unicode_len();
            let who = line.substring_char(skip, len);
            assert(who@ =~= line@.skip(skip as int));
            return Some(text::trim_end_of(who, '.').to_owned());
        }
        assert(all.skip(i as int).drop_first() =~= all.skip(i + 1));
        i = i + 1;
    }
    None
}

proof fn first_announced_behind(a: Seq<Seq<char>>, b: Seq<Seq<char>>)
    requires
        first_announced(a) is None,
    ensures
        first_announced(a + b) == first_announced(b),
    decreases a.len(),
{
    if a.len() == 0 {
        assert(a + b =~= b);
    } else {
        first_announced_behind(a.drop_first(), b);
        assert((a + b).drop_first() =~= a.drop_first() + b);
    }
}

/// The account that the child announces is the one that is read out of its output,
/// wherever it stands in it, up to full stops at its end. The account is taken to be on
/// one line.
pub proof fn announced_account_is_read(before: Seq<char>, who: Seq<char>, after: Seq<char>)
    requires
        account_in(before) is None,
        !who.contains('\n'),
    ensures
        account_in(before + login::announcement(who) + after) == Some(
            text::without_trailing(who, '.'),
        ),
{
    reveal_strlit("\nSigned in as ");
    reveal_strlit("Signed in as ");
    reveal_strlit(".\n");
    let prefix = "Signed in as "@;
    let line = prefix + who + seq!['.'];
    let all = before + login::announcement(who) + after;
    assert(all =~= before.push('\n') + (line.push('\n') + after));
    text::pieces_join(before, line.push('\n') + after, '\n');
    text::pieces_join(line, after, '\n');
    assert(!line.contains('\n')) by {
        if line.contains('\n') {
            let i = choose|i: int| 0 <= i < line.len() && line[i] == '\n';
            if prefix.len() <= i < prefix.len() + who.len() {
                assert(who[i - prefix.len()] == '\n');
                assert(who.contains('\n'));
            }
        }
    }
    text::pieces_of_one(line, '\n');
    let rest = seq![line] + text::pieces(after, '\n');
    first_announced_behind(text::pieces(before, '\n'), rest);
    assert(rest[0] == line);
    assert(line[0] == 'S');
    assert(line.last() == '.');
    assert(text::trimmed_start(line) == line);
    assert(text::trimmed(line) == line);
    assert(line.subrange(0, prefix.len() as int) =~= prefix);
    assert(line.skip(prefix.len() as int) =~= who.push('.'));
    assert(who.push('.').drop_last() =~= who);
    assert(announced(line) == Some(text::without_trailing(who, '.')));
}

/// What became of the child.
#[derive(Debug)]
pub enum ChildState {
    Running,
    Exited { success: bool },
    /// It cannot be told, for this reason.
    Unknown(String),
}

/// The child cannot be watched.
pub open spec fn unwatchable(reason: Seq<char>) -> ErrorView {
    ErrorView::Other("watching the login process: "@ + reason)
}

/// The child cannot be watched.
pub fn wrap(reason: &str) -> (r: ApiError)
    ensures
        r@ == unwatchable(reason@),
{
    let mut m = "watching the login process: ".to_owned();
    m.append(reason);
    ApiError::Other(m)
}

/// One step of starting a login.
#[derive(Debug)]
pub enum StartStep {
    /// Ask what became of the child; then [`ChildLogin::checked`].
    CheckChild,
    /// Read the child's output; then [`ChildLogin::already_running`].
    ReportOutput,
    /// Hand the profile back first, where that is said, and then take it over from the
    /// session; then [`ChildLogin::released`].
    Release { resume_first: bool },
    /// Find this executable; then [`ChildLogin::located`].
    Locate,
    /// Start the program in a process group of its own, with its output piped; then
    /// [`ChildLogin::spawned`].
    Spawn { program: String, args: Vec<String> },
    /// Read the child's output; then [`ChildLogin::read`].
    Read,
    /// Ask what became of the child; then [`ChildLogin::observed`].
    Observe,
    /// Sleep for [`READY_POLL_MS`], then read again.
    Sleep,
    /// Read the child's output; then [`ChildLogin::died`].
    ReadLastWords,
    /// Read the child's output, and keep the child; then [`ChildLogin::present`].
    Present,
    /// Hand the profile back, and be done with this error.
    Resume(ApiError),
    Done(Result<LoginProgress, ApiError>),
}

impl StartStep {
    /// Done, with this error, as it is.
    pub open spec fn fails(self, e: ErrorView) -> bool {
        self matches StartStep::Done(Err(x)) && x@ == e
    }

    /// Done, with this error, after the profile was handed back.
    pub open spec fn hands_back(self, e: ErrorView) -> bool {
        self matches StartStep::Resume(x) && x@ == e
    }
}

/// What is said of a login that is on its way already.
pub open spec fn in_progress_detail() -> Seq<char> {
    "A login is already in progress. Give the user these instructions."@
}

/// What is said of a login that was just started.
pub open spec fn started_detail() -> Seq<char> {
    "A browser is open and waiting for the user to sign in. Give them the instructions verbatim, then poll login_status. Nothing here sees their credentials."@
}

/// The child's arguments.
pub open spec fn child_args(port: u16) -> Seq<Seq<char>> {
    seq!["login"@, "--port"@, text::decimal(port as nat)]
}

/// What is said of a child that could not be started.
pub open spec fn not_started(program: Seq<char>, args: Seq<Seq<char>>, reason: Seq<char>) -> Seq<
    char,
> {
    "could not start `"@ + program + " "@ + text::joined(args, " "@) + "`: "@ + reason
}

/// What is said of a child that died before it was ready.
pub open spec fn died_early(output: Seq<char>) -> Seq<char> {
    "login exited before it was ready:\n"@ + text::trimmed(output)
}

/// What is said where no login is in progress.
pub open spec fn no_login_detail() -> Seq<char> {
    "No login is in progress. Call start_login to begin one, or auth_status to check whether the stored session is already signed in."@
}

/// What a look at the login comes to.
#[derive(Debug)]
pub enum StatusStep {
    /// Ask what became of the child, and read its output; then
    /// [`ChildLogin::status_checked`].
    CheckChild,
    /// Hand the profile back, and be done with this.
    Resume(LoginProgress),
    Done(Result<LoginProgress, ApiError>),
}

/// What giving a login up comes to. The profile is handed back either way.
#[derive(Debug)]
pub enum CancelStep {
    /// Stop the child and all it started, hand the profile back, and be done with this.
    Terminate(LoginProgress),
    /// Hand the profile back, and be done with this.
    Resume(LoginProgress),
}

/// The login that runs as a child process, where one does.
#[derive(Debug)]
pub struct ChildLogin {
    pub running: bool,
}

impl ChildLogin {
    pub fn new() -> (r: ChildLogin)
        ensures
            !r.running,
    {
        ChildLogin { running: false }
    }

    /// Begin to start a login. One that seems to run is looked at first: two browsers on
    /// one profile cannot work.
    pub fn start(&self) -> (r: StartStep)
        ensures
            self.running ==> r is CheckChild,
            !self.running ==> r == (StartStep::Release { resume_first: false }),
    {
        if self.running {
            StartStep::CheckChild
        } else {
            StartStep::Release { resume_first: false }
        }
    }

    /// The child that seemed to run was looked at. One that is gone, which nothing had
    /// observed, still holds the profile: that is handed back before it is asked for again.
    pub fn checked(&mut self, child: ChildState) -> (r: StartStep)
        ensures
            match child {
                ChildState::Running => r is ReportOutput && *final(self) == *old(self),
                ChildState::Exited { success } => r == (StartStep::Release { resume_first: true })
                    && !final(self).running,
                ChildState::Unknown(reason) => r.fails(unwatchable(reason@)) && *final(self)
                    == *old(self),
            },
    {
        match child {
            ChildState::Running => StartStep::ReportOutput,
            ChildState::Exited { .. } => {
                self.running = false;
                StartStep::Release { resume_first: true }
            },
            ChildState::Unknown(reason) => StartStep::Done(Err(wrap(reason.as_str()))),
        }
    }

    /// A login is on its way already.
    pub fn already_running(output: String) -> (r: LoginProgress)
        ensures
            r.says("waiting"@, in_progress_detail()),
            r.account is None,
            r.instructions == Some(output),
    {
        let mut progress = LoginProgress::new(
            "waiting",
            "A login is already in progress. Give the user these instructions.",
        );
        progress.instructions = Some(output);
        progress
    }

    /// The session let go of the profile, or did not.
    pub fn released(result: Result<(), ApiError>) -> (r: StartStep)
        ensures
            result is Ok ==> r is Locate,
            result matches Err(e) ==> r == StartStep::Done(Err(e)),
    {
        match result {
            Ok(()) => StartStep::Locate,
            Err(e) => StartStep::Done(Err(e)),
        }
    }

    /// This executable was found, or was not.
    pub fn located(program: Result<String, String>, port: u16) -> (r: StartStep)
        ensures
            program matches Ok(p) ==> (r matches StartStep::Spawn { program: q, args } && q == p
                && text::views(args@) == child_args(port)),
            program matches Err(reason) ==> r.fails(
                ErrorView::Other("cannot find this executable to re-run it: "@ + reason@),
            ),
    {
        match program {
            Ok(program) => {
                let mut args: Vec<String> = Vec::new();
                args.push("login".to_owned());
                args.push("--port".to_owned());
                args.push(text::number(port as u64));
                assert(text::views(args@) =~= child_args(port));
                StartStep::Spawn { program, args }
            },
            Err(reason) => {
                let mut m = "cannot find this executable to re-run it: ".to_owned();
                m.append(reason.as_str());
                StartStep::Done(Err(ApiError::Other(m)))
            },
        }
    }

    /// The child was started, or could not be.
    pub fn spawned(program: &str, args: &Vec<String>, result: Result<(), String>) -> (r: StartStep)
        ensures
            result is Ok ==> r is Read,
            result matches Err(reason) ==> r.hands_back(
                ErrorView::Other(not_started(program@, text::views(args@), reason@)),
            ),
    {
        match result {
            Ok(()) => StartStep::Read,
            Err(reason) => {
                let mut m = "could not start `".to_owned();
                m.append(program);
                m.append(" ");
                let list = text::join(args, " ");
                m.append(list.as_str());
                m.append("`: ");
                m.append(reason.as_str());
                StartStep::Resume(ApiError::Other(m))
            },
        }
    }

    /// The child's output was read: it is ready once the marker stands in it.
    pub fn read(output: &str) -> (r: StartStep)
        ensures
            r == (if text::occurs(output@, login::READY_MARKER@) {
                StartStep::Present
            } else {
                StartStep::Observe
            }),
    {
        if text::contains(output, login::READY_MARKER) {
            StartStep::Present
        } else {
            StartStep::Observe
        }
    }

    /// The child, which is not ready, was looked at. Once the time is up it is presented as
    /// it is.
    pub fn observed(child: ChildState, time_is_up: bool) -> (r: StartStep)
        ensures
            match child {
                ChildState::Exited { success } => r is ReadLastWords,
                ChildState::Running => r == (if time_is_up {
                    StartStep::Present
                } else {
                    StartStep::Sleep
                }),
                ChildState::Unknown(reason) => r.fails(unwatchable(reason@)),
            },
    {
        match child {
            ChildState::Exited { .. } => StartStep::ReadLastWords,
            ChildState::Running => {
                if time_is_up {
                    StartStep::Present
                } else {
                    StartStep::Sleep
                }
            },
            ChildState::Unknown(reason) => StartStep::Done(Err(wrap(reason.as_str()))),
        }
    }

    /// The child died before it was ready, for want of a display perhaps: its own words say
    /// why.
    pub fn died(output: &str) -> (r: StartStep)
        ensures
            r.hands_back(ErrorView::Other(died_early(output@))),
    {
        let mut m = "login exited before it was ready:\n".to_owned();
        m.append(text::trim(output));
        StartStep::Resume(ApiError::Other(m))
    }

    /// The login runs, and its user is to be told how to go on.
    pub fn present(&mut self, output: String) -> (r: LoginProgress)
        ensures
            final(self).running,
            r.says("waiting"@, started_detail()),
            r.account is None,
            r.instructions == Some(output),
    {
        self.running = true;
        let mut progress = LoginProgress::new(
            "waiting",
            "A browser is open and waiting for the user to sign in. Give them the instructions verbatim, then poll login_status. Nothing here sees their credentials.",
        );
        progress.instructions = Some(output);
        progress
    }

    /// Begin to look at the login.
    pub fn status(&self) -> (r: StatusStep)
        ensures
            self.running ==> r is CheckChild,
            !self.running ==> (r matches StatusStep::Done(Ok(p)) && p.says(
                "notStarted"@,
                no_login_detail(),
            ) && p.account is None && p.instructions is None),
    {
        if self.running {
            return StatusStep::CheckChild;
        }
        StatusStep::Done(
            Ok(
                LoginProgress::new(
                    "notStarted",
                    "No login is in progress. Call start_login to begin one, or auth_status to check whether the stored session is already signed in.",
                ),
            ),
        )
    }

    /// The child was looked at, and its output read. One that is gone gives the profile
    /// back, with an account where it ended well.
    pub fn status_checked(&mut self, child: ChildState, output: String) -> (r: StatusStep)
        ensures
            match child {
                ChildState::Unknown(reason) => {
                    &&& r matches StatusStep::Done(Err(e)) && e@ == unwatchable(reason@)
                    &&& *final(self) == *old(self)
                },
                ChildState::Running => {
                    &&& r matches StatusStep::Done(Ok(p)) && p.says(
                        "waiting"@,
                        "Still waiting for the user to finish signing in."@,
                    ) && p.account is None && p.instructions == Some(output)
                    &&& *final(self) == *old(self)
                },
                ChildState::Exited { success: true } => {
                    &&& r matches StatusStep::Resume(p) && p.says(
                        "signedIn"@,
                        "Signed in. The session is stored in the browser profile and the cart tools will use it from now on."@,
                    ) && error::opt_view(p.account) == account_in(output@) && p.instructions is None
                    &&& !final(self).running
                },
                ChildState::Exited { success: false } => {
                    &&& r matches StatusStep::Resume(p) && p.says(
                        "failed"@,
                        "The login did not complete. The stored profile was left untouched, so any previous session is still there."@,
                    ) && p.account is None && p.instructions == Some(output)
                    &&& !final(self).running
                },
            },
    {
        match child {
            ChildState::Unknown(reason) => StatusStep::Done(Err(wrap(reason.as_str()))),
            ChildState::Running => {
                let mut progress = LoginProgress::new(
                    "waiting",
                    "Still waiting for the user to finish signing in.",
                );
                progress.instructions = Some(output);
                StatusStep::Done(Ok(progress))
            },
            ChildState::Exited { success } => {
                self.running = false;
                if success {
                    let mut progress = LoginProgress::new(
                        "signedIn",
                        "Signed in. The session is stored in the browser profile and the cart tools will use it from now on.",
                    );
                    progress.account = signed_in_account(output.as_str());
                    StatusStep::Resume(progress)
                } else {
                    let mut progress = LoginProgress::new(
                        "failed",
                        "The login did not complete. The stored profile was left untouched, so any previous session is still there.",
                    );
                    progress.instructions = Some(output);
                    StatusStep::Resume(progress)
                }
            },
        }
    }

    /// Give the login up. The way out has to work even where the child is gone already and
    /// only the profile is still held.
    pub fn cancel(&mut self) -> (r: CancelStep)
        ensures
            !final(self).running,
            old(self).running ==> (r matches CancelStep::Terminate(p) && p.says(
                "notStarted"@,
                "Login cancelled and the browser closed. The cart tools work again."@,
            ) && p.account is None && p.instructions is None),
            !old(self).running ==> (r matches CancelStep::Resume(p) && p.says(
                "notStarted"@,
                "No login was in progress."@,
            ) && p.account is None && p.instructions is None),
    {
        if self.running {
            self.running = false;
            CancelStep::Terminate(
                LoginProgress::new(
                    "notStarted",
                    "Login cancelled and the browser closed. The cart tools work again.",
                ),
            )
        } else {
            CancelStep::Resume(LoginProgress::new("notStarted", "No login was in progress."))
        }
    }

    /// The process is stopping. The result says whether there is a child to stop.
    pub fn shutdown(&mut self) -> (r: bool)
        ensures
            r == old(self).running,
            !final(self).running,
    {
        let running = self.running;
        self.running = false;
        running
    }
}

/// What carrying out a step of a start does to who owns the profile.
pub open spec fn carried_out(step: StartStep, session: Session) -> Session {
    match step {
        StartStep::Release { resume_first } => {
            let freed = if resume_first {
                session.after_resume()
            } else {
                session
            };
            if freed.available() {
                freed.after_release()
            } else {
                freed
            }
        },
        StartStep::Resume(_) => session.after_resume(),
        _ => session,
    }
}

/// A child that went unobserved does not stand in the way of a fresh login: the profile it
/// held is handed back and taken over again.
pub proof fn unobserved_child_blocks_nothing(session: Session)
    requires
        session.login_in_progress,
        !session.closed,
    ensures
        session.after_resume().available(),
        carried_out(StartStep::Release { resume_first: true }, session) == session.after_release(),
{
}

/// A start that fails once the child was to run, because it could not be started or died
/// before it was ready, leaves the profile free.
pub proof fn failed_start_frees_the_profile(session: Session, e: ApiError)
    requires
        !session.closed,
    ensures
        carried_out(StartStep::Resume(e), session).available(),
{
}

/// What carrying out a look at the login does to who owns the profile.
pub open spec fn looked_at(step: StatusStep, session: Session) -> Session {
    match step {
        StatusStep::Resume(_) => session.after_resume(),
        _ => session,
    }
}

/// What carrying out the giving up of a login does to who owns the profile.
pub open spec fn given_up(step: CancelStep, session: Session) -> Session {
    match step {
        CancelStep::Terminate(_) | CancelStep::Resume(_) => session.after_resume(),
    }
}

/// Giving a login up always frees the profile, whether or not a child is left to stop, so
/// that the next login or call can have it, unless the process is stopping.
pub proof fn cancelling_frees_the_profile(step: CancelStep, session: Session)
    ensures
        given_up(step, session).available() == !session.closed,
        !given_up(step, session).login_in_progress,
{
}

/// A login that is seen to be over frees the profile, whether it ended well or not; one that
/// is still going keeps it.
pub proof fn a_finished_login_frees_the_profile(
    progress: LoginProgress,
    result: Result<LoginProgress, ApiError>,
    session: Session,
)
    ensures
        looked_at(StatusStep::Resume(progress), session).available() == !session.closed,
        looked_at(StatusStep::Done(result), session) == session,
{
}

/// How often a child that was asked to stop is looked at before it is made to.
pub const TERMINATE_CHECKS: u32 = 20;

/// How long to wait between two of those looks, in milliseconds.
pub const TERMINATE_POLL_MS: u64 = 100;

/// The stopping of a child and all it started: it is asked, so that it can close its
/// browser well, looked at for a while, and made to in the end.
#[derive(Debug)]
pub struct Termination {
    pub checks_left: u32,
}

/// What to do next.
#[derive(Debug, Clone, Copy, PartialEq, Eq, Structural)]
pub enum TerminateStep {
    /// Look whether it is gone; then [`Termination::checked`].
    Check,
    /// Make it stop.
    Kill,
    /// It is gone.
    Gone,
}

impl Termination {
    /// It was asked to stop.
    pub fn begin() -> (r: Termination)
        ensures
            r.checks_left == TERMINATE_CHECKS,
    {
        Termination { checks_left: TERMINATE_CHECKS }
    }

    /// What to do before any look, or after a look and the wait that follows it.
    pub fn next(&self) -> (r: TerminateStep)
        ensures
            r == (if self.checks_left > 0 {
                TerminateStep::Check
            } else {
                TerminateStep::Kill
            }),
    {
        if self.checks_left > 0 {
            TerminateStep::Check
        } else {
            TerminateStep::Kill
        }
    }

    /// It was looked at. One that is gone needs no more; one that is not is waited for, and
    /// each look brings the end nearer.
    pub fn checked(&mut self, gone: bool) -> (r: TerminateStep)
        ensures
            final(self).checks_left == (if old(self).checks_left > 0 {
                old(self).checks_left - 1
            } else {
                0
            }),
            r == (if gone {
                TerminateStep::Gone
            } else if final(self).checks_left > 0 {
                TerminateStep::Check
            } else {
                TerminateStep::Kill
            }),
    {
        if self.checks_left > 0 {
            self.checks_left = self.checks_left - 1;
        }
        if gone {
            TerminateStep::Gone
        } else {
            self.next()
        }
    }
}

/// A line announces an account exactly where, without the white space around it, it is the
/// words for it and something: the account is that something without full stops at its end.
pub proof fn a_line_announces_what_follows_the_words(line: Seq<char>, who: Seq<char>)
    ensures
        text::trimmed(line) == "Signed in as "@ + who ==> announced(line) == Some(
            text::without_trailing(who, '.'),
        ),
        (forall|rest: Seq<char>| text::trimmed(line) != #[trigger] ("Signed in as "@ + rest))
            ==> announced(line) is None,
{
    let words = "Signed in as "@;
    text::beginning_is_standing_first(text::trimmed(line), words);
    assert((words + who).skip(words.len() as int) =~= who);
}

/// An output in which the words stand nowhere announces no account.
pub proof fn no_words_no_account(output: Seq<char>)
    requires
        !text::occurs(output, "Signed in as "@),
    ensures
        account_in(output) is None,
{
    let lines = text::pieces(output, '\n');
    text::pieces_are_the_text(output, '\n');
    assert forall|i: int| 0 <= i < lines.len() implies announced(#[trigger] lines[i]) is None by {
        if announced(lines[i]) is Some {
            let words = "Signed in as "@;
            let line = lines[i];
            let t = text::trimmed(line);
            let none = Seq::<char>::empty();
            text::beginning_is_standing_first(t, words);
            let b = choose|b: Seq<char>| t == #[trigger] (words + b);
            text::occurs_inside(none, words, b);
            assert(none + words + b =~= t);
            text::trimmed_is_the_middle(line);
            let (m, n) = choose|m: int, n: int|
                {
                    &&& 0 <= m <= n <= line.len()
                    &&& text::trimmed(line) == #[trigger] line.subrange(m, n)
                    &&& forall|k: int|
                        0 <= k < m || n <= k < line.len() ==> text::is_white(#[trigger] line[k])
                    &&& m < n ==> !text::is_white(line[m]) && !text::is_white(line[n - 1])
                };
            text::occurs_in_more(line.take(m), t, line.skip(n), words);
            assert(line.take(m) + t + line.skip(n) =~= line);
            text::parts_are_joined(lines, seq!['\n'], i);
            text::occurs_is_standing_inside(output, line);
            let (x, y) = choose|x: Seq<char>, y: Seq<char>| output == #[trigger] (x + line + y);
            text::occurs_in_more(x, line, y, words);
        }
    }
    none_announced(lines);
}

proof fn none_announced(lines: Seq<Seq<char>>)
    requires
        forall|i: int| 0 <= i < lines.len() ==> announced(#[trigger] lines[i]) is None,
    ensures
        first_announced(lines) is None,
    decreases lines.len(),
{
    if lines.len() > 0 {
        let rest = lines.drop_first();
        assert forall|i: int| 0 <= i < rest.len() implies announced(#[trigger] rest[i]) is None by {
            assert(rest[i] == lines[i + 1]);
        }
        none_announced(rest);
    }
}

/// The child is started as the login command, on the port that was asked for, and what is
/// said of one that fails names the program, the port and the reason, or all it printed.
pub proof fn the_child_is_started_on_the_port(
    program: Seq<char>,
    port: u16,
    reason: Seq<char>,
    output: Seq<char>,
)
    ensures
        child_args(port).len() == 3,
        child_args(port)[0] == "login"@,
        child_args(port)[1] == "--port"@,
        child_args(port)[2] == text::decimal(port as nat),
        text::occurs(not_started(program, child_args(port), reason), program),
        text::occurs(not_started(program, child_args(port), reason), reason),
        text::occurs(
            not_started(program, child_args(port), reason),
            text::joined(child_args(port), " "@),
        ),
        text::occurs(died_early(output), text::trimmed(output)),
        unwatchable(reason) matches ErrorView::Other(m) && text::occurs(m, reason),
{
    let none = Seq::<char>::empty();
    let a = "could not start `"@;
    let b = " "@;
    let c = text::joined(child_args(port), " "@);
    let d = "`: "@;
    let all = not_started(program, child_args(port), reason);
    text::occurs_inside(a, program, b + c + d + reason);
    assert(a + program + (b + c + d + reason) =~= all);
    text::occurs_inside(a + program + b, c, d + reason);
    assert(a + program + b + c + (d + reason) =~= all);
    text::occurs_inside(a + program + b + c + d, reason, none);
    assert(a + program + b + c + d + reason + none =~= all);
    let e = "login exited before it was ready:\n"@;
    text::occurs_inside(e, text::trimmed(output), none);
    assert(e + text::trimmed(output) + none =~= died_early(output));
    let f = "watching the login process: "@;
    text::occurs_inside(f, reason, none);
    assert(f + reason + none =~= f + reason);
}

/// The steps are what they are called, and carrying one out moves the profile only where it
/// says so.
pub proof fn start_steps_are_what_they_say(step: StartStep, e: ErrorView, session: Session)
    ensures
        step.fails(e) <==> (step matches StartStep::Done(Err(x)) && x@ == e),
        step.hands_back(e) <==> (step matches StartStep::Resume(x) && x@ == e),
        step is Resume ==> !carried_out(step, session).login_in_progress,
        step matches StartStep::Release { resume_first } ==> {
            &&& !session.closed && (resume_first || !session.login_in_progress) ==> carried_out(
                step,
                session,
            ).login_in_progress && carried_out(step, session).live is None
            &&& session.closed && !resume_first ==> carried_out(step, session) == session
        },
        !(step is Resume) && !(step is Release) ==> carried_out(step, session) == session,
{
}

/// What a progress says is its state and its detail.
pub proof fn progress_says_its_state(p: LoginProgress, state: Seq<char>, detail: Seq<char>)
    ensures
        p.says(state, detail) <==> p.state@ == state && p.detail@ == detail,
{
}

} // verus!
