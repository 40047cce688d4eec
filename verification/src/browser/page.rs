//! Whether the shop's page has come through bot mitigation.

use crate::browser::error::{self, ApiError, ErrorView};
use crate::browser::response::{self, BLOCK_MARKERS, CHALLENGE_MARKERS};
use crate::browser::session::{SHOP_ORIGIN, SHOP_URL};
use crate::{json, text};
use vstd::prelude::*;

verus! {

/// How long a challenge may take to clear, in seconds.
pub const CLEARANCE_TIMEOUT_SECS: u64 = 45;

/// How long to wait between two looks at the page, in milliseconds.
pub const CLEARANCE_POLL_MS: u64 = 250;

/// What is asked of the page: its origin and what it shows.
pub const PAGE_PROBE: &'static str =
    "({ origin: location.origin, text: document.body ? document.body.innerText : null })";

/// What the page answered.
#[derive(Debug)]
pub struct PageProbe {
    /// Its origin; empty where it did not say.
    pub origin: String,
    /// What it shows, where it shows anything.
    pub text: Option<String>,
}

/// Reads the page's answer to [`PAGE_PROBE`].
pub fn read_probe(v: &serde_json::Value) -> (r: PageProbe)
    ensures
        r.origin@ == (match json::text_member(json::json_model(*v), "origin"@) {
            Some(s) => s,
            None => Seq::empty(),
        }),
        error::opt_view(r.text) == json::text_member(json::json_model(*v), "text"@),
{
    let origin = match json::member_text(v, "origin") {
        Some(s) => s.to_owned(),
        None => String::new(),
    };
    let text = match json::member_text(v, "text") {
        Some(s) => Some(s.to_owned()),
        None => None,
    };
    PageProbe { origin, text }
}

/// What a look at the page leads to.
#[derive(Debug)]
pub enum Clearance {
    /// The page is the shop's, and nothing is in the way.
    Ready,
    /// Give up on this browser.
    Failed(ApiError),
    /// Not yet: look again.
    Wait,
}

impl PageProbe {
    /// The page is a refusal.
    pub open spec fn is_refused(&self) -> bool {
        self.text matches Some(t) && response::marked(t@, BLOCK_MARKERS@)
    }

    /// The page is the shop's and shows something that is no challenge. What it shows
    /// otherwise does not matter: a request from it only needs its origin.
    pub open spec fn is_ready(&self) -> bool {
        &&& self.origin@ == SHOP_ORIGIN@
        &&& self.text matches Some(t) && !response::marked(t@, CHALLENGE_MARKERS@)
            && !text::is_blank(t@)
    }
}

/// What is said of a page that was refused with `marker`.
pub open spec fn refused_view(marker: Seq<char>) -> ErrorView {
    ErrorView::Cloudflare {
        detail: "page load rejected ("@ + text::debug_quoted(marker)
            + ") -- the browser fingerprint is being refused; a UA containing HeadlessChrome is the usual cause"@,
    }
}

/// What is said of a challenge that does not clear.
pub open spec fn stuck_view() -> ErrorView {
    ErrorView::Cloudflare {
        detail: "challenge did not clear within "@ + text::decimal(CLEARANCE_TIMEOUT_SECS as nat)
            + "s"@,
    }
}

/// What to make of the page. A refusal ends it at once; a challenge, which a real browser
/// clears by itself, only once the time is up. Both are blocks, with the same remedy.
pub fn judge_page(probe: &PageProbe, time_is_up: bool) -> (r: Clearance)
    ensures
        match r {
            Clearance::Ready => !probe.is_refused() && probe.is_ready(),
            Clearance::Wait => !probe.is_refused() && !probe.is_ready() && !time_is_up,
            Clearance::Failed(e) => if probe.is_refused() {
                exists|m: &'static str|
                    response::is_first_marker(probe.text->0@, BLOCK_MARKERS@, m) && e@
                        == #[trigger] refused_view(m@)
            } else {
                !probe.is_ready() && time_is_up && e@ == stuck_view()
            },
        },
{
    let mut shows = false;
    if let Some(t) = &probe.text {
        if let Some(marker) = response::first_marker(t.as_str(), &BLOCK_MARKERS) {
            let mut detail = "page load rejected (".to_owned();
            let marker_text = text::debug_quote(marker);
            detail.append(marker_text.as_str());
            detail.append(
                ") -- the browser fingerprint is being refused; a UA containing HeadlessChrome is the usual cause",
            );
            let e = ApiError::Cloudflare { detail };
            assert(e@ == refused_view(marker@));
            return Clearance::Failed(e);
        }
        let challenged = response::first_marker(t.as_str(), &CHALLENGE_MARKERS).is_some();
        shows = !challenged && !text::blank(t.as_str());
    }
    if shows && text::same(probe.origin.as_str(), SHOP_ORIGIN) {
        return Clearance::Ready;
    }
    if time_is_up {
        let mut detail = "challenge did not clear within ".to_owned();
        let secs = text::number(CLEARANCE_TIMEOUT_SECS);
        detail.append(secs.as_str());
        detail.append("s");
        return Clearance::Failed(ApiError::Cloudflare { detail });
    }
    Clearance::Wait
}

/// The shop's page could not be loaded at all.
pub fn navigation_failed(reason: &str) -> (r: ApiError)
    ensures
        r@ == ErrorView::Other("navigating to "@ + SHOP_URL@ + ": "@ + reason@),
{
    let mut m = "navigating to ".to_owned();
    m.append(SHOP_URL);
    m.append(": ");
    m.append(reason);
    ApiError::Other(m)
}

/// A page is a refusal exactly where it shows one of the two markers of one.
pub proof fn a_refused_page_shows_a_marker(probe: PageProbe)
    ensures
        probe.is_refused() <==> (probe.text matches Some(t) && (text::occurs(
            t@,
            "Pyyntö estetty"@,
        ) || text::occurs(t@, "Attention Required"@))),
{
    if let Some(t) = probe.text {
        response::the_markers_are_these(t@);
    }
}

/// A page is ready exactly where its origin is the shop's and it shows something, some
/// character that is no white space, without a marker of a challenge; whatever else it shows.
pub proof fn a_ready_page_is_the_shops(probe: PageProbe)
    ensures
        probe.is_ready() <==> probe.origin@ == "https://www.k-ruoka.fi"@ && (probe.text matches Some(
            t,
        ) && !text::occurs(t@, "Just a moment"@) && !text::occurs(t@, "cdn-cgi/challenge"@)
            && exists|i: int| 0 <= i < t@.len() && !text::is_white(#[trigger] t@[i])),
{
    if let Some(t) = probe.text {
        response::the_markers_are_these(t@);
    }
}

/// Both ways for a page to fail are blocks, so that both get the remedy of one; the one that
/// was refused names its marker, as far as that is plain.
pub proof fn failed_pages_are_blocks(marker: Seq<char>)
    ensures
        refused_view(marker) is Cloudflare,
        stuck_view() is Cloudflare,
        text::is_plain(marker) ==> (refused_view(marker) matches ErrorView::Cloudflare { detail }
            && text::occurs(detail, marker)),
        stuck_view() matches ErrorView::Cloudflare { detail } && text::occurs(
            detail,
            text::decimal(45),
        ),
{
    if text::is_plain(marker) {
        text::plain_text_is_shown(
            "page load rejected ("@,
            marker,
            ") -- the browser fingerprint is being refused; a UA containing HeadlessChrome is the usual cause"@,
        );
    }
    text::occurs_inside("challenge did not clear within "@, text::decimal(45), "s"@);
}

/// What is asked of the page is what is read of its answer: its origin and what it shows.
pub proof fn the_page_is_asked_for_what_is_read()
    ensures
        text::occurs(PAGE_PROBE@, "origin: location.origin"@),
        text::occurs(PAGE_PROBE@, "text: document.body ? document.body.innerText : null"@),
{
    reveal_strlit(
        "({ origin: location.origin, text: document.body ? document.body.innerText : null })",
    );
    reveal_strlit("origin: location.origin");
    reveal_strlit("text: document.body ? document.body.innerText : null");
    let first = "origin: location.origin"@;
    let second = "text: document.body ? document.body.innerText : null"@;
    assert(PAGE_PROBE@.subrange(3, 3 + first.len() as int) =~= first);
    assert(text::occurs_at(PAGE_PROBE@, first, 3));
    assert(PAGE_PROBE@.subrange(28, 28 + second.len() as int) =~= second);
    assert(text::occurs_at(PAGE_PROBE@, second, 28));
}

} // verus!
