//! What a raw `/kr-api/` response means.

use crate::browser::error::{self, ApiError, ErrorView};
use crate::json;
use crate::text;
use vstd::prelude::*;

verus! {

/// A refusal: the request is being turned away, and waiting will not change that.
/// `Pyyntö estetty` ("request blocked") is K-Ruoka's own page, the other Cloudflare's.
pub const BLOCK_MARKERS: [&'static str; 2] = ["Pyyntö estetty", "Attention Required"];

/// A challenge in progress. Not a refusal: a real browser runs it and it clears itself.
pub const CHALLENGE_MARKERS: [&'static str; 2] = ["Just a moment", "cdn-cgi/challenge"];

/// Some marker stands in the text.
pub open spec fn marked(t: Seq<char>, markers: Seq<&'static str>) -> bool {
    exists|k: int| 0 <= k < markers.len() && text::occurs(t, (#[trigger] markers[k])@)
}

/// `m` is the first of the markers that stands in the text.
pub open spec fn is_first_marker(t: Seq<char>, markers: Seq<&'static str>, m: &'static str) -> bool {
    exists|k: int|
        0 <= k < markers.len() && markers[k] == m && text::occurs(t, (#[trigger] markers[k])@)
            && forall|j: int| 0 <= j < k ==> !text::occurs(t, (#[trigger] markers[j])@)
}

/// The first of the markers that stands in the text.
pub fn first_marker(t: &str, markers: &[&'static str]) -> (r: Option<&'static str>)
    ensures
        r is Some == marked(t@, markers@),
        r matches Some(m) ==> is_first_marker(t@, markers@, m),
{
    let mut i: usize = 0;
    while i < markers.len()
        invariant
            i <= markers@.len(),
            forall|j: int| 0 <= j < i ==> !text::occurs(t@, (#[trigger] markers@[j])@),
        decreases markers@.len() - i,
    {
        if text::contains(t, markers[i]) {
            return Some(markers[i]);
        }
        i = i + 1;
    }
    None
}

/// Any Cloudflare fingerprint at all: a refusal, or else a challenge.
pub fn cloudflare_marker(t: &str) -> (r: Option<&'static str>)
    ensures
        r is Some == (marked(t@, BLOCK_MARKERS@) || marked(t@, CHALLENGE_MARKERS@)),
        r matches Some(m) ==> if marked(t@, BLOCK_MARKERS@) {
            is_first_marker(t@, BLOCK_MARKERS@, m)
        } else {
            is_first_marker(t@, CHALLENGE_MARKERS@, m)
        },
{
    match first_marker(t, &BLOCK_MARKERS) {
        Some(m) => Some(m),
        None => first_marker(t, &CHALLENGE_MARKERS),
    }
}

/// A raw `/kr-api/` response.
#[derive(Debug)]
pub struct RawResponse {
    pub status: u16,
    /// The `k-ruoka-build` header.
    pub build: Option<String>,
    /// The `cf-mitigated` header.
    pub cf_mitigated: Option<String>,
    /// The `content-type` header.
    pub content_type: Option<String>,
    pub body: String,
}

impl RawResponse {
    /// The status is one of success.
    pub open spec fn is_success(&self) -> bool {
        200 <= self.status < 300
    }

    /// The response is an HTML page, by its header or by its first character.
    pub open spec fn is_html(&self) -> bool {
        ||| self.content_type matches Some(c) && text::occurs(c@, "text/html"@)
        ||| text::begins_with(text::trimmed_start(self.body@), "<"@)
    }

    /// The body carries a Cloudflare fingerprint.
    pub open spec fn is_marked(&self) -> bool {
        marked(self.body@, BLOCK_MARKERS@) || marked(self.body@, CHALLENGE_MARKERS@)
    }

    /// The response is bot mitigation, and not the application's own.
    ///
    /// A success is not, short of the header: its body holds marketing copy in which a
    /// marker may well stand. An HTML page without a marker is one only under a status
    /// that Cloudflare itself serves and that a relaunch remedies: not 404, which K-Ruoka
    /// answers for an unknown path, and not 429, which a retry makes worse.
    pub open spec fn is_blocked(&self) -> bool {
        ||| self.cf_mitigated is Some
        ||| {
            &&& !self.is_success()
            &&& self.is_marked() || (self.is_html() && (self.status == 403 || self.status == 503))
        }
    }

    /// What is said of a blocked response.
    pub open spec fn block_detail(&self) -> Seq<char> {
        "API response, status "@ + text::decimal(self.status as nat) + match self.cf_mitigated {
            Some(m) => ", cf-mitigated: "@ + m@,
            None => Seq::empty(),
        }
    }

    /// What a response that is no block and no success means, given the message that its
    /// body carries.
    pub open spec fn refusal(&self, message: Option<Seq<char>>) -> ErrorView {
        if message is Some && text::occurs(message->0, "Client version is too old"@) {
            ErrorView::StaleBuild { wanted: error::opt_view(self.build) }
        } else if message is Some && text::occurs(message->0, "Token renewal error"@) {
            ErrorView::AuthExpired
        } else if self.status == 401 {
            ErrorView::AuthExpired
        } else {
            ErrorView::Api {
                status: self.status,
                message: match message {
                    Some(m) => m,
                    None => text::first_chars(self.body@, 300),
                },
            }
        }
    }

    /// What the response means, given the message that its body carries: a block, a
    /// success, or what the application refused. A success whose body is not JSON is
    /// apart.
    pub open spec fn failure(&self, message: Option<Seq<char>>) -> Option<ErrorView> {
        if self.is_blocked() {
            Some(ErrorView::Cloudflare { detail: self.block_detail() })
        } else if self.is_success() {
            None
        } else {
            Some(self.refusal(message))
        }
    }
}

/// What is said of a success whose body is not JSON.
pub open spec fn not_json() -> ErrorView {
    ErrorView::Other("K-Ruoka returned a success status with a body that is not JSON"@)
}

/// One of K-Ruoka's own error bodies, such as
/// `{"error":{"message":"Client version is too old - reload"}}`.
///
/// Which bodies are one is for serde's derived reading of this type to say, and its derive
/// cannot stand here: whoever holds the response reads it. That reading is not one of
/// members of a JSON value: it takes a list in place of an object, refuses a member that is
/// there twice, and passes over any other member unread.
#[derive(Debug)]
pub struct ApiErrorBody {
    pub error: ApiErrorInner,
}

#[derive(Debug)]
pub struct ApiErrorInner {
    pub message: String,
}

/// The message that a response carries, given its body as an error body, where it is one.
pub open spec fn message_of(refusal: Option<ApiErrorBody>) -> Option<Seq<char>> {
    match refusal {
        Some(b) => Some(b.error.message@),
        None => None,
    }
}

/// What `raw` means, given its body as JSON, where it is JSON, and as an error body, where
/// it is one.
pub fn judge(raw: RawResponse, value: Option<serde_json::Value>, refusal: Option<ApiErrorBody>) -> (r:
    Result<serde_json::Value, ApiError>)
    ensures
        match raw.failure(message_of(refusal)) {
            Some(e) => r matches Err(x) && x@ == e,
            None => match value {
                Some(v) => r == Ok::<serde_json::Value, ApiError>(v),
                None => r matches Err(x) && x@ == not_json(),
            },
        },
{
    let html_header = match &raw.content_type {
        Some(c) => text::contains(c.as_str(), "text/html"),
        None => false,
    };
    let looks_html = html_header || text::starts_with(text::trim_start(raw.body.as_str()), "<");
    let marker = cloudflare_marker(raw.body.as_str()).is_some();
    let cf_status = raw.status == 403 || raw.status == 503;
    let success = 200 <= raw.status && raw.status < 300;
    if raw.cf_mitigated.is_some() || (!success && (marker || (looks_html && cf_status))) {
        let mut detail = "API response, status ".to_owned();
        let status = text::number(raw.status as u64);
        detail.append(status.as_str());
        match &raw.cf_mitigated {
            Some(m) => {
                let mut mitigated = ", cf-mitigated: ".to_owned();
                mitigated.append(m.as_str());
                detail.append(mitigated.as_str());
            },
            None => {
                assert(detail@ + Seq::<char>::empty() =~= detail@);
            },
        }
        return Err(ApiError::Cloudflare { detail });
    }
    if success {
        return match value {
            Some(v) => Ok(v),
            None => Err(
                ApiError::Other(
                    "K-Ruoka returned a success status with a body that is not JSON".to_owned(),
                ),
            ),
        };
    }
    if let Some(b) = &refusal {
        let m: &String = &b.error.message;
        if text::contains(m.as_str(), "Client version is too old") {
            return Err(ApiError::StaleBuild { wanted: raw.build });
        }
        if text::contains(m.as_str(), "Token renewal error") {
            return Err(ApiError::AuthExpired);
        }
    }
    if raw.status == 401 {
        return Err(ApiError::AuthExpired);
    }
    let message = match refusal {
        Some(b) => b.error.message,
        None => text::head(raw.body.as_str(), 300).to_owned(),
    };
    Err(ApiError::Api { status: raw.status, message })
}

/// Turn a raw response into either its body or a typed failure. `refusal` is its body as an
/// error body, where it is one.
pub fn classify(raw: RawResponse, refusal: Option<ApiErrorBody>) -> (r: Result<
    serde_json::Value,
    ApiError,
>)
    ensures
        match raw.failure(message_of(refusal)) {
            Some(e) => r matches Err(x) && x@ == e,
            None => match json::json_parsed(raw.body@) {
                Some(m) => r matches Ok(v) && json::json_model(v) == m,
                None => r matches Err(x) && x@ == not_json(),
            },
        },
{
    let value = json::parse(raw.body.as_str());
    judge(raw, value, refusal)
}

/// A success is never a block, whatever its body says, unless the header says so.
pub proof fn success_is_no_block(raw: RawResponse)
    requires
        raw.is_success(),
        raw.cf_mitigated is None,
    ensures
        forall|message: Option<Seq<char>>| #[trigger] raw.failure(message) is None,
{
}

/// An unmarked page under any other status than 403 and 503 is no block: an unknown path
/// and a rate limit do not cost the browser.
pub proof fn unmarked_page_is_no_block(raw: RawResponse, message: Option<Seq<char>>)
    requires
        raw.cf_mitigated is None,
        !raw.is_marked(),
        raw.status != 403,
        raw.status != 503,
    ensures
        !(raw.failure(message) matches Some(ErrorView::Cloudflare { detail })),
{
}

/// The application's own refusals, without a marker and not as a page, are never a block.
pub proof fn application_refusal_is_no_block(raw: RawResponse, message: Option<Seq<char>>)
    requires
        raw.cf_mitigated is None,
        !raw.is_marked(),
        !raw.is_html(),
    ensures
        !(raw.failure(message) matches Some(ErrorView::Cloudflare { detail })),
{
}

/// Which texts carry a marker: those in which one of the four stands, the two of a refusal
/// and the two of a challenge.
pub proof fn the_markers_are_these(t: Seq<char>)
    ensures
        marked(t, BLOCK_MARKERS@) <==> text::occurs(t, "Pyyntö estetty"@) || text::occurs(
            t,
            "Attention Required"@,
        ),
        marked(t, CHALLENGE_MARKERS@) <==> text::occurs(t, "Just a moment"@) || text::occurs(
            t,
            "cdn-cgi/challenge"@,
        ),
{
    assert(BLOCK_MARKERS@[0]@ == "Pyyntö estetty"@);
    assert(BLOCK_MARKERS@[1]@ == "Attention Required"@);
    assert(CHALLENGE_MARKERS@[0]@ == "Just a moment"@);
    assert(CHALLENGE_MARKERS@[1]@ == "cdn-cgi/challenge"@);
}

/// The first marker is one of the list that stands in the text, and none before it does.
pub proof fn the_first_marker_stands_in_the_text(
    t: Seq<char>,
    markers: Seq<&'static str>,
    m: &'static str,
)
    requires
        is_first_marker(t, markers, m),
    ensures
        text::occurs(t, m@),
        markers.contains(m),
        marked(t, markers),
        forall|k: int|
            0 <= k < markers.len() && text::occurs(t, (#[trigger] markers[k])@) ==> exists|j: int|
                0 <= j <= k && #[trigger] markers[j] == m,
{
}

/// A response is a block exactly where the header says so, or where, without success, a
/// marker stands in its body or it is a page, by its type or by its first character that is
/// no white space, of status 403 or 503.
pub proof fn a_block_is_told_by_these(raw: RawResponse, message: Option<Seq<char>>)
    ensures
        (raw.failure(message) matches Some(ErrorView::Cloudflare { detail })) <==> {
            let marker = text::occurs(raw.body@, "Pyyntö estetty"@) || text::occurs(
                raw.body@,
                "Attention Required"@,
            ) || text::occurs(raw.body@, "Just a moment"@) || text::occurs(
                raw.body@,
                "cdn-cgi/challenge"@,
            );
            let typed = raw.content_type matches Some(c) && text::occurs(c@, "text/html"@);
            let tagged = exists|i: int|
                0 <= i < raw.body@.len() && #[trigger] raw.body@[i] == '<' && forall|k: int|
                    0 <= k < i ==> text::is_white(#[trigger] raw.body@[k]);
            raw.cf_mitigated is Some || (!(200 <= raw.status < 300) && (marker || ((typed || tagged)
                && (raw.status == 403 || raw.status == 503))))
        },
{
    the_markers_are_these(raw.body@);
    let body = raw.body@;
    let rest = text::trimmed_start(body);
    reveal_strlit("<");
    text::trimmed_start_is_the_rest(body);
    let n = choose|n: int|
        0 <= n <= body.len() && rest == #[trigger] body.skip(n) && (forall|k: int|
            0 <= k < n ==> text::is_white(#[trigger] body[k])) && (n < body.len()
            ==> !text::is_white(body[n]));
    let begun = text::begins_with(rest, "<"@);
    if begun {
        assert(rest.subrange(0, 1)[0] == '<');
        assert(body[n] == '<');
    }
    if exists|i: int|
        0 <= i < body.len() && #[trigger] body[i] == '<' && forall|k: int|
            0 <= k < i ==> text::is_white(#[trigger] body[k]) {
        let i = choose|i: int|
            0 <= i < body.len() && #[trigger] body[i] == '<' && forall|k: int|
                0 <= k < i ==> text::is_white(#[trigger] body[k]);
        assert(!text::is_white('<'));
        assert(i == n);
        assert(rest.subrange(0, 1) =~= "<"@);
    }
}

/// What a block is told with: its status, and what the header says where it is there.
pub proof fn a_block_names_its_status(raw: RawResponse, message: Option<Seq<char>>)
    requires
        raw.failure(message) matches Some(ErrorView::Cloudflare { detail }),
    ensures
        raw.failure(message) matches Some(ErrorView::Cloudflare { detail }) && {
            &&& text::occurs(detail, text::decimal(raw.status as nat))
            &&& raw.cf_mitigated matches Some(m) ==> text::occurs(detail, m@)
        },
{
    let lead = "API response, status "@;
    let n = text::decimal(raw.status as nat);
    let none = Seq::<char>::empty();
    match raw.cf_mitigated {
        Some(m) => {
            let c = ", cf-mitigated: "@;
            text::occurs_inside(lead, n, c + m@);
            text::occurs_inside(lead + n + c, m@, none);
            assert(lead + n + c + m@ + none =~= lead + n + (c + m@));
        },
        None => {
            text::occurs_inside(lead, n, none);
        },
    }
}

/// Without the header, a response of a status from 200 to 299 is a success, whatever it
/// holds, and none of another status is.
pub proof fn success_goes_by_the_status(raw: RawResponse, message: Option<Seq<char>>)
    requires
        raw.cf_mitigated is None,
    ensures
        raw.failure(message) is None <==> 200 <= raw.status < 300,
{
}

/// Every response of status 401 that is no block, and that does not say that the client is
/// too old, means that the session is gone, whatever else its body carries.
pub proof fn unauthorized_means_signed_out(raw: RawResponse, message: Option<Seq<char>>)
    requires
        raw.status == 401,
        !raw.is_blocked(),
        !(message matches Some(m) && text::occurs(m, "Client version is too old"@)),
    ensures
        raw.failure(message) == Some(ErrorView::AuthExpired),
{
}

/// What the application refuses, neither a block nor a success, means by its message before
/// its status: a client that is too old wants a build, the one that the response carries; a
/// token that is not renewed, and a 401, mean that the session is gone; everything else is
/// the refusal itself, with its status, and its message or else the front of its body.
pub proof fn refusals_mean_what_they_say(raw: RawResponse, message: Option<Seq<char>>)
    requires
        !raw.is_blocked(),
        !(200 <= raw.status < 300),
    ensures
        ({
            let old = message matches Some(m) && text::occurs(m, "Client version is too old"@);
            let expired = message matches Some(m) && text::occurs(m, "Token renewal error"@);
            &&& old ==> (raw.failure(message) matches Some(ErrorView::StaleBuild { wanted }) && {
                &&& raw.build matches Some(b) ==> wanted == Some(b@)
                &&& raw.build is None ==> wanted is None
            })
            &&& !old && (expired || raw.status == 401) ==> raw.failure(message) == Some(
                ErrorView::AuthExpired,
            )
            &&& !old && !expired && raw.status != 401 ==> (raw.failure(message) matches Some(
                ErrorView::Api { status, message: said },
            ) && status == raw.status && {
                &&& message matches Some(m) ==> said == m
                &&& message is None && raw.body@.len() <= 300 ==> said == raw.body@
                &&& message is None && raw.body@.len() > 300 ==> said == raw.body@.take(300)
            })
        }),
{
}

/// The message that a response carries is that of the error body it was read as, and there
/// is none where it was read as none.
pub proof fn the_message_is_the_error_bodys(refusal: Option<ApiErrorBody>)
    ensures
        refusal matches Some(b) ==> message_of(refusal) == Some(b.error.message@),
        refusal is None ==> message_of(refusal) is None,
{
}

} // verus!
