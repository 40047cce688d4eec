//! Why a `/kr-api/` call did not produce a usable answer.

use crate::text;
use vstd::prelude::*;

verus! {

/// Why a `/kr-api/` call did not produce a usable answer.
///
/// The distinction between the first two matters most: a block is recoverable by
/// relaunching the browser against the same profile, while an expired session must never
/// touch the profile, which would destroy a real login over a transient failure.
#[derive(Debug)]
pub enum ApiError {
    /// Bot mitigation. Relaunch against the same profile; never delete it. Raised by an
    /// API response that carries a Cloudflare fingerprint and by a rejected page load
    /// alike, since both need the same remedy.
    Cloudflare { detail: String },
    /// The K-Plussa session is gone. Do not retry, do not touch the profile.
    AuthExpired,
    /// `X-K-Build-Number` was absent or unparseable. The response that says so may carry
    /// the value that is wanted.
    StaleBuild { wanted: Option<String> },
    /// The API understood the request and said no.
    Api { status: u16, message: String },
    /// The request was refused before it was sent: a bad argument, not a failure of
    /// K-Ruoka's.
    InvalidRequest(String),
    /// Anything else.
    Other(String),
}

/// What an [`ApiError`] says, over the characters of its texts.
pub enum ErrorView {
    Cloudflare { detail: Seq<char> },
    AuthExpired,
    StaleBuild { wanted: Option<Seq<char>> },
    Api { status: u16, message: Seq<char> },
    InvalidRequest(Seq<char>),
    Other(Seq<char>),
}

/// The characters of an optional text.
pub open spec fn opt_view(s: Option<String>) -> Option<Seq<char>> {
    match s {
        Some(s) => Some(s@),
        None => None,
    }
}

/// An optional text as std's `{:?}` writes it.
pub open spec fn opt_debug(s: Option<Seq<char>>) -> Seq<char> {
    match s {
        Some(s) => "Some("@ + text::debug_quoted(s) + ")"@,
        None => "None"@,
    }
}

impl View for ApiError {
    type V = ErrorView;

    open spec fn view(&self) -> ErrorView {
        match self {
            ApiError::Cloudflare { detail } => ErrorView::Cloudflare { detail: detail@ },
            ApiError::AuthExpired => ErrorView::AuthExpired,
            ApiError::StaleBuild { wanted } => ErrorView::StaleBuild { wanted: opt_view(*wanted) },
            ApiError::Api { status, message } => ErrorView::Api {
                status: *status,
                message: message@,
            },
            ApiError::InvalidRequest(m) => ErrorView::InvalidRequest(m@),
            ApiError::Other(m) => ErrorView::Other(m@),
        }
    }
}

impl ErrorView {
    /// The error in words.
    pub open spec fn words(self) -> Seq<char> {
        match self {
            ErrorView::Cloudflare { detail } => "Cloudflare blocked us: "@ + detail,
            ErrorView::AuthExpired =>
                "K-Plussa session has expired -- run `k-ruoka-mcp login` again"@,
            ErrorView::StaleBuild { wanted } => "stale X-K-Build-Number (server wants "@
                + opt_debug(wanted) + ")"@,
            ErrorView::Api { status, message } => "K-Ruoka API error (status "@ + text::decimal(
                status as nat,
            ) + "): "@ + message,
            ErrorView::InvalidRequest(m) => m,
            ErrorView::Other(m) => m,
        }
    }
}

impl ApiError {
    /// The error in words.
    pub fn describe(&self) -> (r: String)
        ensures
            r@ == self@.words(),
    {
        match self {
            ApiError::Cloudflare { detail } => {
                let mut r = "Cloudflare blocked us: ".to_owned();
                r.append(detail.as_str());
                r
            },
            ApiError::AuthExpired => {
                "K-Plussa session has expired -- run `k-ruoka-mcp login` again".to_owned()
            },
            ApiError::StaleBuild { wanted } => {
                let mut r = "stale X-K-Build-Number (server wants ".to_owned();
                match wanted {
                    Some(build) => {
                        let mut some = "Some(".to_owned();
                        let build = text::debug_quote(build.as_str());
                        some.append(build.as_str());
                        some.append(")");
                        r.append(some.as_str());
                    },
                    None => {
                        r.append("None");
                    },
                }
                r.append(")");
                r
            },
            ApiError::Api { status, message } => {
                let mut r = "K-Ruoka API error (status ".to_owned();
                let number = text::number(*status as u64);
                r.append(number.as_str());
                r.append("): ");
                r.append(message.as_str());
                r
            },
            ApiError::InvalidRequest(m) => m.clone(),
            ApiError::Other(m) => m.clone(),
        }
    }
}

/// An error's view is of its own kind and holds all that the error does.
pub proof fn errors_are_viewed_whole(e: ApiError)
    ensures
        e matches ApiError::Cloudflare { detail } ==> e@ == (ErrorView::Cloudflare {
            detail: detail@,
        }),
        e is AuthExpired <==> e@ is AuthExpired,
        e matches ApiError::StaleBuild { wanted: Some(build) } ==> e@ == (ErrorView::StaleBuild {
            wanted: Some(build@),
        }),
        e matches ApiError::StaleBuild { wanted: None } ==> e@ == (ErrorView::StaleBuild {
            wanted: None,
        }),
        e matches ApiError::Api { status, message } ==> e@ == (ErrorView::Api {
            status,
            message: message@,
        }),
        e matches ApiError::InvalidRequest(m) ==> e@ == ErrorView::InvalidRequest(m@),
        e matches ApiError::Other(m) ==> e@ == ErrorView::Other(m@),
{
}

/// An error says what it holds: the detail of a block, the status and the message of a
/// refusal, the build number that is wanted, a message as it is, and, of a session that is
/// gone, how to sign in again.
pub proof fn errors_say_what_they_hold(
    detail: Seq<char>,
    status: u16,
    message: Seq<char>,
    build: Seq<char>,
)
    ensures
        text::occurs(ErrorView::Cloudflare { detail }.words(), detail),
        text::begins_with(ErrorView::Cloudflare { detail }.words(), "Cloudflare blocked us: "@),
        text::occurs(ErrorView::AuthExpired.words(), "k-ruoka-mcp login"@),
        text::occurs(ErrorView::Api { status, message }.words(), message),
        text::occurs(ErrorView::Api { status, message }.words(), text::decimal(status as nat)),
        text::occurs(
            ErrorView::StaleBuild { wanted: Some(build) }.words(),
            text::debug_quoted(build),
        ),
        text::occurs(ErrorView::StaleBuild { wanted: None }.words(), "None"@),
        ErrorView::InvalidRequest(message).words() == message,
        ErrorView::Other(message).words() == message,
{
    let none = Seq::<char>::empty();
    let a = "Cloudflare blocked us: "@;
    text::occurs_inside(a, detail, none);
    assert(a + detail + none =~= a + detail);
    text::beginning_is_standing_first(a + detail, a);
    let n = text::decimal(status as nat);
    let b = "K-Ruoka API error (status "@;
    let c = "): "@;
    text::occurs_inside(b + n + c, message, none);
    assert(b + n + c + message + none =~= b + n + c + message);
    text::occurs_inside(b, n, c + message);
    assert(b + n + (c + message) =~= b + n + c + message);
    let d = "stale X-K-Build-Number (server wants "@;
    let q = text::debug_quoted(build);
    text::occurs_inside(d + "Some("@, q, ")"@ + ")"@);
    assert(d + "Some("@ + q + (")"@ + ")"@) =~= d + ("Some("@ + q + ")"@) + ")"@);
    text::occurs_inside(d, "None"@, ")"@);
    let gone = "K-Plussa session has expired -- run `k-ruoka-mcp login` again"@;
    let how = "k-ruoka-mcp login"@;
    reveal_strlit("K-Plussa session has expired -- run `k-ruoka-mcp login` again");
    reveal_strlit("k-ruoka-mcp login");
    assert(gone.subrange(37, 37 + how.len() as int) =~= how);
    assert(text::occurs_at(gone, how, 37));
}

} // verus!
