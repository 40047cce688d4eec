//! The script that makes a request from inside the shop's own page.
//!
//! Doing the request there is what makes it same-origin, so the browser attaches the
//! session's cookies itself.

use crate::{json, text};
use vstd::prelude::*;

verus! {

/// Up to the build number.
pub const SCRIPT_START: &'static str = "(async () => {
             const headers = { 'Accept': 'application/json' };
             const build = ";

/// Between the build number and the body.
pub const SCRIPT_BODY: &'static str = ";
             if (build) headers['X-K-Build-Number'] = build;
             const body = ";

/// Between the body and the path.
pub const SCRIPT_PATH: &'static str = ";
             if (body !== undefined) headers['Content-Type'] = 'application/json';
             const r = await fetch(";

/// Between the path and the method.
pub const SCRIPT_METHOD: &'static str = ", {
               method: ";

/// Behind the method.
pub const SCRIPT_END: &'static str = ",
               headers,
               body,
               credentials: 'include',
             });
             return {
               status: r.status,
               build: r.headers.get('k-ruoka-build'),
               cfMitigated: r.headers.get('cf-mitigated'),
               contentType: r.headers.get('content-type'),
               body: await r.text(),
             };
           })()";

/// The build number in the script: a string literal, or null where none is known.
pub open spec fn build_part(build: Option<&str>) -> Seq<char> {
    match build {
        Some(b) => json::quoted(b@),
        None => "null"@,
    }
}

/// The body in the script: the JSON turned back into text, or nothing to send.
pub open spec fn body_part(body: Option<&str>) -> Seq<char> {
    match body {
        Some(b) => "JSON.stringify("@ + b@ + ")"@,
        None => "undefined"@,
    }
}

/// The script up to the path.
pub open spec fn before_path(body: Option<&str>, build: Option<&str>) -> Seq<char> {
    SCRIPT_START@ + build_part(build) + SCRIPT_BODY@ + body_part(body) + SCRIPT_PATH@
}

/// The script that makes a request.
pub open spec fn script(method: &str, path: &str, body: Option<&str>, build: Option<&str>) -> Seq<
    char,
> {
    before_path(body, build) + json::quoted(path@) + SCRIPT_METHOD@ + json::quoted(method@)
        + SCRIPT_END@
}

/// The script that makes a request. `body` is JSON.
pub fn fetch_script(method: &str, path: &str, body: Option<&str>, build: Option<&str>) -> (r: String)
    ensures
        r@ == script(method, path, body, build),
{
    let mut r = SCRIPT_START.to_owned();
    match build {
        Some(b) => {
            let build = json::quote(b);
            r.append(build.as_str());
        },
        None => {
            r.append("null");
        },
    }
    r.append(SCRIPT_BODY);
    match body {
        Some(b) => {
            let mut part = "JSON.stringify(".to_owned();
            part.append(b);
            part.append(")");
            r.append(part.as_str());
        },
        None => {
            r.append("undefined");
        },
    }
    r.append(SCRIPT_PATH);
    let path = json::quote(path);
    r.append(path.as_str());
    r.append(SCRIPT_METHOD);
    let method = json::quote(method);
    r.append(method.as_str());
    r.append(SCRIPT_END);
    r
}

proof fn regroup(a: Seq<char>, b: Seq<char>, c: Seq<char>, d: Seq<char>, e: Seq<char>)
    ensures
        a + b + c + d + e == a + b + (c + d + e),
        a + b + c + d + e == (a + b + c) + d + e,
{
    assert(a + b + c + d + e =~= a + b + (c + d + e));
}

proof fn regroup_build(a: Seq<char>, b: Seq<char>, c: Seq<char>, d: Seq<char>, e: Seq<char>, f: Seq<char>, g: Seq<char>)
    ensures
        (a + b + c + d + e) + f + g == a + b + (c + d + e + f + g),
{
    assert((a + b + c + d + e) + f + g =~= a + b + (c + d + e + f + g));
}

/// What stands behind the path.
pub open spec fn behind_path(method: &str) -> Seq<char> {
    SCRIPT_METHOD@ + json::quoted(method@) + SCRIPT_END@
}

/// The path stays a text of the script: it is read back as itself where it stands, and
/// behind it the script goes on with its own code.
pub proof fn path_stays_a_text(method: &str, path: &str, body: Option<&str>, build: Option<&str>)
    ensures
        json::read_literal(
            script(method, path, body, build).skip(before_path(body, build).len() as int),
        ) == Some((path@, behind_path(method))),
{
    let before = before_path(body, build);
    regroup(before, json::quoted(path@), SCRIPT_METHOD@, json::quoted(method@), SCRIPT_END@);
    json::quoted_reads_back_inside(before, path@, behind_path(method));
}

/// The method stays a text of the script in the same way.
pub proof fn method_stays_a_text(method: &str, path: &str, body: Option<&str>, build: Option<&str>)
    ensures
        json::read_literal(
            script(method, path, body, build).skip(
                (before_path(body, build) + json::quoted(path@) + SCRIPT_METHOD@).len() as int,
            ),
        ) == Some((method@, SCRIPT_END@)),
{
    let before = before_path(body, build) + json::quoted(path@) + SCRIPT_METHOD@;
    json::quoted_reads_back_inside(before, method@, SCRIPT_END@);
}

/// The build number stays a text of the script in the same way.
pub proof fn build_stays_a_text(method: &str, path: &str, body: Option<&str>, build: &str)
    ensures
        json::read_literal(
            script(method, path, body, Some(build)).skip(SCRIPT_START@.len() as int),
        ) == Some(
            (
                build@,
                SCRIPT_BODY@ + body_part(body) + SCRIPT_PATH@ + json::quoted(path@) + behind_path(
                    method,
                ),
            ),
        ),
{
    let before = before_path(body, Some(build));
    let q = json::quoted(path@);
    let rest = SCRIPT_BODY@ + body_part(body) + SCRIPT_PATH@ + q + behind_path(method);
    regroup(before, q, SCRIPT_METHOD@, json::quoted(method@), SCRIPT_END@);
    regroup_build(
        SCRIPT_START@,
        json::quoted(build@),
        SCRIPT_BODY@,
        body_part(body),
        SCRIPT_PATH@,
        q,
        behind_path(method),
    );
    json::quoted_reads_back_inside(SCRIPT_START@, build@, rest);
}

proof fn regroup_body(
    a: Seq<char>,
    b: Seq<char>,
    c: Seq<char>,
    d: Seq<char>,
    e: Seq<char>,
    f: Seq<char>,
    g: Seq<char>,
    h: Seq<char>,
    i: Seq<char>,
)
    ensures
        (a + (b + (c + d + e) + f) + g) + h + i == (a + b + c) + d + (e + f + g + h + i),
{
    assert((a + (b + (c + d + e) + f) + g) + h + i =~= (a + b + c) + d + (e + f + g + h + i));
}

/// The script up to the body.
pub open spec fn before_body(build: Option<&str>) -> Seq<char> {
    SCRIPT_START@ + build_part(build) + SCRIPT_BODY@
}

/// A text that stands quoted in the body stays a text of the script: it is read back as
/// itself where it stands, and behind it the body and then the script go on as they are.
pub proof fn body_texts_stay_texts(
    method: &str,
    path: &str,
    body: &str,
    build: Option<&str>,
    before: Seq<char>,
    s: Seq<char>,
    rest: Seq<char>,
)
    requires
        body@ == before + json::quoted(s) + rest,
    ensures
        json::read_literal(
            script(method, path, Some(body), build).skip(
                (before_body(build) + "JSON.stringify("@ + before).len() as int,
            ),
        ) == Some(
            (s, rest + ")"@ + SCRIPT_PATH@ + json::quoted(path@) + behind_path(method)),
        ),
{
    let lead = before_body(build);
    let call = "JSON.stringify("@;
    let end = ")"@;
    let p = json::quoted(path@);
    let behind = behind_path(method);
    regroup(before_path(Some(body), build), p, SCRIPT_METHOD@, json::quoted(method@), SCRIPT_END@);
    regroup_body(
        lead,
        call,
        before,
        json::quoted(s),
        rest,
        end,
        SCRIPT_PATH@,
        p,
        behind,
    );
    json::quoted_reads_back_inside(
        lead + call + before,
        s,
        rest + end + SCRIPT_PATH@ + p + behind,
    );
}

/// The body is handed over as the text of what it writes, or not at all where there is none,
/// and the build number as a text, or as nothing.
pub proof fn absent_parts_are_absent(b: &str)
    ensures
        body_part(Some(b)) == "JSON.stringify("@ + b@ + ")"@,
        body_part(None) == "undefined"@,
        build_part(Some(b)) == json::quoted(b@),
        build_part(None) == "null"@,
{
}

proof fn within(all: Seq<char>, part: Seq<char>, at: int)
    requires
        0 <= at,
        at + part.len() <= all.len(),
        forall|k: int| 0 <= k < part.len() ==> #[trigger] part[k] == all[at + k],
    ensures
        text::occurs(all, part),
{
    assert(all.subrange(at, at + part.len()) =~= part);
    assert(text::occurs_at(all, part, at));
}

proof fn carried_over(
    all: Seq<char>,
    before: Seq<char>,
    t: Seq<char>,
    rest: Seq<char>,
    part: Seq<char>,
)
    requires
        all =~= before + t + rest,
        text::occurs(t, part),
    ensures
        text::occurs(all, part),
{
    text::occurs_in_more(before, t, rest, part);
}

/// Whatever is asked for, the script asks with the session's cookies, for JSON, with the
/// build number and the type of the body where they are there, and answers with what is read
/// of the response: its status, the three headers, and its body.
pub proof fn the_script_asks_as_the_shop_does(
    method: &str,
    path: &str,
    body: Option<&str>,
    build: Option<&str>,
)
    ensures
        text::occurs(script(method, path, body, build), "'Accept': 'application/json'"@),
        text::occurs(script(method, path, body, build), "if (build) headers['X-K-Build-Number'] = build;"@),
        text::occurs(script(method, path, body, build), "if (body !== undefined) headers['Content-Type'] = 'application/json';"@),
        text::occurs(script(method, path, body, build), " await fetch("@),
        text::occurs(script(method, path, body, build), "method: "@),
        text::occurs(script(method, path, body, build), "headers,"@),
        text::occurs(script(method, path, body, build), "body,"@),
        text::occurs(script(method, path, body, build), "credentials: 'include',"@),
        text::occurs(script(method, path, body, build), "status: r.status,"@),
        text::occurs(script(method, path, body, build), "build: r.headers.get('k-ruoka-build'),"@),
        text::occurs(script(method, path, body, build), "cfMitigated: r.headers.get('cf-mitigated'),"@),
        text::occurs(script(method, path, body, build), "contentType: r.headers.get('content-type'),"@),
        text::occurs(script(method, path, body, build), "body: await r.text(),"@),
{
    let all = script(method, path, body, build);
    let none = Seq::<char>::empty();
    let x = build_part(build);
    let y = body_part(body);
    let p = json::quoted(path@);
    let m = json::quoted(method@);
    assert(all == SCRIPT_START@ + x + SCRIPT_BODY@ + y + SCRIPT_PATH@ + p + SCRIPT_METHOD@ + m
        + SCRIPT_END@);
    reveal_strlit(
        "(async () => {
             const headers = { 'Accept': 'application/json' };
             const build = ",
    );
    reveal_strlit("'Accept': 'application/json'");
    within(SCRIPT_START@, "'Accept': 'application/json'"@, 46);
    reveal_strlit(
        ";
             if (build) headers['X-K-Build-Number'] = build;
             const body = ",
    );
    reveal_strlit("if (build) headers['X-K-Build-Number'] = build;");
    within(SCRIPT_BODY@, "if (build) headers['X-K-Build-Number'] = build;"@, 15);
    reveal_strlit(
        ";
             if (body !== undefined) headers['Content-Type'] = 'application/json';
             const r = await fetch(",
    );
    reveal_strlit("if (body !== undefined) headers['Content-Type'] = 'application/json';");
    within(SCRIPT_PATH@, "if (body !== undefined) headers['Content-Type'] = 'application/json';"@, 15);
    reveal_strlit(" await fetch(");
    within(SCRIPT_PATH@, " await fetch("@, 107);
    reveal_strlit(
        ", {
               method: ",
    );
    reveal_strlit("method: ");
    within(SCRIPT_METHOD@, "method: "@, 19);
    reveal_strlit(
        ",
               headers,
               body,
               credentials: 'include',
             });
             return {
               status: r.status,
               build: r.headers.get('k-ruoka-build'),
               cfMitigated: r.headers.get('cf-mitigated'),
               contentType: r.headers.get('content-type'),
               body: await r.text(),
             };
           })()",
    );
    reveal_strlit("headers,");
    within(SCRIPT_END@, "headers,"@, 17);
    reveal_strlit("body,");
    within(SCRIPT_END@, "body,"@, 41);
    reveal_strlit("credentials: 'include',");
    within(SCRIPT_END@, "credentials: 'include',"@, 62);
    reveal_strlit("status: r.status,");
    within(SCRIPT_END@, "status: r.status,"@, 140);
    reveal_strlit("build: r.headers.get('k-ruoka-build'),");
    within(SCRIPT_END@, "build: r.headers.get('k-ruoka-build'),"@, 173);
    reveal_strlit("cfMitigated: r.headers.get('cf-mitigated'),");
    within(SCRIPT_END@, "cfMitigated: r.headers.get('cf-mitigated'),"@, 227);
    reveal_strlit("contentType: r.headers.get('content-type'),");
    within(SCRIPT_END@, "contentType: r.headers.get('content-type'),"@, 286);
    reveal_strlit("body: await r.text(),");
    within(SCRIPT_END@, "body: await r.text(),"@, 345);
    carried_over(all, none, SCRIPT_START@, x + SCRIPT_BODY@ + y + SCRIPT_PATH@ + p + SCRIPT_METHOD@ + m + SCRIPT_END@, "'Accept': 'application/json'"@);
    carried_over(all, SCRIPT_START@ + x, SCRIPT_BODY@, y + SCRIPT_PATH@ + p + SCRIPT_METHOD@ + m + SCRIPT_END@, "if (build) headers['X-K-Build-Number'] = build;"@);
    carried_over(all, SCRIPT_START@ + x + SCRIPT_BODY@ + y, SCRIPT_PATH@, p + SCRIPT_METHOD@ + m + SCRIPT_END@, "if (body !== undefined) headers['Content-Type'] = 'application/json';"@);
    carried_over(all, SCRIPT_START@ + x + SCRIPT_BODY@ + y, SCRIPT_PATH@, p + SCRIPT_METHOD@ + m + SCRIPT_END@, " await fetch("@);
    carried_over(all, SCRIPT_START@ + x + SCRIPT_BODY@ + y + SCRIPT_PATH@ + p, SCRIPT_METHOD@, m + SCRIPT_END@, "method: "@);
    carried_over(all, SCRIPT_START@ + x + SCRIPT_BODY@ + y + SCRIPT_PATH@ + p + SCRIPT_METHOD@ + m, SCRIPT_END@, none, "headers,"@);
    carried_over(all, SCRIPT_START@ + x + SCRIPT_BODY@ + y + SCRIPT_PATH@ + p + SCRIPT_METHOD@ + m, SCRIPT_END@, none, "body,"@);
    carried_over(all, SCRIPT_START@ + x + SCRIPT_BODY@ + y + SCRIPT_PATH@ + p + SCRIPT_METHOD@ + m, SCRIPT_END@, none, "credentials: 'include',"@);
    carried_over(all, SCRIPT_START@ + x + SCRIPT_BODY@ + y + SCRIPT_PATH@ + p + SCRIPT_METHOD@ + m, SCRIPT_END@, none, "status: r.status,"@);
    carried_over(all, SCRIPT_START@ + x + SCRIPT_BODY@ + y + SCRIPT_PATH@ + p + SCRIPT_METHOD@ + m, SCRIPT_END@, none, "build: r.headers.get('k-ruoka-build'),"@);
    carried_over(all, SCRIPT_START@ + x + SCRIPT_BODY@ + y + SCRIPT_PATH@ + p + SCRIPT_METHOD@ + m, SCRIPT_END@, none, "cfMitigated: r.headers.get('cf-mitigated'),"@);
    carried_over(all, SCRIPT_START@ + x + SCRIPT_BODY@ + y + SCRIPT_PATH@ + p + SCRIPT_METHOD@ + m, SCRIPT_END@, none, "contentType: r.headers.get('content-type'),"@);
    carried_over(all, SCRIPT_START@ + x + SCRIPT_BODY@ + y + SCRIPT_PATH@ + p + SCRIPT_METHOD@ + m, SCRIPT_END@, none, "body: await r.text(),"@);
}

proof fn put_together(all: Seq<char>, before: Seq<char>, part: Seq<char>, rest: Seq<char>)
    requires
        all =~= before + part + rest,
    ensures
        text::occurs(all, part),
{
    text::occurs_inside(before, part, rest);
}

/// Each part stands where the script uses it: the build number and the body as what they are
/// kept as, the path as what is fetched, and the method as the method.
pub proof fn each_part_stands_where_it_is_used(
    method: &str,
    path: &str,
    body: Option<&str>,
    build: Option<&str>,
)
    ensures
        text::occurs(
            script(method, path, body, build),
            "const build = "@ + match build {
                Some(b) => json::quoted(b@),
                None => "null"@,
            },
        ),
        text::occurs(
            script(method, path, body, build),
            "const body = "@ + match body {
                Some(b) => "JSON.stringify("@ + b@ + ")"@,
                None => "undefined"@,
            },
        ),
        text::occurs(script(method, path, body, build), "await fetch("@ + json::quoted(path@)),
        text::occurs(script(method, path, body, build), "method: "@ + json::quoted(method@)),
{
    let all = script(method, path, body, build);
    let none = Seq::<char>::empty();
    let x = build_part(build);
    let y = body_part(body);
    let p = json::quoted(path@);
    let m = json::quoted(method@);
    assert(all == SCRIPT_START@ + x + SCRIPT_BODY@ + y + SCRIPT_PATH@ + p + SCRIPT_METHOD@ + m
        + SCRIPT_END@);
    reveal_strlit(
        "(async () => {
             const headers = { 'Accept': 'application/json' };
             const build = ",
    );
    reveal_strlit("const build = ");
    let front = SCRIPT_START@.take(91);
    assert(SCRIPT_START@ =~= front + "const build = "@);
    put_together(all, none + front, "const build = "@ + x, SCRIPT_BODY@ + y + SCRIPT_PATH@ + p + SCRIPT_METHOD@ + m + SCRIPT_END@);
    reveal_strlit(
        ";
             if (build) headers['X-K-Build-Number'] = build;
             const body = ",
    );
    reveal_strlit("const body = ");
    let front = SCRIPT_BODY@.take(76);
    assert(SCRIPT_BODY@ =~= front + "const body = "@);
    put_together(all, SCRIPT_START@ + x + front, "const body = "@ + y, SCRIPT_PATH@ + p + SCRIPT_METHOD@ + m + SCRIPT_END@);
    reveal_strlit(
        ";
             if (body !== undefined) headers['Content-Type'] = 'application/json';
             const r = await fetch(",
    );
    reveal_strlit("await fetch(");
    let front = SCRIPT_PATH@.take(108);
    assert(SCRIPT_PATH@ =~= front + "await fetch("@);
    put_together(all, SCRIPT_START@ + x + SCRIPT_BODY@ + y + front, "await fetch("@ + p, SCRIPT_METHOD@ + m + SCRIPT_END@);
    reveal_strlit(
        ", {
               method: ",
    );
    reveal_strlit("method: ");
    let front = SCRIPT_METHOD@.take(19);
    assert(SCRIPT_METHOD@ =~= front + "method: "@);
    put_together(all, SCRIPT_START@ + x + SCRIPT_BODY@ + y + SCRIPT_PATH@ + p + front, "method: "@ + m, SCRIPT_END@);
}

} // verus!
