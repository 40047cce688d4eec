//! The exploration tools: what their command lines ask for, and which cookies they show.
//!
//! K-Ruoka's API is not documented, so its shapes have to be observed. The tools go through
//! the same session as the server, so what they see is what the server gets.

use crate::browser::error;
use crate::{json, text};
use vstd::prelude::*;

verus! {

/// The arguments that are no flags, in order.
pub open spec fn positional(args: Seq<Seq<char>>) -> Seq<Seq<char>>
    decreases args.len(),
{
    if args.len() == 0 {
        Seq::empty()
    } else if text::begins_with(args.last(), "--"@) {
        positional(args.drop_last())
    } else {
        positional(args.drop_last()).push(args.last())
    }
}

/// The arguments that are no flags, in order.
fn plain_args(args: &Vec<String>) -> (r: Vec<String>)
    ensures
        text::views(r@) == positional(text::views(args@)),
{
    let mut r: Vec<String> = Vec::new();
    let ghost all = text::views(args@);
    let mut i: usize = 0;
    assert(text::views(r@) =~= positional(all.take(0)));
    while i < args.len()
        invariant
            all == text::views(args@),
            i <= args@.len(),
            text::views(r@) == positional(all.take(i as int)),
        decreases args@.len() - i,
    {
        let ghost before = text::views(r@);
        assert(all.take(i + 1).drop_last() =~= all.take(i as int));
        assert(all.take(i + 1).last() == args@[i as int]@);
        if !text::starts_with(args[i].as_str(), "--") {
            r.push(args[i].clone());
            assert(text::views(r@) =~= before.push(args@[i as int]@));
        }
        i = i + 1;
    }
    assert(all.take(all.len() as int) =~= all);
    r
}

/// `flag` is among the arguments.
pub open spec fn has_flag(args: Seq<Seq<char>>, flag: Seq<char>) -> bool {
    args.contains(flag)
}

fn flagged(args: &Vec<String>, flag: &str) -> (r: bool)
    ensures
        r == has_flag(text::views(args@), flag@),
{
    let ghost all = text::views(args@);
    let mut i: usize = 0;
    while i < args.len()
        invariant
            all == text::views(args@),
            i <= args@.len(),
            forall|j: int| 0 <= j < i ==> all[j] != flag@,
        decreases args@.len() - i,
    {
        assert(all[i as int] == args@[i as int]@);
        if text::same(args[i].as_str(), flag) {
            return true;
        }
        i = i + 1;
    }
    false
}

/// What the first argument that begins with `prefix` says behind it.
pub open spec fn valued(args: Seq<Seq<char>>, prefix: Seq<char>) -> Option<Seq<char>>
    decreases args.len(),
{
    if args.len() == 0 {
        None
    } else if text::begins_with(args[0], prefix) {
        Some(args[0].skip(prefix.len() as int))
    } else {
        valued(args.drop_first(), prefix)
    }
}

fn value_of(args: &Vec<String>, prefix: &str) -> (r: Option<String>)
    ensures
        error::opt_view(r) == valued(text::views(args@), prefix@),
{
    let ghost all = text::views(args@);
    let skip: usize = prefix.unicode_len();
    let mut i: usize = 0;
    assert(all.skip(0) =~= all);
    while i < args.len()
        invariant
            all == text::views(args@),
            skip == prefix@.len(),
            i <= args@.len(),
            valued(all, prefix@) == valued(all.skip(i as int), prefix@),
        decreases args@.len() - i,
    {
        assert(all.skip(i as int)[0] == args@[i as int]@);
        let arg = args[i].as_str();
        if text::starts_with(arg, prefix) {
            let len: usize = arg.unicode_len();
            let value = arg.substring_char(skip, len);
            assert(value@ =~= arg@.skip(skip as int));
            return Some(value.to_owned());
        }
        assert(all.skip(i as int).drop_first() =~= all.skip(i + 1));
        i = i + 1;
    }
    None
}

/// The `k`-th of the plain arguments, or a default.
pub open spec fn plain_or(args: Seq<Seq<char>>, k: int, default: Seq<char>) -> Seq<char> {
    if k < positional(args).len() {
        positional(args)[k]
    } else {
        default
    }
}

/// What a call of the probe asks for.
#[derive(Debug)]
pub struct ProbeArgs {
    /// Delete the clearance cookies first.
    pub drop_clearance: bool,
    /// The build number to begin with.
    pub build: Option<String>,
    pub method: String,
    pub path: String,
    /// The body, in JSON.
    pub body: Option<String>,
}

impl ProbeArgs {
    /// Reads a command line: `--drop-clearance`, `--build=` and a value, and a method, a
    /// path and a body in this order, as far as they are given.
    pub fn parse(args: &Vec<String>) -> (r: ProbeArgs)
        ensures
            r.drop_clearance == has_flag(text::views(args@), "--drop-clearance"@),
            error::opt_view(r.build) == valued(text::views(args@), "--build="@),
            r.method@ == plain_or(text::views(args@), 0, "POST"@),
            r.path@ == plain_or(text::views(args@), 1, "/kr-api/basket/active"@),
            r.body is Some == (positional(text::views(args@)).len() > 2),
            r.body matches Some(b) ==> b@ == positional(text::views(args@))[2],
    {
        let plain = plain_args(args);
        assert(forall|k: int|
            0 <= k < plain@.len() ==> text::views(plain@)[k] == (#[trigger] plain@[k])@);
        let method = if plain.len() > 0 {
            plain[0].clone()
        } else {
            "POST".to_owned()
        };
        let path = if plain.len() > 1 {
            plain[1].clone()
        } else {
            "/kr-api/basket/active".to_owned()
        };
        let body = if plain.len() > 2 {
            Some(plain[2].clone())
        } else {
            None
        };
        ProbeArgs {
            drop_clearance: flagged(args, "--drop-clearance"),
            build: value_of(args, "--build="),
            method,
            path,
            body,
        }
    }
}

/// Whether a body that is to be sent is JSON. Nothing else is.
pub fn body_is_json(body: &str) -> (r: bool)
    ensures
        r == (json::json_parsed(body@) is Some),
{
    json::parse(body).is_some()
}

/// What a run of the baseline checks asks for.
#[derive(Debug)]
pub struct SpikeArgs {
    /// With a window.
    pub headful: bool,
    /// The profile directory.
    pub profile: String,
}

impl SpikeArgs {
    /// Reads a command line: `--head`, and a profile directory.
    pub fn parse(args: &Vec<String>) -> (r: SpikeArgs)
        ensures
            r.headful == has_flag(text::views(args@), "--head"@),
            r.profile@ == plain_or(text::views(args@), 0, "/tmp/k-ruoka-spike-profile"@),
    {
        let plain = plain_args(args);
        let profile = if plain.len() > 0 {
            assert(text::views(plain@)[0] == plain@[0]@);
            plain[0].clone()
        } else {
            "/tmp/k-ruoka-spike-profile".to_owned()
        };
        SpikeArgs { headful: flagged(args, "--head"), profile }
    }
}

/// Whether a cookie of this domain is the shop's.
pub fn is_shop_cookie(domain: &str) -> (r: bool)
    ensures
        r == text::occurs(domain@, "k-ruoka"@),
{
    text::contains(domain, "k-ruoka")
}

/// Whether a cookie of this name is Cloudflare's: the proof that a challenge was passed, or
/// the one of its bot management.
pub fn is_clearance_cookie(name: &str) -> (r: bool)
    ensures
        r == (name@ == "cf_clearance"@ || name@ == "__cf_bm"@),
{
    text::same(name, "cf_clearance") || text::same(name, "__cf_bm")
}

/// How a cookie is shown.
pub fn cookie_line(name: &str, domain: &str, path: &str, partition: &str) -> (r: String)
    ensures
        r@ == name@ + " (domain="@ + domain@ + " path="@ + path@ + " partition="@ + partition@
            + ")"@,
{
    let mut r = name.to_owned();
    r.append(" (domain=");
    r.append(domain);
    r.append(" path=");
    r.append(path);
    r.append(" partition=");
    r.append(partition);
    r.append(")");
    r
}

proof fn positional_of_one(arg: Seq<char>)
    ensures
        positional(seq![arg]) == (if text::begins_with(arg, "--"@) {
            Seq::empty()
        } else {
            seq![arg]
        }),
{
    reveal_with_fuel(positional, 2);
    assert(seq![arg].drop_last() =~= Seq::<Seq<char>>::empty());
    assert(Seq::<Seq<char>>::empty().push(arg) =~= seq![arg]);
}

/// Every argument that does not begin with two dashes is a plain one, at its place, and no
/// other is: the plain arguments of two lines in a row are those of the one and then those of
/// the other.
pub proof fn plain_arguments_keep_their_order(
    a: Seq<Seq<char>>,
    b: Seq<Seq<char>>,
    arg: Seq<char>,
)
    ensures
        positional(Seq::empty()) == Seq::<Seq<char>>::empty(),
        text::begins_with(arg, "--"@) ==> positional(seq![arg]) == Seq::<Seq<char>>::empty(),
        !text::begins_with(arg, "--"@) ==> positional(seq![arg]) == seq![arg],
        positional(a + b) == positional(a) + positional(b),
    decreases b.len(),
{
    positional_of_one(arg);
    if b.len() == 0 {
        assert(a + b =~= a);
        assert(positional(a) + positional(b) =~= positional(a));
    } else {
        plain_arguments_keep_their_order(a, b.drop_last(), arg);
        assert((a + b).drop_last() =~= a + b.drop_last());
        assert((a + b).last() == b.last());
        let front = positional(a);
        let back = positional(b.drop_last());
        assert((front + back).push(b.last()) =~= front + back.push(b.last()));
    }
}

/// The first argument with the prefix gives the value, which is all that stands behind the
/// prefix; where none has it there is no value.
pub proof fn the_first_value_counts(args: Seq<Seq<char>>, prefix: Seq<char>, value: Seq<char>, i: int)
    ensures
        (forall|j: int| 0 <= j < args.len() ==> !text::begins_with(#[trigger] args[j], prefix))
            ==> valued(args, prefix) is None,
        0 <= i < args.len() && args[i] == prefix + value && (forall|j: int|
            0 <= j < i ==> !text::begins_with(#[trigger] args[j], prefix)) ==> valued(args, prefix)
            == Some(value),
    decreases args.len(),
{
    if args.len() > 0 {
        let rest = args.drop_first();
        the_first_value_counts(rest, prefix, value, i - 1);
        assert forall|j: int| 0 <= j < rest.len() implies #[trigger] rest[j] == args[j + 1] by {}
        text::beginning_is_standing_first(prefix + value, prefix);
        assert((prefix + value).skip(prefix.len() as int) =~= value);
        if forall|j: int| 0 <= j < args.len() ==> !text::begins_with(#[trigger] args[j], prefix) {
            assert(!text::begins_with(args[0], prefix));
            assert forall|j: int| 0 <= j < rest.len() implies !text::begins_with(
                #[trigger] rest[j],
                prefix,
            ) by {
                assert(!text::begins_with(args[j + 1], prefix));
            }
        }
        if 0 < i < args.len() && args[i] == prefix + value && (forall|j: int|
            0 <= j < i ==> !text::begins_with(#[trigger] args[j], prefix)) {
            assert(!text::begins_with(args[0], prefix));
            assert forall|j: int| 0 <= j < i - 1 implies !text::begins_with(
                #[trigger] rest[j],
                prefix,
            ) by {
                assert(!text::begins_with(args[j + 1], prefix));
            }
            assert(rest[i - 1] == prefix + value);
        }
    }
}

/// A flag is set exactly where some argument is the flag, and a plain argument that is not
/// there has its default.
pub proof fn flags_and_defaults(
    args: Seq<Seq<char>>,
    flag: Seq<char>,
    k: int,
    default: Seq<char>,
)
    ensures
        has_flag(args, flag) <==> exists|i: int| 0 <= i < args.len() && #[trigger] args[i] == flag,
        0 <= k < positional(args).len() ==> plain_or(args, k, default) == positional(args)[k],
        k >= positional(args).len() ==> plain_or(args, k, default) == default,
{
}

} // verus!
