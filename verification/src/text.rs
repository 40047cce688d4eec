//! Text: the searching, trimming, splitting and rendering that the rest of the crate
//! speaks of, each over the sequence of characters that a string views as.

use vstd::prelude::*;

verus! {

/// A character with Unicode's `White_Space` property.
pub open spec fn is_white(c: char) -> bool {
    let n = c as u32;
    ||| 0x09 <= n <= 0x0d
    ||| n == 0x20
    ||| n == 0x85
    ||| n == 0xa0
    ||| n == 0x1680
    ||| 0x2000 <= n <= 0x200a
    ||| n == 0x2028
    ||| n == 0x2029
    ||| n == 0x202f
    ||| n == 0x205f
    ||| n == 0x3000
}

/// Whether `c` is white space.
pub fn white(c: char) -> (r: bool)
    ensures
        r == is_white(c),
{
    let n: u32 = c as u32;
    (0x09 <= n && n <= 0x0d) || n == 0x20 || n == 0x85 || n == 0xa0 || n == 0x1680 || (0x2000 <= n
        && n <= 0x200a) || n == 0x2028 || n == 0x2029 || n == 0x202f || n == 0x205f || n == 0x3000
}

/// The characters of `s`, in order.
pub fn chars_of(s: &str) -> (r: Vec<char>)
    ensures
        r@ == s@,
{
    let mut r: Vec<char> = Vec::new();
    for c in it: s.chars()
        invariant
            it.seq() == s@,
            r@ == s@.take(it.index() as int),
    {
        r.push(c);
        assert(s@.take(it.index() + 1) =~= s@.take(it.index() as int).push(c));
    }
    assert(s@.take(s@.len() as int) =~= s@);
    r
}

/// Whether `a` and `b` hold the same characters.
pub fn same(a: &str, b: &str) -> (r: bool)
    ensures
        r == (a@ == b@),
{
    let x = chars_of(a);
    let y = chars_of(b);
    if x.len() != y.len() {
        return false;
    }
    assert(x@.subrange(0, y@.len() as int) =~= x@);
    matches_at(&x, &y, 0)
}

/// `part` stands in `text` at position `i`.
pub open spec fn occurs_at(text: Seq<char>, part: Seq<char>, i: int) -> bool {
    &&& 0 <= i
    &&& i + part.len() <= text.len()
    &&& text.subrange(i, i + part.len()) == part
}

/// `part` stands in `text` somewhere.
pub open spec fn occurs(text: Seq<char>, part: Seq<char>) -> bool {
    exists|i: int| #[trigger] occurs_at(text, part, i)
}

/// Whether `part` stands in `text` at position `from`.
fn matches_at(text: &Vec<char>, part: &Vec<char>, from: usize) -> (r: bool)
    requires
        from + part@.len() <= text@.len(),
    ensures
        r == occurs_at(text@, part@, from as int),
{
    let n: usize = text.len();
    let mut k: usize = 0;
    while k < part.len()
        invariant
            n == text@.len(),
            k <= part@.len(),
            from + part@.len() <= text@.len(),
            forall|j: int| 0 <= j < k ==> text@[from + j] == part@[j],
        decreases part@.len() - k,
    {
        if text[from + k] != part[k] {
            assert(text@.subrange(from as int, from + part@.len())[k as int] != part@[k as int]);
            return false;
        }
        k = k + 1;
    }
    assert(text@.subrange(from as int, from + part@.len()) =~= part@);
    true
}

/// Whether `part` stands anywhere in `text`.
pub fn contains(text: &str, part: &str) -> (r: bool)
    ensures
        r == occurs(text@, part@),
{
    let t = chars_of(text);
    let p = chars_of(part);
    if t.len() < p.len() {
        assert(!occurs(text@, part@));
        return false;
    }
    let last: usize = t.len() - p.len();
    let mut i: usize = 0;
    while i <= last
        invariant
            t@ == text@,
            p@ == part@,
            p@.len() <= t@.len(),
            last == t@.len() - p@.len(),
            i <= last + 1,
            forall|j: int| 0 <= j < i ==> !#[trigger] occurs_at(text@, part@, j),
        decreases last + 1 - i,
    {
        if matches_at(&t, &p, i) {
            return true;
        }
        if i == last {
            assert(forall|j: int| !#[trigger] occurs_at(text@, part@, j));
            return false;
        }
        i = i + 1;
    }
    false
}

/// `text` begins with `prefix`.
pub open spec fn begins_with(text: Seq<char>, prefix: Seq<char>) -> bool {
    occurs_at(text, prefix, 0)
}

/// Whether `text` begins with `prefix`.
pub fn starts_with(text: &str, prefix: &str) -> (r: bool)
    ensures
        r == begins_with(text@, prefix@),
{
    let t = chars_of(text);
    let p = chars_of(prefix);
    if t.len() < p.len() {
        return false;
    }
    matches_at(&t, &p, 0)
}

/// `s` without its leading white space.
pub open spec fn trimmed_start(s: Seq<char>) -> Seq<char>
    decreases s.len(),
{
    if s.len() > 0 && is_white(s[0]) {
        trimmed_start(s.drop_first())
    } else {
        s
    }
}

/// `s` without its trailing white space.
pub open spec fn trimmed_end(s: Seq<char>) -> Seq<char>
    decreases s.len(),
{
    if s.len() > 0 && is_white(s.last()) {
        trimmed_end(s.drop_last())
    } else {
        s
    }
}

/// `s` without white space at either end.
pub open spec fn trimmed(s: Seq<char>) -> Seq<char> {
    trimmed_end(trimmed_start(s))
}

/// `s` without its leading white space.
pub fn trim_start(s: &str) -> (r: &str)
    ensures
        r@ == trimmed_start(s@),
{
    let cs = chars_of(s);
    let n: usize = cs.len();
    let mut i: usize = 0;
    assert(cs@.subrange(0, n as int) =~= cs@);
    while i < n && white(cs[i])
        invariant
            cs@ == s@,
            n == cs@.len(),
            i <= n,
            trimmed_start(s@) == trimmed_start(cs@.subrange(i as int, n as int)),
        decreases n - i,
    {
        assert(cs@.subrange(i as int, n as int).drop_first() =~= cs@.subrange(i + 1, n as int));
        i = i + 1;
    }
    s.substring_char(i, n)
}

/// `s` without white space at either end.
pub fn trim(s: &str) -> (r: &str)
    ensures
        r@ == trimmed(s@),
{
    let s = trim_start(s);
    let cs = chars_of(s);
    let mut n: usize = cs.len();
    assert(cs@.subrange(0, n as int) =~= cs@);
    while n > 0 && white(cs[n - 1])
        invariant
            cs@ == s@,
            n <= cs@.len(),
            trimmed_end(s@) == trimmed_end(cs@.subrange(0, n as int)),
        decreases n,
    {
        assert(cs@.subrange(0, n as int).drop_last() =~= cs@.subrange(0, n - 1));
        n = n - 1;
    }
    s.substring_char(0, n)
}

/// `s` is empty or white space throughout.
pub open spec fn is_blank(s: Seq<char>) -> bool {
    forall|i: int| 0 <= i < s.len() ==> is_white(#[trigger] s[i])
}

/// Trimming leaves nothing exactly of what is blank.
pub proof fn trimmed_empty_iff_blank(s: Seq<char>)
    ensures
        (trimmed(s).len() == 0) == is_blank(s),
    decreases s.len(),
{
    if s.len() > 0 && is_white(s[0]) {
        trimmed_empty_iff_blank(s.drop_first());
        assert(trimmed(s) == trimmed(s.drop_first()));
        if is_blank(s.drop_first()) {
            assert forall|i: int| 0 <= i < s.len() implies is_white(#[trigger] s[i]) by {
                if i > 0 {
                    assert(s[i] == s.drop_first()[i - 1]);
                }
            }
        } else {
            let i = choose|i: int|
                0 <= i < s.drop_first().len() && !is_white(#[trigger] s.drop_first()[i]);
            assert(!is_white(s[i + 1]));
        }
    } else if s.len() > 0 {
        trimmed_end_keeps_first(s);
    }
}

proof fn trimmed_end_keeps_first(s: Seq<char>)
    requires
        s.len() > 0,
        !is_white(s[0]),
    ensures
        trimmed_end(s).len() > 0,
    decreases s.len(),
{
    if is_white(s.last()) {
        trimmed_end_keeps_first(s.drop_last());
    }
}

/// Whether `s` is empty or white space throughout.
pub fn blank(s: &str) -> (r: bool)
    ensures
        r == is_blank(s@),
{
    proof {
        trimmed_empty_iff_blank(s@);
    }
    trim(s).is_empty()
}

/// The first `n` characters of `s`, or all of them where there are fewer.
pub open spec fn first_chars(s: Seq<char>, n: nat) -> Seq<char> {
    if s.len() <= n {
        s
    } else {
        s.take(n as int)
    }
}

/// The first `n` characters of `s`, or all of them where there are fewer.
pub fn head(s: &str, n: usize) -> (r: &str)
    ensures
        r@ == first_chars(s@, n as nat),
{
    let len: usize = s.unicode_len();
    let m: usize = if len <= n {
        len
    } else {
        n
    };
    assert(s@.subrange(0, m as int) =~= first_chars(s@, n as nat));
    s.substring_char(0, m)
}

/// The decimal digit of value `d`.
pub open spec fn digit(d: nat) -> char {
    (48 + d) as char
}

/// `c` is one of the ten ASCII digits.
pub open spec fn is_digit(c: char) -> bool {
    '0' <= c <= '9'
}

/// `n` in decimal, without leading zeros.
pub open spec fn decimal(n: nat) -> Seq<char>
    decreases n,
{
    if n < 10 {
        seq![digit(n)]
    } else {
        decimal(n / 10).push(digit(n % 10))
    }
}

fn digit_text(d: u64) -> (r: &'static str)
    requires
        d < 10,
    ensures
        r@ == seq![digit(d as nat)],
{
    proof {
        reveal_strlit("0");
        reveal_strlit("1");
        reveal_strlit("2");
        reveal_strlit("3");
        reveal_strlit("4");
        reveal_strlit("5");
        reveal_strlit("6");
        reveal_strlit("7");
        reveal_strlit("8");
        reveal_strlit("9");
    }
    match d {
        0 => "0",
        1 => "1",
        2 => "2",
        3 => "3",
        4 => "4",
        5 => "5",
        6 => "6",
        7 => "7",
        8 => "8",
        _ => "9",
    }
}

/// `n` in decimal.
pub fn number(n: u64) -> (r: String)
    ensures
        r@ == decimal(n as nat),
    decreases n,
{
    if n < 10 {
        digit_text(n).to_owned()
    } else {
        let mut r = number(n / 10);
        let d = digit_text(n % 10);
        r.append(d);
        assert(r@ =~= decimal((n / 10) as nat).push(digit((n % 10) as nat)));
        r
    }
}

/// The number that a run of digits writes.
pub open spec fn digits_value(s: Seq<char>) -> nat
    decreases s.len(),
{
    if s.len() == 0 {
        0
    } else {
        digits_value(s.drop_last()) * 10 + (s.last() as nat - 48) as nat
    }
}

/// `s` is digits throughout.
pub open spec fn all_digits(s: Seq<char>) -> bool {
    forall|i: int| 0 <= i < s.len() ==> is_digit(#[trigger] s[i])
}

/// What `s` writes as an unsigned number: at least one digit, digits throughout, after
/// one optional plus sign, of a value that 64 bits hold.
pub open spec fn parsed(s: Seq<char>) -> Option<u64> {
    let body = if s.len() > 0 && s[0] == '+' {
        s.drop_first()
    } else {
        s
    };
    if body.len() > 0 && all_digits(body) && digits_value(body) <= u64::MAX {
        Some(digits_value(body) as u64)
    } else {
        None
    }
}

proof fn digits_value_grows(s: Seq<char>, i: int)
    requires
        0 <= i <= s.len(),
    ensures
        digits_value(s.take(i)) <= digits_value(s),
    decreases s.len(),
{
    if i == s.len() {
        assert(s.take(i) =~= s);
    } else {
        digits_value_grows(s.drop_last(), i);
        assert(s.drop_last().take(i) =~= s.take(i));
    }
}

/// `s` as an unsigned number, where it is one.
pub fn parse_number(s: &str) -> (r: Option<u64>)
    ensures
        r == parsed(s@),
{
    let cs = chars_of(s);
    let n: usize = cs.len();
    let from: usize = if n > 0 && cs[0] == '+' {
        1
    } else {
        0
    };
    let ghost body = cs@.subrange(from as int, n as int);
    assert(from == 0 ==> body =~= cs@);
    assert(from == 1 ==> body =~= cs@.drop_first());
    if from == n {
        return None;
    }
    let mut v: u64 = 0;
    let mut i: usize = from;
    assert(body.take(0) =~= Seq::<char>::empty());
    while i < n
        invariant
            cs@ == s@,
            n == cs@.len(),
            from <= i <= n,
            from < n,
            body == cs@.subrange(from as int, n as int),
            body == (if s@.len() > 0 && s@[0] == '+' {
                s@.drop_first()
            } else {
                s@
            }),
            forall|j: int| 0 <= j < i - from ==> is_digit(#[trigger] body[j]),
            v == digits_value(body.take(i - from)),
        decreases n - i,
    {
        let c: char = cs[i];
        assert(c == body[i - from]);
        if !('0' <= c && c <= '9') {
            assert(!is_digit(body[i - from]));
            return None;
        }
        let d: u64 = (c as u32 - 48) as u64;
        proof {
            assert(body.take(i - from + 1).drop_last() =~= body.take(i - from));
            assert(digits_value(body.take(i - from + 1)) == v * 10 + d);
            digits_value_grows(body, i - from + 1);
        }
        match v.checked_mul(10) {
            Some(w) => {
                match w.checked_add(d) {
                    Some(x) => {
                        v = x;
                    },
                    None => {
                        return None;
                    },
                }
            },
            None => {
                return None;
            },
        }
        i = i + 1;
    }
    assert(body.take(n - from) =~= body);
    Some(v)
}

/// The characters of each text of a list.
pub open spec fn views(v: Seq<String>) -> Seq<Seq<char>> {
    Seq::new(v.len(), |i: int| v[i]@)
}

/// The texts of `parts` with `sep` between each two.
pub open spec fn joined(parts: Seq<Seq<char>>, sep: Seq<char>) -> Seq<char>
    decreases parts.len(),
{
    if parts.len() == 0 {
        Seq::empty()
    } else if parts.len() == 1 {
        parts[0]
    } else {
        joined(parts.drop_last(), sep) + sep + parts.last()
    }
}

/// The texts of `parts` with `sep` between each two.
pub fn join(parts: &Vec<String>, sep: &str) -> (r: String)
    ensures
        r@ == joined(views(parts@), sep@),
{
    let mut r = String::new();
    let mut i: usize = 0;
    let ghost all = views(parts@);
    while i < parts.len()
        invariant
            all == views(parts@),
            i <= parts@.len(),
            r@ == joined(all.take(i as int), sep@),
        decreases parts@.len() - i,
    {
        if i > 0 {
            r.append(sep);
        }
        r.append(parts[i].as_str());
        assert(all.take(i + 1).drop_last() =~= all.take(i as int));
        assert(all.take(i + 1).last() == parts@[i as int]@);
        i = i + 1;
    }
    assert(all.take(all.len() as int) =~= all);
    r
}

/// What stands between the occurrences of `sep` in `s`: one piece more than there are
/// occurrences.
pub open spec fn pieces(s: Seq<char>, sep: char) -> Seq<Seq<char>>
    decreases s.len(),
{
    if s.len() == 0 {
        seq![Seq::empty()]
    } else {
        let before = pieces(s.drop_last(), sep);
        if s.last() == sep {
            before.push(Seq::empty())
        } else {
            before.drop_last().push(before.last().push(s.last()))
        }
    }
}

/// There is at least one piece.
pub proof fn pieces_nonempty(s: Seq<char>, sep: char)
    ensures
        pieces(s, sep).len() > 0,
    decreases s.len(),
{
    if s.len() > 0 {
        pieces_nonempty(s.drop_last(), sep);
    }
}

/// The pieces of two texts with a separator between them are those of the one and then
/// those of the other.
pub proof fn pieces_join(a: Seq<char>, b: Seq<char>, sep: char)
    ensures
        pieces(a.push(sep) + b, sep) == pieces(a, sep) + pieces(b, sep),
    decreases b.len(),
{
    let all = a.push(sep) + b;
    if b.len() == 0 {
        assert(all =~= a.push(sep));
        assert(all.drop_last() =~= a);
        assert(pieces(a, sep).push(Seq::empty()) =~= pieces(a, sep) + seq![Seq::<char>::empty()]);
    } else {
        let rest = b.drop_last();
        pieces_join(a, rest, sep);
        pieces_nonempty(rest, sep);
        assert(all.drop_last() =~= a.push(sep) + rest);
        let front = pieces(a, sep);
        let back = pieces(rest, sep);
        assert((front + back).last() == back.last());
        assert(front + back.push(Seq::empty()) =~= (front + back).push(Seq::empty()));
        let grown = back.last().push(b.last());
        assert((front + back).drop_last().push(grown) =~= front + back.drop_last().push(grown));
    }
}

/// A text without the separator is one piece.
pub proof fn pieces_of_one(s: Seq<char>, sep: char)
    requires
        !s.contains(sep),
    ensures
        pieces(s, sep) == seq![s],
    decreases s.len(),
{
    if s.len() == 0 {
        assert(s =~= Seq::empty());
    } else {
        let rest = s.drop_last();
        assert forall|i: int| 0 <= i < rest.len() implies rest[i] != sep by {
            assert(s[i] == rest[i]);
            assert(s.contains(s[i]));
        }
        assert(!rest.contains(sep));
        assert(s.last() != sep) by {
            assert(s.contains(s[s.len() - 1]));
        }
        pieces_of_one(rest, sep);
        assert(rest.push(s.last()) =~= s);
        assert(seq![rest].drop_last().push(s) =~= seq![s]);
    }
}

/// What stands between the occurrences of `sep` in `s`.
pub fn split(s: &str, sep: char) -> (r: Vec<String>)
    ensures
        views(r@) == pieces(s@, sep),
{
    let cs = chars_of(s);
    let n: usize = cs.len();
    let mut r: Vec<String> = Vec::new();
    let mut start: usize = 0;
    let mut i: usize = 0;
    assert(cs@.subrange(0, 0) =~= Seq::<char>::empty());
    assert(views(r@).push(cs@.subrange(0, 0)) =~= seq![Seq::<char>::empty()]);
    assert(cs@.take(0) =~= Seq::empty());
    while i < n
        invariant
            cs@ == s@,
            n == cs@.len(),
            start <= i <= n,
            pieces(cs@.take(i as int), sep) == views(r@).push(cs@.subrange(start as int, i as int)),
        decreases n - i,
    {
        let ghost before = views(r@);
        proof {
            assert(cs@.take(i + 1).drop_last() =~= cs@.take(i as int));
            assert(cs@.take(i + 1).last() == cs@[i as int]);
            assert(before.push(cs@.subrange(start as int, i as int)).drop_last() =~= before);
            assert(cs@.subrange(start as int, i as int).push(cs@[i as int]) =~= cs@.subrange(
                start as int,
                i + 1,
            ));
        }
        if cs[i] == sep {
            let piece = s.substring_char(start, i);
            r.push(piece.to_owned());
            assert(views(r@) =~= before.push(cs@.subrange(start as int, i as int)));
            start = i + 1;
            assert(cs@.subrange(start as int, i + 1) =~= Seq::<char>::empty());
        }
        i = i + 1;
    }
    let ghost before = views(r@);
    let piece = s.substring_char(start, n);
    r.push(piece.to_owned());
    assert(views(r@) =~= before.push(cs@.subrange(start as int, n as int)));
    assert(cs@.take(n as int) =~= cs@);
    r
}

/// The longest runs of `s` that hold no white space, in order.
pub open spec fn words(s: Seq<char>) -> Seq<Seq<char>>
    decreases s.len(),
{
    if s.len() == 0 {
        Seq::empty()
    } else {
        let before = words(s.drop_last());
        if is_white(s.last()) {
            before
        } else if s.len() == 1 || is_white(s[s.len() - 2]) {
            before.push(seq![s.last()])
        } else {
            before.drop_last().push(before.last().push(s.last()))
        }
    }
}

/// The longest runs of `s` that hold no white space, in order.
pub fn split_words(s: &str) -> (r: Vec<String>)
    ensures
        views(r@) == words(s@),
{
    let cs = chars_of(s);
    let n: usize = cs.len();
    let mut r: Vec<String> = Vec::new();
    let mut start: usize = 0;
    let mut inside: bool = false;
    let mut i: usize = 0;
    assert(views(r@) =~= Seq::<Seq<char>>::empty());
    assert(cs@.take(0) =~= Seq::empty());
    while i < n
        invariant
            cs@ == s@,
            n == cs@.len(),
            start <= i <= n,
            inside == (i > 0 && !is_white(cs@[i - 1])),
            inside ==> words(cs@.take(i as int)) == views(r@).push(
                cs@.subrange(start as int, i as int),
            ),
            !inside ==> words(cs@.take(i as int)) == views(r@),
        decreases n - i,
    {
        let ghost before = views(r@);
        let ghost taken = cs@.take(i + 1);
        proof {
            assert(taken.drop_last() =~= cs@.take(i as int));
            assert(taken.last() == cs@[i as int]);
            if i > 0 {
                assert(taken[taken.len() - 2] == cs@[i - 1]);
            }
            assert(before.push(cs@.subrange(start as int, i as int)).drop_last() =~= before);
            assert(cs@.subrange(start as int, i as int).push(cs@[i as int]) =~= cs@.subrange(
                start as int,
                i + 1,
            ));
        }
        if white(cs[i]) {
            if inside {
                let word = s.substring_char(start, i);
                r.push(word.to_owned());
                assert(views(r@) =~= before.push(cs@.subrange(start as int, i as int)));
                inside = false;
            }
        } else if !inside {
            start = i;
            inside = true;
            assert(cs@.subrange(start as int, i + 1) =~= seq![cs@[i as int]]);
        }
        i = i + 1;
    }
    if inside {
        let ghost before = views(r@);
        let word = s.substring_char(start, n);
        r.push(word.to_owned());
        assert(views(r@) =~= before.push(cs@.subrange(start as int, n as int)));
    }
    assert(cs@.take(n as int) =~= cs@);
    r
}

/// `a` comes before `b` in the order of their characters.
pub open spec fn comes_before(a: Seq<char>, b: Seq<char>) -> bool
    decreases a.len(),
{
    if b.len() == 0 {
        false
    } else if a.len() == 0 {
        true
    } else if a[0] != b[0] {
        a[0] < b[0]
    } else {
        comes_before(a.drop_first(), b.drop_first())
    }
}

/// The order of characters carries over: what comes before what comes before `c` comes
/// before `c`.
pub proof fn comes_before_transitive(a: Seq<char>, b: Seq<char>, c: Seq<char>)
    requires
        comes_before(a, b),
        comes_before(b, c),
    ensures
        comes_before(a, c),
    decreases a.len(),
{
    if a.len() > 0 && a[0] == b[0] && b[0] == c[0] {
        comes_before_transitive(a.drop_first(), b.drop_first(), c.drop_first());
    }
}

/// Nothing comes before itself.
pub proof fn comes_before_irreflexive(a: Seq<char>)
    ensures
        !comes_before(a, a),
    decreases a.len(),
{
    if a.len() > 0 {
        comes_before_irreflexive(a.drop_first());
    }
}

/// Whether `a` comes before `b` in the order of their characters.
pub fn less(a: &str, b: &str) -> (r: bool)
    ensures
        r == comes_before(a@, b@),
{
    let x = chars_of(a);
    let y = chars_of(b);
    let mut i: usize = 0;
    assert(x@.skip(0) =~= x@);
    assert(y@.skip(0) =~= y@);
    while i < x.len() && i < y.len()
        invariant
            x@ == a@,
            y@ == b@,
            i <= x@.len(),
            i <= y@.len(),
            comes_before(a@, b@) == comes_before(x@.skip(i as int), y@.skip(i as int)),
        decreases x@.len() - i,
    {
        let c: char = x[i];
        let d: char = y[i];
        if c != d {
            return c < d;
        }
        assert(x@.skip(i as int).drop_first() =~= x@.skip(i + 1));
        assert(y@.skip(i as int).drop_first() =~= y@.skip(i + 1));
        i = i + 1;
    }
    i < y.len()
}

/// `s` without the occurrences of `c` at its end.
pub open spec fn without_trailing(s: Seq<char>, c: char) -> Seq<char>
    decreases s.len(),
{
    if s.len() > 0 && s.last() == c {
        without_trailing(s.drop_last(), c)
    } else {
        s
    }
}

/// `s` without the occurrences of `c` at its end.
pub fn trim_end_of(s: &str, c: char) -> (r: &str)
    ensures
        r@ == without_trailing(s@, c),
{
    let cs = chars_of(s);
    let mut n: usize = cs.len();
    assert(cs@.subrange(0, n as int) =~= cs@);
    while n > 0 && cs[n - 1] == c
        invariant
            cs@ == s@,
            n <= cs@.len(),
            without_trailing(s@, c) == without_trailing(cs@.subrange(0, n as int), c),
        decreases n,
    {
        assert(cs@.subrange(0, n as int).drop_last() =~= cs@.subrange(0, n - 1));
        n = n - 1;
    }
    s.substring_char(0, n)
}

/// The text is of printable ASCII, without quotes and backslashes: what stands for itself
/// wherever texts are escaped.
pub open spec fn is_plain(s: Seq<char>) -> bool {
    forall|i: int|
        0 <= i < s.len() ==> ' ' <= #[trigger] s[i] <= '~' && s[i] != '"' && s[i] != '\'' && s[i]
            != '\\'
}

/// What std writes for a text under `{:?}` that is not plain.
pub uninterp spec fn debug_escaped(s: Seq<char>) -> Seq<char>;

/// What std writes for a text under `{:?}`: the text in quotes, with what would not print as
/// itself escaped.
pub open spec fn debug_quoted(s: Seq<char>) -> Seq<char> {
    if is_plain(s) {
        seq!['"'] + s + seq!['"']
    } else {
        debug_escaped(s)
    }
}

/// Renders `s` with `format!("{:?}")`, that is with std's `Debug` of `str`: between double
/// quotes, with nothing escaped where the text is plain. Which other characters it escapes,
/// and how, follows Unicode's tables; that is left unsaid here and the result only named.
#[verifier::external_body]
pub(crate) fn debug_quote(s: &str) -> (r: String)
    ensures
        is_plain(s@) ==> r@ == seq!['"'] + s@ + seq!['"'],
        !is_plain(s@) ==> r@ == debug_escaped(s@),
{
    format!("{:?}", s)
}

/// A text stands in a longer one where it was put.
pub proof fn occurs_inside(before: Seq<char>, s: Seq<char>, rest: Seq<char>)
    ensures
        occurs(before + s + rest, s),
{
    let n = before.len() as int;
    assert((before + s + rest).subrange(n, n + s.len()) =~= s);
    assert(occurs_at(before + s + rest, s, n));
}

/// What stands in a text stands in a longer one that holds that text.
pub proof fn occurs_in_more(before: Seq<char>, t: Seq<char>, rest: Seq<char>, s: Seq<char>)
    requires
        occurs(t, s),
    ensures
        occurs(before + t + rest, s),
{
    let at = choose|at: int| #[trigger] occurs_at(t, s, at);
    let n = before.len() + at;
    let all = before + t + rest;
    assert(all.subrange(n, n + s.len()) =~= t.subrange(at, at + s.len()));
    assert(occurs_at(all, s, n));
}

/// A plain text stands in what std writes for it, and so in whatever holds that.
pub proof fn plain_text_is_shown(before: Seq<char>, s: Seq<char>, rest: Seq<char>)
    requires
        is_plain(s),
    ensures
        debug_quoted(s) == seq!['"'] + s + seq!['"'],
        occurs(before + debug_quoted(s) + rest, s),
{
    let quote = seq!['"'];
    occurs_inside(before + quote, s, quote + rest);
    assert((before + quote) + s + (quote + rest) =~= before + debug_quoted(s) + rest);
}

/// Each of the parts stands in what they are joined to.
pub proof fn parts_are_joined(parts: Seq<Seq<char>>, sep: Seq<char>, i: int)
    requires
        0 <= i < parts.len(),
    ensures
        occurs(joined(parts, sep), parts[i]),
    decreases parts.len(),
{
    let none = Seq::<char>::empty();
    if parts.len() == 1 {
        occurs_inside(none, parts[0], none);
        assert(none + parts[0] + none =~= parts[0]);
    } else {
        let init = joined(parts.drop_last(), sep);
        let whole = joined(parts, sep);
        if i == parts.len() - 1 {
            occurs_inside(init + sep, parts[i], none);
            assert((init + sep) + parts[i] + none =~= whole);
        } else {
            parts_are_joined(parts.drop_last(), sep, i);
            occurs_in_more(Seq::empty(), init, sep + parts.last(), parts[i]);
            assert(none + init + (sep + parts.last()) =~= whole);
        }
    }
}

/// White space is what Unicode gives the property `White_Space`, and nothing else.
pub proof fn white_space_is_unicodes(c: char)
    ensures
        is_white(c) <==> seq![
            0x09u32, 0x0a, 0x0b, 0x0c, 0x0d, 0x20, 0x85, 0xa0, 0x1680, 0x2000, 0x2001, 0x2002,
            0x2003, 0x2004, 0x2005, 0x2006, 0x2007, 0x2008, 0x2009, 0x200a, 0x2028, 0x2029, 0x202f,
            0x205f, 0x3000,
        ].contains(c as u32),
{
    let all = seq![
        0x09u32, 0x0a, 0x0b, 0x0c, 0x0d, 0x20, 0x85, 0xa0, 0x1680, 0x2000, 0x2001, 0x2002, 0x2003,
        0x2004, 0x2005, 0x2006, 0x2007, 0x2008, 0x2009, 0x200a, 0x2028, 0x2029, 0x202f, 0x205f,
        0x3000,
    ];
    let n = c as u32;
    if is_white(c) {
        let i: int = if n <= 0x0d {
            n - 0x09
        } else if n == 0x20 {
            5
        } else if n == 0x85 {
            6
        } else if n == 0xa0 {
            7
        } else if n == 0x1680 {
            8
        } else if n <= 0x200a {
            n - 0x2000 + 9
        } else if n == 0x2028 {
            20
        } else if n == 0x2029 {
            21
        } else if n == 0x202f {
            22
        } else if n == 0x205f {
            23
        } else {
            24
        };
        assert(all[i] == n);
    }
}

/// A text stands in another exactly where that one is something, the text, and something.
pub proof fn occurs_is_standing_inside(t: Seq<char>, part: Seq<char>)
    ensures
        occurs(t, part) <==> exists|a: Seq<char>, b: Seq<char>| t == #[trigger] (a + part + b),
{
    if occurs(t, part) {
        let i = choose|i: int| #[trigger] occurs_at(t, part, i);
        let a = t.take(i);
        let b = t.skip(i + part.len());
        assert(t =~= a + t.subrange(i, i + part.len()) + b);
        assert(t == a + part + b);
    }
    if exists|a: Seq<char>, b: Seq<char>| t == #[trigger] (a + part + b) {
        let (a, b) = choose|a: Seq<char>, b: Seq<char>| t == #[trigger] (a + part + b);
        occurs_inside(a, part, b);
    }
}

/// A text begins with another exactly where it is that one and something.
pub proof fn beginning_is_standing_first(t: Seq<char>, prefix: Seq<char>)
    ensures
        begins_with(t, prefix) <==> exists|b: Seq<char>| t == #[trigger] (prefix + b),
{
    if begins_with(t, prefix) {
        let b = t.skip(prefix.len() as int);
        assert(t =~= t.subrange(0, prefix.len() as int) + b);
        assert(t == prefix + b);
    }
    if exists|b: Seq<char>| t == #[trigger] (prefix + b) {
        let b = choose|b: Seq<char>| t == #[trigger] (prefix + b);
        assert((prefix + b).subrange(0, prefix.len() as int) =~= prefix);
    }
}

/// Trimming the start takes all the white space there, and nothing else.
pub proof fn trimmed_start_is_the_rest(s: Seq<char>)
    ensures
        exists|i: int|
            0 <= i <= s.len() && trimmed_start(s) == #[trigger] s.skip(i) && (forall|k: int|
                0 <= k < i ==> is_white(#[trigger] s[k])) && (i < s.len() ==> !is_white(s[i])),
    decreases s.len(),
{
    if s.len() > 0 && is_white(s[0]) {
        let t = s.drop_first();
        trimmed_start_is_the_rest(t);
        let i = choose|i: int|
            0 <= i <= t.len() && trimmed_start(t) == #[trigger] t.skip(i) && (forall|k: int|
                0 <= k < i ==> is_white(#[trigger] t[k])) && (i < t.len() ==> !is_white(t[i]));
        assert(t.skip(i) =~= s.skip(i + 1));
        assert forall|k: int| 0 <= k < i + 1 implies is_white(#[trigger] s[k]) by {
            if k > 0 {
                assert(s[k] == t[k - 1]);
            }
        }
    } else {
        assert(s.skip(0) =~= s);
    }
}

proof fn trimmed_end_is_the_front(s: Seq<char>)
    ensures
        exists|j: int|
            0 <= j <= s.len() && trimmed_end(s) == #[trigger] s.take(j) && (forall|k: int|
                j <= k < s.len() ==> is_white(#[trigger] s[k])) && (j > 0 ==> !is_white(s[j - 1])),
    decreases s.len(),
{
    if s.len() > 0 && is_white(s.last()) {
        let t = s.drop_last();
        trimmed_end_is_the_front(t);
        let j = choose|j: int|
            0 <= j <= t.len() && trimmed_end(t) == #[trigger] t.take(j) && (forall|k: int|
                j <= k < t.len() ==> is_white(#[trigger] t[k])) && (j > 0 ==> !is_white(t[j - 1]));
        assert(t.take(j) =~= s.take(j));
        assert forall|k: int| j <= k < s.len() implies is_white(#[trigger] s[k]) by {
            if k < t.len() {
                assert(s[k] == t[k]);
            }
        }
    } else {
        assert(s.take(s.len() as int) =~= s);
    }
}

/// Trimming takes the white space at either end, all of it, and nothing else.
pub proof fn trimmed_is_the_middle(s: Seq<char>)
    ensures
        exists|i: int, j: int|
            {
                &&& 0 <= i <= j <= s.len()
                &&& trimmed(s) == #[trigger] s.subrange(i, j)
                &&& forall|k: int| 0 <= k < i || j <= k < s.len() ==> is_white(#[trigger] s[k])
                &&& i < j ==> !is_white(s[i]) && !is_white(s[j - 1])
            },
{
    trimmed_start_is_the_rest(s);
    let i = choose|i: int|
        0 <= i <= s.len() && trimmed_start(s) == #[trigger] s.skip(i) && (forall|k: int|
            0 <= k < i ==> is_white(#[trigger] s[k])) && (i < s.len() ==> !is_white(s[i]));
    let t = s.skip(i);
    trimmed_end_is_the_front(t);
    let n = choose|n: int|
        0 <= n <= t.len() && trimmed_end(t) == #[trigger] t.take(n) && (forall|k: int|
            n <= k < t.len() ==> is_white(#[trigger] t[k])) && (n > 0 ==> !is_white(t[n - 1]));
    let j = i + n;
    assert(t.take(n) =~= s.subrange(i, j));
    assert forall|k: int| 0 <= k < i || j <= k < s.len() implies is_white(#[trigger] s[k]) by {
        if j <= k {
            assert(s[k] == t[k - i]);
        }
    }
    if i < j {
        assert(s[j - 1] == t[n - 1]);
    }
}

/// What is left of a text that has no white space at either end is the text.
pub proof fn trimmed_leaves_the_rest_alone(s: Seq<char>)
    requires
        s.len() > 0,
        !is_white(s[0]),
        !is_white(s.last()),
    ensures
        trimmed(s) == s,
{
}

/// The first characters are the front of the text, of the length that is asked for, or the
/// text where that is shorter.
pub proof fn first_chars_are_the_front(s: Seq<char>, n: nat)
    ensures
        first_chars(s, n).len() == (if s.len() < n {
            s.len()
        } else {
            n
        }),
        forall|i: int| 0 <= i < first_chars(s, n).len() ==> #[trigger] first_chars(s, n)[i] == s[i],
{
}

/// A number is written with digits only, without a zero in front of others, and each digit
/// counts ten times what the same one behind it does, so that it can be told from no other.
pub proof fn decimal_reads_back(n: nat)
    ensures
        decimal(n).len() > 0,
        forall|i: int| 0 <= i < decimal(n).len() ==> '0' <= #[trigger] decimal(n)[i] <= '9',
        decimal(n).len() > 1 ==> decimal(n)[0] != '0',
        digits_value(decimal(n)) == n,
    decreases n,
{
    if n < 10 {
        let d = digit(n);
        assert(seq![d].drop_last() =~= Seq::<char>::empty());
        assert(digits_value(Seq::<char>::empty()) == 0);
        assert(d as nat == 48 + n);
        assert(digits_value(seq![d]) == n);
    } else {
        let front = decimal(n / 10);
        decimal_reads_back(n / 10);
        let d = digit(n % 10);
        assert(d as nat == 48 + n % 10);
        assert(front.push(d).drop_last() =~= front);
        if n / 10 < 10 {
            assert(digit(n / 10) as nat == 48 + n / 10);
        } else {
            decimal_has_two(n / 10);
        }
    }
}

proof fn decimal_has_two(n: nat)
    requires
        n >= 10,
    ensures
        decimal(n).len() > 1,
{
    decimal_not_empty(n / 10);
}

proof fn decimal_not_empty(n: nat)
    ensures
        decimal(n).len() > 0,
    decreases n,
{
    if n >= 10 {
        decimal_not_empty(n / 10);
    }
}

/// Each digit counts ten times what the same one behind it does.
pub proof fn digits_count_by_place(s: Seq<char>, c: char)
    requires
        '0' <= c <= '9',
    ensures
        digits_value(Seq::<char>::empty()) == 0,
        digits_value(s.push(c)) == 10 * digits_value(s) + (c as nat - '0' as nat),
{
    assert(s.push(c).drop_last() =~= s);
}

/// Every number of 64 bits is read as itself, with a plus sign or without, and nothing that
/// holds anything but digits behind one plus sign is read at all.
pub proof fn numbers_are_read(n: u64, s: Seq<char>)
    ensures
        parsed(decimal(n as nat)) == Some(n),
        parsed(seq!['+'] + decimal(n as nat)) == Some(n),
        parsed(Seq::<char>::empty()) is None,
        parsed(seq!['+']) is None,
        (exists|i: int|
            0 <= i < s.len() && !('0' <= #[trigger] s[i] <= '9') && !(i == 0 && s[0] == '+'))
            ==> parsed(s) is None,
{
    decimal_reads_back(n as nat);
    let d = decimal(n as nat);
    assert(all_digits(d));
    assert(d[0] != '+');
    assert((seq!['+'] + d).drop_first() =~= d);
    assert(seq!['+'].drop_first().len() == 0);
    if exists|i: int|
        0 <= i < s.len() && !('0' <= #[trigger] s[i] <= '9') && !(i == 0 && s[0] == '+') {
        let i = choose|i: int|
            0 <= i < s.len() && !('0' <= #[trigger] s[i] <= '9') && !(i == 0 && s[0] == '+');
        if s[0] == '+' {
            assert(s.drop_first()[i - 1] == s[i]);
            assert(!is_digit(s.drop_first()[i - 1]));
        } else {
            assert(!is_digit(s[i]));
        }
    }
}

/// Digits that write more than 64 bits hold are not read; others are, as what they write.
pub proof fn digits_are_read_as_they_count(s: Seq<char>)
    requires
        s.len() > 0,
        forall|i: int| 0 <= i < s.len() ==> '0' <= #[trigger] s[i] <= '9',
    ensures
        digits_value(s) > u64::MAX ==> parsed(s) is None,
        digits_value(s) <= u64::MAX ==> parsed(s) == Some(digits_value(s) as u64),
{
    assert(s[0] != '+');
    assert(all_digits(s));
}

/// The characters of a list of texts are those of each text, in order.
pub proof fn views_are_of_each(v: Seq<String>)
    ensures
        views(v).len() == v.len(),
        forall|i: int| 0 <= i < v.len() ==> #[trigger] views(v)[i] == v[i]@,
{
}

/// Joining puts the separator between each two, in order, and nothing else anywhere.
pub proof fn joined_grows(parts: Seq<Seq<char>>, part: Seq<char>, sep: Seq<char>)
    ensures
        joined(Seq::empty(), sep) == Seq::<char>::empty(),
        joined(seq![part], sep) == part,
        parts.len() > 0 ==> joined(parts.push(part), sep) == joined(parts, sep) + sep + part,
{
    assert(parts.push(part).drop_last() =~= parts);
}

/// Splitting takes out the separators and nothing else: no piece holds one, and the pieces
/// with one between each two are the text again.
pub proof fn pieces_are_the_text(s: Seq<char>, sep: char)
    ensures
        joined(pieces(s, sep), seq![sep]) == s,
        forall|i: int| 0 <= i < pieces(s, sep).len() ==> !(#[trigger] pieces(s, sep)[i]).contains(sep),
    decreases s.len(),
{
    let one = seq![sep];
    if s.len() == 0 {
        let e = Seq::<char>::empty();
        assert(pieces(s, sep) == seq![e]);
        joined_grows(seq![e], e, one);
        assert(s =~= e);
        assert(!e.contains(sep));
    } else {
        let t = s.drop_last();
        let c = s.last();
        pieces_are_the_text(t, sep);
        pieces_nonempty(t, sep);
        let before = pieces(t, sep);
        assert(s =~= t.push(c));
        if c == sep {
            let e = Seq::<char>::empty();
            joined_grows(before, e, one);
            assert(joined(before, one) + one + e =~= t.push(sep));
            assert(!e.contains(sep));
        } else {
            let init = before.drop_last();
            let grown = before.last().push(c);
            assert(!before[before.len() - 1].contains(sep));
            assert(!grown.contains(sep)) by {
                if grown.contains(sep) {
                    let i = choose|i: int| 0 <= i < grown.len() && grown[i] == sep;
                    assert(before.last()[i] == sep);
                    assert(before.last().contains(sep));
                }
            }
            assert(before =~= init.push(before.last()));
            joined_grows(init, before.last(), one);
            joined_grows(init, grown, one);
            if init.len() == 0 {
                assert(init.push(grown) =~= seq![grown]);
                assert(before =~= seq![before.last()]);
                assert(grown =~= s);
            } else {
                assert(joined(init, one) + one + grown =~= (joined(init, one) + one
                    + before.last()).push(c));
            }
            assert forall|i: int| 0 <= i < init.push(grown).len() implies !(#[trigger] init.push(
                grown,
            )[i]).contains(sep) by {
                if i < init.len() {
                    assert(before[i] == init[i]);
                }
            }
        }
    }
}

/// A text without white space is one word, and nothing is none.
pub proof fn a_word_is_a_word(s: Seq<char>)
    requires
        forall|i: int| 0 <= i < s.len() ==> !is_white(#[trigger] s[i]),
    ensures
        s.len() > 0 ==> words(s) == seq![s],
        s.len() == 0 ==> words(s) == Seq::<Seq<char>>::empty(),
    decreases s.len(),
{
    if s.len() > 0 {
        let t = s.drop_last();
        assert forall|i: int| 0 <= i < t.len() implies !is_white(#[trigger] t[i]) by {
            assert(t[i] == s[i]);
        }
        a_word_is_a_word(t);
        assert(t.push(s.last()) =~= s);
        if s.len() == 1 {
            assert(seq![s.last()] =~= s);
            assert(words(t).push(seq![s.last()]) =~= seq![s]);
        } else {
            assert(seq![t].drop_last().push(s) =~= seq![s]);
        }
    }
}

/// The words of two texts with white space between them are those of the one and then those
/// of the other.
pub proof fn words_join(a: Seq<char>, space: char, b: Seq<char>)
    requires
        is_white(space),
    ensures
        words(a.push(space) + b) == words(a) + words(b),
    decreases b.len(),
{
    let all = a.push(space) + b;
    if b.len() == 0 {
        assert(all =~= a.push(space));
        assert(all.drop_last() =~= a);
        assert(words(a) + words(b) =~= words(a));
    } else {
        let rest = b.drop_last();
        words_join(a, space, rest);
        assert(all.drop_last() =~= a.push(space) + rest);
        assert(all.last() == b.last());
        let front = words(a);
        let back = words(rest);
        if !is_white(b.last()) {
            let one = seq![b.last()];
            if b.len() == 1 {
                assert(all[all.len() - 2] == space);
                assert((front + back).push(one) =~= front + back.push(one));
            } else {
                assert(all[all.len() - 2] == b[b.len() - 2]);
                if is_white(b[b.len() - 2]) {
                    assert((front + back).push(one) =~= front + back.push(one));
                } else {
                    words_nonempty(rest);
                    assert((front + back).last() == back.last());
                    let grown = back.last().push(b.last());
                    assert((front + back).drop_last().push(grown) =~= front
                        + back.drop_last().push(grown));
                }
            }
        }
    }
}

proof fn words_nonempty(s: Seq<char>)
    requires
        s.len() > 0,
        !is_white(s.last()),
    ensures
        words(s).len() > 0,
{
}

/// Of two texts that part at some character, the one with the lesser character there comes
/// before, and a text comes before all that go on where it ends.
pub proof fn the_first_difference_decides(
    front: Seq<char>,
    a: char,
    b: char,
    x: Seq<char>,
    y: Seq<char>,
)
    ensures
        a != b ==> comes_before(front + seq![a] + x, front + seq![b] + y) == (a < b),
        comes_before(front, front + seq![b] + y),
        !comes_before(front + seq![b] + y, front),
    decreases front.len(),
{
    let p = front + seq![a] + x;
    let q = front + seq![b] + y;
    if front.len() > 0 {
        let rest = front.drop_first();
        the_first_difference_decides(rest, a, b, x, y);
        assert(p.drop_first() =~= rest + seq![a] + x);
        assert(q.drop_first() =~= rest + seq![b] + y);
        assert(p[0] == front[0] && q[0] == front[0]);
    } else {
        assert(p[0] == a && q[0] == b);
    }
}

/// Of two different texts one comes before the other.
pub proof fn comes_before_total(a: Seq<char>, b: Seq<char>)
    ensures
        a == b || comes_before(a, b) || comes_before(b, a),
    decreases a.len(),
{
    if a.len() == 0 || b.len() == 0 {
        if a.len() == 0 && b.len() == 0 {
            assert(a =~= b);
        }
    } else if a[0] == b[0] {
        comes_before_total(a.drop_first(), b.drop_first());
        assert(a =~= seq![a[0]] + a.drop_first());
        assert(b =~= seq![b[0]] + b.drop_first());
    }
}

/// Only the character at the end goes, and all of it there.
pub proof fn without_trailing_is_the_front(s: Seq<char>, c: char)
    ensures
        exists|n: int|
            0 <= n <= s.len() && without_trailing(s, c) == #[trigger] s.take(n) && (forall|k: int|
                n <= k < s.len() ==> #[trigger] s[k] == c) && (n > 0 ==> s[n - 1] != c),
    decreases s.len(),
{
    if s.len() > 0 && s.last() == c {
        let t = s.drop_last();
        without_trailing_is_the_front(t, c);
        let n = choose|n: int|
            0 <= n <= t.len() && without_trailing(t, c) == #[trigger] t.take(n) && (forall|k: int|
                n <= k < t.len() ==> #[trigger] t[k] == c) && (n > 0 ==> t[n - 1] != c);
        assert(t.take(n) =~= s.take(n));
        assert forall|k: int| n <= k < s.len() implies #[trigger] s[k] == c by {
            if k < t.len() {
                assert(s[k] == t[k]);
            }
        }
    } else {
        assert(s.take(s.len() as int) =~= s);
    }
}

} // verus!
