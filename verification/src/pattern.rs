//! What the bot looks for in texts: the address of a server in a log line, and the link of a
//! blueprint post in a message.

use crate::text::{begins_with, opt_text};
use vstd::prelude::*;

verus! {

/// How a log line of the zone announces the address of the server.
pub const CONNECTION_PATTERN: &'static str = "selecting connection (\\d+\\.\\d+\\.\\d+\\.\\d+:\\d+)";

/// The link of a post on factoriobin.com, as the whole of a message.
pub const POST_PATTERN: &'static str = "^(https?://)?factoriobin\\.com/post/(.+)$";

/// Whether a character outside ASCII is a decimal digit: what `\d` of the `regex` crate matches
/// there, the general category Nd of Unicode.
pub uninterp spec fn unicode_digit(c: char) -> bool;

/// Whether a character is a decimal digit.
pub open spec fn is_digit(c: char) -> bool {
    if (c as int) < 128 {
        '0' <= c && c <= '9'
    } else {
        unicode_digit(c)
    }
}

/// Whether the characters from `from` up to `to` are digits, at least one of them.
pub open spec fn digits(s: Seq<char>, from: int, to: int) -> bool {
    &&& 0 <= from < to <= s.len()
    &&& forall|k: int| from <= k < to ==> is_digit(#[trigger] s[k])
}

/// Whether `s` is four numbers with points between them, a colon and a number; the separators
/// stand at `a`, `b`, `c` and `d`.
pub open spec fn address_parts(s: Seq<char>, a: int, b: int, c: int, d: int) -> bool {
    &&& digits(s, 0, a) && a < s.len() && s[a] == '.'
    &&& digits(s, a + 1, b) && b < s.len() && s[b] == '.'
    &&& digits(s, b + 1, c) && c < s.len() && s[c] == '.'
    &&& digits(s, c + 1, d) && d < s.len() && s[d] == ':'
    &&& digits(s, d + 1, s.len() as int)
}

/// Whether `s` is an address with a port, such as `10.0.0.1:34197`.
pub open spec fn is_address(s: Seq<char>) -> bool {
    exists|a: int, b: int, c: int, d: int| address_parts(s, a, b, c, d)
}

/// What stands before an address that is announced.
pub open spec fn announcement() -> Seq<char> {
    "selecting connection "@
}

/// Whether the line announces the address that ends before `to`, by words that begin at `from`.
pub open spec fn announces(line: Seq<char>, from: int, to: int) -> bool {
    let start = from + announcement().len();
    &&& 0 <= from && start <= to <= line.len()
    &&& line.subrange(from, start) == announcement()
    &&& is_address(line.subrange(start, to))
}

/// Whether the line announces `address`: by its first announcement, and with all the digits of
/// the port. Nothing is announced where the line holds no announcement.
pub open spec fn line_announces(line: Seq<char>, address: Option<Seq<char>>) -> bool {
    match address {
        None => forall|from: int, to: int| !announces(line, from, to),
        Some(address) => exists|from: int, to: int|
            {
                &&& #[trigger] announces(line, from, to)
                &&& address == line.subrange(from + announcement().len(), to)
                &&& to == line.len() || !is_digit(line[to])
                &&& forall|f: int, t: int| #[trigger] announces(line, f, t) ==> from <= f
            },
    }
}

/// The post that a message links to: what follows `factoriobin.com/post/`, with or without the
/// scheme in front, where it is not empty and stays on one line.
pub open spec fn post_of(message: Seq<char>) -> Option<Seq<char>> {
    let rest = if begins_with(message, "https://"@) {
        message.skip("https://"@.len() as int)
    } else if begins_with(message, "http://"@) {
        message.skip("http://"@.len() as int)
    } else {
        message
    };
    let site = "factoriobin.com/post/"@;
    let post = rest.skip(site.len() as int);
    if begins_with(rest, site) && post.len() > 0 && !post.contains('\n') {
        Some(post)
    } else {
        None
    }
}

/// Searches `text` with `regex::Regex::new` and `Regex::captures`, and gives the text of one
/// group of the match.
///
/// The first pattern is unanchored: its match is the leftmost announcement in the text, and its
/// last `\d+` takes all the digits that follow. The second is anchored at both ends, and its
/// `.+` takes any characters but line feeds.
#[verifier::external_body]
fn capture(pattern: &str, text: &str, group: usize) -> (r: Option<String>)
    requires
        (pattern@ == CONNECTION_PATTERN@ && group == 1) || (pattern@ == POST_PATTERN@ && group
            == 2),
    ensures
        pattern@ == CONNECTION_PATTERN@ ==> line_announces(text@, opt_text(r)),
        pattern@ == CONNECTION_PATTERN@ ==> (r matches Some(address) ==> forall|k: int|
            0 <= k < address@.len() && (#[trigger] address@[k]) as int >= 128 ==> unicode_digit(
                address@[k],
            )),
        pattern@ == POST_PATTERN@ ==> opt_text(r) == post_of(text@),
{
    let re = regex::Regex::new(pattern).unwrap();
    re.captures(text).map(|caps| caps[group].to_string())
}

proof fn lemma_same_parts(s: Seq<char>, t: Seq<char>, a: int, b: int, c: int, d: int, p: int, q: int, u: int, v: int)
    requires
        s.is_prefix_of(t),
        address_parts(s, a, b, c, d),
        address_parts(t, p, q, u, v),
    ensures
        a == p && b == q && c == u && d == v,
{
    assert(forall|k: int| 0 <= k < s.len() ==> s[k] == t[k]);
    assert(!is_digit('.') && !is_digit(':'));
    assert(a == p) by {
        if a < p {
            assert(is_digit(t[a]));
        } else if p < a {
            assert(is_digit(s[p]));
        }
    }
    assert(b == q) by {
        if b < q {
            assert(is_digit(t[b]));
        } else if q < b {
            assert(is_digit(s[q]));
        }
    }
    assert(c == u) by {
        if c < u {
            assert(is_digit(t[c]));
        } else if u < c {
            assert(is_digit(s[u]));
        }
    }
    assert(d == v) by {
        if d < v {
            assert(is_digit(t[d]));
        } else if v < d {
            assert(is_digit(s[v]));
        }
    }
}

/// A line announces one thing at most.
pub proof fn announcement_is_unique(line: Seq<char>, x: Option<Seq<char>>, y: Option<Seq<char>>)
    requires
        line_announces(line, x),
        line_announces(line, y),
    ensures
        x == y,
{
    if x is Some && y is Some {
        let n = announcement().len() as int;
        let (f, t) = choose|from: int, to: int|
            {
                &&& #[trigger] announces(line, from, to)
                &&& x->0 == line.subrange(from + n, to)
                &&& to == line.len() || !is_digit(line[to])
                &&& forall|f: int, t: int| #[trigger] announces(line, f, t) ==> from <= f
            };
        let (g, u) = choose|from: int, to: int|
            {
                &&& #[trigger] announces(line, from, to)
                &&& y->0 == line.subrange(from + n, to)
                &&& to == line.len() || !is_digit(line[to])
                &&& forall|f: int, t: int| #[trigger] announces(line, f, t) ==> from <= f
            };
        assert(f == g);
        if t <= u {
            lemma_same_end(line, f + n, t, u);
        } else {
            lemma_same_end(line, f + n, u, t);
        }
    }
}

/// Of two addresses that begin at one place, the shorter is followed by a digit.
proof fn lemma_same_end(line: Seq<char>, start: int, t: int, u: int)
    requires
        0 <= start <= t <= u <= line.len(),
        is_address(line.subrange(start, t)),
        is_address(line.subrange(start, u)),
        t == line.len() || !is_digit(line[t]),
    ensures
        t == u,
{
    let x = line.subrange(start, t);
    let y = line.subrange(start, u);
    let (a, b, c, d) = choose|a: int, b: int, c: int, d: int| address_parts(x, a, b, c, d);
    let (p, q, r, s) = choose|a: int, b: int, c: int, d: int| address_parts(y, a, b, c, d);
    assert(x.is_prefix_of(y));
    lemma_same_parts(x, y, a, b, c, d, p, q, r, s);
    if t < u {
        assert(is_digit(y[t - start]));
    }
}

/// An announcement goes on to the end of the digits.
proof fn lemma_whole_port(line: Seq<char>, from: int, to: int) -> (end: int)
    requires
        announces(line, from, to),
    ensures
        announces(line, from, end),
        end == line.len() || !is_digit(line[end]),
    decreases line.len() - to,
{
    if to == line.len() || !is_digit(line[to]) {
        to
    } else {
        let start = from + announcement().len();
        let x = line.subrange(start, to);
        let y = line.subrange(start, to + 1);
        let (a, b, c, d) = choose|a: int, b: int, c: int, d: int| address_parts(x, a, b, c, d);
        assert(forall|k: int| 0 <= k < x.len() ==> x[k] == y[k]);
        assert(y[x.len() as int] == line[to]);
        assert(address_parts(y, a, b, c, d));
        lemma_whole_port(line, from, to + 1)
    }
}

/// There is a first announcement where there is one.
proof fn lemma_first_announcement(line: Seq<char>, from: int, to: int, low: int) -> (r: (int, int))
    requires
        announces(line, from, to),
        0 <= low <= from,
        forall|f: int, t: int| #[trigger] announces(line, f, t) ==> low <= f,
    ensures
        announces(line, r.0, r.1),
        forall|f: int, t: int| #[trigger] announces(line, f, t) ==> r.0 <= f,
    decreases from - low,
{
    if exists|t: int| announces(line, low, t) {
        (low, choose|t: int| announces(line, low, t))
    } else {
        lemma_first_announcement(line, from, to, low + 1)
    }
}

/// The address that a line announces.
pub open spec fn announced_address(line: Seq<char>) -> Option<Seq<char>> {
    choose|address: Option<Seq<char>>| line_announces(line, address)
}

/// Every line announces an address or announces none.
pub proof fn announcement_exists(line: Seq<char>)
    ensures
        line_announces(line, announced_address(line)),
{
    if exists|from: int, to: int| announces(line, from, to) {
        let (from, to) = choose|from: int, to: int| announces(line, from, to);
        let (first, t) = lemma_first_announcement(line, from, to, 0);
        let end = lemma_whole_port(line, first, t);
        let address = Some(line.subrange(first + announcement().len(), end));
        assert(line_announces(line, address));
    } else {
        assert(line_announces(line, None));
    }
}

/// An address is found behind the words that announce it, where no announcement begins before
/// them and no digit follows it.
pub proof fn address_is_found(before: Seq<char>, address: Seq<char>, after: Seq<char>)
    requires
        is_address(address),
        after.len() > 0 ==> !is_digit(after[0]),
        forall|from: int, to: int| #[trigger]
            announces(before + announcement() + address + after, from, to) ==> from
                >= before.len(),
    ensures
        announced_address(before + announcement() + address + after) == Some(address),
{
    let line = before + announcement() + address + after;
    let from = before.len() as int;
    let start = from + announcement().len();
    let to = start + address.len();
    assert(line.subrange(from, start) =~= announcement());
    assert(line.subrange(start, to) =~= address);
    assert(announces(line, from, to));
    assert(line_announces(line, Some(address)));
    announcement_exists(line);
    announcement_is_unique(line, announced_address(line), Some(address));
}

/// Finds the address that a line announces.
pub fn find_address(line: &str) -> (r: Option<String>)
    ensures
        line_announces(line@, opt_text(r)),
        opt_text(r) == announced_address(line@),
{
    let r = capture(CONNECTION_PATTERN, line, 1);
    proof {
        announcement_is_unique(line@, opt_text(r), announced_address(line@));
    }
    r
}

/// Finds the post that a message links to.
pub fn find_post(message: &str) -> (r: Option<String>)
    ensures
        opt_text(r) == post_of(message@),
{
    capture(POST_PATTERN, message, 2)
}

} // verus!
