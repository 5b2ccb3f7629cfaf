//! What holds of texts, of documents and of what is found in them.

use crate::json::{first_member, JsonView};
use crate::pattern::{
    address_parts, announced_address, announcement, announcement_exists, announces, is_address,
    is_digit, post_of,
};
use crate::text::{begins_with, decimal, digit_char, or_empty, position_from, signed_decimal};
use vstd::prelude::*;

verus! {

/// The number that a row of ASCII digits stands for.
pub open spec fn number_of(s: Seq<char>) -> int
    decreases s.len(),
{
    if s.len() == 0 {
        0
    } else {
        10 * number_of(s.drop_last()) + (s.last() as int - '0' as int)
    }
}

/// Whether `s` is a number in ASCII digits without leading zeros.
pub open spec fn is_number(s: Seq<char>) -> bool {
    &&& s.len() > 0
    &&& forall|i: int| 0 <= i < s.len() ==> '0' <= #[trigger] s[i] && s[i] <= '9'
    &&& s[0] == '0' ==> s.len() == 1
}

/// The notation of a natural number stands for that number, and begins with no zero.
pub proof fn notation_reads_back(n: nat)
    ensures
        is_number(decimal(n)),
        number_of(decimal(n)) == n,
        n > 0 ==> decimal(n)[0] != '0',
    decreases n,
{
    if n < 10 {
        assert(decimal(n).drop_last() =~= Seq::empty());
        assert(number_of(Seq::<char>::empty()) == 0);
        assert(decimal(n).last() == digit_char(n));
    } else {
        notation_reads_back(n / 10);
        assert(decimal(n).drop_last() =~= decimal(n / 10));
        assert(decimal(n).last() == digit_char(n % 10));
        assert(decimal(n)[0] == decimal(n / 10)[0]);
    }
}

/// The notation of an integer is that of its magnitude, behind a minus where it is negative.
pub proof fn signed_notation_reads_back(n: int)
    ensures
        n >= 0 ==> is_number(signed_decimal(n)) && number_of(signed_decimal(n)) == n,
        n < 0 ==> signed_decimal(n)[0] == '-' && is_number(signed_decimal(n).skip(1)) && number_of(
            signed_decimal(n).skip(1),
        ) == -n,
{
    if n < 0 {
        notation_reads_back((-n) as nat);
        assert(signed_decimal(n).skip(1) =~= decimal((-n) as nat));
    } else {
        notation_reads_back(n as nat);
    }
}

/// A missing text is empty, and one that is there is itself.
pub proof fn missing_text_is_empty(s: Seq<char>)
    ensures
        or_empty(Some(s)) == s,
        or_empty(None).len() == 0,
{
}

/// A text begins with a prefix exactly when something can be put behind the prefix to give it.
pub proof fn prefix_is_followed_by_rest(text: Seq<char>, prefix: Seq<char>)
    ensures
        begins_with(text, prefix) <==> exists|rest: Seq<char>| #[trigger] (prefix + rest) == text,
{
    if begins_with(text, prefix) {
        let rest = text.skip(prefix.len() as int);
        assert(prefix + rest =~= text);
    }
    if exists|rest: Seq<char>| #[trigger] (prefix + rest) == text {
        let rest = choose|rest: Seq<char>| #[trigger] (prefix + rest) == text;
        assert((prefix + rest).subrange(0, prefix.len() as int) =~= prefix);
    }
}

/// What is found is the first of its kind: it stands there, and nowhere before.
pub proof fn first_is_found(s: Seq<char>, c: char, from: int)
    requires
        0 <= from <= s.len(),
    ensures
        from <= position_from(s, c, from) <= s.len(),
        position_from(s, c, from) < s.len() ==> s[position_from(s, c, from)] == c,
        forall|i: int| from <= i < position_from(s, c, from) ==> s[i] != c,
    decreases s.len() - from,
{
    if from < s.len() && s[from] != c {
        first_is_found(s, c, from + 1);
    }
}

/// A member that is found is there under its key, and where none is found none is there.
pub proof fn found_member_is_there(members: Seq<(Seq<char>, JsonView)>, key: Seq<char>)
    ensures
        match JsonView::Object(members).member(key) {
            Some(value) => members.contains((key, value)),
            None => forall|i: int| 0 <= i < members.len() ==> (#[trigger] members[i]).0 != key,
        },
    decreases members.len(),
{
    if members.len() > 0 {
        if members[0].0 == key {
            assert(members[0] == (key, members[0].1));
        } else {
            let rest = members.drop_first();
            assert(forall|i: int| 0 <= i < rest.len() ==> rest[i] == members[i + 1]);
            found_member_is_there(rest, key);
            match first_member(rest, key) {
                Some(value) => {
                    let i = choose|i: int| 0 <= i < rest.len() && rest[i] == (key, value);
                    assert(members[i + 1] == (key, value));
                },
                None => {
                    assert forall|i: int| 0 <= i < members.len() implies (
                    #[trigger] members[i]).0 != key by {
                        if i > 0 {
                            assert(rest[i - 1] == members[i]);
                        }
                    }
                },
            }
        }
    }
}

/// Only objects have members, and only strings and integers are read as such.
pub proof fn documents_are_read_by_kind(j: JsonView, key: Seq<char>)
    ensures
        j !is Object ==> j.member(key) is None,
        j.text() == (match j {
            JsonView::Str(s) => Some(s),
            _ => None,
        }),
        j.integer() == (match j {
            JsonView::Number { integer, .. } => integer,
            _ => None,
        }),
        match j.member(key) {
            Some(value) => j.member_text(key) == value.text() && j.member_integer(key)
                == value.integer(),
            None => j.member_text(key) is None && j.member_integer(key) is None,
        },
{
}

/// Of the ASCII characters exactly the ten digits count as digits.
pub proof fn ascii_digits(c: char)
    requires
        (c as int) < 128,
    ensures
        is_digit(c) <==> 48 <= c as int <= 57,
{
}

/// Whether `s` is digits, at least one.
pub open spec fn all_digits(s: Seq<char>) -> bool {
    s.len() > 0 && forall|i: int| 0 <= i < s.len() ==> is_digit(#[trigger] s[i])
}

/// Four numbers with points between them, a colon and a number.
pub open spec fn dotted(
    p: Seq<char>,
    q: Seq<char>,
    r: Seq<char>,
    s: Seq<char>,
    port: Seq<char>,
) -> Seq<char> {
    p + seq!['.'] + q + seq!['.'] + r + seq!['.'] + s + seq![':'] + port
}

/// Any four numbers with points between them, a colon and a number are an address.
pub proof fn dotted_numbers_are_an_address(
    p: Seq<char>,
    q: Seq<char>,
    r: Seq<char>,
    s: Seq<char>,
    port: Seq<char>,
)
    requires
        all_digits(p),
        all_digits(q),
        all_digits(r),
        all_digits(s),
        all_digits(port),
    ensures
        is_address(dotted(p, q, r, s, port)),
{
    let t = dotted(p, q, r, s, port);
    let a = p.len() as int;
    let b = a + 1 + q.len();
    let c = b + 1 + r.len();
    let d = c + 1 + s.len();
    assert forall|k: int| 0 <= k < a implies is_digit(#[trigger] t[k]) by {
        assert(t[k] == p[k]);
    }
    assert forall|k: int| a < k < b implies is_digit(#[trigger] t[k]) by {
        assert(t[k] == q[k - a - 1]);
    }
    assert forall|k: int| b < k < c implies is_digit(#[trigger] t[k]) by {
        assert(t[k] == r[k - b - 1]);
    }
    assert forall|k: int| c < k < d implies is_digit(#[trigger] t[k]) by {
        assert(t[k] == s[k - c - 1]);
    }
    assert forall|k: int| d < k < t.len() implies is_digit(#[trigger] t[k]) by {
        assert(t[k] == port[k - d - 1]);
    }
    assert(address_parts(t, a, b, c, d));
}

/// Every address is four numbers with points between them, a colon and a number.
pub proof fn address_is_dotted_numbers(t: Seq<char>) -> (parts: (
    Seq<char>,
    Seq<char>,
    Seq<char>,
    Seq<char>,
    Seq<char>,
))
    requires
        is_address(t),
    ensures
        all_digits(parts.0),
        all_digits(parts.1),
        all_digits(parts.2),
        all_digits(parts.3),
        all_digits(parts.4),
        t == dotted(parts.0, parts.1, parts.2, parts.3, parts.4),
{
    let (a, b, c, d) = choose|a: int, b: int, c: int, d: int| address_parts(t, a, b, c, d);
    let p = t.subrange(0, a);
    let q = t.subrange(a + 1, b);
    let r = t.subrange(b + 1, c);
    let s = t.subrange(c + 1, d);
    let port = t.subrange(d + 1, t.len() as int);
    assert(dotted(p, q, r, s, port) =~= t);
    (p, q, r, s, port)
}

/// An address that is found stands in the line behind `selecting connection `, and no digit
/// follows it. The result is what stands before and what stands behind.
pub proof fn found_address_is_in_the_line(line: Seq<char>, address: Seq<char>) -> (around: (
    Seq<char>,
    Seq<char>,
))
    requires
        announced_address(line) == Some(address),
    ensures
        line == around.0 + "selecting connection "@ + address + around.1,
        is_address(address),
        around.1.len() > 0 ==> !is_digit(around.1[0]),
        forall|f: int, t: int| #[trigger] announces(line, f, t) ==> around.0.len() <= f,
{
    announcement_exists(line);
    let n = announcement().len() as int;
    let (f, t) = choose|from: int, to: int|
        {
            &&& #[trigger] announces(line, from, to)
            &&& address == line.subrange(from + n, to)
            &&& to == line.len() || !is_digit(line[to])
            &&& forall|f: int, t: int| #[trigger] announces(line, f, t) ==> from <= f
        };
    let before = line.subrange(0, f);
    let after = line.subrange(t, line.len() as int);
    assert(line =~= before + line.subrange(f, f + n) + address + after);
    (before, after)
}

/// Where `selecting connection ` stands before an address anywhere in a line, an address is
/// found, there or further to the left.
pub proof fn announced_address_is_found(
    before: Seq<char>,
    address: Seq<char>,
    after: Seq<char>,
) -> (around: (Seq<char>, Seq<char>))
    requires
        is_address(address),
    ensures
        announced_address(before + "selecting connection "@ + address + after) matches Some(
            found,
        ) && before + "selecting connection "@ + address + after == around.0
            + "selecting connection "@ + found + around.1 && is_address(found)
            && around.0.len() <= before.len(),
{
    let line = before + "selecting connection "@ + address + after;
    let n = announcement().len() as int;
    let from = before.len() as int;
    let to = from + n + address.len();
    assert(line.subrange(from, from + n) =~= announcement());
    assert(line.subrange(from + n, to) =~= address);
    assert(announces(line, from, to));
    announcement_exists(line);
    assert(announced_address(line) is Some);
    found_address_is_in_the_line(line, announced_address(line)->0)
}

/// A message that links to a post is the post behind one of the three forms of the site.
pub proof fn links_have_three_forms(message: Seq<char>, post: Seq<char>)
    requires
        post_of(message) == Some(post),
    ensures
        message == "factoriobin.com/post/"@ + post || message == "http://"@ + (
        "factoriobin.com/post/"@ + post) || message == "https://"@ + ("factoriobin.com/post/"@
            + post),
        post.len() > 0,
        !post.contains('\n'),
{
    let site = "factoriobin.com/post/"@;
    let rest = if begins_with(message, "https://"@) {
        message.skip("https://"@.len() as int)
    } else if begins_with(message, "http://"@) {
        message.skip("http://"@.len() as int)
    } else {
        message
    };
    assert(rest =~= site + rest.skip(site.len() as int));
    if begins_with(message, "https://"@) {
        assert(message =~= "https://"@ + rest);
    } else if begins_with(message, "http://"@) {
        assert(message =~= "http://"@ + rest);
    }
}

} // verus!
