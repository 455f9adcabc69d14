//! Room names: turning free text into a name the platform accepts.

use vstd::prelude::*;
use vstd::string::*;

verus! {

/// The longest room name, in bytes of UTF-8, that is kept of the requested text.
pub const NAME_LIMIT: usize = 100;

/// Number of bytes that `c` takes in UTF-8.
pub open spec fn utf8_width(c: char) -> nat {
    if (c as u32) < 0x80 {
        1
    } else if (c as u32) < 0x800 {
        2
    } else if (c as u32) < 0x10000 {
        3
    } else {
        4
    }
}

/// Number of bytes that `s` takes in UTF-8.
pub open spec fn utf8_len(s: Seq<char>) -> nat
    decreases s.len(),
{
    if s.len() == 0 {
        0
    } else {
        utf8_width(s[0]) + utf8_len(s.drop_first())
    }
}

/// The longest prefix of `s` that is made of whole characters and takes at
/// most `budget` bytes in UTF-8.
pub open spec fn byte_prefix(s: Seq<char>, budget: nat) -> Seq<char>
    decreases s.len(),
{
    if s.len() == 0 || utf8_width(s[0]) > budget {
        Seq::empty()
    } else {
        seq![s[0]] + byte_prefix(s.drop_first(), (budget - utf8_width(s[0])) as nat)
    }
}

/// `c` with the ASCII capitals mapped to their small letters.
pub open spec fn ascii_lower(c: char) -> char {
    if 'A' <= c && c <= 'Z' {
        ((c as u8) + 32) as char
    } else {
        c
    }
}

/// The characters a room name is made of, besides the hyphen.
pub open spec fn is_name_char(c: char) -> bool {
    ('a' <= c && c <= 'z') || ('0' <= c && c <= '9')
}

/// `c` where it may stand in a name, a space in its place where it may not.
pub open spec fn blanked(c: char) -> char {
    if is_name_char(c) {
        c
    } else {
        ' '
    }
}

/// Number of spaces that `s` starts with.
pub open spec fn leading_spaces(s: Seq<char>) -> nat
    decreases s.len(),
{
    if s.len() > 0 && s[0] == ' ' {
        1 + leading_spaces(s.drop_first())
    } else {
        0
    }
}

/// Number of spaces that `s` ends with.
pub open spec fn trailing_spaces(s: Seq<char>) -> nat
    decreases s.len(),
{
    if s.len() > 0 && s.last() == ' ' {
        1 + trailing_spaces(s.drop_last())
    } else {
        0
    }
}

/// `s` without the spaces at its start and at its end.
pub open spec fn trimmed(s: Seq<char>) -> Seq<char> {
    let rest = s.skip(leading_spaces(s) as int);
    rest.take(rest.len() - trailing_spaces(rest))
}

/// `c`, or a hyphen in place of a space.
pub open spec fn hyphenated(c: char) -> char {
    if c == ' ' {
        '-'
    } else {
        c
    }
}

/// The text `s` cut and cleaned, before hyphens take the place of spaces: the
/// first `NAME_LIMIT` bytes of it, in lower case, each character outside
/// `a-z0-9` taken for a space, and the spaces at both ends dropped.
pub open spec fn spaced(s: Seq<char>) -> Seq<char> {
    trimmed(byte_prefix(s, NAME_LIMIT as nat).map_values(|c: char| blanked(ascii_lower(c))))
}

/// The room name that is made of the text `s`: `spaced(s)` with a hyphen in
/// place of each space.
pub open spec fn sanitized(s: Seq<char>) -> Seq<char> {
    spaced(s).map_values(|c: char| hyphenated(c))
}

/// The number of bytes of `c` in UTF-8.
fn width_of(c: char) -> (w: usize)
    ensures
        w == utf8_width(c),
        1 <= w <= 4,
{
    let code: u32 = c as u32;
    if code < 0x80 {
        1
    } else if code < 0x800 {
        2
    } else if code < 0x10000 {
        3
    } else {
        4
    }
}

/// The longest prefix of `s` that ends between two characters and takes at
/// most `limit` bytes.
pub fn truncate_to_bytes(s: &str, limit: usize) -> (out: String)
    ensures
        out@ == byte_prefix(s@, limit as nat),
{
    let mut out = String::new();
    let mut used: usize = 0;
    let mut full = false;
    assert(s@.skip(0) =~= s@);
    for c in it: s.chars()
        invariant
            it.seq() == s@,
            used <= limit,
            byte_prefix(s@, limit as nat) =~= out@ + (if full {
                Seq::<char>::empty()
            } else {
                byte_prefix(s@.skip(it.index() as int), (limit - used) as nat)
            }),
    {
        if !full {
            let w = width_of(c);
            proof {
                let rest = s@.skip(it.index() as int);
                assert(rest[0] == c);
                assert(rest.drop_first() == s@.skip(it.index() + 1));
            }
            if w > limit - used {
                full = true;
            } else {
                out.push(c);
                used = used + w;
            }
        }
    }
    out
}

/// `c`, or its small letter where it is an ASCII capital.
fn lower_of(c: char) -> (r: char)
    ensures
        r == ascii_lower(c),
{
    if 'A' <= c && c <= 'Z' {
        ((c as u8) + 32) as char
    } else {
        c
    }
}

/// `s` with the ASCII capitals turned into small letters.
pub fn to_ascii_lowercase(s: &str) -> (out: String)
    ensures
        out@ == s@.map_values(|c: char| ascii_lower(c)),
{
    let mut out = String::new();
    for c in it: s.chars()
        invariant
            it.seq() == s@,
            out@ == s@.take(it.index() as int).map_values(|c: char| ascii_lower(c)),
    {
        let l = lower_of(c);
        proof {
            let f = |c: char| ascii_lower(c);
            assert(s@.take(it.index() + 1).map_values(f) =~= s@.take(it.index() as int).map_values(
                f,
            ).push(l));
        }
        out.push(l);
    }
    assert(s@.take(s@.len() as int) =~= s@);
    out
}

/// The pattern that matches one character that may not stand in a name.
pub const NOT_A_NAME_CHAR: &'static str = "[^a-z0-9]";

/// Compiles `pattern` with `regex::Regex::new` and hands `text` to
/// `Regex::replace_all` with the replacement `with`.
///
/// The contract is stated for one pattern only, the negated class
/// `NOT_A_NAME_CHAR`, and for a single space as the replacement. That pattern
/// is well formed, so it compiles. It matches exactly one character, any that
/// is neither a small ASCII letter nor an ASCII digit, line breaks and
/// characters outside ASCII included. The matches are therefore the
/// occurrences of such characters, one by one, and the result is the text with
/// each of them replaced by a space and every other character kept in place.
/// The replacement holds no `$`, so nothing is expanded in it.
#[verifier::external_body]
fn replace_all(pattern: &str, text: &str, with: &str) -> (out: String)
    requires
        pattern@ == NOT_A_NAME_CHAR@,
        with@ == " "@,
    ensures
        out@ == text@.map_values(|c: char| blanked(c)),
{
    regex::Regex::new(pattern).unwrap().replace_all(text, with).into_owned()
}

/// `s` with a space in place of each character that may not stand in a name.
pub fn blank_disallowed(s: &str) -> (out: String)
    ensures
        out@ == s@.map_values(|c: char| blanked(c)),
{
    replace_all(NOT_A_NAME_CHAR, s, " ")
}

/// The characters of `s`, in order.
fn chars_of(s: &str) -> (out: Vec<char>)
    ensures
        out@ == s@,
{
    let mut out: Vec<char> = Vec::new();
    for c in it: s.chars()
        invariant
            it.seq() == s@,
            out@ == s@.take(it.index() as int),
    {
        proof {
            assert(s@.take(it.index() + 1) =~= s@.take(it.index() as int).push(c));
        }
        out.push(c);
    }
    assert(s@.take(s@.len() as int) =~= s@);
    out
}

/// Where `s` starts with `k` spaces and goes on with another character, or
/// ends there, `k` is the number of its leading spaces.
pub proof fn lemma_leading_spaces(s: Seq<char>, k: int)
    requires
        0 <= k <= s.len(),
        forall|j: int| 0 <= j < k ==> s[j] == ' ',
        k < s.len() ==> s[k] != ' ',
    ensures
        leading_spaces(s) == k,
    decreases s.len(),
{
    if k > 0 {
        let rest = s.drop_first();
        assert forall|j: int| 0 <= j < k - 1 implies rest[j] == ' ' by {
            assert(rest[j] == s[j + 1]);
        }
        lemma_leading_spaces(rest, k - 1);
    }
}

/// Where `s` ends with `k` spaces and another character stands before them, or
/// none, `k` is the number of its trailing spaces.
pub proof fn lemma_trailing_spaces(s: Seq<char>, k: int)
    requires
        0 <= k <= s.len(),
        forall|j: int| s.len() - k <= j < s.len() ==> s[j] == ' ',
        k < s.len() ==> s[s.len() - k - 1] != ' ',
    ensures
        trailing_spaces(s) == k,
    decreases s.len(),
{
    if k > 0 {
        let rest = s.drop_last();
        assert forall|j: int| rest.len() - (k - 1) <= j < rest.len() implies rest[j] == ' ' by {
            assert(rest[j] == s[j]);
        }
        lemma_trailing_spaces(rest, k - 1);
    }
}

/// `s` without the spaces at its start and at its end.
pub fn trim_spaces(s: &str) -> (out: String)
    ensures
        out@ == trimmed(s@),
{
    let v = chars_of(s);
    let n = v.len();
    let mut start: usize = 0;
    while start < n && v[start] == ' '
        invariant
            start <= n,
            n == v.len(),
            forall|j: int| 0 <= j < start ==> v@[j] == ' ',
        decreases n - start,
    {
        start += 1;
    }
    let mut end: usize = n;
    while end > start && v[end - 1] == ' '
        invariant
            start <= end <= n,
            n == v.len(),
            forall|j: int| end <= j < n ==> v@[j] == ' ',
        decreases end,
    {
        end -= 1;
    }
    proof {
        lemma_leading_spaces(v@, start as int);
        let rest = v@.skip(start as int);
        lemma_trailing_spaces(rest, n - end);
        assert(trimmed(v@) =~= v@.subrange(start as int, end as int));
    }
    let mut out = String::new();
    let mut i: usize = start;
    while i < end
        invariant
            start <= i <= end <= v.len(),
            out@ == v@.subrange(start as int, i as int),
        decreases end - i,
    {
        proof {
            assert(v@.subrange(start as int, i + 1) =~= v@.subrange(start as int, i as int).push(
                v@[i as int],
            ));
        }
        out.push(v[i]);
        i += 1;
    }
    out
}

/// `s` with a hyphen in place of each space.
pub fn hyphenate(s: &str) -> (out: String)
    ensures
        out@ == s@.map_values(|c: char| hyphenated(c)),
{
    let mut out = String::new();
    for c in it: s.chars()
        invariant
            it.seq() == s@,
            out@ == s@.take(it.index() as int).map_values(|c: char| hyphenated(c)),
    {
        let h = if c == ' ' {
            '-'
        } else {
            c
        };
        proof {
            let f = |c: char| hyphenated(c);
            assert(s@.take(it.index() + 1).map_values(f) =~= s@.take(it.index() as int).map_values(
                f,
            ).push(h));
        }
        out.push(h);
    }
    assert(s@.take(s@.len() as int) =~= s@);
    out
}

/// The room name made of the text `s`. It is at most `NAME_LIMIT` characters
/// long, made of small ASCII letters, ASCII digits and hyphens, neither starts
/// nor ends with a hyphen, and is its own room name.
pub fn sanitize_channel_name(s: &str) -> (name: String)
    ensures
        name@ == sanitized(s@),
        name@.len() <= NAME_LIMIT,
        forall|i: int| 0 <= i < name@.len() ==> is_name_char(#[trigger] name@[i]) || name@[i] == '-',
        name@.len() > 0 ==> name@[0] != '-' && name@.last() != '-',
        sanitized(name@) == name@,
{
    let cut = truncate_to_bytes(s, NAME_LIMIT);
    let lower = to_ascii_lowercase(cut.as_str());
    let blank = blank_disallowed(lower.as_str());
    let inner = trim_spaces(blank.as_str());
    proof {
        let p = byte_prefix(s@, NAME_LIMIT as nat);
        assert(p.map_values(|c: char| ascii_lower(c)).map_values(|c: char| blanked(c))
            =~= p.map_values(|c: char| blanked(ascii_lower(c))));
        lemma_sanitized_shape(s@);
        lemma_sanitize_idempotent(s@);
    }
    hyphenate(inner.as_str())
}

/// The leading spaces of `s` are spaces, they are followed by another
/// character or by the end, and there are no more of them than characters.
pub proof fn lemma_leading_spaces_bound(s: Seq<char>)
    ensures
        leading_spaces(s) <= s.len(),
        forall|j: int| 0 <= j < leading_spaces(s) ==> s[j] == ' ',
        leading_spaces(s) < s.len() ==> s[leading_spaces(s) as int] != ' ',
    decreases s.len(),
{
    if s.len() > 0 && s[0] == ' ' {
        let rest = s.drop_first();
        lemma_leading_spaces_bound(rest);
        assert forall|j: int| 0 <= j < leading_spaces(s) implies s[j] == ' ' by {
            if j > 0 {
                assert(s[j] == rest[j - 1]);
            }
        }
        if leading_spaces(s) < s.len() {
            assert(s[leading_spaces(s) as int] == rest[leading_spaces(rest) as int]);
        }
    }
}

/// The trailing spaces of `s` are spaces, another character or the start
/// stands before them, and there are no more of them than characters.
pub proof fn lemma_trailing_spaces_bound(s: Seq<char>)
    ensures
        trailing_spaces(s) <= s.len(),
        forall|j: int| s.len() - trailing_spaces(s) <= j < s.len() ==> s[j] == ' ',
        trailing_spaces(s) < s.len() ==> s[s.len() - trailing_spaces(s) - 1] != ' ',
    decreases s.len(),
{
    if s.len() > 0 && s.last() == ' ' {
        let rest = s.drop_last();
        lemma_trailing_spaces_bound(rest);
        assert forall|j: int| s.len() - trailing_spaces(s) <= j < s.len() implies s[j] == ' ' by {
            if j < s.len() - 1 {
                assert(s[j] == rest[j]);
            }
        }
        if trailing_spaces(s) < s.len() {
            assert(s[s.len() - trailing_spaces(s) - 1] == rest[rest.len() - trailing_spaces(rest)
                - 1]);
        }
    }
}

/// What trimming leaves is a stretch of the text, the one that starts behind
/// the leading spaces, and it neither starts nor ends with a space.
pub proof fn lemma_trimmed_is_inner(s: Seq<char>)
    ensures
        leading_spaces(s) + trimmed(s).len() <= s.len(),
        trimmed(s) == s.subrange(
            leading_spaces(s) as int,
            (leading_spaces(s) + trimmed(s).len()) as int,
        ),
        trimmed(s).len() > 0 ==> trimmed(s)[0] != ' ' && trimmed(s).last() != ' ',
{
    lemma_leading_spaces_bound(s);
    let rest = s.skip(leading_spaces(s) as int);
    lemma_trailing_spaces_bound(rest);
    assert(trimmed(s) =~= s.subrange(
        leading_spaces(s) as int,
        (leading_spaces(s) + trimmed(s).len()) as int,
    ));
    if trimmed(s).len() > 0 {
        assert(trimmed(s).last() == rest[rest.len() - trailing_spaces(rest) - 1]);
        assert(trimmed(s)[0] == rest[0]);
        assert(rest[0] == s[leading_spaces(s) as int]);
    }
}

/// Trimming changes nothing in a text that neither starts nor ends with a space.
pub proof fn lemma_trimmed_fixed(s: Seq<char>)
    requires
        s.len() > 0 ==> s[0] != ' ' && s.last() != ' ',
    ensures
        trimmed(s) == s,
{
    assert(leading_spaces(s) == 0);
    assert(s.skip(0) =~= s);
    assert(trailing_spaces(s) == 0);
    assert(s.take(s.len() as int) =~= s);
}

/// The prefix that fits a budget of bytes is a prefix, and has no more
/// characters than the budget has bytes.
pub proof fn lemma_byte_prefix_bound(s: Seq<char>, budget: nat)
    ensures
        byte_prefix(s, budget).len() <= s.len(),
        byte_prefix(s, budget).len() <= budget,
        utf8_len(byte_prefix(s, budget)) <= budget,
        byte_prefix(s, budget) == s.take(byte_prefix(s, budget).len() as int),
    decreases s.len(),
{
    if s.len() == 0 || utf8_width(s[0]) > budget {
        assert(byte_prefix(s, budget) =~= s.take(0));
    } else {
        let rest = s.drop_first();
        let left = (budget - utf8_width(s[0])) as nat;
        lemma_byte_prefix_bound(rest, left);
        let p = byte_prefix(s, budget);
        assert(p.drop_first() =~= byte_prefix(rest, left));
        assert(p =~= s.take(p.len() as int));
    }
}

/// The prefix that fits the budget is the longest: it is the whole text, or
/// the character that follows it would go beyond the budget.
pub proof fn lemma_byte_prefix_longest(s: Seq<char>, budget: nat)
    ensures
        byte_prefix(s, budget).len() < s.len() ==> utf8_len(byte_prefix(s, budget)) + utf8_width(
            s[byte_prefix(s, budget).len() as int],
        ) > budget,
    decreases s.len(),
{
    lemma_byte_prefix_bound(s, budget);
    if s.len() == 0 || utf8_width(s[0]) > budget {
    } else {
        let rest = s.drop_first();
        let left = (budget - utf8_width(s[0])) as nat;
        lemma_byte_prefix_longest(rest, left);
        lemma_byte_prefix_bound(rest, left);
        let p = byte_prefix(s, budget);
        assert(p.drop_first() =~= byte_prefix(rest, left));
        if p.len() < s.len() {
            assert(s[p.len() as int] == rest[byte_prefix(rest, left).len() as int]);
        }
    }
}

/// A text of one-byte characters that is no longer than the budget fits whole.
pub proof fn lemma_byte_prefix_whole(s: Seq<char>, budget: nat)
    requires
        s.len() <= budget,
        forall|i: int| 0 <= i < s.len() ==> utf8_width(s[i]) == 1,
    ensures
        byte_prefix(s, budget) == s,
    decreases s.len(),
{
    if s.len() > 0 {
        let rest = s.drop_first();
        assert forall|i: int| 0 <= i < rest.len() implies utf8_width(rest[i]) == 1 by {
            assert(rest[i] == s[i + 1]);
        }
        lemma_byte_prefix_whole(rest, (budget - 1) as nat);
        assert(byte_prefix(s, budget) =~= s);
    } else {
        assert(byte_prefix(s, budget) =~= s);
    }
}

/// A room name is at most `NAME_LIMIT` characters long, is made of small ASCII
/// letters, ASCII digits and hyphens, and neither starts nor ends with a
/// hyphen.
pub proof fn lemma_sanitized_shape(s: Seq<char>)
    ensures
        sanitized(s).len() <= NAME_LIMIT,
        forall|i: int|
            0 <= i < sanitized(s).len() ==> is_name_char(#[trigger] sanitized(s)[i]) || sanitized(
                s,
            )[i] == '-',
        sanitized(s).len() > 0 ==> sanitized(s)[0] != '-' && sanitized(s).last() != '-',
{
    let p = byte_prefix(s, NAME_LIMIT as nat);
    let m = p.map_values(|c: char| blanked(ascii_lower(c)));
    let t = trimmed(m);
    lemma_byte_prefix_bound(s, NAME_LIMIT as nat);
    lemma_trimmed_is_inner(m);
    assert(sanitized(s) == t.map_values(|c: char| hyphenated(c)));
    assert forall|i: int| 0 <= i < t.len() implies is_name_char(#[trigger] t[i]) || t[i]
        == ' ' by {
        assert(t[i] == m[leading_spaces(m) + i]);
    }
}

/// Sanitizing a room name gives the same name again.
pub proof fn lemma_sanitize_idempotent(s: Seq<char>)
    ensures
        sanitized(sanitized(s)) == sanitized(s),
{
    let p = byte_prefix(s, NAME_LIMIT as nat);
    let m = p.map_values(|c: char| blanked(ascii_lower(c)));
    let t = trimmed(m);
    let y = sanitized(s);
    lemma_byte_prefix_bound(s, NAME_LIMIT as nat);
    lemma_trimmed_is_inner(m);
    lemma_sanitized_shape(s);
    assert(y == t.map_values(|c: char| hyphenated(c)));
    assert forall|i: int| 0 <= i < t.len() implies is_name_char(#[trigger] t[i]) || t[i]
        == ' ' by {
        assert(t[i] == m[leading_spaces(m) + i]);
    }
    assert forall|i: int| 0 <= i < y.len() implies utf8_width(y[i]) == 1 by {
        assert(is_name_char(y[i]) || y[i] == '-');
    }
    lemma_byte_prefix_whole(y, NAME_LIMIT as nat);
    let m2 = y.map_values(|c: char| blanked(ascii_lower(c)));
    assert(m2 =~= t) by {
        assert forall|i: int| 0 <= i < t.len() implies m2[i] == t[i] by {
            assert(is_name_char(t[i]) || t[i] == ' ');
            assert(y[i] == hyphenated(t[i]));
        }
    }
    lemma_trimmed_fixed(t);
}

/// A room name follows the text character by character. It stands for a
/// stretch of the text that lies within the part that was kept: each of its
/// characters is the small letter or the digit of the text at that place, or a
/// hyphen where the text has anything else. So two hyphens in a row stand for
/// two such characters in a row.
pub proof fn lemma_sanitized_follows_text(s: Seq<char>)
    ensures
        ({
            let kept = byte_prefix(s, NAME_LIMIT as nat);
            let start = leading_spaces(kept.map_values(|c: char| blanked(ascii_lower(c))));
            &&& start + sanitized(s).len() <= kept.len() <= s.len()
            &&& forall|i: int|
                0 <= i < sanitized(s).len() ==> #[trigger] sanitized(s)[i] == hyphenated(
                    blanked(ascii_lower(s[start + i])),
                )
        }),
{
    let kept = byte_prefix(s, NAME_LIMIT as nat);
    let m = kept.map_values(|c: char| blanked(ascii_lower(c)));
    let start = leading_spaces(m);
    lemma_byte_prefix_bound(s, NAME_LIMIT as nat);
    lemma_trimmed_is_inner(m);
    assert forall|i: int| 0 <= i < sanitized(s).len() implies #[trigger] sanitized(s)[i]
        == hyphenated(blanked(ascii_lower(s[start + i]))) by {
        assert(trimmed(m)[i] == m[start + i]);
        assert(kept[start + i] == s[start + i]);
    }
}

} // verus!
