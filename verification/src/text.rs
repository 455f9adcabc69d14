//! The messages that are shown in a channel.

use vstd::prelude::*;
use vstd::string::*;

verus! {

/// `String::push` appends the character to the end of the string.
pub assume_specification[ String::push ](s: &mut String, c: char)
    ensures
        final(s)@ == old(s)@.push(c),
;

/// The character of the digit `d`.
pub open spec fn digit_char(d: nat) -> char
    recommends
        d < 10,
{
    (48 + d) as char
}

/// `n` written in decimal, without leading zeros.
pub open spec fn decimal(n: nat) -> Seq<char>
    decreases n,
{
    if n < 10 {
        seq![digit_char(n)]
    } else {
        decimal(n / 10).push(digit_char(n % 10))
    }
}

/// The digits of `m` where it is not zero, nothing where it is.
spec fn leading_digits(m: nat) -> Seq<char> {
    if m == 0 {
        Seq::empty()
    } else {
        decimal(m)
    }
}

/// The character of the digit `d`.
fn digit_of(d: u64) -> (c: char)
    requires
        d < 10,
    ensures
        c == digit_char(d as nat),
{
    (48u8 + (d as u8)) as char
}

/// `n` written in decimal.
pub fn decimal_string(n: u64) -> (out: String)
    ensures
        out@ == decimal(n as nat),
{
    let mut low: Vec<char> = Vec::new();
    low.push(digit_of(n % 10));
    let mut m: u64 = n / 10;
    while m > 0
        invariant
            low.len() >= 1,
            decimal(n as nat) =~= leading_digits(m as nat) + Seq::new(
                low.len() as nat,
                |i: int| low@[low.len() - 1 - i],
            ),
        decreases m,
    {
        let ghost before = low@;
        low.push(digit_of(m % 10));
        proof {
            let turned = Seq::new(before.len(), |i: int| before[before.len() - 1 - i]);
            let now = Seq::new(low.len() as nat, |i: int| low@[low.len() - 1 - i]);
            assert(now =~= seq![digit_char((m % 10) as nat)] + turned);
            assert(decimal(m as nat) =~= leading_digits((m / 10) as nat) + seq![
                digit_char((m % 10) as nat),
            ]);
        }
        m = m / 10;
    }
    let mut out = String::new();
    let mut k: usize = low.len();
    while k > 0
        invariant
            k <= low.len(),
            out@ =~= Seq::new((low.len() - k) as nat, |i: int| low@[low.len() - 1 - i]),
        decreases k,
    {
        k -= 1;
        out.push(low[k]);
    }
    out
}

/// The announcement that the room `room` was built.
pub open spec fn creation_text(room: u64) -> Seq<char> {
    "🔨 Temp channel <#"@ + decimal(room as nat) + "> was built."@
}

/// The announcement that the room `room` was removed.
pub open spec fn deletion_text(room: u64) -> Seq<char> {
    "🗑 Temp channel <#"@ + decimal(room as nat) + "> was deleted, as it was empty."@
}

/// The announcement that the room `room` was built, with a reference to it.
pub fn creation_announcement(room: u64) -> (text: String)
    ensures
        text@ == creation_text(room),
{
    let mut text = "🔨 Temp channel <#".to_owned();
    text.append(decimal_string(room).as_str());
    text.append("> was built.");
    text
}

/// The announcement that the room `room` was removed, with a reference to it.
pub fn deletion_announcement(room: u64) -> (text: String)
    ensures
        text@ == deletion_text(room),
{
    let mut text = "🗑 Temp channel <#".to_owned();
    text.append(decimal_string(room).as_str());
    text.append("> was deleted, as it was empty.");
    text
}

} // verus!
