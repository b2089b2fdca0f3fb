//! Small helpers on strings and bytes: equality, decimal notation, and the
//! step from received bytes to text.

use vstd::prelude::*;
use vstd::utf8::*;

verus! {

/// Whether `needle` occurs in `haystack` as a contiguous run of characters.
pub open spec fn contains_text(haystack: Seq<char>, needle: Seq<char>) -> bool {
    exists|at: int|
        0 <= at && at + needle.len() <= haystack.len() && #[trigger] haystack.subrange(
            at,
            at + needle.len(),
        ) == needle
}

/// Text that ends in `tail` contains `tail`.
pub proof fn lemma_contains_tail(head: Seq<char>, tail: Seq<char>)
    ensures
        contains_text(head + tail, tail),
{
    let whole = head + tail;
    let at = head.len() as int;
    assert(whole.subrange(at, at + tail.len()) == tail);
}

/// Text that ends in `middle` and then `tail` contains `tail`.
pub proof fn lemma_contains_last(head: Seq<char>, middle: Seq<char>, tail: Seq<char>)
    ensures
        contains_text(head + (middle + tail), tail),
{
    assert(head + (middle + tail) =~= (head + middle) + tail);
    lemma_contains_tail(head + middle, tail);
}

/// The decimal digit `d` as text.
pub open spec fn digit_text(d: int) -> Seq<char> {
    if d == 0 {
        "0"@
    } else if d == 1 {
        "1"@
    } else if d == 2 {
        "2"@
    } else if d == 3 {
        "3"@
    } else if d == 4 {
        "4"@
    } else if d == 5 {
        "5"@
    } else if d == 6 {
        "6"@
    } else if d == 7 {
        "7"@
    } else if d == 8 {
        "8"@
    } else {
        "9"@
    }
}

/// Decimal notation of a natural number, without leading zeros.
pub open spec fn decimal_of_nat(n: nat) -> Seq<char>
    decreases n,
{
    if n < 10 {
        digit_text(n as int)
    } else {
        decimal_of_nat(n / 10) + digit_text((n % 10) as int)
    }
}

/// Decimal notation of an integer: a minus sign for a negative one, then its
/// magnitude.
pub open spec fn decimal(value: int) -> Seq<char> {
    if value < 0 {
        "-"@ + decimal_of_nat((-value) as nat)
    } else {
        decimal_of_nat(value as nat)
    }
}

/// Whether two byte slices hold the same bytes.
pub fn same_bytes(a: &[u8], b: &[u8]) -> (same: bool)
    ensures
        same == (a@ == b@),
{
    if a.len() != b.len() {
        return false;
    }
    let mut i: usize = 0;
    while i < a.len()
        invariant
            a@.len() == b@.len(),
            i <= a@.len(),
            a@.subrange(0, i as int) == b@.subrange(0, i as int),
        decreases a@.len() - i,
    {
        if a[i] != b[i] {
            assert(a@[i as int] != b@[i as int]);
            return false;
        }
        assert(a@.subrange(0, i + 1) == a@.subrange(0, i as int).push(a@[i as int]));
        assert(b@.subrange(0, i + 1) == b@.subrange(0, i as int).push(b@[i as int]));
        i = i + 1;
    }
    assert(a@ == a@.subrange(0, i as int));
    assert(b@ == b@.subrange(0, i as int));
    true
}

/// Whether two strings hold the same characters.
pub fn same_text(a: &str, b: &str) -> (same: bool)
    ensures
        same == (a@ == b@),
{
    proof {
        encode_utf8_decode_utf8(a@);
        encode_utf8_decode_utf8(b@);
    }
    same_bytes(a.as_bytes(), b.as_bytes())
}

/// The text of one decimal digit.
fn digit_str(d: u32) -> (text: &'static str)
    requires
        d < 10,
    ensures
        text@ == digit_text(d as int),
{
    if d == 0 {
        "0"
    } else if d == 1 {
        "1"
    } else if d == 2 {
        "2"
    } else if d == 3 {
        "3"
    } else if d == 4 {
        "4"
    } else if d == 5 {
        "5"
    } else if d == 6 {
        "6"
    } else if d == 7 {
        "7"
    } else if d == 8 {
        "8"
    } else {
        "9"
    }
}

/// Appends the decimal notation of `n` to `out`.
fn append_decimal(out: &mut String, n: u32)
    ensures
        final(out)@ == old(out)@ + decimal_of_nat(n as nat),
    decreases n,
{
    if n >= 10 {
        append_decimal(out, n / 10);
    }
    out.append(digit_str(n % 10));
}

/// The decimal notation of `value`.
pub fn decimal_string(value: i32) -> (text: String)
    ensures
        text@ == decimal(value as int),
{
    let mut out = String::new();
    let wide: i64 = value as i64;
    let magnitude: u32 = if wide < 0 {
        out.append("-");
        (-wide) as u32
    } else {
        wide as u32
    };
    append_decimal(&mut out, magnitude);
    out
}

/// Calls `std::str::from_utf8`. It returns the text that the bytes are the
/// UTF-8 encoding of when they are valid UTF-8, and nothing when they are not.
#[verifier::external_body]
pub(crate) fn text_of_bytes<'a>(bytes: &'a [u8]) -> (text: Option<&'a str>)
    ensures
        match text {
            Some(s) => valid_utf8(bytes@) && encode_utf8(s@) == bytes@,
            None => !valid_utf8(bytes@),
        },
{
    match std::str::from_utf8(bytes) {
        Ok(s) => Some(s),
        Err(_) => None,
    }
}

} // verus!
