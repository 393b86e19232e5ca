//! The decisions behind the HTTP surface.
//!
//! The transport lives outside this crate; what it hands in is the raw
//! request body and what it takes back are plain values. The brightness
//! operation's body is a JSON unsigned 8-bit integer: optional whitespace
//! around one digit run with no leading zero, value at most 255. Parsing
//! and the store/LED update the operation performs are verified here.

use vstd::prelude::*;
use crate::leds::Color;
use crate::leds::LedPosition;
use crate::leds::Leds;
use crate::store::SharedStore;

verus! {

/// JSON insignificant whitespace: space, tab, line feed, carriage return.
pub open spec fn is_json_ws(b: u8) -> bool {
    b == 0x20 || b == 0x09 || b == 0x0a || b == 0x0d
}

/// An ASCII decimal digit.
pub open spec fn is_ascii_digit(b: u8) -> bool {
    0x30 <= b <= 0x39
}

/// The byte sequence with its leading JSON whitespace removed.
pub open spec fn skip_ws_front(s: Seq<u8>) -> Seq<u8>
    decreases s.len(),
{
    if s.len() > 0 && is_json_ws(s[0]) {
        skip_ws_front(s.drop_first())
    } else {
        s
    }
}

/// The byte sequence with its trailing JSON whitespace removed.
pub open spec fn skip_ws_back(s: Seq<u8>) -> Seq<u8>
    decreases s.len(),
{
    if s.len() > 0 && is_json_ws(s.last()) {
        skip_ws_back(s.drop_last())
    } else {
        s
    }
}

/// The token of a request body: the bytes with surrounding JSON whitespace
/// removed.
pub open spec fn json_token(s: Seq<u8>) -> Seq<u8> {
    skip_ws_back(skip_ws_front(s))
}

/// The number a run of ASCII digits denotes.
pub open spec fn digits_value(s: Seq<u8>) -> int
    decreases s.len(),
{
    if s.len() == 0 {
        0
    } else {
        digits_value(s.drop_last()) * 10 + (s.last() - 0x30)
    }
}

/// A token that denotes a JSON unsigned 8-bit integer: at least one digit,
/// only digits, no leading zero (except the single digit zero itself), and
/// a value at most 255.
pub open spec fn valid_u8_token(t: Seq<u8>) -> bool {
    &&& t.len() >= 1
    &&& (forall|i: int| 0 <= i < t.len() ==> is_ascii_digit(#[trigger] t[i]))
    &&& (t[0] != 0x30 || t.len() == 1)
    &&& digits_value(t) <= 255
}

/// What parsing a brightness body yields: the token's value when the body
/// is a JSON unsigned 8-bit integer, nothing otherwise.
pub open spec fn parsed_brightness(s: Seq<u8>) -> Option<u8> {
    if valid_u8_token(json_token(s)) {
        Some(digits_value(json_token(s)) as u8)
    } else {
        None
    }
}

/// Leading whitespace removal keeps exactly the suffix from the first
/// non-whitespace byte on.
proof fn lemma_skip_ws_front(s: Seq<u8>, k: int)
    requires
        0 <= k <= s.len(),
        forall|i: int| 0 <= i < k ==> is_json_ws(#[trigger] s[i]),
        k < s.len() ==> !is_json_ws(s[k]),
    ensures
        skip_ws_front(s) == s.skip(k),
    decreases k,
{
    if k == 0 {
        assert(s.skip(0) =~= s);
    } else {
        lemma_skip_ws_front(s.drop_first(), k - 1);
        assert(s.drop_first().skip(k - 1) =~= s.skip(k));
    }
}

/// Trailing whitespace removal keeps exactly the prefix up to the last
/// non-whitespace byte.
proof fn lemma_skip_ws_back(s: Seq<u8>, k: int)
    requires
        0 <= k <= s.len(),
        forall|i: int| k <= i < s.len() ==> is_json_ws(#[trigger] s[i]),
        k > 0 ==> !is_json_ws(s[k - 1]),
    ensures
        skip_ws_back(s) == s.take(k),
    decreases s.len(),
{
    if s.len() > 0 && is_json_ws(s.last()) {
        lemma_skip_ws_back(s.drop_last(), k);
        assert(s.drop_last().take(k) =~= s.take(k));
    } else {
        assert(s.take(s.len() as int) =~= s);
    }
}

/// A digit run denotes a nonnegative number.
proof fn lemma_digits_nonneg(t: Seq<u8>)
    requires
        forall|i: int| 0 <= i < t.len() ==> is_ascii_digit(#[trigger] t[i]),
    ensures
        digits_value(t) >= 0,
    decreases t.len(),
{
    if t.len() > 0 {
        lemma_digits_nonneg(t.drop_last());
    }
}

/// Extending a digit run never shrinks its value: the value of the whole
/// run is at least the value of any prefix.
proof fn lemma_digits_prefix_le(t: Seq<u8>, k: int)
    requires
        0 <= k <= t.len(),
        forall|i: int| 0 <= i < t.len() ==> is_ascii_digit(#[trigger] t[i]),
    ensures
        digits_value(t.take(k)) <= digits_value(t),
    decreases t.len(),
{
    if k == t.len() {
        assert(t.take(k) =~= t);
    } else {
        lemma_digits_prefix_le(t.drop_last(), k);
        assert(t.drop_last().take(k) =~= t.take(k));
        lemma_digits_nonneg(t.drop_last());
    }
}

/// Appending one digit multiplies the prefix value by ten and adds it.
proof fn lemma_digits_take_step(t: Seq<u8>, k: int)
    requires
        0 <= k < t.len(),
    ensures
        digits_value(t.take(k + 1)) == digits_value(t.take(k)) * 10 + (t[k] - 0x30),
{
    assert(t.take(k + 1).drop_last() =~= t.take(k));
    assert(t.take(k + 1).last() == t[k]);
}

/// Parses a brightness request body: a JSON unsigned 8-bit integer,
/// surrounded by optional whitespace. Returns `None` on anything else.
pub fn parse_brightness(body: &[u8]) -> (r: Option<u8>)
    ensures
        r == parsed_brightness(body@),
{
    let ghost s = body@;
    let n = body.len();

    let mut start: usize = 0;
    while start < n && (body[start] == 0x20 || body[start] == 0x09 || body[start] == 0x0a
        || body[start] == 0x0d)
        invariant
            s == body@,
            n == s.len(),
            0 <= start <= n,
            forall|i: int| 0 <= i < start ==> is_json_ws(#[trigger] s[i]),
        decreases n - start,
    {
        start += 1;
    }

    let mut end: usize = n;
    while end > start && (body[end - 1] == 0x20 || body[end - 1] == 0x09 || body[end - 1] == 0x0a
        || body[end - 1] == 0x0d)
        invariant
            s == body@,
            n == s.len(),
            0 <= start <= end <= n,
            forall|i: int| end <= i < n ==> is_json_ws(#[trigger] s[i]),
        decreases end,
    {
        end -= 1;
    }

    let ghost t = s.subrange(start as int, end as int);
    proof {
        lemma_skip_ws_front(s, start as int);
        assert(s.skip(start as int).len() == n - start);
        lemma_skip_ws_back(s.skip(start as int), end - start as int);
        assert(s.skip(start as int).take(end - start as int) =~= t);
        assert(json_token(s) == t);
    }

    if end == start {
        return None;
    }
    if body[start] == 0x30 && end - start > 1 {
        return None;
    }

    let mut value: u16 = 0;
    let mut i: usize = start;
    while i < end
        invariant
            s == body@,
            n == s.len(),
            0 <= start <= i <= end <= n,
            t == s.subrange(start as int, end as int),
            t == json_token(s),
            forall|j: int| 0 <= j < i - start ==> is_ascii_digit(#[trigger] t[j]),
            value <= 255,
            value == digits_value(t.take(i - start)),
        decreases end - i,
    {
        let byte = body[i];
        if byte < 0x30 || byte > 0x39 {
            proof {
                assert(t[i - start] == s[i as int]);
                assert(!is_ascii_digit(t[i - start]));
            }
            return None;
        }
        proof {
            lemma_digits_take_step(t, i - start);
        }
        value = value * 10 + (byte - 0x30) as u16;
        i += 1;
        if value > 255 {
            proof {
                if forall|j: int| 0 <= j < t.len() ==> is_ascii_digit(#[trigger] t[j]) {
                    lemma_digits_prefix_le(t, i - start);
                }
            }
            return None;
        }
    }
    proof {
        assert(t.take(end - start as int) =~= t);
    }
    Some(value as u8)
}

/// The brightness operation: stores the new level in the settings and
/// applies it to the LED state, whose Bottom and Top colors take the new
/// level while Center keeps its color. The caller flushes the LED buffer.
pub fn apply_brightness(store: &SharedStore, leds: &mut Leds, brightness: u8)
    ensures
        final(leds).spec_brightness() == brightness,
        final(leds).color_at(LedPosition::Bottom) == (Color {
            brightness: Some(brightness),
            ..old(leds).color_at(LedPosition::Bottom)
        }),
        final(leds).color_at(LedPosition::Top) == (Color {
            brightness: Some(brightness),
            ..old(leds).color_at(LedPosition::Top)
        }),
        final(leds).color_at(LedPosition::Center) == old(leds).color_at(
            LedPosition::Center,
        ),
{
    store.set_brightness(brightness);
    leds.set_brightness(brightness);
}

} // verus!
