//! Wide-character text: a bounded scan for the terminator, and lossy decoding.

use vstd::prelude::*;

verus! {

/// Whether `unit` is a surrogate: half of a pair that stands for one
/// character outside the basic plane, and no character by itself.
pub open spec fn is_surrogate(unit: u16) -> bool {
    0xD800 <= unit <= 0xDFFF
}

/// Whether `high` and `low` are a surrogate pair: a leading surrogate followed
/// by a trailing one.
pub open spec fn is_pair(high: u16, low: u16) -> bool {
    0xD800 <= high <= 0xDBFF && 0xDC00 <= low <= 0xDFFF
}

/// The scalar value that a surrogate pair stands for.
pub open spec fn pair_scalar(high: u16, low: u16) -> int {
    0x10000 + (high - 0xD800) * 0x400 + (low - 0xDC00)
}

/// The character that stands in for what cannot be decoded, U+FFFD.
pub open spec fn replacement() -> char {
    '\u{FFFD}'
}

/// The text that UTF-16 code units stand for, read leniently: a surrogate
/// pair is one character, a surrogate without its partner is replaced by
/// U+FFFD, and every other unit is the character of that value.
pub open spec fn utf16_lossy(units: Seq<u16>) -> Seq<char>
    decreases units.len(),
{
    if units.len() == 0 {
        Seq::empty()
    } else if units.len() >= 2 && is_pair(units[0], units[1]) {
        seq![pair_scalar(units[0], units[1]) as char] + utf16_lossy(units.skip(2))
    } else if is_surrogate(units[0]) {
        seq![replacement()] + utf16_lossy(units.skip(1))
    } else {
        seq![units[0] as char] + utf16_lossy(units.skip(1))
    }
}

/// Calls `String::from_utf16_lossy`, which decodes UTF-16 and never fails:
/// invalid data, which is a surrogate without its partner, is replaced by
/// U+FFFD. The contract states that result; it is not proved here.
#[verifier::external_body]
fn decode_utf16_lossy(units: &[u16]) -> (text: String)
    ensures
        text@ == utf16_lossy(units@),
{
    String::from_utf16_lossy(units)
}

/// The units that a scan may read: those of `buffer` from `origin` on, at most
/// `max_len` of them. An origin behind the end of the buffer leaves nothing.
pub open spec fn scan_window(buffer: Seq<u16>, origin: int, max_len: int) -> Seq<u16> {
    if 0 <= origin <= buffer.len() && 0 <= max_len {
        if origin + max_len <= buffer.len() {
            buffer.subrange(origin, origin + max_len)
        } else {
            buffer.subrange(origin, buffer.len() as int)
        }
    } else {
        Seq::empty()
    }
}

/// The number of units in front of the first zero of `window`; its whole
/// length where it holds no zero.
pub open spec fn text_len(window: Seq<u16>) -> nat
    decreases window.len(),
{
    if window.len() == 0 || window[0] == 0 {
        0
    } else {
        1 + text_len(window.drop_first())
    }
}

/// The units of `window` in front of its terminator.
pub open spec fn text_units(window: Seq<u16>) -> Seq<u16> {
    window.subrange(0, text_len(window) as int)
}

/// The text at `origin` in `buffer`: empty for a null origin, otherwise the
/// decoded units between the origin and the terminator, the scan limited to
/// `max_len` units and to the buffer.
pub open spec fn wide_text(buffer: Seq<u16>, origin: Option<usize>, max_len: usize) -> Seq<char> {
    match origin {
        None => Seq::empty(),
        Some(start) => utf16_lossy(text_units(scan_window(buffer, start as int, max_len as int))),
    }
}

/// `text_len` is the index of the first zero: nothing in front of it is zero,
/// and it is the end of the window or the place of a zero.
pub proof fn lemma_text_len_is_first_zero(window: Seq<u16>)
    ensures
        text_len(window) <= window.len(),
        forall|i: int| 0 <= i < text_len(window) ==> window[i] != 0,
        text_len(window) == window.len() || window[text_len(window) as int] == 0,
    decreases window.len(),
{
    if window.len() == 0 || window[0] == 0 {
    } else {
        let rest = window.drop_first();
        lemma_text_len_is_first_zero(rest);
        assert forall|i: int| 0 <= i < text_len(window) implies window[i] != 0 by {
            if i > 0 {
                assert(window[i] == rest[i - 1]);
            }
        }
        if text_len(window) < window.len() {
            assert(window[text_len(window) as int] == rest[text_len(rest) as int]);
        }
    }
}

/// Only one index is the first zero: an `n` with no zero in front of it that is
/// the end of the window or the place of a zero is `text_len`.
pub proof fn lemma_first_zero_is_text_len(window: Seq<u16>, n: int)
    requires
        0 <= n <= window.len(),
        forall|i: int| 0 <= i < n ==> window[i] != 0,
        n == window.len() || window[n] == 0,
    ensures
        text_len(window) == n,
    decreases n,
{
    if n > 0 {
        let rest = window.drop_first();
        assert forall|i: int| 0 <= i < n - 1 implies rest[i] != 0 by {
            assert(rest[i] == window[i + 1]);
        }
        lemma_first_zero_is_text_len(rest, n - 1);
    }
}

/// Units without surrogates decode one to one: the text has one character
/// for each unit, the character of the unit's value. So what was encoded from
/// text of the basic plane comes back as it was.
pub proof fn lemma_plain_units_decode_as_they_are(units: Seq<u16>)
    requires
        forall|i: int| 0 <= i < units.len() ==> !is_surrogate(#[trigger] units[i]),
    ensures
        utf16_lossy(units).len() == units.len(),
        forall|i: int|
            0 <= i < units.len() ==> (#[trigger] utf16_lossy(units)[i]) as u32 == units[i],
        utf16_lossy(units) == Seq::new(units.len(), |i: int| units[i] as char),
    decreases units.len(),
{
    if units.len() > 0 {
        let rest = units.skip(1);
        assert forall|i: int| 0 <= i < rest.len() implies !is_surrogate(#[trigger] rest[i]) by {
            assert(rest[i] == units[i + 1]);
        }
        lemma_plain_units_decode_as_they_are(rest);
        assert(!is_surrogate(units[0]));
        assert(utf16_lossy(units) == seq![units[0] as char] + utf16_lossy(rest));
        assert forall|i: int| 0 <= i < units.len() implies (#[trigger] utf16_lossy(units)[i]) as u32
            == units[i] by {
            if i > 0 {
                assert(utf16_lossy(units)[i] == utf16_lossy(rest)[i - 1]);
                assert(rest[i - 1] == units[i]);
            }
        }
    }
    assert(utf16_lossy(units) =~= Seq::new(units.len(), |i: int| units[i] as char)) by {
        assert forall|i: int| 0 <= i < units.len() implies utf16_lossy(units)[i] == units[i] as char by {
            assert(utf16_lossy(units)[i] as u32 == units[i]);
        }
    }
}

/// Text of the basic plane comes back as it was written: where `text` holds
/// neither a zero nor a surrogate, a window that starts with `text` and a
/// zero decodes to the characters of `text`, whatever follows the zero.
pub proof fn lemma_terminated_text_round_trip(text: Seq<u16>, rest: Seq<u16>)
    requires
        forall|i: int| 0 <= i < text.len() ==> (#[trigger] text[i]) != 0 && !is_surrogate(text[i]),
    ensures
        text_units(text + seq![0u16] + rest) == text,
        utf16_lossy(text_units(text + seq![0u16] + rest)) == Seq::new(
            text.len(),
            |i: int| text[i] as char,
        ),
{
    let window = text + seq![0u16] + rest;
    assert forall|i: int| 0 <= i < text.len() implies window[i] != 0 by {
        assert(window[i] == text[i]);
    }
    assert(window[text.len() as int] == 0);
    lemma_first_zero_is_text_len(window, text.len() as int);
    assert(text_units(window) =~= text);
    lemma_plain_units_decode_as_they_are(text);
}

/// Decodes the null-terminated wide text at `origin` in `buffer`.
///
/// A null origin (`None`) gives the empty string. Otherwise the units from
/// `origin` up to the first zero are decoded, unpaired surrogates becoming
/// U+FFFD. The scan reads at most `max_len` units and never leaves the buffer:
/// where no zero is found the text ends with the scan.
pub fn get_wchar_t_value(buffer: &[u16], origin: Option<usize>, max_len: usize) -> (text: String)
    ensures
        text@ == wide_text(buffer@, origin, max_len),
        origin is None ==> text@ == Seq::<char>::empty(),
{
    match origin {
        None => String::new(),
        Some(start) => {
            let len: usize = buffer.len();
            let first: usize = if start <= len { start } else { len };
            let room: usize = len - first;
            let end: usize = if max_len <= room { first + max_len } else { len };
            let mut i: usize = first;
            while i < end && buffer[i] != 0
                invariant
                    first <= i <= end <= len,
                    len == buffer@.len(),
                    forall|j: int| first <= j < i ==> buffer@[j] != 0,
                decreases end - i,
            {
                i = i + 1;
            }
            let units = &buffer[first..i];
            proof {
                let window = scan_window(buffer@, start as int, max_len as int);
                if start <= len {
                    assert(window == buffer@.subrange(first as int, end as int));
                    lemma_first_zero_is_text_len(window, i - first);
                    assert(units@ =~= text_units(window));
                } else {
                    assert(units@ =~= text_units(window));
                }
            }
            decode_utf16_lossy(units)
        },
    }
}

} // verus!
