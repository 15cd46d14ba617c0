//! UTF-16 encoding of strings, and decoding through `widestring`.

use vstd::prelude::*;

verus! {

/// The UTF-16 code units of one character.
pub open spec fn utf16_of_char(c: char) -> Seq<u16> {
    let v = c as u32;
    if v < 0x10000 {
        seq![v as u16]
    } else {
        seq![(0xD800 + (v - 0x10000) / 0x400) as u16, (0xDC00 + (v - 0x10000) % 0x400) as u16]
    }
}

/// The UTF-16 code units of a character sequence.
pub open spec fn encode_utf16(s: Seq<char>) -> Seq<u16>
    decreases s.len(),
{
    if s.len() == 0 {
        Seq::empty()
    } else {
        encode_utf16(s.drop_last()) + utf16_of_char(s.last())
    }
}

/// Concatenation distributes over the encoding.
pub proof fn lemma_encode_utf16_concat(a: Seq<char>, b: Seq<char>)
    ensures
        encode_utf16(a + b) == encode_utf16(a) + encode_utf16(b),
    decreases b.len(),
{
    if b.len() == 0 {
        assert(a + b =~= a);
    } else {
        lemma_encode_utf16_concat(a, b.drop_last());
        assert((a + b).drop_last() =~= a + b.drop_last());
        assert((a + b).last() == b.last());
    }
}

/// The UTF-16 code units of one character.
pub fn char_to_utf16(c: char, out: &mut Vec<u16>)
    ensures
        final(out)@ == old(out)@ + utf16_of_char(c),
{
    let v = c as u32;
    if v < 0x10000 {
        out.push(v as u16);
    } else {
        out.push((0xD800 + (v - 0x10000) / 0x400) as u16);
        out.push((0xDC00 + (v - 0x10000) % 0x400) as u16);
    }
    assert(final(out)@ =~= old(out)@ + utf16_of_char(c));
}

/// Appends the UTF-16 code units of `s`, as `str::encode_utf16` yields them.
pub fn push_utf16(s: &str, out: &mut Vec<u16>)
    ensures
        final(out)@ == old(out)@ + encode_utf16(s@),
{
    let ghost start = out@;
    for c in it: s.chars()
        invariant
            it.seq() == s@,
            out@ == start + encode_utf16(s@.take(it.index as int)),
    {
        let ghost prev = s@.take(it.index as int);
        char_to_utf16(c, out);
        proof {
            assert(s@.take(it.index + 1).drop_last() =~= prev);
        }
    }
    assert(s@.take(s@.len() as int) =~= s@);
}

} // verus!

verus! {

/// The string that `widestring::U16Str::to_string_lossy` decodes from UTF-16
/// units (unpaired surrogates become U+FFFD).
pub uninterp spec fn utf16_lossy(units: Seq<u16>) -> Seq<char>;

/// The string that `widestring::U16Str::to_string` decodes from UTF-16 units;
/// `None` when they are not valid UTF-16.
pub uninterp spec fn utf16_strict(units: Seq<u16>) -> Option<Seq<char>>;

/// Decodes UTF-16 units with `widestring::U16Str::to_string_lossy`, which
/// calls `String::from_utf16_lossy`. Claimed: the result is the named decoding
/// of the units, and units that encode a string decode back to that string.
#[verifier::external_body]
pub(crate) fn units_to_string_lossy(units: &[u16]) -> (r: String)
    ensures
        r@ == utf16_lossy(units@),
        forall|s: Seq<char>| units@ == encode_utf16(s) ==> r@ == s,
{
    widestring::U16Str::from_slice(units).to_string_lossy()
}

/// Decodes UTF-16 units with `widestring::U16Str::to_string`, turning its
/// `Utf16Error` into `None`. Claimed: the result is the named decoding of the
/// units; units that encode a string decode back to that string; and when
/// the units start with the encoding of a string and decode, the decoded
/// string starts with that string (UTF-16 decodes unit by unit, and an
/// encoding ends on a whole character).
#[verifier::external_body]
pub(crate) fn units_to_string(units: &[u16]) -> (r: Option<String>)
    ensures
        match r {
            Some(s) => utf16_strict(units@) == Some(s@),
            None => utf16_strict(units@) is None,
        },
        forall|s: Seq<char>| units@ == encode_utf16(s) ==> r is Some && r->0@ == s,
        forall|a: Seq<char>|
            #![trigger encode_utf16(a)]
            r is Some && encode_utf16(a).len() <= units@.len() && units@.take(
                encode_utf16(a).len() as int,
            ) == encode_utf16(a) ==> a.len() <= r->0@.len() && r->0@.take(a.len() as int) == a,
{
    widestring::U16Str::from_slice(units).to_string().ok()
}

} // verus!
