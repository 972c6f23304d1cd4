//! UTF-16 encoding of text for the platform's wide-string calls.
//!
//! The front end hands every string to the operating system as a
//! null-terminated UTF-16 buffer; `w` builds that buffer.

use vstd::prelude::*;
use vstd::string::StrSliceExecFns;

verus! {

/// The UTF-16 code units of one character: a single unit for characters in
/// the basic multilingual plane, a surrogate pair otherwise.
pub open spec fn utf16_units(c: char) -> Seq<u16> {
    let v = c as u32;
    if v < 0x10000 {
        seq![v as u16]
    } else {
        let r = (v - 0x10000) as u32;
        seq![(0xD800 + r / 0x400) as u16, (0xDC00 + r % 0x400) as u16]
    }
}

/// The UTF-16 code units of a character sequence, in order.
pub open spec fn utf16_encode(s: Seq<char>) -> Seq<u16>
    decreases s.len(),
{
    if s.len() == 0 {
        Seq::empty()
    } else {
        utf16_units(s[0]) + utf16_encode(s.drop_first())
    }
}

proof fn lemma_utf16_encode_snoc(s: Seq<char>, c: char)
    ensures
        utf16_encode(s.push(c)) == utf16_encode(s) + utf16_units(c),
    decreases s.len(),
{
    if s.len() == 0 {
        assert(s.push(c).drop_first() =~= Seq::<char>::empty());
        assert(s.push(c)[0] == c);
        assert(utf16_encode(s.push(c)) == utf16_units(c) + utf16_encode(Seq::<char>::empty()));
        assert(utf16_encode(s.push(c)) =~= utf16_encode(s) + utf16_units(c));
    } else {
        assert(s.push(c).drop_first() =~= s.drop_first().push(c));
        lemma_utf16_encode_snoc(s.drop_first(), c);
        assert(utf16_encode(s.push(c)) =~= utf16_encode(s) + utf16_units(c));
    }
}

/// Encode a string as null-terminated UTF-16, ready for a wide-string call.
pub fn w(s: &str) -> (r: Vec<u16>)
    ensures
        r@ == utf16_encode(s@).push(0u16),
{
    let n = s.unicode_len();
    let mut r: Vec<u16> = Vec::new();
    let mut i: usize = 0;
    while i < n
        invariant
            n == s@.len(),
            i <= n,
            r@ == utf16_encode(s@.take(i as int)),
        decreases n - i,
    {
        let c = s.get_char(i);
        let v = c as u32;
        proof {
            assert(s@.take(i + 1).drop_last() =~= s@.take(i as int));
            assert(s@.take(i + 1) =~= s@.take(i as int).push(c));
            lemma_utf16_encode_snoc(s@.take(i as int), c);
        }
        if v < 0x10000 {
            r.push(v as u16);
        } else {
            let rest = v - 0x10000;
            assert(rest < 0x100000) by {
                assert(c as u32 <= 0x10FFFF);
            }
            r.push((0xD800 + rest / 0x400) as u16);
            r.push((0xDC00 + rest % 0x400) as u16);
        }
        i = i + 1;
    }
    proof {
        assert(s@.take(n as int) =~= s@);
    }
    r.push(0u16);
    r
}

} // verus!
