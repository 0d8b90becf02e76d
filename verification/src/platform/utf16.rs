//! UTF-16 text as the Win32 wide-character APIs take it.
use vstd::prelude::*;
use vstd::string::StrSliceExecFns;

verus! {

/// The UTF-16 code units of one character: itself below U+10000, otherwise a
/// high and a low surrogate.
pub open spec fn utf16_units(c: char) -> Seq<u16> {
    let v = c as u32 as int;
    if v < 0x10000 {
        seq![v as u16]
    } else {
        let w = v - 0x10000;
        seq![(0xD800 + w / 0x400) as u16, (0xDC00 + w % 0x400) as u16]
    }
}

/// The UTF-16 encoding of a string.
pub open spec fn utf16(s: Seq<char>) -> Seq<u16>
    decreases s.len(),
{
    if s.len() == 0 {
        Seq::<u16>::empty()
    } else {
        utf16(s.drop_last()) + utf16_units(s.last())
    }
}

/// `value` as a NUL-terminated UTF-16 string.
pub fn windows_string(value: &str) -> (units: Vec<u16>)
    ensures
        units@ == utf16(value@).push(0u16),
{
    let mut units: Vec<u16> = Vec::new();
    let n = value.unicode_len();
    let mut i: usize = 0;
    while i < n
        invariant
            n == value@.len(),
            0 <= i <= n,
            units@ == utf16(value@.take(i as int)),
        decreases n - i,
    {
        let c = value.get_char(i);
        let v = c as u32;
        if v < 0x10000 {
            units.push(v as u16);
        } else {
            let w = v - 0x10000;
            units.push((0xD800 + w / 0x400) as u16);
            units.push((0xDC00 + w % 0x400) as u16);
        }
        proof {
            let t = value@.take(i + 1);
            assert(t.drop_last() =~= value@.take(i as int));
            assert(t.last() == c);
            assert(units@ =~= utf16(t));
        }
        i += 1;
    }
    proof {
        assert(value@.take(n as int) =~= value@);
    }
    units.push(0);
    units
}

/// The wide string ends in exactly one NUL after the text, and ASCII text is
/// carried over one code unit per character.
pub proof fn lemma_windows_string_shape(s: Seq<char>)
    ensures
        utf16(s).push(0u16).last() == 0u16,
        (forall|i: int| 0 <= i < s.len() ==> (#[trigger] s[i] as u32) < 0x80) ==> utf16(s).len()
            == s.len() && forall|i: int|
            0 <= i < s.len() ==> #[trigger] utf16(s)[i] == s[i] as u32 as u16,
    decreases s.len(),
{
    if s.len() > 0 && (forall|i: int| 0 <= i < s.len() ==> (#[trigger] s[i] as u32) < 0x80) {
        let t = s.drop_last();
        assert forall|i: int| 0 <= i < t.len() implies (#[trigger] t[i] as u32) < 0x80 by {
            assert(t[i] == s[i]);
        }
        lemma_windows_string_shape(t);
        assert((s[s.len() - 1] as u32) < 0x80);
        assert forall|i: int| 0 <= i < s.len() implies #[trigger] utf16(s)[i] == s[i] as u32 as u16 by {
            if i < s.len() - 1 {
                assert(t[i] == s[i]);
            }
        }
    }
}

} // verus!
