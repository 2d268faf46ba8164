//! UTF-16 encoding of strings for the native shell, which takes
//! NUL-terminated wide strings and fixed-size tooltip buffers.
use vstd::prelude::*;

verus! {

/// Number of UTF-16 units in the shell's tooltip buffer, terminator included.
pub const TIP_BUFFER_LEN: usize = 128;

/// Most UTF-16 units of tooltip text the buffer holds before its terminator.
pub const TIP_MAX_UNITS: usize = 127;

/// The UTF-16 encoding of one character: one unit inside the basic plane,
/// else a surrogate pair.
pub open spec fn utf16_of_char(c: char) -> Seq<u16> {
    let v = c as u32 as int;
    if v < 0x10000 {
        seq![v as u16]
    } else {
        seq![(0xD800 + (v - 0x10000) / 0x400) as u16, (0xDC00 + (v - 0x10000) % 0x400) as u16]
    }
}

/// The UTF-16 encoding of a character sequence.
pub open spec fn utf16_of(s: Seq<char>) -> Seq<u16>
    decreases s.len(),
{
    if s.len() == 0 {
        seq![]
    } else {
        utf16_of(s.drop_last()) + utf16_of_char(s.last())
    }
}

/// The tooltip text as the shell shows it: its UTF-16 encoding, cut to the
/// units that fit before the buffer's terminator.
pub open spec fn tip_units(tip: Seq<char>) -> Seq<u16> {
    let w = utf16_of(tip);
    if w.len() <= TIP_MAX_UNITS {
        w
    } else {
        w.take(TIP_MAX_UNITS as int)
    }
}

/// The full tooltip buffer: the tooltip's units, then zeros up to its size.
pub open spec fn tip_buffer(tip: Seq<char>) -> Seq<u16> {
    tip_units(tip) + Seq::new((TIP_BUFFER_LEN - tip_units(tip).len()) as nat, |i: int| 0u16)
}

fn push_char_utf16(out: &mut Vec<u16>, c: char)
    ensures
        final(out)@ == old(out)@ + utf16_of_char(c),
{
    let v = c as u32;
    if v < 0x10000 {
        out.push(v as u16);
    } else {
        let w = v - 0x10000;
        out.push((0xD800 + w / 0x400) as u16);
        out.push((0xDC00 + w % 0x400) as u16);
    }
}

/// Encodes a string as UTF-16 followed by a NUL terminator.
pub fn encode_wide(s: &str) -> (r: Vec<u16>)
    ensures
        r@ == utf16_of(s@).push(0u16),
{
    let n = s.unicode_len();
    let mut out: Vec<u16> = Vec::new();
    let mut i: usize = 0;
    while i < n
        invariant
            n == s@.len(),
            i <= n,
            out@ == utf16_of(s@.take(i as int)),
        decreases n - i,
    {
        let c = s.get_char(i);
        push_char_utf16(&mut out, c);
        proof {
            assert(s@.take(i + 1).drop_last() == s@.take(i as int));
        }
        i = i + 1;
    }
    proof {
        assert(s@.take(n as int) == s@);
    }
    out.push(0u16);
    out
}

/// Fills the shell's tooltip buffer: the tooltip's UTF-16 units, cut after
/// `TIP_MAX_UNITS`, then zeros, so the buffer always ends in a terminator.
pub fn tooltip_buffer(tip: &str) -> (r: Vec<u16>)
    ensures
        r@ == tip_buffer(tip@),
        r@.len() == TIP_BUFFER_LEN,
        r@[TIP_MAX_UNITS as int] == 0,
{
    let wide = encode_wide(tip);
    let text_len = wide.len() - 1;
    let keep = if text_len <= TIP_MAX_UNITS {
        text_len
    } else {
        TIP_MAX_UNITS
    };
    let ghost units = tip_units(tip@);
    let ghost full = tip_buffer(tip@);
    assert(keep == units.len());
    assert(full.len() == TIP_BUFFER_LEN);
    assert forall|j: int| 0 <= j < keep implies full[j] == wide@[j] by {
        assert(units[j] == utf16_of(tip@)[j]);
    }
    let mut buf: Vec<u16> = Vec::with_capacity(TIP_BUFFER_LEN);
    let mut i: usize = 0;
    while i < TIP_BUFFER_LEN
        invariant
            keep == units.len() <= TIP_MAX_UNITS,
            keep < wide@.len(),
            full == tip_buffer(tip@),
            full.len() == TIP_BUFFER_LEN,
            forall|j: int| 0 <= j < keep ==> full[j] == wide@[j],
            forall|j: int| keep <= j < TIP_BUFFER_LEN ==> full[j] == 0,
            i <= TIP_BUFFER_LEN,
            buf@.len() == i,
            forall|j: int| 0 <= j < i ==> #[trigger] buf@[j] == tip_buffer(tip@)[j],
        decreases TIP_BUFFER_LEN - i,
    {
        if i < keep {
            buf.push(wide[i]);
        } else {
            buf.push(0u16);
        }
        i = i + 1;
    }
    assert(buf@ == tip_buffer(tip@));
    buf
}

} // verus!
