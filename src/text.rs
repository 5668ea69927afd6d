use vstd::prelude::*;

verus! {

/// The UTF-16 code units of one character: one unit inside the basic
/// multilingual plane, else a high and a low surrogate.
pub open spec fn utf16_of_char(c: char) -> Seq<u16> {
    let v = c as u32;
    if v < 0x10000 {
        seq![v as u16]
    } else {
        let w = (v - 0x10000) as u32;
        seq![(0xD800 + w / 0x400) as u16, (0xDC00 + w % 0x400) as u16]
    }
}

/// The UTF-16 code units of a character sequence, in order.
pub open spec fn utf16_of(s: Seq<char>) -> Seq<u16>
    decreases s.len(),
{
    if s.len() == 0 {
        Seq::empty()
    } else {
        utf16_of(s.drop_last()) + utf16_of_char(s.last())
    }
}

/// The prompt as the platform wants it: UTF-16 code units followed by a
/// terminating zero.
pub fn caption(message: &str) -> (r: Vec<u16>)
    ensures
        r@ == utf16_of(message@).push(0),
{
    broadcast use vstd::utf8::char_is_scalar, vstd::string::axiom_spec_iter;

    let mut caption: Vec<u16> = Vec::with_capacity(message.len());
    let ghost mut seen: Seq<char> = Seq::empty();
    for c in it: message.chars()
        invariant
            it.seq() == message@,
            seen =~= it.history(),
            caption@ == utf16_of(seen),
    {
        let v: u32 = c as u32;
        if v < 0x10000 {
            caption.push(v as u16);
        } else {
            let w: u32 = v - 0x10000;
            caption.push((0xD800 + w / 0x400) as u16);
            caption.push((0xDC00 + w % 0x400) as u16);
        }
        proof {
            let before = seen;
            seen = seen.push(c);
            assert(seen.drop_last() =~= before);
        }
    }
    assert(seen =~= message@);
    caption.push(0);
    caption
}

} // verus!
