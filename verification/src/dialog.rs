//! The text of the switcher's message boxes, in the form Windows takes it.
use vstd::prelude::*;

verus! {

/// The UTF-16 code units of a character.
pub open spec fn utf16_units(c: char) -> Seq<u16> {
    let v = c as u32;
    if v < 0x10000 {
        seq![v as u16]
    } else {
        let w = (v - 0x10000) as u32;
        seq![(0xD800 + w / 1024) as u16, (0xDC00 + w % 1024) as u16]
    }
}

/// The UTF-16 encoding of a text (as `str::encode_utf16`).
pub open spec fn encode_utf16(s: Seq<char>) -> Seq<u16>
    decreases s.len(),
{
    if s.len() == 0 {
        Seq::empty()
    } else {
        encode_utf16(s.drop_last()) + utf16_units(s.last())
    }
}

fn char_units(c: char, out: &mut Vec<u16>)
    ensures
        final(out)@ == old(out)@ + utf16_units(c),
{
    let v = c as u32;
    assert(v <= 0x10FFFF) by {
        vstd::utf8::char_is_scalar(c);
    }
    if v < 0x10000 {
        out.push(v as u16);
    } else {
        let w = v - 0x10000;
        out.push((0xD800 + w / 1024) as u16);
        out.push((0xDC00 + w % 1024) as u16);
    }
}

/// A text as a nul-terminated UTF-16 string.
pub fn wide(value: &str) -> (units: Vec<u16>)
    ensures
        units@ == encode_utf16(value@).push(0),
{
    let n = value.unicode_len();
    let mut units: Vec<u16> = Vec::new();
    let mut i: usize = 0;
    while i < n
        invariant
            n == value@.len(),
            i <= n,
            units@ == encode_utf16(value@.take(i as int)),
        decreases n - i,
    {
        char_units(value.get_char(i), &mut units);
        assert(value@.take(i + 1).drop_last() =~= value@.take(i as int));
        i += 1;
    }
    assert(value@.take(n as int) =~= value@);
    units.push(0);
    units
}

/// The question asked before a saved account is removed.
pub fn confirm_delete_message(name: &str) -> (message: String)
    ensures
        message@ == "Remove \""@ + name@
            + "\" from Nani Switch?\n\nThis does not delete the Nani account or its server data."@,
{
    let mut message = "Remove \"".to_owned();
    message.append(name);
    message.append("\" from Nani Switch?\n\nThis does not delete the Nani account or its server data.");
    message
}

} // verus!
