//! The nine-letter notation of permission bits.

use vstd::prelude::*;

verus! {

/// The bit that letter `i` of the notation stands for: the owner's read bit
/// first, the others' execute bit last.
pub open spec fn mode_mask(i: int) -> u32 {
    if i == 0 {
        0o400
    } else if i == 1 {
        0o200
    } else if i == 2 {
        0o100
    } else if i == 3 {
        0o040
    } else if i == 4 {
        0o020
    } else if i == 5 {
        0o010
    } else if i == 6 {
        0o004
    } else if i == 7 {
        0o002
    } else {
        0o001
    }
}

/// The letter that shows a bit that is set at place `i`: `r`, `w`, `x` in turn.
pub open spec fn mode_letter(i: int) -> char {
    if i % 3 == 0 {
        'r'
    } else if i % 3 == 1 {
        'w'
    } else {
        'x'
    }
}

/// Letter `i` of the notation of `mode`: the letter of the bit where it is set,
/// a dash where it is not.
pub open spec fn mode_char(mode: u32, i: int) -> char {
    if mode & mode_mask(i) != 0 {
        mode_letter(i)
    } else {
        '-'
    }
}

/// The notation of `mode`: nine characters, as in `rwxr-xr--`.
pub open spec fn mode_text(mode: u32) -> Seq<char> {
    Seq::new(9, |i: int| mode_char(mode, i))
}

fn mask(i: u8) -> (m: u32)
    requires
        i < 9,
    ensures
        m == mode_mask(i as int),
{
    match i {
        0 => 0o400,
        1 => 0o200,
        2 => 0o100,
        3 => 0o040,
        4 => 0o020,
        5 => 0o010,
        6 => 0o004,
        7 => 0o002,
        _ => 0o001,
    }
}

fn letter(i: u8) -> (c: char)
    requires
        i < 9,
    ensures
        c == mode_letter(i as int),
{
    match i % 3 {
        0 => 'r',
        1 => 'w',
        _ => 'x',
    }
}

/// Appends the notation of `mode` to `s`.
pub fn push_mode(s: &mut String, mode: u32)
    ensures
        final(s)@ == old(s)@ + mode_text(mode),
{
    let mut i: u8 = 0;
    while i < 9
        invariant
            i <= 9,
            s@ == old(s)@ + mode_text(mode).subrange(0, i as int),
        decreases 9 - i,
    {
        let c: char = if mode & mask(i) != 0 {
            letter(i)
        } else {
            '-'
        };
        s.push(c);
        i += 1;
    }
}

} // verus!
