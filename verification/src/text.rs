//! Building the text of table cells: repetition, padding, decimal digits.

use vstd::prelude::*;
use vstd::string::StringExecFns;
use vstd::string::StrSliceExecFns;

verus! {

/// `String::push` appends one character to the end of the string.
pub assume_specification[ String::push ](s: &mut String, ch: char)
    ensures
        final(s)@ == old(s)@.push(ch),
;

/// The value of an optional text.
pub open spec fn optional_text(text: Option<String>) -> Option<Seq<char>> {
    match text {
        Some(t) => Some(t@),
        None => None,
    }
}

/// `n` copies of `c`.
pub open spec fn repeated(c: char, n: nat) -> Seq<char> {
    Seq::new(n, |i: int| c)
}

/// How many characters are missing for `len` to reach `width`.
pub open spec fn missing(len: nat, width: nat) -> nat {
    if len < width {
        (width - len) as nat
    } else {
        0
    }
}

/// `text` followed by as many spaces as it takes to reach `width` characters.
/// A text that is already that wide is left as it is.
pub open spec fn padded_right(text: Seq<char>, width: nat) -> Seq<char> {
    text + repeated(' ', missing(text.len(), width))
}

/// `text` preceded by as many spaces as it takes to reach `width` characters.
/// A text that is already that wide is left as it is.
pub open spec fn padded_left(text: Seq<char>, width: nat) -> Seq<char> {
    repeated(' ', missing(text.len(), width)) + text
}

/// The character that stands for the decimal digit `d`.
pub open spec fn digit_char(d: int) -> char {
    if d == 0 {
        '0'
    } else if d == 1 {
        '1'
    } else if d == 2 {
        '2'
    } else if d == 3 {
        '3'
    } else if d == 4 {
        '4'
    } else if d == 5 {
        '5'
    } else if d == 6 {
        '6'
    } else if d == 7 {
        '7'
    } else if d == 8 {
        '8'
    } else {
        '9'
    }
}

/// The decimal notation of `n`, without sign or leading zeros.
pub open spec fn decimal(n: nat) -> Seq<char>
    decreases n,
{
    if n < 10 {
        seq![digit_char(n as int)]
    } else {
        decimal(n / 10).push(digit_char((n % 10) as int))
    }
}

/// The number of digits of the decimal notation of `n`.
pub open spec fn decimal_len(n: nat) -> nat
    decreases n,
{
    if n < 10 {
        1
    } else {
        decimal_len(n / 10) + 1
    }
}

/// The decimal notation of `n` has `decimal_len(n)` digits.
pub proof fn lemma_decimal_len(n: nat)
    ensures
        decimal(n).len() == decimal_len(n),
    decreases n,
{
    if n >= 10 {
        lemma_decimal_len(n / 10);
    }
}

/// Both paddings give a text of `width` characters, or leave a wider text alone.
pub proof fn lemma_padded_len(text: Seq<char>, width: nat)
    ensures
        padded_right(text, width).len() == if text.len() < width {
            width
        } else {
            text.len()
        },
        padded_left(text, width).len() == padded_right(text, width).len(),
{
}

/// The character that stands for the decimal digit `d`.
pub fn digit(d: u8) -> (c: char)
    requires
        d < 10,
    ensures
        c == digit_char(d as int),
{
    match d {
        0 => '0',
        1 => '1',
        2 => '2',
        3 => '3',
        4 => '4',
        5 => '5',
        6 => '6',
        7 => '7',
        8 => '8',
        _ => '9',
    }
}

/// Appends `n` copies of `c` to `s`.
pub fn push_repeated(s: &mut String, c: char, n: usize)
    ensures
        final(s)@ == old(s)@ + repeated(c, n as nat),
{
    let mut i: usize = 0;
    while i < n
        invariant
            i <= n,
            s@ == old(s)@ + repeated(c, i as nat),
        decreases n - i,
    {
        s.push(c);
        i += 1;
    }
}

/// Appends the decimal notation of `n` to `s`.
pub fn push_decimal(s: &mut String, n: u64)
    ensures
        final(s)@ == old(s)@ + decimal(n as nat),
    decreases n,
{
    if n >= 10 {
        push_decimal(s, n / 10);
    }
    let d: u8 = (n % 10) as u8;
    s.push(digit(d));
}

/// The number of characters of `text`.
pub fn char_count(text: &String) -> (n: usize)
    ensures
        n == text@.len(),
{
    text.as_str().unicode_len()
}

/// Appends `text` to `s`, then spaces up to `width` characters.
pub fn push_padded_right(s: &mut String, text: &String, width: usize)
    ensures
        final(s)@ == old(s)@ + padded_right(text@, width as nat),
{
    let len: usize = char_count(text);
    s.append(text.as_str());
    if len < width {
        push_repeated(s, ' ', width - len);
    }
}

/// Appends spaces up to `width` characters less the length of `text`, then `text`.
pub fn push_padded_left(s: &mut String, text: &String, width: usize)
    ensures
        final(s)@ == old(s)@ + padded_left(text@, width as nat),
{
    let len: usize = char_count(text);
    if len < width {
        push_repeated(s, ' ', width - len);
    }
    s.append(text.as_str());
}

/// Whether two texts are the same.
pub fn same_text(a: &str, b: &str) -> (same: bool)
    ensures
        same == (a@ == b@),
{
    let len: usize = a.unicode_len();
    if len != b.unicode_len() {
        return false;
    }
    let mut i: usize = 0;
    while i < len
        invariant
            i <= len,
            len == a@.len(),
            len == b@.len(),
            forall|j: int| 0 <= j < i ==> a@[j] == b@[j],
        decreases len - i,
    {
        if a.get_char(i) != b.get_char(i) {
            return false;
        }
        i += 1;
    }
    assert(a@ =~= b@);
    true
}

} // verus!
