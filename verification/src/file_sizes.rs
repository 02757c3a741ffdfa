//! Byte counts, the share of one in another, and their short notation.

use vstd::prelude::*;
use crate::text::{decimal, decimal_len, lemma_decimal_len, push_decimal};

verus! {

/// A number of bytes.
#[derive(Clone, Copy, Debug, PartialEq, Eq, Structural)]
pub struct Size(pub u64);

/// A share of a whole as an exact fraction, `num / den`, with `den > 0`.
#[derive(Clone, Copy, Debug, PartialEq, Eq, Structural)]
pub struct Ratio {
    pub num: u64,
    pub den: u64,
}

/// The largest scaled value that is written without going to the next unit.
pub const UNIT_THRESHOLD: u64 = 9000;

/// The number of units above the byte: K, M, G, T, P, E, Z, Y.
pub const UNIT_COUNT: u8 = 8;

/// The share of `size` in `total`: zero where `total` is zero.
pub open spec fn share(size: nat, total: nat) -> (nat, nat) {
    if total == 0 {
        (0, 1)
    } else {
        (size, total)
    }
}

/// The number of cells, out of `width`, that the fraction `num / den` fills:
/// `floor(num * width / den)`, and never more than `width`.
pub open spec fn filled_cells(num: nat, den: nat, width: nat) -> nat {
    let cells = (num * width) / den;
    if cells > width {
        width
    } else {
        cells
    }
}

/// How many times `v` is divided by 1024 before it is written, starting from
/// unit `unit`.
pub open spec fn unit_steps(v: nat, unit: nat) -> nat
    decreases v,
{
    if v >= UNIT_THRESHOLD && unit < UNIT_COUNT {
        1 + unit_steps(v / 1024, unit + 1)
    } else {
        0
    }
}

/// `v` divided `steps` times by 1024, rounding down each time.
pub open spec fn scaled(v: nat, steps: nat) -> nat
    decreases steps,
{
    if steps == 0 {
        v
    } else {
        scaled(v / 1024, (steps - 1) as nat)
    }
}

/// The letter of the unit reached after `steps` divisions by 1024; none for bytes.
pub open spec fn unit_suffix(steps: nat) -> Seq<char> {
    if steps == 0 {
        Seq::empty()
    } else if steps == 1 {
        seq!['K']
    } else if steps == 2 {
        seq!['M']
    } else if steps == 3 {
        seq!['G']
    } else if steps == 4 {
        seq!['T']
    } else if steps == 5 {
        seq!['P']
    } else if steps == 6 {
        seq!['E']
    } else if steps == 7 {
        seq!['Z']
    } else {
        seq!['Y']
    }
}

/// The short notation of a byte count: the count divided by 1024 until it is
/// under 9000, in decimal, followed by the letter of the unit reached.
pub open spec fn size_text(v: nat) -> Seq<char> {
    let steps = unit_steps(v, 0);
    decimal(scaled(v, steps)) + unit_suffix(steps)
}

impl View for Size {
    type V = nat;

    open spec fn view(&self) -> nat {
        self.0 as nat
    }
}

impl Ratio {
    /// The fraction is well formed: its denominator is not zero.
    pub open spec fn wf(&self) -> bool {
        self.den > 0
    }

    /// The fraction lies between 0 and 1, both included.
    pub open spec fn is_part(&self) -> bool {
        self.wf() && self.num <= self.den
    }

    /// The number of cells of a bar of `width` cells that the fraction fills.
    pub fn cells(&self, width: u8) -> (n: u8)
        requires
            self.wf(),
        ensures
            n == filled_cells(self.num as nat, self.den as nat, width as nat),
            n <= width,
    {
        assert(self.num * width <= u64::MAX * 255) by (nonlinear_arith)
            requires
                self.num <= u64::MAX,
                width <= 255,
        ;
        let product: u128 = (self.num as u128) * (width as u128);
        let cells: u128 = product / (self.den as u128);
        if cells > width as u128 {
            width
        } else {
            cells as u8
        }
    }
}

impl Size {
    /// The share of this size in `total`, as an exact fraction. It is zero
    /// where `total` is zero.
    pub fn part_of(self, total: Size) -> (part: Ratio)
        ensures
            part.wf(),
            (part.num as nat, part.den as nat) == share(self@, total@),
            total@ == 0 ==> part.num == 0,
            self@ <= total@ ==> part.is_part(),
    {
        if total.0 == 0 {
            Ratio { num: 0, den: 1 }
        } else {
            Ratio { num: self.0, den: total.0 }
        }
    }

    /// The short notation of the size, at most five characters long.
    pub fn to_text(self) -> (text: String)
        ensures
            text@ == size_text(self@),
            text@.len() <= 5,
    {
        let mut v: u64 = self.0;
        let mut steps: u8 = 0;
        while v >= UNIT_THRESHOLD && steps < UNIT_COUNT
            invariant
                steps <= UNIT_COUNT,
                unit_steps(self@, 0) == steps + unit_steps(v as nat, steps as nat),
                scaled(self@, steps as nat) == v,
            decreases v,
        {
            proof {
                lemma_scaled_step(self@, steps as nat);
            }
            v = v / 1024;
            steps = steps + 1;
        }
        proof {
            lemma_five_chars(self@);
        }
        let mut text = String::new();
        push_decimal(&mut text, v);
        match steps {
            0 => {},
            1 => text.push('K'),
            2 => text.push('M'),
            3 => text.push('G'),
            4 => text.push('T'),
            5 => text.push('P'),
            6 => text.push('E'),
            7 => text.push('Z'),
            _ => text.push('Y'),
        }
        text
    }
}

/// One more division by 1024 is a division of the value scaled so far.
pub proof fn lemma_scaled_step(v: nat, steps: nat)
    ensures
        scaled(v, steps + 1) == scaled(v, steps) / 1024,
    decreases steps,
{
    reveal_with_fuel(scaled, 2);
    if steps > 0 {
        lemma_scaled_step(v / 1024, (steps - 1) as nat);
    }
}

/// A value that fits in 64 bits is brought under 9000 in at most six steps.
pub proof fn lemma_steps_bound(v: nat)
    requires
        v <= u64::MAX,
    ensures
        unit_steps(v, 0) <= 6,
        scaled(v, unit_steps(v, 0)) < UNIT_THRESHOLD,
{
    reveal_with_fuel(unit_steps, 8);
    reveal_with_fuel(scaled, 8);
}

/// The short notation of a 64-bit size has at most five characters.
pub proof fn lemma_five_chars(v: nat)
    requires
        v <= u64::MAX,
    ensures
        size_text(v).len() <= 5,
{
    lemma_steps_bound(v);
    let w = scaled(v, unit_steps(v, 0));
    lemma_decimal_len(w);
    reveal_with_fuel(decimal_len, 5);
}

} // verus!
