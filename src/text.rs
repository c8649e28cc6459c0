use vstd::prelude::*;

verus! {

/// Four spaces for each level of indentation.
pub open spec fn indent_text(level: nat) -> Seq<char>
    decreases level,
{
    if level == 0 {
        Seq::empty()
    } else {
        indent_text((level - 1) as nat) + "    "@
    }
}

/// The decimal digit `d` (below ten) as a one-character sequence.
pub open spec fn digit_text(d: nat) -> Seq<char> {
    "0123456789"@.subrange(d as int, d as int + 1)
}

/// Decimal notation of a natural number, most significant digit first.
pub open spec fn nat_text(n: nat) -> Seq<char>
    decreases n,
{
    if n < 10 {
        digit_text(n)
    } else {
        nat_text(n / 10) + digit_text(n % 10)
    }
}

/// Decimal notation of an integer, with a leading minus sign when negative.
pub open spec fn int_text(i: int) -> Seq<char> {
    if i < 0 {
        "-"@ + nat_text((-i) as nat)
    } else {
        nat_text(i as nat)
    }
}

/// Relies on String::push: the character is appended at the end.
#[verifier::external_body]
pub(crate) fn push_char(s: &mut String, c: char)
    ensures
        final(s)@ == old(s)@.push(c),
{
    s.push(c)
}

/// Indentation of `level` levels.
pub fn indent(level: usize) -> (r: String)
    ensures
        r@ == indent_text(level as nat),
{
    let mut s = String::new();
    let mut i: usize = 0;
    while i < level
        invariant
            i <= level,
            s@ == indent_text(i as nat),
        decreases level - i,
    {
        s.append("    ");
        i = i + 1;
    }
    s
}

fn digit(d: u64) -> (r: &'static str)
    requires
        d < 10,
    ensures
        r@ == digit_text(d as nat),
{
    let digits = "0123456789";
    proof {
        reveal_strlit("0123456789");
    }
    digits.substring_char(d as usize, (d + 1) as usize)
}

/// Decimal notation of an unsigned number.
pub fn nat_decimal(n: u64) -> (r: String)
    ensures
        r@ == nat_text(n as nat),
    decreases n,
{
    if n < 10 {
        String::from_str(digit(n))
    } else {
        let mut s = nat_decimal(n / 10);
        s.append(digit(n % 10));
        s
    }
}

/// Decimal notation of a signed number.
pub fn int_decimal(v: i64) -> (r: String)
    ensures
        r@ == int_text(v as int),
{
    if v < 0 {
        let magnitude: u64 = (-(v as i128)) as u64;
        let mut s = String::from_str("-");
        let digits = nat_decimal(magnitude);
        s.append(digits.as_str());
        s
    } else {
        nat_decimal(v as u64)
    }
}

} // verus!

verus! {

/// The indentation level one deeper than `level`; it stays put at the
/// largest level a `usize` can count.
pub open spec fn deeper_level(level: nat) -> nat {
    if level < usize::MAX {
        level + 1
    } else {
        level
    }
}

/// One indentation level deeper than `level`.
pub fn deeper(level: usize) -> (r: usize)
    ensures
        r as nat == deeper_level(level as nat),
{
    if level < usize::MAX {
        level + 1
    } else {
        level
    }
}

} // verus!
