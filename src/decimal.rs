use vstd::prelude::*;

verus! {

/// The character of a decimal digit.
pub open spec fn digit_char(d: nat) -> char {
    if d == 0 {
        '0'
    } else if d == 1 {
        '1'
    } else if d == 2 {
        '2'
    } else if d == 3 {
        '3'
    } else if d == 4 {
        '4'
    } else if d == 5 {
        '5'
    } else if d == 6 {
        '6'
    } else if d == 7 {
        '7'
    } else if d == 8 {
        '8'
    } else {
        '9'
    }
}

/// The decimal notation of a natural number, without leading zeros.
pub open spec fn decimal_text(v: nat) -> Seq<char>
    decreases v,
{
    if v < 10 {
        seq![digit_char(v)]
    } else {
        decimal_text(v / 10).push(digit_char(v % 10))
    }
}

/// The last `k` decimal digits of `f`, padded with leading zeros.
pub open spec fn padded_digits(f: nat, k: nat) -> Seq<char>
    decreases k,
{
    if k == 0 {
        seq![]
    } else {
        padded_digits(f / 10, (k - 1) as nat).push(digit_char(f % 10))
    }
}

/// The `k` fractional digits of `f`, with trailing zeros dropped.
pub open spec fn trimmed_fraction(f: nat, k: nat) -> Seq<char>
    decreases k,
{
    if f == 0 || k == 0 {
        seq![]
    } else if f % 10 == 0 {
        trimmed_fraction(f / 10, (k - 1) as nat)
    } else {
        padded_digits(f, k)
    }
}

/// Ten thousandths in one: the resolution of the fixed-point numbers written out.
pub const FIXED_SCALE: u64 = 10000;

/// The shortest decimal notation of `v / 10000`: the integer part, then, where the
/// fraction is not zero, a point and the fraction's digits without trailing zeros.
pub open spec fn fixed_text(v: nat) -> Seq<char> {
    let frac = v % (FIXED_SCALE as nat);
    decimal_text(v / (FIXED_SCALE as nat)) + if frac == 0 {
        Seq::<char>::empty()
    } else {
        seq!['.'] + trimmed_fraction(frac, 4)
    }
}

fn digit_str(d: u64) -> (r: &'static str)
    requires
        d < 10,
    ensures
        r@ == seq![digit_char(d as nat)],
{
    proof {
        reveal_strlit("0");
        reveal_strlit("1");
        reveal_strlit("2");
        reveal_strlit("3");
        reveal_strlit("4");
        reveal_strlit("5");
        reveal_strlit("6");
        reveal_strlit("7");
        reveal_strlit("8");
        reveal_strlit("9");
    }
    match d {
        0 => "0",
        1 => "1",
        2 => "2",
        3 => "3",
        4 => "4",
        5 => "5",
        6 => "6",
        7 => "7",
        8 => "8",
        _ => "9",
    }
}

/// Appends the decimal notation of `v` to `out`.
pub fn push_decimal(out: &mut String, v: u64)
    ensures
        final(out)@ == old(out)@ + decimal_text(v as nat),
    decreases v,
{
    if v < 10 {
        out.append(digit_str(v));
    } else {
        push_decimal(out, v / 10);
        out.append(digit_str(v % 10));
        assert(decimal_text(v as nat) == decimal_text((v / 10) as nat).push(
            digit_char((v % 10) as nat),
        ));
    }
}

fn push_padded_digits(out: &mut String, f: u64, k: u64)
    ensures
        final(out)@ == old(out)@ + padded_digits(f as nat, k as nat),
    decreases k,
{
    if k > 0 {
        push_padded_digits(out, f / 10, k - 1);
        out.append(digit_str(f % 10));
    }
}

fn push_trimmed_fraction(out: &mut String, f: u64, k: u64)
    ensures
        final(out)@ == old(out)@ + trimmed_fraction(f as nat, k as nat),
    decreases k,
{
    if f == 0 || k == 0 {
    } else if f % 10 == 0 {
        push_trimmed_fraction(out, f / 10, k - 1);
    } else {
        push_padded_digits(out, f, k);
    }
}

/// Appends the fixed-point number `v / 10000` to `out`, in its shortest decimal notation.
pub fn push_fixed(out: &mut String, v: u64)
    ensures
        final(out)@ == old(out)@ + fixed_text(v as nat),
{
    let ghost start = out@;
    push_decimal(out, v / FIXED_SCALE);
    let frac = v % FIXED_SCALE;
    if frac != 0 {
        proof {
            reveal_strlit(".");
        }
        out.append(".");
        push_trimmed_fraction(out, frac, 4);
    }
    assert(out@ =~= start + fixed_text(v as nat));
}

/// The notation of a quantity counted in thousandths (a length, or a fraction of a turn).
pub open spec fn thousandths_text(v: nat) -> Seq<char> {
    fixed_text(v * 10)
}

/// The notation of a quantity counted in half-thousandths (bounding radii and the
/// coordinates derived from them, so that half a stroke width stays exact).
pub open spec fn half_thousandths_text(v: nat) -> Seq<char> {
    fixed_text(v * 5)
}

/// Appends a quantity counted in thousandths to `out`.
pub fn push_thousandths(out: &mut String, v: u32)
    ensures
        final(out)@ == old(out)@ + thousandths_text(v as nat),
{
    push_fixed(out, v as u64 * 10);
}

/// Appends a quantity counted in half-thousandths to `out`.
pub fn push_half_thousandths(out: &mut String, v: u64)
    requires
        v <= u64::MAX / 5,
    ensures
        final(out)@ == old(out)@ + half_thousandths_text(v as nat),
{
    push_fixed(out, v * 5);
}

} // verus!
