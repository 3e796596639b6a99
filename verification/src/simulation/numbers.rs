use vstd::prelude::*;

verus! {

/// `x` brought into the range of `u32`.
pub open spec fn cap_u32(x: int) -> u32 {
    if x < 0 {
        0
    } else if x > u32::MAX {
        u32::MAX
    } else {
        x as u32
    }
}

/// `x` brought into the range of `i32`.
pub open spec fn cap_i32(x: int) -> i32 {
    if x < i32::MIN {
        i32::MIN
    } else if x > i32::MAX {
        i32::MAX
    } else {
        x as i32
    }
}

/// `x` brought into the range of `u8`.
pub open spec fn cap_u8(x: int) -> u8 {
    if x < 0 {
        0
    } else if x > u8::MAX {
        u8::MAX
    } else {
        x as u8
    }
}

/// `percent` hundredths of `amount`, rounded to the nearest whole number,
/// halves upwards.
pub open spec fn round_percent(amount: int, percent: int) -> int {
    (amount * percent + 50) / 100
}

/// `percent` hundredths of `amount`, rounded down.
pub open spec fn floor_percent(amount: int, percent: int) -> int {
    (amount * percent) / 100
}

/// A product of bounded factors is bounded by the product of the bounds.
pub proof fn lemma_product_bound(a: int, b: int, ma: int, mb: int)
    requires
        0 <= a <= ma,
        0 <= b <= mb,
    ensures
        0 <= a * b <= ma * mb,
{
    assert(0 <= a * b <= ma * mb) by (nonlinear_arith)
        requires
            0 <= a <= ma,
            0 <= b <= mb,
    ;
}

/// A product of bounded factors is below whatever the product of the bounds
/// is below.
pub proof fn lemma_product_below(a: int, b: int, ma: int, mb: int, m: int)
    requires
        0 <= a <= ma,
        0 <= b <= mb,
        ma * mb <= m,
    ensures
        0 <= a * b <= m,
{
    lemma_product_bound(a, b, ma, mb);
}

/// `percent` hundredths of `amount`, rounded to the nearest.
pub fn rounded_percent(amount: u32, percent: u32) -> (r: u64)
    ensures
        r == round_percent(amount as int, percent as int),
        r <= 0x0400_0000_0000_0000,
{
    proof {
        assert(0xffff_ffffint * 0xffff_ffffint <= 0xffff_fffe_0000_0001int) by (nonlinear_arith);
        lemma_product_below(
            amount as int,
            percent as int,
            0xffff_ffff,
            0xffff_ffff,
            0xffff_fffe_0000_0001,
        );
    }
    let product: u64 = (amount as u64) * (percent as u64);
    (product + 50) / 100
}

/// `percent` hundredths of `amount`, rounded down.
pub fn floored_percent(amount: u32, percent: u32) -> (r: u64)
    ensures
        r == floor_percent(amount as int, percent as int),
        r <= 0x0400_0000_0000_0000,
{
    proof {
        assert(0xffff_ffffint * 0xffff_ffffint <= 0xffff_fffe_0000_0001int) by (nonlinear_arith);
        lemma_product_below(
            amount as int,
            percent as int,
            0xffff_ffff,
            0xffff_ffff,
            0xffff_fffe_0000_0001,
        );
    }
    let product: u64 = (amount as u64) * (percent as u64);
    product / 100
}

/// `base + gain`, stopping at the largest `u32`.
pub fn add_gain(base: u32, gain: u64) -> (r: u32)
    ensures
        r == cap_u32(base + gain),
{
    if gain >= (u32::MAX - base) as u64 {
        u32::MAX
    } else {
        base + (gain as u32)
    }
}

/// `durability - cost`, stopping at the smallest `i32`.
pub fn pay_durability(durability: i32, cost: u64) -> (r: i32)
    ensures
        r == cap_i32(durability - cost),
{
    let rest: i128 = (durability as i128) - (cost as i128);
    if rest < i32::MIN as i128 {
        i32::MIN
    } else {
        rest as i32
    }
}

/// `durability + grant`, stopping at `ceiling`.
pub open spec fn restored(durability: i32, grant: u32, ceiling: i32) -> i32 {
    if durability + grant > ceiling {
        ceiling
    } else {
        (durability + grant) as i32
    }
}

/// `durability + grant`, stopping at `ceiling`.
pub fn restore_durability(durability: i32, grant: u32, ceiling: i32) -> (r: i32)
    ensures
        r == restored(durability, grant, ceiling),
{
    let sum: i64 = (durability as i64) + (grant as i64);
    if sum > ceiling as i64 {
        ceiling
    } else {
        sum as i32
    }
}

} // verus!
