//! General brew calculator utilities.

use vstd::prelude::*;

verus! {

use crate::single::{Bits, lt_bits, sum_bits, diff_bits, prod_bits, quot_bits, add_bits, sub_bits,
    mul_bits, div_bits};

/// Linear interpolation of a quantity: `y_start + k * x_current` with the
/// slope `k = (y_end - y_start) / (x_end - x_start)`, evaluated in single
/// precision. The interval must be ordered, which also rules NaN endpoints
/// out.
pub fn linear_interpolation(
    x_current: Bits,
    x_start: Bits,
    x_end: Bits,
    y_start: Bits,
    y_end: Bits,
) -> (r: Bits)
    requires
        lt_bits(x_start, x_end),
    ensures
        r == sum_bits(
            y_start,
            prod_bits(quot_bits(diff_bits(y_end, y_start), diff_bits(x_end, x_start)), x_current),
        ),
{
    let slope: Bits = div_bits(sub_bits(y_end, y_start), sub_bits(x_end, x_start));
    add_bits(y_start, mul_bits(slope, x_current))
}

} // verus!
