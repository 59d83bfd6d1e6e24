//! Small helpers on addresses.

use vstd::prelude::*;

verus! {

/// `value` rounded up to a multiple of `align`.
pub open spec fn spec_align_up(value: int, align: int) -> int {
    (value + align - 1) / align * align
}

/// `value` rounded down to a multiple of `align`.
pub open spec fn spec_align_down(value: int, align: int) -> int {
    value / align * align
}

/// Rounds `value` up to a multiple of `align`.
pub fn align_up(value: usize, align: usize) -> (r: usize)
    requires
        align > 0,
        value + align <= usize::MAX,
    ensures
        r == spec_align_up(value as int, align as int),
        r % align == 0,
        value <= r < value + align,
{
    let q: usize = (value + align - 1) / align;
    proof {
        lemma_align(value as int + align as int - 1, align as int);
    }
    q * align
}

/// Rounds `value` down to a multiple of `align`.
pub fn align_down(value: usize, align: usize) -> (r: usize)
    requires
        align > 0,
    ensures
        r == spec_align_down(value as int, align as int),
        r % align == 0,
        r <= value < r + align,
{
    let q: usize = value / align;
    proof {
        lemma_align(value as int, align as int);
    }
    q * align
}

/// An address in the memory of a task.
#[derive(Debug, Clone, Copy, PartialEq, Eq, Structural)]
pub struct UserBuffer {
    /// The address.
    pub addr: usize,
}

impl UserBuffer {
    /// The buffer at an address.
    pub fn from(value: usize) -> (r: UserBuffer)
        ensures
            r.addr == value,
    {
        UserBuffer { addr: value }
    }

    /// The address of the buffer.
    pub fn addr(&self) -> (r: usize)
        ensures
            r == self.addr,
    {
        self.addr
    }
}

/// The multiple of `b` at or below `a` is a multiple of `b` and less than `b` below `a`.
pub proof fn lemma_align(a: int, b: int)
    requires
        a >= 0,
        b > 0,
    ensures
        0 <= a / b * b <= a,
        a < a / b * b + b,
        (a / b * b) % b == 0,
{
    vstd::arithmetic::div_mod::lemma_fundamental_div_mod(a, b);
    vstd::arithmetic::div_mod::lemma_mod_multiples_basic(a / b, b);
    vstd::arithmetic::div_mod::lemma_div_pos_is_pos(a, b);
    assert(a / b * b == b * (a / b)) by (nonlinear_arith);
    assert(0 <= a / b * b) by (nonlinear_arith)
        requires
            0 <= a / b,
            b > 0,
    ;
}

} // verus!
