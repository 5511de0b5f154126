//! Two-dimensional sizes of images and dispatch grids.

use vstd::prelude::*;

verus! {

/// Width and height of a 2D image, in pixels, or of a dispatch grid, in
/// workgroups.
#[derive(Clone, Copy, Debug, PartialEq, Eq, Structural)]
pub struct Extent {
    pub width: u32,
    pub height: u32,
}

impl Extent {
    /// An extent with both axes at least 1: the smallest size at which a GPU
    /// image can exist.
    pub open spec fn spec_clamped_to_min_one(self) -> Extent {
        Extent {
            width: if self.width >= 1 {
                self.width
            } else {
                1u32
            },
            height: if self.height >= 1 {
                self.height
            } else {
                1u32
            },
        }
    }

    pub fn new(width: u32, height: u32) -> (r: Extent)
        ensures
            r == (Extent { width, height }),
    {
        Extent { width, height }
    }

    /// Raise each axis to at least 1, so that a requested size of zero pixels
    /// still yields a creatable image.
    pub fn clamped_to_min_one(self) -> (r: Extent)
        ensures
            r == self.spec_clamped_to_min_one(),
    {
        Extent {
            width: if self.width >= 1 {
                self.width
            } else {
                1
            },
            height: if self.height >= 1 {
                self.height
            } else {
                1
            },
        }
    }
}

/// Per-axis count of workgroups needed to cover `total_size` with groups of
/// `workgroup_size`: the quotient rounded up.
pub open spec fn spec_workgroups_2d(total_size: Extent, workgroup_size: Extent) -> Extent
    recommends
        workgroup_size.width >= 1,
        workgroup_size.height >= 1,
{
    Extent {
        width: (((total_size.width + workgroup_size.width - 1) as int / workgroup_size.width as int)
            as u32),
        height: (((total_size.height + workgroup_size.height - 1) as int
            / workgroup_size.height as int) as u32),
    }
}

/// How many workgroups a 2D dispatch needs per axis to cover `total_size`:
/// the dimension divided by the workgroup size, rounded up.
pub fn workgroups_2d(total_size: Extent, workgroup_size: Extent) -> (r: Extent)
    requires
        workgroup_size.width >= 1,
        workgroup_size.height >= 1,
    ensures
        r == spec_workgroups_2d(total_size, workgroup_size),
{
    let width = div_round_up(total_size.width, workgroup_size.width);
    let height = div_round_up(total_size.height, workgroup_size.height);
    Extent { width, height }
}

/// One axis of [`workgroups_2d`]: `n / d` rounded up, without overflowing
/// the 32-bit intermediate that `(n + d - 1) / d` would use.
fn div_round_up(n: u32, d: u32) -> (r: u32)
    requires
        d >= 1,
    ensures
        r == (n + d - 1) as int / d as int,
{
    let q = n / d;
    if n % d != 0 {
        proof {
            lemma_div_round_up(n as int, d as int);
            assert(d != 1) by {
                vstd::arithmetic::div_mod::lemma_fundamental_div_mod(n as int, 1);
            }
            assert(n != 0) by {
                vstd::arithmetic::div_mod::lemma_small_mod(0nat, d as nat);
            }
            vstd::arithmetic::div_mod::lemma_div_is_strictly_smaller(n as int, d as int);
        }
        q + 1
    } else {
        proof {
            lemma_div_round_up(n as int, d as int);
        }
        q
    }
}

/// Rounding a quotient up by adding `d - 1` to the dividend agrees with
/// adding 1 to the truncated quotient exactly when the division has a
/// remainder.
proof fn lemma_div_round_up(n: int, d: int)
    requires
        n >= 0,
        d >= 1,
    ensures
        (n + d - 1) / d == n / d + if n % d != 0 {
            1int
        } else {
            0int
        },
{
    let q = n / d;
    assert(n == d * q + n % d) by {
        vstd::arithmetic::div_mod::lemma_fundamental_div_mod(n, d);
    }
    if n % d != 0 {
        assert(d * (q + 1) == d * q + d) by {
            vstd::arithmetic::mul::lemma_mul_is_distributive_add(d, q, 1);
        }
        assert(n + d - 1 == d * (q + 1) + (n % d - 1));
        assert((d * (q + 1) + (n % d - 1)) / d == q + 1) by {
            vstd::arithmetic::div_mod::lemma_div_multiples_vanish_fancy(q + 1, n % d - 1, d);
        }
    } else {
        assert(n + d - 1 == d * q + (d - 1));
        assert((d * q + (d - 1)) / d == q) by {
            vstd::arithmetic::div_mod::lemma_div_multiples_vanish_fancy(q, d - 1, d);
        }
    }
}

} // verus!
