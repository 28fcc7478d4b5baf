//! Integer type specifications: value ranges and bit-level encoding.
//!
//! Integer values are held as `i128`.  Every width that the encoder accepts
//! (at most 64 valued bits) has its whole range inside `i128`.

use vstd::arithmetic::power2::*;
use vstd::prelude::*;

use crate::types::contains::Contains;

verus! {

/// Layout of an integer type.
#[derive(Clone, Copy, PartialEq, Eq, Structural, Hash, Debug)]
pub struct IntSpec {
    /// Count of stored bits (valued and ignored).
    pub store_width: u8,
    /// Count of valued bits (at most the stored bits).
    pub value_width: u8,
    /// Distance of the value's least significant bit from that of the storage.
    pub value_scale: u8,
    /// Whether values are signed (two's complement) or unsigned.
    pub signed: bool,
}

/// The number of bits of an encoded value.
pub const ENCODED_BITS: u8 = 64;

impl IntSpec {
    /// The least value of the type.
    pub open spec fn spec_min_value(self) -> int {
        if self.signed {
            -pow2((self.value_width - 1) as nat)
        } else {
            0
        }
    }

    /// The greatest value of the type.
    pub open spec fn spec_max_value(self) -> int {
        if self.signed {
            pow2((self.value_width - 1) as nat) - 1
        } else {
            pow2(self.value_width as nat) - 1
        }
    }

    /// Whether `value` lies in the type's range.
    pub open spec fn holds(self, value: int) -> bool {
        self.spec_min_value() <= value <= self.spec_max_value()
    }

    /// The bits that encode `value`: the value modulo 2^value_width,
    /// shifted left by the value scale, within a 64-bit word.
    pub open spec fn spec_encode(self, value: int) -> int {
        if self.value_scale >= ENCODED_BITS {
            0
        } else {
            ((value % pow2(self.value_width as nat) as int) * pow2(self.value_scale as nat))
                % pow2(ENCODED_BITS as nat) as int
        }
    }

    /// Whether the type has a range: a signed type needs a sign bit.
    pub open spec fn bounds_ok(self) -> bool {
        self.signed ==> self.value_width >= 1
    }

    /// Whether the range of the type can be computed.
    pub open spec fn range_ok(self) -> bool {
        if self.signed {
            1 <= self.value_width <= 127
        } else {
            self.value_width <= 126
        }
    }

    /// Returns the least value of the type.
    pub fn min_value(self) -> (r: i128)
        requires
            self.range_ok(),
        ensures
            r == self.spec_min_value(),
    {
        if self.signed {
            0 - bit(self.value_width - 1)
        } else {
            0
        }
    }

    /// Returns the greatest value of the type.
    pub fn max_value(self) -> (r: i128)
        requires
            self.range_ok(),
        ensures
            r == self.spec_max_value(),
    {
        if self.signed {
            bit(self.value_width - 1) - 1
        } else {
            bit(self.value_width) - 1
        }
    }

    /// Encodes `value` as stored bits: `Err` when the value is outside the
    /// range of the type, else the value's low `value_width` bits shifted
    /// left by `value_scale` (bits beyond 64 are lost; a scale of 64 or more
    /// gives 0).
    pub fn encode(self, value: &i128) -> (r: Result<u64, ()>)
        requires
            self.range_ok(),
            self.value_width <= ENCODED_BITS,
        ensures
            r is Err <==> !self.holds(*value as int),
            r matches Ok(bits) ==> bits == self.spec_encode(*value as int),
    {
        if self.contains(value) != Some(true) {
            return Err(());
        }
        let value: i128 = *value;
        let width: u8 = self.value_width;
        let scale: u8 = self.value_scale;
        proof {
            lemma_pow2_pos(width as nat);
            lemma2_to64();
            lemma2_to64_rest();
            if width < 64 {
                lemma_pow2_strictly_increases(width as nat, 64);
            }
            if self.signed {
                lemma_pow2_unfold(width as nat);
            }
        }
        let modulus: i128 = bit(width);
        // The value modulo 2^value_width.
        let low: i128 = if value < 0 {
            value + modulus
        } else {
            value
        };
        assert(low == (value as int) % (pow2(width as nat) as int)) by {
            if value < 0 {
                vstd::arithmetic::div_mod::lemma_fundamental_div_mod_converse(
                    value as int,
                    pow2(width as nat) as int,
                    -1,
                    low as int,
                );
            } else {
                vstd::arithmetic::div_mod::lemma_small_mod(
                    value as nat,
                    pow2(width as nat),
                );
            }
        }
        if scale >= ENCODED_BITS {
            return Ok(0);
        }
        let factor: i128 = bit(scale);
        proof {
            lemma_pow2_strictly_increases(scale as nat, 64);
            assert(0 <= low < 0x1_0000_0000_0000_0000);
            assert(0 < factor < 0x1_0000_0000_0000_0000);
            assert(low * factor < 0x1_0000_0000_0000_0000 * 0x1_0000_0000_0000_0000)
                by (nonlinear_arith)
                requires
                    0 <= low < 0x1_0000_0000_0000_0000,
                    0 < factor < 0x1_0000_0000_0000_0000,
            ;
            assert(0 <= low * factor) by (nonlinear_arith)
                requires
                    0 <= low,
                    0 < factor,
            ;
        }
        let wide: u128 = (low as u128) * (factor as u128);
        let bits: u128 = wide % 0x1_0000_0000_0000_0000u128;
        Ok(bits as u64)
    }
}

impl Contains<i128> for IntSpec {
    open spec fn spec_contains(&self, item: i128) -> Option<bool> {
        Some(self.holds(item as int))
    }

    open spec fn can_contain(&self) -> bool {
        self.bounds_ok()
    }

    /// Whether `value` lies in the type's range; always known.
    fn contains(&self, value: &i128) -> (r: Option<bool>) {
        Some(self.holds_value(*value))
    }
}

impl IntSpec {
    /// Returns whether `value` lies in the type's range.
    pub fn holds_value(&self, value: i128) -> (r: bool)
        requires
            self.bounds_ok(),
        ensures
            r == self.holds(value as int),
    {
        let w: u8 = self.value_width;
        if self.signed {
            if w >= 128 {
                proof {
                    lemma2_to64();
                    lemma2_to64_rest();
                    lemma_pow2_adds(64, 63);
                    if w > 128 {
                        vstd::arithmetic::power2::lemma_pow2_strictly_increases(127, (w - 1) as nat);
                    }
                }
                true
            } else {
                let m: i128 = bit(w - 1);
                0 - m <= value && value <= m - 1
            }
        } else {
            if w >= 127 {
                proof {
                    lemma2_to64();
                    lemma2_to64_rest();
                    lemma_pow2_adds(64, 63);
                    if w > 127 {
                        vstd::arithmetic::power2::lemma_pow2_strictly_increases(127, w as nat);
                    }
                }
                value >= 0
            } else {
                let m: i128 = bit(w);
                0 <= value && value <= m - 1
            }
        }
    }
}

/// Returns 2 to the power `n`.
pub fn bit(n: u8) -> (r: i128)
    requires
        n < 127,
    ensures
        r == pow2(n as nat),
{
    let mut r: i128 = 1;
    let mut i: u8 = 0;
    proof {
        lemma2_to64();
    }
    while i < n
        invariant
            i <= n < 127,
            r == pow2(i as nat),
        decreases n - i,
    {
        proof {
            lemma_pow2_unfold((i + 1) as nat);
            if i < 125 {
                lemma_pow2_strictly_increases(i as nat, 125);
            }
            lemma_pow2_adds(64, 61);
            lemma2_to64_rest();
        }
        r = r * 2;
        i = i + 1;
    }
    r
}

} // verus!
