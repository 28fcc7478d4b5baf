//! Type forms: what type checking and code generation need to know of a type.

use vstd::prelude::*;

use crate::types::contains::Contains;
use crate::types::float::FloatSpec;
use crate::types::int_spec::IntSpec;

verus! {

/// Resolved information about a type.
#[derive(Clone, Copy, PartialEq, Eq, Structural, Debug)]
pub struct TypeInfo {
    /// Element form.
    pub form: TypeForm,
    /// If the element is a pointer, the size of an increment or decrement.
    pub step: usize,
    /// Number of elements; 0 means unknown.
    pub count: usize,
}

/// The form of a type.
#[derive(Clone, Copy, PartialEq, Eq, Structural, Debug)]
pub enum TypeForm {
    /// Integers and pointers, with their layout if bounded.
    Inty(Option<IntSpec>),
    /// Floating-point values, with their layout if bounded.
    Floaty(Option<FloatSpec>),
    /// Arrays, unions, structures and functions, with their size if known.
    Opaque(Option<usize>),
}

/// The first of `p`, `2p`, `4p`, ... that is at least `n`.
pub open spec fn least_doubling_at_least(n: nat, p: nat) -> nat
    decreases 2 * n - p,
{
    if p == 0 || p >= n {
        p
    } else {
        least_doubling_at_least(n, 2 * p)
    }
}

/// The least power of two that is at least `n` (1 for 0).
pub open spec fn next_pow2(n: nat) -> nat {
    least_doubling_at_least(n, 1)
}

/// The bytes needed to store `bits` bits, rounded up to a power of two
/// (0 for fewer than 5 bits).
pub open spec fn spec_bits_to_bytes(bits: nat) -> nat {
    next_pow2(bits) / 8
}

impl TypeInfo {
    /// Size of all elements, in bytes.
    pub open spec fn spec_size_bytes(self) -> int {
        self.form.spec_size_bytes() * self.count
    }

    /// Returns the size of all elements, in bytes.
    pub fn size_bytes(&self) -> (r: usize)
        requires
            self.spec_size_bytes() <= usize::MAX,
        ensures
            r == self.spec_size_bytes(),
    {
        let each: usize = self.form.size_bytes();
        each * self.count
    }
}

impl TypeForm {
    /// Whether the form holds single values.
    pub open spec fn spec_is_scalar(self) -> bool {
        self is Inty || self is Floaty
    }

    /// Count of valued bits, if bounded.
    pub open spec fn spec_value_width(self) -> Option<u8> {
        match self {
            TypeForm::Inty(Some(s)) => Some(s.value_width),
            TypeForm::Floaty(Some(s)) => Some(s.value_width),
            _ => None,
        }
    }

    /// Count of stored bits, if bounded.
    pub open spec fn spec_store_width(self) -> Option<u8> {
        match self {
            TypeForm::Inty(Some(s)) => Some(s.store_width),
            TypeForm::Floaty(Some(s)) => Some(s.store_width),
            _ => None,
        }
    }

    /// Size in bytes; 0 when unknown.
    pub open spec fn spec_size_bytes(self) -> nat {
        match self {
            TypeForm::Inty(Some(s)) => spec_bits_to_bytes(s.store_width as nat),
            TypeForm::Floaty(Some(s)) => spec_bits_to_bytes(s.store_width as nat),
            TypeForm::Opaque(Some(size)) => size as nat,
            _ => 0,
        }
    }

    /// Returns whether the form holds single values.
    pub fn is_scalar(&self) -> (r: bool)
        ensures
            r == self.spec_is_scalar(),
    {
        match *self {
            TypeForm::Inty(..) => true,
            TypeForm::Floaty(..) => true,
            _ => false,
        }
    }

    /// Returns the count of valued bits, if bounded.
    pub fn value_width(&self) -> (r: Option<u8>)
        ensures
            r == self.spec_value_width(),
    {
        match *self {
            TypeForm::Inty(Some(s)) => Some(s.value_width),
            TypeForm::Floaty(Some(s)) => Some(s.value_width),
            _ => None,
        }
    }

    /// Returns the count of stored bits, if bounded.
    pub fn store_width(&self) -> (r: Option<u8>)
        ensures
            r == self.spec_store_width(),
    {
        match *self {
            TypeForm::Inty(Some(s)) => Some(s.store_width),
            TypeForm::Floaty(Some(s)) => Some(s.store_width),
            _ => None,
        }
    }

    /// Whether a bounded integral form has a range (see `IntSpec::bounds_ok`).
    pub open spec fn bounds_ok(self) -> bool {
        match self {
            TypeForm::Inty(Some(s)) => s.bounds_ok(),
            _ => true,
        }
    }

    /// Returns the size in bytes; 0 when unknown.
    pub fn size_bytes(&self) -> (r: usize)
        ensures
            r == self.spec_size_bytes(),
    {
        match *self {
            TypeForm::Inty(Some(s)) => bits_to_bytes(s.store_width),
            TypeForm::Floaty(Some(s)) => bits_to_bytes(s.store_width),
            TypeForm::Opaque(Some(size)) => size,
            _ => 0,
        }
    }
}

impl Contains<i128> for TypeForm {
    open spec fn spec_contains(&self, item: i128) -> Option<bool> {
        match self {
            TypeForm::Inty(s) => s.spec_contains(item),
            TypeForm::Floaty(_) => None,
            TypeForm::Opaque(_) => Some(false),
        }
    }

    open spec fn can_contain(&self) -> bool {
        self.bounds_ok()
    }

    /// Whether an integer is in the form's range: unknown for unbounded
    /// integers and for floating-point forms, never for opaque forms.
    fn contains(&self, item: &i128) -> (r: Option<bool>) {
        match self {
            TypeForm::Inty(s) => s.contains(item),
            TypeForm::Floaty(_) => None,
            TypeForm::Opaque(_) => Some(false),
        }
    }
}

/// Returns the bytes needed to store `bits` bits, rounded up to a power of
/// two.
pub fn bits_to_bytes(bits: u8) -> (r: usize)
    ensures
        r == spec_bits_to_bytes(bits as nat),
{
    let mut p: usize = 1;
    while p < bits as usize
        invariant
            next_pow2(bits as nat) == least_doubling_at_least(bits as nat, p as nat),
            p == 1 || p == 2 || p == 4 || p == 8 || p == 16 || p == 32 || p == 64 || p == 128
                || p == 256,
        decreases 256 - p,
    {
        p = p * 2;
    }
    p / 8
}

} // verus!
