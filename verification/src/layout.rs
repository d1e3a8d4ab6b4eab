//! Layouts: how many bytes a block of memory has and how it is aligned.

use vstd::arithmetic::power2::is_pow2;
use vstd::layout::{align_of, size_of};
use vstd::prelude::*;

verus! {

/// The element count `n` cannot be laid out as an array: the byte size of the
/// array, padded to the element's alignment, would pass `isize::MAX`.
#[derive(Clone, Copy, Debug, PartialEq, Eq, Structural)]
pub struct LayoutError;

/// Whether an array of `n` elements of type `T` can be laid out: its byte
/// size, with the padding that the alignment may ask for, stays within
/// `isize::MAX`.
pub open spec fn array_fits<T>(n: nat) -> bool {
    n * size_of::<T>() + align_of::<T>() - 1 <= isize::MAX
}

/// The size in bytes and the alignment of a block of memory.
///
/// Every `Layout` is valid: the alignment is a power of two, and the size,
/// rounded up to the alignment, does not pass `isize::MAX`.
#[derive(Clone, Copy, Debug, PartialEq, Eq, Structural)]
pub struct Layout {
    size: usize,
    align: usize,
}

impl Layout {
    #[verifier::type_invariant]
    spec fn valid(self) -> bool {
        is_pow2(self.align as int) && self.size + self.align - 1 <= isize::MAX
    }

    /// The size of the block in bytes.
    pub closed spec fn spec_size(&self) -> usize {
        self.size
    }

    /// The alignment of the block in bytes.
    pub closed spec fn spec_align(&self) -> usize {
        self.align
    }

    /// The layout of an array of `n` elements of type `T`, where
    /// [`array_fits`] holds of it.
    pub closed spec fn spec_array<T>(n: nat) -> Layout
        recommends
            array_fits::<T>(n),
    {
        Layout { size: (n * size_of::<T>()) as usize, align: align_of::<T>() as usize }
    }

    /// The size of the block in bytes.
    #[verifier::when_used_as_spec(spec_size)]
    pub fn size(&self) -> (s: usize)
        ensures
            s == self.spec_size(),
            s + self.spec_align() - 1 <= isize::MAX,
    {
        proof {
            use_type_invariant(self);
        }
        self.size
    }

    /// The alignment of the block in bytes: a power of two.
    #[verifier::when_used_as_spec(spec_align)]
    pub fn align(&self) -> (a: usize)
        ensures
            a == self.spec_align(),
            a > 0,
            is_pow2(a as int),
    {
        proof {
            use_type_invariant(self);
            reveal(is_pow2);
        }
        self.align
    }

    /// The layout of an array of `n` elements of type `T`, where there is one.
    ///
    /// The size of a type is a multiple of its alignment, so the elements
    /// stand side by side without padding and the array has `n` times the
    /// size of one element.
    pub fn array<T>(n: usize) -> (r: Result<Layout, LayoutError>)
        ensures
            match r {
                Ok(l) => {
                    &&& array_fits::<T>(n as nat)
                    &&& l == Layout::spec_array::<T>(n as nat)
                    &&& l.spec_size() == n * size_of::<T>()
                    &&& l.spec_align() == align_of::<T>()
                    &&& l.spec_size() % l.spec_align() == 0
                    &&& l.spec_size() == 0 <==> n == 0 || size_of::<T>() == 0
                },
                Err(_) => !array_fits::<T>(n as nat),
            },
    {
        broadcast use vstd::layout::group_align_properties;

        let size = core::mem::size_of::<T>();
        let align = core::mem::align_of::<T>();
        let total = match n.checked_mul(size) {
            Some(total) => total,
            None => {
                return Err(LayoutError);
            },
        };
        let padded = match total.checked_add(align - 1) {
            Some(padded) => padded,
            None => {
                return Err(LayoutError);
            },
        };
        if padded > isize::MAX as usize {
            return Err(LayoutError);
        }
        proof {
            lemma_multiple_of(n as int, size as int, align as int);
            assert(total == 0 <==> n == 0 || size == 0) by (nonlinear_arith)
                requires
                    total == n * size,
            ;
        }
        Ok(Layout { size: total, align })
    }
}

/// A multiple of a multiple of `d` is a multiple of `d`.
proof fn lemma_multiple_of(n: int, s: int, d: int)
    requires
        d > 0,
        s % d == 0,
    ensures
        (n * s) % d == 0,
{
    vstd::arithmetic::div_mod::lemma_fundamental_div_mod(s, d);
    assert(n * s == (n * (s / d)) * d) by (nonlinear_arith)
        requires
            s == d * (s / d),
    ;
    vstd::arithmetic::div_mod::lemma_mod_multiples_basic(n * (s / d), d);
}

/// What [`Layout::array`] gives, in terms of the element type alone.
pub proof fn lemma_array_layout<T>(n: nat)
    requires
        array_fits::<T>(n),
    ensures
        Layout::spec_array::<T>(n).spec_size() == n * size_of::<T>(),
        Layout::spec_array::<T>(n).spec_align() == align_of::<T>(),
{
    broadcast use vstd::layout::group_align_properties;

    assert(n * size_of::<T>() >= 0) by (nonlinear_arith);
}

} // verus!
