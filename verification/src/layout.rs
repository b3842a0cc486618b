use vstd::prelude::*;
use vstd::arithmetic::power2::is_pow2;
use vstd::layout::{align_of, size_of, valid_layout};

verus! {

/// Whether `n` is a power of two, as `usize::is_power_of_two` decides it.
pub fn is_power_of_two(n: usize) -> (r: bool)
    ensures
        r == is_pow2(n as int),
{
    reveal(is_pow2);
    if n == 0 {
        return false;
    }
    let mut m: usize = n;
    while m % 2 == 0
        invariant
            m > 0,
            is_pow2(m as int) == is_pow2(n as int),
        decreases m,
    {
        reveal(is_pow2);
        m = m / 2;
    }
    m == 1
}

/// A size and an alignment that an allocation can be made with: the
/// alignment is a power of two and the size, rounded up to a multiple of the
/// alignment, does not exceed `isize::MAX`.
pub struct BufLayout {
    size: usize,
    align: usize,
}

impl BufLayout {
    #[verifier::type_invariant]
    spec fn inv(self) -> bool {
        valid_layout(self.size, self.align)
    }

    pub closed spec fn size_spec(self) -> usize {
        self.size
    }

    pub closed spec fn align_spec(self) -> usize {
        self.align
    }

    /// Builds a layout of `size` bytes aligned to `align`, or nothing where
    /// the pair is not a valid layout.
    pub fn from_size_align(size: usize, align: usize) -> (r: Option<BufLayout>)
        ensures
            r is Some <==> valid_layout(size, align),
            r matches Some(l) ==> l.size_spec() == size && l.align_spec() == align,
    {
        if !is_power_of_two(align) {
            return None;
        }
        assert(align > 0) by {
            reveal(is_pow2);
        }
        let max: usize = isize::MAX as usize;
        assert(max % align <= max) by (nonlinear_arith)
            requires
                align > 0,
        ;
        if size <= max - max % align {
            Some(BufLayout { size, align })
        } else {
            None
        }
    }

    pub fn size(&self) -> (r: usize)
        ensures
            r == self.size_spec(),
            valid_layout(self.size_spec(), self.align_spec()),
    {
        proof {
            use_type_invariant(self);
        }
        self.size
    }

    pub fn align(&self) -> (r: usize)
        ensures
            r == self.align_spec(),
            valid_layout(self.size_spec(), self.align_spec()),
    {
        proof {
            use_type_invariant(self);
        }
        self.align
    }
}

/// Why a buffer of values of `T` cannot be made with a given size and
/// alignment, in the order in which the conditions are checked.
#[derive(Clone, Copy, Debug, PartialEq, Eq, Structural)]
pub enum BufError {
    /// The size is smaller than one `T`.
    SizeTooSmall,
    /// The alignment is not a multiple of the alignment of `T`.
    AlignmentNotMultiple,
    /// The alignment is not a power of two.
    AlignmentNotPowerOfTwo,
    /// The size, rounded up to the alignment, exceeds `isize::MAX`.
    LayoutOverflow,
}

/// The first condition that a buffer of `T` with this size and alignment
/// breaks, if any.
pub open spec fn buf_layout_error<T>(size: usize, alignment: usize) -> Option<BufError> {
    if (size as nat) < size_of::<T>() {
        Some(BufError::SizeTooSmall)
    } else if (alignment as nat) % align_of::<T>() != 0 {
        Some(BufError::AlignmentNotMultiple)
    } else if !is_pow2(alignment as int) {
        Some(BufError::AlignmentNotPowerOfTwo)
    } else if !valid_layout(size, alignment) {
        Some(BufError::LayoutOverflow)
    } else {
        None
    }
}

/// A buffer of `T` can be made with this size and alignment.
pub open spec fn buf_layout_ok<T>(size: usize, alignment: usize) -> bool {
    buf_layout_error::<T>(size, alignment) is None
}

/// The rules a buffer of `T` is made under, each on its own: a layout is
/// accepted exactly when its size holds a `T`, its alignment is a multiple of
/// that of `T` and a power of two, and the pair is a valid layout; and a
/// refusal names the first rule, in that order, that the layout breaks.
pub proof fn lemma_buf_layout_rules<T>(size: usize, alignment: usize)
    ensures
        buf_layout_ok::<T>(size, alignment) <==> {
            &&& size as nat >= size_of::<T>()
            &&& (alignment as nat) % align_of::<T>() == 0
            &&& is_pow2(alignment as int)
            &&& valid_layout(size, alignment)
        },
        buf_layout_ok::<T>(size, alignment) ==> (alignment as nat) % align_of::<T>() == 0,
        (size as nat) < size_of::<T>() ==> buf_layout_error::<T>(size, alignment) == Some(BufError::SizeTooSmall),
        size as nat >= size_of::<T>() && (alignment as nat) % align_of::<T>() != 0
            ==> buf_layout_error::<T>(size, alignment) == Some(BufError::AlignmentNotMultiple),
        size as nat >= size_of::<T>() && (alignment as nat) % align_of::<T>() == 0
            && !is_pow2(alignment as int)
            ==> buf_layout_error::<T>(size, alignment) == Some(BufError::AlignmentNotPowerOfTwo),
        size as nat >= size_of::<T>() && (alignment as nat) % align_of::<T>() == 0
            && is_pow2(alignment as int) && !valid_layout(size, alignment)
            ==> buf_layout_error::<T>(size, alignment) == Some(BufError::LayoutOverflow),
{
}

/// Checks a size and an alignment for a buffer that holds a `T` at its
/// start: the size must hold one `T`, the alignment must be a multiple of
/// that of `T` and a power of two, and the pair must be a valid layout.
pub fn check_buf_layout<T>(size: usize, alignment: usize) -> (r: Result<BufLayout, BufError>)
    ensures
        match r {
            Ok(l) => buf_layout_ok::<T>(size, alignment) && l.size_spec() == size
                && l.align_spec() == alignment,
            Err(e) => buf_layout_error::<T>(size, alignment) == Some(e),
        },
        r is Ok <==> {
            &&& size as nat >= size_of::<T>()
            &&& (alignment as nat) % align_of::<T>() == 0
            &&& is_pow2(alignment as int)
            &&& valid_layout(size, alignment)
        },
        (size as nat) < size_of::<T>() ==> r == Err::<BufLayout, BufError>(BufError::SizeTooSmall),
{
    vstd::layout::layout_for_type_is_valid::<T>();
    if size < core::mem::size_of::<T>() {
        return Err(BufError::SizeTooSmall);
    }
    if alignment % core::mem::align_of::<T>() != 0 {
        return Err(BufError::AlignmentNotMultiple);
    }
    if !is_power_of_two(alignment) {
        return Err(BufError::AlignmentNotPowerOfTwo);
    }
    match BufLayout::from_size_align(size, alignment) {
        Some(l) => Ok(l),
        None => Err(BufError::LayoutOverflow),
    }
}

} // verus!
