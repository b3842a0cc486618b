use vstd::prelude::*;
use vstd::layout::{align_of, size_of, valid_layout};
use crate::layout::BufLayout;

verus! {

/// Zeroed bytes of a size the caller chooses, meant to hold a `T`, together
/// with the checked alignment that their allocation is to have.
///
/// The bytes are kept in a `Vec`, aligned only as `u8` is; the alignment is
/// a record for the allocation that is handed to the system, made
/// elsewhere.
pub struct AlignedBuffer<T> {
    bytes: Vec<u8>,
    alignment: usize,
    marker: core::marker::PhantomData<T>,
}

/// `n` zero bytes.
pub open spec fn zeroes(n: nat) -> Seq<u8> {
    Seq::new(n, |i: int| 0u8)
}

/// `zeroes(n)` is `n` bytes long and every one of them is zero.
pub proof fn lemma_zeroes(n: nat)
    ensures
        zeroes(n).len() == n,
        forall|i: int| 0 <= i < n ==> zeroes(n)[i] == 0,
{
}

impl<T> View for AlignedBuffer<T> {
    type V = Seq<u8>;

    closed spec fn view(&self) -> Seq<u8> {
        self.bytes@
    }
}

impl<T> AlignedBuffer<T> {
    /// The alignment in bytes that the buffer's allocation is to have (a
    /// checked figure, not the alignment of the bytes kept here).
    pub closed spec fn layout_align(self) -> usize {
        self.alignment
    }

    /// Holds `size` zero bytes, with a checked layout aligned to `alignment`,
    /// which need not suit `T`.
    pub fn new_custom_aligned(size: usize, alignment: usize) -> (b: Self)
        requires
            valid_layout(size, alignment),
        ensures
            b@ == zeroes(size as nat),
            b@.len() == size,
            forall|i: int| 0 <= i < size ==> b@[i] == 0,
            b.layout_align() == alignment,
    {
        let layout = BufLayout::from_size_align(size, alignment).unwrap();
        let mut bytes: Vec<u8> = Vec::new();
        let mut i: usize = 0;
        while i < layout.size()
            invariant
                layout.size_spec() == size,
                i <= size,
                bytes@ == zeroes(i as nat),
            decreases size - i,
        {
            bytes.push(0u8);
            i = i + 1;
        }
        AlignedBuffer { bytes, alignment: layout.align(), marker: core::marker::PhantomData }
    }

    /// Holds `size` zero bytes, with a checked layout aligned as `T` is; the
    /// size holds at least one `T`.
    pub fn new(size: usize) -> (b: Self)
        requires
            size as nat >= size_of::<T>(),
            valid_layout(size, align_of::<T>() as usize),
        ensures
            b@ == zeroes(size as nat),
            b@.len() == size,
            forall|i: int| 0 <= i < size ==> b@[i] == 0,
            b.layout_align() == align_of::<T>(),
    {
        vstd::layout::layout_for_type_is_valid::<T>();
        Self::new_custom_aligned(size, core::mem::align_of::<T>())
    }

    /// The bytes of the buffer.
    pub fn as_c_void_ptr(&self) -> (r: &[u8])
        ensures
            r@ == self@,
    {
        self.bytes.as_slice()
    }

    /// The bytes of the buffer, to be written in place; the recorded
    /// alignment stays.
    pub fn as_c_void_ptr_mut(&mut self) -> (r: &mut [u8])
        ensures
            r@ == old(self)@,
            final(self)@ == final(r)@,
            final(self).layout_align() == old(self).layout_align(),
    {
        self.bytes.as_mut_slice()
    }
}

} // verus!
