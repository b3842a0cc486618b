use vstd::prelude::*;
use vstd::layout::{align_of, size_of, valid_layout};
use crate::layout::{buf_layout_ok, BufLayout};

verus! {

/// The value that stands at the start of a buffer, together with the checked
/// layout (size and alignment) that the buffer's allocation is to be made
/// with; the layout is chosen by the caller rather than by `T`: the size
/// holds at least one `T`, and the alignment is a power of two and a
/// multiple of that of `T`.
///
/// This type holds the value and the layout, not memory of that size or
/// alignment: the value is stored as any `T` is. Where a buffer is handed to
/// the system, which may write past the `T`, the allocation is made
/// elsewhere with this layout. The bytes after the `T` part are not
/// reachable through this type.
pub struct Buf<T> {
    value: T,
    shape: Shape<T>,
}

/// The layout of a buffer that holds a `T` at its start.
struct Shape<T> {
    layout: BufLayout,
    marker: core::marker::PhantomData<T>,
}

impl<T> Shape<T> {
    #[verifier::type_invariant]
    spec fn inv(self) -> bool {
        buf_layout_ok::<T>(self.layout.size_spec(), self.layout.align_spec())
    }
}

impl<T> Buf<T> {
    /// The value at the start of the buffer.
    pub closed spec fn value(self) -> T {
        self.value
    }

    /// The size in bytes that the buffer's allocation is to have (a checked
    /// figure, not the size of this value).
    pub closed spec fn layout_size(self) -> usize {
        self.shape.layout.size_spec()
    }

    /// The alignment in bytes that the buffer's allocation is to have (a
    /// checked figure, not the alignment of this value).
    pub closed spec fn layout_align(self) -> usize {
        self.shape.layout.align_spec()
    }

    /// Every buffer's recorded layout satisfies the rules it was checked
    /// under.
    pub fn layout_rules(&self)
        ensures
            buf_layout_ok::<T>(self.layout_size(), self.layout_align()),
    {
        proof {
            use_type_invariant(&self.shape);
        }
    }

    /// Holds `value` with the layout of a buffer of `size` bytes aligned to
    /// `alignment`.
    pub fn new_aligned(size: usize, alignment: usize, value: T) -> (b: Self)
        requires
            buf_layout_ok::<T>(size, alignment),
        ensures
            b.value() == value,
            b.layout_size() == size,
            b.layout_align() == alignment,
    {
        let layout = BufLayout::from_size_align(size, alignment).unwrap();
        Buf { value, shape: Shape { layout, marker: core::marker::PhantomData } }
    }

    /// Holds `value` with the layout of a buffer of `size` bytes aligned as
    /// `T` is.
    pub fn new(size: usize, value: T) -> (b: Self)
        requires
            size as nat >= size_of::<T>(),
            valid_layout(size, align_of::<T>() as usize),
        ensures
            b.value() == value,
            b.layout_size() == size,
            b.layout_align() == align_of::<T>(),
    {
        vstd::layout::layout_for_type_is_valid::<T>();
        Self::new_aligned(size, core::mem::align_of::<T>(), value)
    }

    /// The value at the start of the buffer.
    pub fn as_ptr(&self) -> (r: &T)
        ensures
            *r == self.value(),
    {
        &self.value
    }
}

impl<T> core::ops::Deref for Buf<T> {
    type Target = T;

    fn deref(&self) -> (r: &T)
        ensures
            *r == self.value(),
    {
        &self.value
    }
}

impl<T> core::ops::DerefMut for Buf<T> {
    /// The value at the start of the buffer, to be changed in place; the
    /// recorded layout stays.
    fn deref_mut(&mut self) -> (r: &mut T)
        ensures
            *r == old(self).value(),
            final(self).value() == *final(r),
            final(self).layout_size() == old(self).layout_size(),
            final(self).layout_align() == old(self).layout_align(),
    {
        &mut self.value
    }
}

} // verus!
