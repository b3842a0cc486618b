use vstd::prelude::*;
use vstd::layout::size_of;
use crate::layout::{buf_layout_ok, BufLayout};

verus! {

/// `count` values of `T`, together with the checked layout that a buffer of
/// them is to be allocated with: an alignment chosen by the caller and a
/// size of `count` times the size of `T`.
///
/// The values are kept in a `Vec`, aligned only as `T` is; the layout is a
/// record for the allocation that is handed to the system, made elsewhere.
pub struct VarBuf<T> {
    items: Vec<T>,
    layout: BufLayout,
}

/// The size in bytes of `count` values of `T`.
pub open spec fn var_buf_size<T>(count: usize) -> int {
    count * size_of::<T>()
}

/// A buffer of `count` values of `T` can be made with this alignment: the
/// size `count * size_of::<T>()` fits in a `usize` and passes the layout
/// rules of a buffer of `T`.
pub open spec fn var_buf_ok<T>(count: usize, alignment: usize) -> bool {
    &&& var_buf_size::<T>(count) <= usize::MAX
    &&& buf_layout_ok::<T>(var_buf_size::<T>(count) as usize, alignment)
}

/// Gives a place in `v` to write to; the other items and the length stay.
fn item_mut<T>(v: &mut Vec<T>, index: usize) -> (r: &mut T)
    requires
        index < old(v)@.len(),
    ensures
        *r == old(v)@[index as int],
        final(v)@ == old(v)@.update(index as int, *final(r)),
    no_unwind
{
    &mut v[index]
}

impl<T> View for VarBuf<T> {
    type V = Seq<T>;

    closed spec fn view(&self) -> Seq<T> {
        self.items@
    }
}

impl<T> VarBuf<T> {
    #[verifier::type_invariant]
    spec fn inv(self) -> bool {
        &&& buf_layout_ok::<T>(self.layout.size_spec(), self.layout.align_spec())
        &&& self.layout.size_spec() == var_buf_size::<T>(self.items@.len() as usize)
        &&& self.items@.len() <= usize::MAX
    }

    /// The alignment in bytes that the buffer's allocation is to have (a
    /// checked figure, not the alignment of the values kept here).
    pub closed spec fn layout_align(self) -> usize {
        self.layout.align_spec()
    }

    /// The size in bytes that the buffer's allocation is to have.
    pub closed spec fn layout_size(self) -> usize {
        self.layout.size_spec()
    }

    /// Every buffer's recorded layout satisfies the rules it was checked
    /// under, and its size is that of its values.
    pub fn layout_rules(&self)
        ensures
            var_buf_ok::<T>(self@.len() as usize, self.layout_align()),
            self.layout_size() == var_buf_size::<T>(self@.len() as usize),
    {
        proof {
            use_type_invariant(self);
        }
    }

    /// Holds `count` clones of `value`, with the layout of a buffer of them
    /// aligned to `alignment`.
    pub fn new_aligned(count: usize, alignment: usize, value: T) -> (b: Self)
        where
            T: Clone,
        requires
            var_buf_ok::<T>(count, alignment),
        ensures
            b@.len() == count,
            forall|i: int| 0 <= i < count ==> vstd::pervasive::cloned(value, #[trigger] b@[i]),
            b.layout_align() == alignment,
    {
        let size: usize = count * core::mem::size_of::<T>();
        let layout = BufLayout::from_size_align(size, alignment).unwrap();
        let mut items: Vec<T> = Vec::new();
        let mut i: usize = 0;
        while i < count
            invariant
                i <= count,
                items@.len() == i,
                forall|j: int| 0 <= j < i ==> vstd::pervasive::cloned(value, #[trigger] items@[j]),
            decreases count - i,
        {
            items.push(value.clone());
            i = i + 1;
        }
        VarBuf { items, layout }
    }

    /// Holds a copy of the first `count` values of `source`, with the layout
    /// of a buffer of them aligned to `alignment`.
    pub fn from_aligned_raw(count: usize, alignment: usize, source: &[T]) -> (b: Self)
        where
            T: Copy,
        requires
            var_buf_ok::<T>(count, alignment),
            count <= source@.len(),
        ensures
            b@ == source@.subrange(0, count as int),
            b.layout_align() == alignment,
    {
        let size: usize = count * core::mem::size_of::<T>();
        let layout = BufLayout::from_size_align(size, alignment).unwrap();
        let mut items: Vec<T> = Vec::new();
        let mut i: usize = 0;
        while i < count
            invariant
                i <= count,
                count <= source@.len(),
                items@ == source@.subrange(0, i as int),
            decreases count - i,
        {
            items.push(source[i]);
            i = i + 1;
        }
        VarBuf { items, layout }
    }

    /// All the values of the buffer, in order.
    pub fn as_ptr(&self) -> (r: &[T])
        ensures
            r@ == self@,
    {
        self.items.as_slice()
    }

    /// The value at `index`, to be changed in place; the other values, the
    /// count and the recorded layout stay.
    pub fn index_mut(&mut self, index: usize) -> (r: &mut T)
        requires
            index < old(self)@.len(),
        ensures
            *r == old(self)@[index as int],
            final(self)@ == old(self)@.update(index as int, *final(r)),
            final(self).layout_align() == old(self).layout_align(),
    {
        proof {
            use_type_invariant(&*self);
        }
        item_mut(&mut self.items, index)
    }
}

impl<T> core::ops::Index<usize> for VarBuf<T> {
    type Output = T;

    /// The value at `index`, which must be below the count.
    fn index(&self, index: usize) -> (r: &T)
        ensures
            *r == self@[index as int],
    {
        &self.items[index]
    }
}

impl<T> vstd::std_specs::core::IndexSpecImpl<usize> for VarBuf<T> {
    open spec fn index_req(&self, index: &usize) -> bool {
        *index < self@.len()
    }
}

} // verus!
