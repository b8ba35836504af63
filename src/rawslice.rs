//! Regions: an address paired with a declared element count.

use vstd::prelude::*;
use vstd::slice::slice_subrange;
use crate::memory::{copied, disjoint, filled, ByteFill, lemma_len_fits};
use crate::rawptr::{ConstPtr, MutPtr, RawPtrExt, RawMutPtrExt};

verus! {

/// A read-only region: `len` elements starting at `ptr`.
pub struct ConstRegion<T> {
    pub ptr: ConstPtr<T>,
    pub len: usize,
}

/// A mutable region: `len` elements starting at `ptr`.
pub struct MutRegion<T> {
    pub ptr: MutPtr<T>,
    pub len: usize,
}

impl<T> ConstRegion<T> {
    /// The read-only region of `len` elements starting at position `base`.
    pub open spec fn span(base: int, len: int) -> Self {
        ConstRegion { ptr: ConstPtr::at(base), len: len as usize }
    }
}

impl<T> MutRegion<T> {
    /// The mutable region of `len` elements starting at position `base`.
    pub open spec fn span(base: int, len: int) -> Self {
        MutRegion { ptr: MutPtr::at(base), len: len as usize }
    }
}

impl<T> Clone for ConstRegion<T> {
    fn clone(&self) -> (r: Self)
        ensures
            r == *self,
    {
        *self
    }
}

impl<T> Copy for ConstRegion<T> {
}

impl<T> Clone for MutRegion<T> {
    fn clone(&self) -> (r: Self)
        ensures
            r == *self,
    {
        *self
    }
}

impl<T> Copy for MutRegion<T> {
}

impl<T> MutRegion<T> {
    /// The same span, as a read-only region.
    pub fn as_const(self) -> (r: ConstRegion<T>)
        ensures
            r == ConstRegion::<T>::span(self.ptr.addr as int, self.len as int),
    {
        ConstRegion { ptr: self.ptr.as_const(), len: self.len }
    }
}

/// Read access on a region. Positions given to `read` and `get` count from the
/// region's start and are not held to its declared length.
pub trait RawSlice<T: Copy>: Copy + Sized {
    /// The position of the region's first element.
    spec fn base(&self) -> nat;

    /// The declared element count.
    spec fn length(&self) -> nat;

    /// The region of positions `from` up to `to`, counted from this one's start.
    spec fn spec_slice(&self, from: int, to: int) -> Self;

    /// The region's elements in `mem`, as a slice.
    fn as_slice<'a>(self, mem: &'a Vec<T>) -> (r: &'a [T])
        requires
            self.base() + self.length() <= mem@.len(),
        ensures
            r@ == mem@.subrange(self.base() as int, (self.base() + self.length()) as int),
    ;

    /// The declared element count.
    fn len(self) -> (r: usize)
        ensures
            r == self.length(),
    ;

    /// The address of the region's first element.
    fn as_ptr(self) -> (r: ConstPtr<T>)
        ensures
            r == ConstPtr::<T>::at(self.base() as int),
    ;

    /// A copy of the element `index` places after the region's start.
    fn read(self, mem: &Vec<T>, index: usize) -> (r: T)
        requires
            self.base() + index < mem@.len(),
        ensures
            r == mem@[self.base() + index as int],
    ;

    /// A reference to the element `index` places after the region's start.
    fn get<'a>(self, mem: &'a Vec<T>, index: usize) -> (r: &'a T)
        requires
            self.base() + index < mem@.len(),
        ensures
            *r == mem@[self.base() + index as int],
    ;

    /// The sub-region of positions `from` up to `to`.
    fn slice(self, from: usize, to: usize) -> (r: Self)
        requires
            from <= to <= self.length(),
            self.base() + from <= usize::MAX,
        ensures
            r == self.spec_slice(from as int, to as int),
            r.base() == self.base() + from,
            r.length() == to - from,
    ;

    /// The sub-region of the first `to` positions.
    fn slice_to(self, to: usize) -> (r: Self)
        requires
            to <= self.length(),
        ensures
            r == self.spec_slice(0, to as int),
            r.base() == self.base(),
            r.length() == to,
    ;

    /// The sub-region from position `from` to the end.
    fn slice_from(self, from: usize) -> (r: Self)
        requires
            from <= self.length(),
            self.base() + from <= usize::MAX,
        ensures
            r == self.spec_slice(from as int, self.length() as int),
            r.base() == self.base() + from,
            r.length() == self.length() - from,
    ;
}

/// Write access on a mutable region. Positions given to `write` and `get_mut`
/// count from the region's start and are not held to its declared length.
pub trait RawMutSlice<T: Copy>: RawSlice<T> {
    /// The region's elements in `mem`, as a mutable slice: what is written
    /// through it lands in `mem` at the same positions.
    fn as_mut_slice<'a>(self, mem: &'a mut Vec<T>) -> (r: &'a mut [T])
        requires
            self.base() + self.length() <= old(mem)@.len(),
        ensures
            r@ == old(mem)@.subrange(self.base() as int, (self.base() + self.length()) as int),
            final(mem)@ == old(mem)@.subrange(0, self.base() as int) + final(r)@ + old(mem)@.subrange(
                (self.base() + self.length()) as int,
                old(mem)@.len() as int,
            ),
    ;

    /// The mutable address of the region's first element.
    fn as_mut_ptr(self) -> (r: MutPtr<T>)
        ensures
            r == MutPtr::<T>::at(self.base() as int),
    ;

    /// Stores `val` `index` places after the region's start, without reading
    /// what was there.
    fn write(self, mem: &mut Vec<T>, index: usize, val: T)
        requires
            self.base() + index < old(mem)@.len(),
        ensures
            final(mem)@ == old(mem)@.update(self.base() + index as int, val),
    ;

    /// Sets every byte of the region's declared elements to `byte`.
    fn write_bytes(self, mem: &mut Vec<T>, byte: u8) where T: ByteFill
        requires
            self.base() + self.length() <= old(mem)@.len(),
        ensures
            final(mem)@ == filled(old(mem)@, self.base() as int, self.length() as int, T::spec_repeat_byte(byte)),
    ;

    /// Moves the elements of `from` to the start of this region; the two may
    /// overlap. The count is `from`'s length, whatever this region's.
    fn copy(self, mem: &mut Vec<T>, from: ConstRegion<T>)
        requires
            from.ptr.addr + from.len <= old(mem)@.len(),
            self.base() + from.len <= old(mem)@.len(),
        ensures
            final(mem)@ == copied(old(mem)@, from.ptr.addr as int, self.base() as int, from.len as int),
    ;

    /// Moves the elements of `from` to the start of this region, which must not
    /// overlap it. The count is `from`'s length, whatever this region's.
    fn copy_nonoverlapping(self, mem: &mut Vec<T>, from: ConstRegion<T>)
        requires
            from.ptr.addr + from.len <= old(mem)@.len(),
            self.base() + from.len <= old(mem)@.len(),
            disjoint(from.ptr.addr as int, self.base() as int, from.len as int),
        ensures
            final(mem)@ == copied(old(mem)@, from.ptr.addr as int, self.base() as int, from.len as int),
    ;

    /// A mutable reference to the element `index` places after the region's
    /// start: what is written through it lands in `mem` at that position.
    fn get_mut<'a>(self, mem: &'a mut Vec<T>, index: usize) -> (r: &'a mut T)
        requires
            self.base() + index < old(mem)@.len(),
        ensures
            *r == old(mem)@[self.base() + index],
            final(mem)@ == old(mem)@.update(self.base() + index as int, *final(r)),
    ;
}

/// Views of a container as a region that covers all of it.
pub trait SliceRawExt<T> {
    /// The container's elements, in order.
    spec fn elements(&self) -> Seq<T>;

    /// The read-only region of all the container's elements.
    fn as_raw(&self) -> (r: ConstRegion<T>)
        ensures
            r == ConstRegion::<T>::span(0, self.elements().len() as int),
    ;

    /// The mutable region of all the container's elements; the container is
    /// left as it was.
    fn as_mut_raw(&mut self) -> (r: MutRegion<T>)
        ensures
            r == MutRegion::<T>::span(0, old(self).elements().len() as int),
            final(self).elements() == old(self).elements(),
    ;
}

impl<T> SliceRawExt<T> for Vec<T> {
    open spec fn elements(&self) -> Seq<T> {
        self@
    }

    fn as_raw(&self) -> (r: ConstRegion<T>) {
        ConstRegion { ptr: ConstPtr::new(0), len: self.len() }
    }

    fn as_mut_raw(&mut self) -> (r: MutRegion<T>) {
        MutRegion { ptr: MutPtr::new(0), len: self.len() }
    }
}

impl<T: Copy> RawSlice<T> for ConstRegion<T> {
    open spec fn base(&self) -> nat {
        self.ptr.addr as nat
    }

    open spec fn length(&self) -> nat {
        self.len as nat
    }

    open spec fn spec_slice(&self, from: int, to: int) -> Self {
        Self::span(self.ptr.addr + from, to - from)
    }

    fn as_slice<'a>(self, mem: &'a Vec<T>) -> (r: &'a [T]) {
        self.ptr.as_slice(mem, self.len)
    }

    fn len(self) -> (r: usize) {
        self.len
    }

    fn as_ptr(self) -> (r: ConstPtr<T>) {
        self.ptr
    }

    fn read(self, mem: &Vec<T>, index: usize) -> (r: T) {
        proof {
            lemma_len_fits(&*mem);
        }
        self.ptr.add(index).read(mem)
    }

    fn get<'a>(self, mem: &'a Vec<T>, index: usize) -> (r: &'a T) {
        proof {
            lemma_len_fits(&*mem);
        }
        &mem[self.ptr.add(index).addr]
    }

    fn slice(self, from: usize, to: usize) -> (r: Self) {
        self.ptr.add(from).as_raw_slice(to - from)
    }

    fn slice_to(self, to: usize) -> (r: Self) {
        self.slice(0, to)
    }

    fn slice_from(self, from: usize) -> (r: Self) {
        self.slice(from, self.len())
    }
}

impl<T: Copy> RawSlice<T> for MutRegion<T> {
    open spec fn base(&self) -> nat {
        self.ptr.addr as nat
    }

    open spec fn length(&self) -> nat {
        self.len as nat
    }

    open spec fn spec_slice(&self, from: int, to: int) -> Self {
        Self::span(self.ptr.addr + from, to - from)
    }

    fn as_slice<'a>(self, mem: &'a Vec<T>) -> (r: &'a [T]) {
        self.ptr.as_slice(mem, self.len)
    }

    fn len(self) -> (r: usize) {
        self.len
    }

    fn as_ptr(self) -> (r: ConstPtr<T>) {
        self.ptr.as_const()
    }

    fn read(self, mem: &Vec<T>, index: usize) -> (r: T) {
        proof {
            lemma_len_fits(&*mem);
        }
        self.ptr.add(index).read(mem)
    }

    fn get<'a>(self, mem: &'a Vec<T>, index: usize) -> (r: &'a T) {
        proof {
            lemma_len_fits(&*mem);
        }
        &mem[self.ptr.add(index).addr]
    }

    fn slice(self, from: usize, to: usize) -> (r: Self) {
        self.ptr.add(from).as_raw_mut_slice(to - from)
    }

    fn slice_to(self, to: usize) -> (r: Self) {
        self.slice(0, to)
    }

    fn slice_from(self, from: usize) -> (r: Self) {
        self.slice(from, self.len())
    }
}

impl<T: Copy> RawMutSlice<T> for MutRegion<T> {
    fn as_mut_slice<'a>(self, mem: &'a mut Vec<T>) -> (r: &'a mut [T]) {
        self.ptr.as_mut_slice(mem, self.len)
    }

    fn as_mut_ptr(self) -> (r: MutPtr<T>) {
        self.ptr
    }

    fn write(self, mem: &mut Vec<T>, index: usize, val: T) {
        proof {
            lemma_len_fits(&*mem);
        }
        self.as_mut_ptr().add(index).write(mem, val);
    }

    fn write_bytes(self, mem: &mut Vec<T>, byte: u8) where T: ByteFill {
        let len = self.len();
        self.as_mut_ptr().write_bytes(mem, byte, len);
    }

    fn copy(self, mem: &mut Vec<T>, from: ConstRegion<T>) {
        from.as_ptr().copy(mem, self.as_mut_ptr(), from.len());
    }

    fn copy_nonoverlapping(self, mem: &mut Vec<T>, from: ConstRegion<T>) {
        from.as_ptr().copy_nonoverlapping(mem, self.as_mut_ptr(), from.len());
    }

    fn get_mut<'a>(self, mem: &'a mut Vec<T>, index: usize) -> (r: &'a mut T) {
        proof {
            lemma_len_fits(&*mem);
        }
        &mut mem[self.as_mut_ptr().add(index).addr]
    }
}

} // verus!
