//! Addresses: element positions within a memory block, with arithmetic and
//! single-element access.
//!
//! An address carries no proof that it is valid. Arithmetic only has to stay
//! within the range of machine addresses; every read or write names the block
//! it touches and requires the position to lie inside it.

use vstd::prelude::*;
use vstd::slice::slice_subrange;
use core::marker::PhantomData;
use crate::memory::{copied, disjoint, filled, swapped, move_elements, fill_elements, ByteFill, lemma_len_fits};
use crate::rawslice::{ConstRegion, MutRegion};

verus! {

/// A read-only address of an element of type `T`.
pub struct ConstPtr<T> {
    pub addr: usize,
    pub marker: PhantomData<T>,
}

/// A mutable address of an element of type `T`.
pub struct MutPtr<T> {
    pub addr: usize,
    pub marker: PhantomData<T>,
}

impl<T> Clone for ConstPtr<T> {
    fn clone(&self) -> (r: Self)
        ensures
            r == *self,
    {
        *self
    }
}

impl<T> Copy for ConstPtr<T> {
}

impl<T> Clone for MutPtr<T> {
    fn clone(&self) -> (r: Self)
        ensures
            r == *self,
    {
        *self
    }
}

impl<T> Copy for MutPtr<T> {
}

impl<T> ConstPtr<T> {
    /// The read-only address of position `addr`.
    pub open spec fn at(addr: int) -> Self {
        ConstPtr { addr: addr as usize, marker: PhantomData }
    }

    /// The read-only address of position `addr`.
    pub fn new(addr: usize) -> (r: Self)
        ensures
            r == Self::at(addr as int),
    {
        ConstPtr { addr, marker: PhantomData }
    }
}

impl<T> MutPtr<T> {
    /// The mutable address of position `addr`.
    pub open spec fn at(addr: int) -> Self {
        MutPtr { addr: addr as usize, marker: PhantomData }
    }

    /// The mutable address of position `addr`.
    pub fn new(addr: usize) -> (r: Self)
        ensures
            r == Self::at(addr as int),
    {
        MutPtr { addr, marker: PhantomData }
    }

    /// The same position, as a read-only address.
    pub fn as_const(self) -> (r: ConstPtr<T>)
        ensures
            r == ConstPtr::<T>::at(self.addr as int),
    {
        ConstPtr { addr: self.addr, marker: PhantomData }
    }
}

/// Arithmetic and read access on an address.
pub trait RawPtrExt<T: Copy>: Sized {
    /// The position that the address denotes.
    spec fn addr(&self) -> nat;

    /// The address `delta` elements away (backwards for a negative `delta`).
    spec fn offset(&self, delta: int) -> Self;

    /// Pairs the address with a length, checking nothing.
    fn as_raw_slice(self, len: usize) -> (r: ConstRegion<T>)
        ensures
            r == ConstRegion::<T>::span(self.addr() as int, len as int),
    ;

    /// The `len` elements of `mem` that start at this address, as a slice.
    fn as_slice<'a>(self, mem: &'a Vec<T>, len: usize) -> (r: &'a [T])
        requires
            self.addr() + len <= mem@.len(),
        ensures
            r@ == mem@.subrange(self.addr() as int, self.addr() + len),
    ;

    /// The address `count` elements further on.
    fn add(self, count: usize) -> (r: Self)
        requires
            self.addr() + count <= usize::MAX,
        ensures
            r == self.offset(count as int),
            r.addr() == self.addr() + count,
    ;

    /// The address `count` elements back.
    fn sub(self, count: usize) -> (r: Self)
        requires
            count <= self.addr(),
        ensures
            r == self.offset(-count),
            r.addr() == self.addr() - count,
    ;

    /// A copy of the element of `mem` at this address.
    fn read(self, mem: &Vec<T>) -> (r: T)
        requires
            self.addr() < mem@.len(),
        ensures
            r == mem@[self.addr() as int],
    ;

    /// Moves the `count` elements starting at this address to `dest`; the two
    /// spans may overlap.
    fn copy(self, mem: &mut Vec<T>, dest: MutPtr<T>, count: usize)
        requires
            self.addr() + count <= old(mem)@.len(),
            dest.addr + count <= old(mem)@.len(),
        ensures
            final(mem)@ == copied(old(mem)@, self.addr() as int, dest.addr as int, count as int),
    ;

    /// Moves the `count` elements starting at this address to `dest`; the two
    /// spans must not overlap.
    fn copy_nonoverlapping(self, mem: &mut Vec<T>, dest: MutPtr<T>, count: usize)
        requires
            self.addr() + count <= old(mem)@.len(),
            dest.addr + count <= old(mem)@.len(),
            disjoint(self.addr() as int, dest.addr as int, count as int),
        ensures
            final(mem)@ == copied(old(mem)@, self.addr() as int, dest.addr as int, count as int),
    ;
}

/// Conversion and write access on a mutable address.
pub trait RawMutPtrExt<T: Copy>: RawPtrExt<T> {
    /// Pairs the address with a length, checking nothing.
    fn as_raw_mut_slice(self, len: usize) -> (r: MutRegion<T>)
        ensures
            r == MutRegion::<T>::span(self.addr() as int, len as int),
    ;

    /// The `len` elements of `mem` that start at this address, as a mutable
    /// slice: what is written through it lands in `mem` at the same positions.
    fn as_mut_slice<'a>(self, mem: &'a mut Vec<T>, len: usize) -> (r: &'a mut [T])
        requires
            self.addr() + len <= old(mem)@.len(),
        ensures
            r@ == old(mem)@.subrange(self.addr() as int, self.addr() + len),
            final(mem)@ == old(mem)@.subrange(0, self.addr() as int) + final(r)@ + old(mem)@.subrange(self.addr() + len, old(mem)@.len() as int),
    ;

    /// Stores `src` at this address, without reading what was there.
    fn write(self, mem: &mut Vec<T>, src: T)
        requires
            self.addr() < old(mem)@.len(),
        ensures
            final(mem)@ == old(mem)@.update(self.addr() as int, src),
    ;

    /// Sets every byte of the `count` elements starting at this address to `byte`.
    fn write_bytes(self, mem: &mut Vec<T>, byte: u8, count: usize) where T: ByteFill
        requires
            self.addr() + count <= old(mem)@.len(),
        ensures
            final(mem)@ == filled(old(mem)@, self.addr() as int, count as int, T::spec_repeat_byte(byte)),
    ;

    /// Exchanges the elements at this address and at `y`, which may be equal.
    fn swap(self, mem: &mut Vec<T>, y: MutPtr<T>)
        requires
            self.addr() < old(mem)@.len(),
            y.addr < old(mem)@.len(),
        ensures
            final(mem)@ == swapped(old(mem)@, self.addr() as int, y.addr as int),
    ;

    /// Stores `src` at this address and returns what was there before.
    fn replace(self, mem: &mut Vec<T>, src: T) -> (r: T)
        requires
            self.addr() < old(mem)@.len(),
        ensures
            r == old(mem)@[self.addr() as int],
            final(mem)@ == old(mem)@.update(self.addr() as int, src),
    ;
}

impl<T: Copy> RawPtrExt<T> for ConstPtr<T> {
    open spec fn addr(&self) -> nat {
        self.addr as nat
    }

    open spec fn offset(&self, delta: int) -> Self {
        Self::at(self.addr + delta)
    }

    fn as_raw_slice(self, len: usize) -> (r: ConstRegion<T>) {
        ConstRegion { ptr: self, len }
    }

    fn as_slice<'a>(self, mem: &'a Vec<T>, len: usize) -> (r: &'a [T]) {
        proof {
            lemma_len_fits(&*mem);
        }
        slice_subrange(mem.as_slice(), self.addr, self.addr + len)
    }

    fn add(self, count: usize) -> (r: Self) {
        ConstPtr { addr: self.addr + count, marker: PhantomData }
    }

    fn sub(self, count: usize) -> (r: Self) {
        ConstPtr { addr: self.addr - count, marker: PhantomData }
    }

    fn read(self, mem: &Vec<T>) -> (r: T) {
        mem[self.addr]
    }

    fn copy(self, mem: &mut Vec<T>, dest: MutPtr<T>, count: usize) {
        move_elements(mem, self.addr, dest.addr, count);
    }

    fn copy_nonoverlapping(self, mem: &mut Vec<T>, dest: MutPtr<T>, count: usize) {
        move_elements(mem, self.addr, dest.addr, count);
    }
}

impl<T: Copy> RawPtrExt<T> for MutPtr<T> {
    open spec fn addr(&self) -> nat {
        self.addr as nat
    }

    open spec fn offset(&self, delta: int) -> Self {
        Self::at(self.addr + delta)
    }

    fn as_raw_slice(self, len: usize) -> (r: ConstRegion<T>) {
        ConstRegion { ptr: self.as_const(), len }
    }

    fn as_slice<'a>(self, mem: &'a Vec<T>, len: usize) -> (r: &'a [T]) {
        proof {
            lemma_len_fits(&*mem);
        }
        slice_subrange(mem.as_slice(), self.addr, self.addr + len)
    }

    fn add(self, count: usize) -> (r: Self) {
        MutPtr { addr: self.addr + count, marker: PhantomData }
    }

    fn sub(self, count: usize) -> (r: Self) {
        MutPtr { addr: self.addr - count, marker: PhantomData }
    }

    fn read(self, mem: &Vec<T>) -> (r: T) {
        mem[self.addr]
    }

    fn copy(self, mem: &mut Vec<T>, dest: MutPtr<T>, count: usize) {
        move_elements(mem, self.addr, dest.addr, count);
    }

    fn copy_nonoverlapping(self, mem: &mut Vec<T>, dest: MutPtr<T>, count: usize) {
        move_elements(mem, self.addr, dest.addr, count);
    }
}

impl<T: Copy> RawMutPtrExt<T> for MutPtr<T> {
    fn as_raw_mut_slice(self, len: usize) -> (r: MutRegion<T>) {
        MutRegion { ptr: self, len }
    }

    fn as_mut_slice<'a>(self, mem: &'a mut Vec<T>, len: usize) -> (r: &'a mut [T]) {
        let whole = mem.as_mut_slice();
        let (_, rest) = whole.split_at_mut(self.addr);
        let (mid, _) = rest.split_at_mut(len);
        mid
    }

    fn write(self, mem: &mut Vec<T>, src: T) {
        mem[self.addr] = src;
    }

    fn write_bytes(self, mem: &mut Vec<T>, byte: u8, count: usize) where T: ByteFill {
        fill_elements(mem, self.addr, count, T::repeat_byte(byte));
    }

    fn swap(self, mem: &mut Vec<T>, y: MutPtr<T>) {
        let a = mem[self.addr];
        let b = mem[y.addr];
        mem[self.addr] = b;
        mem[y.addr] = a;
    }

    fn replace(self, mem: &mut Vec<T>, src: T) -> (r: T) {
        let old_value = mem[self.addr];
        mem[self.addr] = src;
        old_value
    }
}

} // verus!
