//! The model of memory shared by the address and region operations: what a
//! bulk copy, a fill and a swap do to the elements of a block, and the
//! element-level routines that carry them out.

use vstd::prelude::*;

verus! {

/// Two spans of `count` elements, starting at `a` and at `b`, share no element.
pub open spec fn disjoint(a: int, b: int, count: int) -> bool {
    a + count <= b || b + count <= a
}

/// The block `mem` after `count` elements starting at `src` have been moved
/// to `dst`. Every moved element is taken from `mem` as it was before the
/// move, so the result is the same whether or not the two spans overlap.
pub open spec fn copied<T>(mem: Seq<T>, src: int, dst: int, count: int) -> Seq<T> {
    Seq::new(
        mem.len(),
        |i: int|
            if dst <= i < dst + count {
                mem[src + (i - dst)]
            } else {
                mem[i]
            },
    )
}

/// The block `mem` with the `count` elements starting at `start` set to `v`.
pub open spec fn filled<T>(mem: Seq<T>, start: int, count: int, v: T) -> Seq<T> {
    Seq::new(mem.len(), |i: int| if start <= i < start + count { v } else { mem[i] })
}

/// The block `mem` with the elements at `a` and `b` exchanged.
pub open spec fn swapped<T>(mem: Seq<T>, a: int, b: int) -> Seq<T> {
    mem.update(a, mem[b]).update(b, mem[a])
}

/// Element types whose every byte may be set to the same value, as a fill of
/// memory with a repeated byte does.
pub trait ByteFill: Copy {
    /// The element whose bytes all equal `byte`.
    spec fn spec_repeat_byte(byte: u8) -> Self;

    /// Builds the element whose bytes all equal `byte`.
    fn repeat_byte(byte: u8) -> (r: Self)
        ensures
            r == Self::spec_repeat_byte(byte),
    ;
}

impl ByteFill for u8 {
    open spec fn spec_repeat_byte(byte: u8) -> u8 {
        byte
    }

    fn repeat_byte(byte: u8) -> (r: u8) {
        byte
    }
}

impl ByteFill for u16 {
    open spec fn spec_repeat_byte(byte: u8) -> u16 {
        (byte as u16 * 0x0101u16) as u16
    }

    fn repeat_byte(byte: u8) -> (r: u16) {
        byte as u16 * 0x0101u16
    }
}

impl ByteFill for u32 {
    open spec fn spec_repeat_byte(byte: u8) -> u32 {
        (byte as u32 * 0x0101_0101u32) as u32
    }

    fn repeat_byte(byte: u8) -> (r: u32) {
        byte as u32 * 0x0101_0101u32
    }
}

impl ByteFill for u64 {
    open spec fn spec_repeat_byte(byte: u8) -> u64 {
        (byte as u64 * 0x0101_0101_0101_0101u64) as u64
    }

    fn repeat_byte(byte: u8) -> (r: u64) {
        byte as u64 * 0x0101_0101_0101_0101u64
    }
}

impl ByteFill for i8 {
    open spec fn spec_repeat_byte(byte: u8) -> i8 {
        byte as i8
    }

    fn repeat_byte(byte: u8) -> (r: i8) {
        byte as i8
    }
}

impl ByteFill for i16 {
    open spec fn spec_repeat_byte(byte: u8) -> i16 {
        u16::spec_repeat_byte(byte) as i16
    }

    fn repeat_byte(byte: u8) -> (r: i16) {
        u16::repeat_byte(byte) as i16
    }
}

impl ByteFill for i32 {
    open spec fn spec_repeat_byte(byte: u8) -> i32 {
        u32::spec_repeat_byte(byte) as i32
    }

    fn repeat_byte(byte: u8) -> (r: i32) {
        u32::repeat_byte(byte) as i32
    }
}

impl ByteFill for i64 {
    open spec fn spec_repeat_byte(byte: u8) -> i64 {
        u64::spec_repeat_byte(byte) as i64
    }

    fn repeat_byte(byte: u8) -> (r: i64) {
        u64::repeat_byte(byte) as i64
    }
}

/// A vector holds at most `usize::MAX` elements.
pub(crate) proof fn lemma_len_fits<T>(mem: &Vec<T>)
    ensures
        mem@.len() <= usize::MAX,
{
    assert(mem@.len() == mem.len());
}

/// Moves `count` elements of `mem` from `src` to `dst`; the spans may overlap.
pub(crate) fn move_elements<T: Copy>(mem: &mut Vec<T>, src: usize, dst: usize, count: usize)
    requires
        src + count <= old(mem)@.len(),
        dst + count <= old(mem)@.len(),
    ensures
        final(mem)@ == copied(old(mem)@, src as int, dst as int, count as int),
{
    let len = mem.len();
    if dst <= src {
        // Front to back: the source elements still to be read lie at or after
        // `src + i`, past every position written so far.
        let mut i: usize = 0;
        while i < count
            invariant
                dst <= src,
                i <= count,
                src + count <= old(mem)@.len(),
                dst + count <= old(mem)@.len(),
                mem@.len() == old(mem)@.len(),
                mem@.len() == len,
                forall|k: int|
                    #![trigger mem@[k]]
                    0 <= k < mem@.len() ==> mem@[k] == (if dst <= k < dst + i {
                        old(mem)@[src + (k - dst)]
                    } else {
                        old(mem)@[k]
                    }),
            decreases count - i,
        {
            let v = mem[src + i];
            mem[dst + i] = v;
            i = i + 1;
        }
    } else {
        // Back to front: the source elements still to be read lie before
        // `src + i`, ahead of every position written so far.
        let mut i: usize = count;
        while i > 0
            invariant
                src < dst,
                i <= count,
                src + count <= old(mem)@.len(),
                dst + count <= old(mem)@.len(),
                mem@.len() == old(mem)@.len(),
                mem@.len() == len,
                forall|k: int|
                    #![trigger mem@[k]]
                    0 <= k < mem@.len() ==> mem@[k] == (if dst + i <= k < dst + count {
                        old(mem)@[src + (k - dst)]
                    } else {
                        old(mem)@[k]
                    }),
            decreases i,
        {
            i = i - 1;
            let v = mem[src + i];
            mem[dst + i] = v;
        }
    }
    assert(mem@ =~= copied(old(mem)@, src as int, dst as int, count as int));
}

/// Sets the `count` elements of `mem` starting at `start` to `v`.
pub(crate) fn fill_elements<T: Copy>(mem: &mut Vec<T>, start: usize, count: usize, v: T)
    requires
        start + count <= old(mem)@.len(),
    ensures
        final(mem)@ == filled(old(mem)@, start as int, count as int, v),
{
    let len = mem.len();
    let mut i: usize = 0;
    while i < count
        invariant
            i <= count,
            mem@.len() == len,
            start + count <= old(mem)@.len(),
            mem@.len() == old(mem)@.len(),
            forall|k: int|
                #![trigger mem@[k]]
                0 <= k < mem@.len() ==> mem@[k] == (if start <= k < start + i {
                    v
                } else {
                    old(mem)@[k]
                }),
        decreases count - i,
    {
        mem[start + i] = v;
        i = i + 1;
    }
    assert(mem@ =~= filled(old(mem)@, start as int, count as int, v));
}

} // verus!
