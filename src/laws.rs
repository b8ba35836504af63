//! Properties that hold across several operations, stated over the models
//! that the operations' contracts use.

use vstd::prelude::*;
use crate::memory::{swapped, ByteFill};
use crate::rawptr::{ConstPtr, MutPtr, RawPtrExt};
use crate::rawslice::{ConstRegion, MutRegion, RawSlice};

verus! {

/// Viewing a whole vector as a region (`as_raw` or `as_mut_raw`) and reading
/// that region back as a slice (`as_slice`) gives the vector's elements,
/// unchanged and in order.
pub proof fn lemma_round_trip<T: Copy>(v: &Vec<T>)
    ensures
        ({
            let r = ConstRegion::<T>::span(0, v@.len() as int);
            v@.subrange(r.base() as int, (r.base() + r.length()) as int) == v@
        }),
        ({
            let r = MutRegion::<T>::span(0, v@.len() as int);
            v@.subrange(r.base() as int, (r.base() + r.length()) as int) == v@
        }),
{
    assert(v@.len() == v.len());
    assert(v@.subrange(0, v@.len() as int) =~= v@);
}

/// Moving an address `n` elements on and then `n` elements back returns to
/// the position it started from.
pub proof fn lemma_add_then_sub<T: Copy>(p: ConstPtr<T>, q: MutPtr<T>, n: nat)
    requires
        p.addr() + n <= usize::MAX,
        q.addr() + n <= usize::MAX,
    ensures
        p.offset(n as int).offset(-n).addr() == p.addr(),
        q.offset(n as int).offset(-n).addr() == q.addr(),
{
}

/// After a value is stored at a position (by `write` or `replace`), reading
/// that position gives the value, and every other position keeps its element.
pub proof fn lemma_write_then_read<T>(mem: Seq<T>, a: int, v: T)
    requires
        0 <= a < mem.len(),
    ensures
        mem.update(a, v)[a] == v,
        forall|i: int| 0 <= i < mem.len() && i != a ==> #[trigger] mem.update(a, v)[i] == mem[i],
{
}

/// Swapping two positions puts each one's element at the other, and swapping
/// a position with itself changes nothing.
pub proof fn lemma_swap<T>(mem: Seq<T>, a: int, b: int)
    requires
        0 <= a < mem.len(),
        0 <= b < mem.len(),
    ensures
        swapped(mem, a, b)[a] == mem[b],
        swapped(mem, a, b)[b] == mem[a],
        swapped(mem, a, a) == mem,
{
    assert(swapped(mem, a, a) =~= mem);
}

/// Slicing a region from `from` to `to` gives a region of `to - from` elements
/// starting `from` places in; slicing up to `k` is slicing from 0 to `k`, and
/// slicing from `k` is slicing from `k` to the declared length.
pub proof fn lemma_slicing<T: Copy>(r: ConstRegion<T>, m: MutRegion<T>, from: int, to: int)
    requires
        0 <= from <= to <= r.length(),
        0 <= from <= to <= m.length(),
        r.base() + from <= usize::MAX,
        m.base() + from <= usize::MAX,
    ensures
        r.spec_slice(from, to).length() == to - from,
        r.spec_slice(from, to).base() == r.base() + from,
        m.spec_slice(from, to).length() == to - from,
        m.spec_slice(from, to).base() == m.base() + from,
        r.spec_slice(0, to) == ConstRegion::<T>::span(r.base() as int, to),
        r.spec_slice(from, r.length() as int) == ConstRegion::<T>::span(r.base() + from, r.length() - from),
        m.spec_slice(0, to) == MutRegion::<T>::span(m.base() as int, to),
        m.spec_slice(from, m.length() as int) == MutRegion::<T>::span(m.base() + from, m.length() - from),
{
}

/// Filling with the zero byte gives the element zero, for every integer
/// element type.
pub proof fn lemma_zero_fill()
    ensures
        u8::spec_repeat_byte(0) == 0,
        u16::spec_repeat_byte(0) == 0,
        u32::spec_repeat_byte(0) == 0,
        u64::spec_repeat_byte(0) == 0,
        i8::spec_repeat_byte(0) == 0,
        i16::spec_repeat_byte(0) == 0,
        i32::spec_repeat_byte(0) == 0,
        i64::spec_repeat_byte(0) == 0,
{
}

} // verus!
