use rawmem::memory::ByteFill;
use rawmem::rawptr::{ConstPtr, MutPtr, RawMutPtrExt, RawPtrExt};
use rawmem::rawslice::{RawMutSlice, RawSlice, SliceRawExt};

#[test]
fn test_arithmetic() {
    let mut x = vec![1, 2, 3, 4];
    let y = x.as_raw().as_ptr();
    assert_eq!(y.read(&x), 1);
    assert_eq!(y.add(2).read(&x), 3);
    assert_eq!(y.add(2).sub(1).read(&x), 2);

    let y = x.as_mut_raw().as_mut_ptr();
    assert_eq!(y.read(&x), 1);
    assert_eq!(y.add(2).read(&x), 3);
    assert_eq!(y.add(2).sub(1).read(&x), 2);
}

#[test]
fn test_read_write() {
    let mut mem = vec![1];
    let x = mem.as_mut_raw().as_mut_ptr();
    assert_eq!(x.read(&mem), 1);
    x.write(&mut mem, 2);
    assert_eq!(x.read(&mem), 2);
    x.write_bytes(&mut mem, 0, 1);
    assert_eq!(x.read(&mem), 0);
}

#[test]
fn test_copy() {
    // x occupies positions 0..4 and y positions 4..8 of one block.
    let mut mem = vec![1, 2, 3, 4, 5, 6, 7, 8];
    let whole = mem.as_mut_raw();
    let x = whole.slice(0, 4);
    let y = whole.as_const().slice(4, 8);
    let xptr = x.as_mut_ptr();
    let yptr = y.as_ptr();

    xptr.add(1).copy(&mut mem, xptr, 2);
    assert_eq!(x.as_slice(&mem), &[2, 3, 3, 4]);
    yptr.copy_nonoverlapping(&mut mem, xptr, 4);
    assert_eq!(x.as_slice(&mem), y.as_slice(&mem));
    assert_eq!(x.as_slice(&mem), &[5, 6, 7, 8]);
}

#[test]
fn test_swap_replace() {
    let mut mem = vec![1, 2];
    let x = MutPtr::<i32>::new(0);
    let y = MutPtr::<i32>::new(1);
    x.swap(&mut mem, y);
    assert_eq!(x.read(&mem), 2);
    assert_eq!(y.read(&mem), 1);

    x.replace(&mut mem, 3);
    assert_eq!(x.read(&mem), 3);
}

#[test]
fn replace_returns_previous_value() {
    let mut mem = vec![10, 20, 30];
    let p = MutPtr::<i32>::new(1);
    let prev = p.replace(&mut mem, 99);
    assert_eq!(prev, 20);
    assert_eq!(mem, vec![10, 99, 30]);
}

#[test]
fn swap_with_itself_changes_nothing() {
    let mut mem = vec![7, 8];
    let p = MutPtr::<i32>::new(1);
    p.swap(&mut mem, p);
    assert_eq!(mem, vec![7, 8]);
}

#[test]
fn overlapping_copy_to_a_later_position() {
    let mut mem = vec![1, 2, 3, 4];
    let p = ConstPtr::<i32>::new(0);
    p.copy(&mut mem, MutPtr::new(1), 2);
    assert_eq!(mem, vec![1, 1, 2, 4]);
}

#[test]
fn copy_of_zero_elements_changes_nothing() {
    let mut mem = vec![1, 2, 3];
    ConstPtr::<i32>::new(0).copy(&mut mem, MutPtr::new(2), 0);
    assert_eq!(mem, vec![1, 2, 3]);
}

#[test]
fn pointer_views_as_slices() {
    let mut mem = vec![1u8, 2, 3, 4, 5];
    let p = ConstPtr::<u8>::new(1);
    assert_eq!(p.as_slice(&mem, 3), &[2, 3, 4]);
    let r = p.as_raw_slice(2);
    assert_eq!(r.len(), 2);
    assert_eq!(r.as_slice(&mem), &[2, 3]);

    let q = MutPtr::<u8>::new(2);
    {
        let view = q.as_mut_slice(&mut mem, 2);
        view[0] = 30;
        view[1] = 40;
    }
    assert_eq!(mem, vec![1, 2, 30, 40, 5]);
    let m = q.as_raw_mut_slice(3);
    assert_eq!(m.as_slice(&mem), &[30, 40, 5]);
    assert_eq!(q.as_const().read(&mem), 30);
}

#[test]
fn write_bytes_repeats_the_byte_in_every_element() {
    let mut mem = vec![0u32, 0, 0];
    MutPtr::<u32>::new(1).write_bytes(&mut mem, 0x01, 2);
    assert_eq!(mem, vec![0, 0x0101_0101, 0x0101_0101]);

    let mut words = vec![5i16, 6];
    MutPtr::<i16>::new(0).write_bytes(&mut words, 0xff, 1);
    assert_eq!(words, vec![-1, 6]);
}

#[test]
fn repeat_byte_per_type() {
    assert_eq!(u8::repeat_byte(0xab), 0xab);
    assert_eq!(u16::repeat_byte(0xab), 0xabab);
    assert_eq!(u32::repeat_byte(0x12), 0x1212_1212);
    assert_eq!(u64::repeat_byte(0x7f), 0x7f7f_7f7f_7f7f_7f7f);
    assert_eq!(i8::repeat_byte(0x80), -128);
    assert_eq!(i32::repeat_byte(0xff), -1);
    assert_eq!(i64::repeat_byte(0), 0);
}
