use rawmem::rawptr::RawPtrExt;
use rawmem::rawslice::{RawMutSlice, RawSlice, SliceRawExt};

#[test]
fn round_trip_gives_the_container_back() {
    let mut v = vec![3, 1, 4, 1, 5];
    let r = v.as_raw();
    assert_eq!(r.len(), 5);
    assert_eq!(r.as_slice(&v), &[3, 1, 4, 1, 5]);
    let m = v.as_mut_raw();
    assert_eq!(m.as_slice(&v), v.as_slice());

    let empty: Vec<u8> = Vec::new();
    assert_eq!(empty.as_raw().as_slice(&empty), &[] as &[u8]);
}

#[test]
fn slice_of_region() {
    let v = vec![1, 2, 3, 4];
    let r = v.as_raw();
    let s = r.slice(1, 3);
    assert_eq!(s.len(), 2);
    assert_eq!(s.as_slice(&v), &[2, 3]);
    assert_eq!(s.as_ptr().addr, 1);
}

#[test]
fn slice_to_and_slice_from() {
    let v = vec![1, 2, 3, 4];
    let r = v.as_raw();
    let a = r.slice_to(3);
    let b = r.slice(0, 3);
    assert_eq!(a.len(), b.len());
    assert_eq!(a.as_ptr().addr, b.as_ptr().addr);
    assert_eq!(a.as_slice(&v), &[1, 2, 3]);

    let c = r.slice_from(1);
    let d = r.slice(1, r.len());
    assert_eq!(c.len(), d.len());
    assert_eq!(c.as_ptr().addr, d.as_ptr().addr);
    assert_eq!(c.as_slice(&v), &[2, 3, 4]);

    let e = r.slice(2, 2);
    assert_eq!(e.len(), 0);
    assert_eq!(r.slice_from(4).len(), 0);
}

#[test]
fn mutable_slicing() {
    let mut v = vec![1, 2, 3, 4];
    let m = v.as_mut_raw();
    let s = m.slice_from(2);
    s.write(&mut v, 0, 30);
    assert_eq!(v, vec![1, 2, 30, 4]);
    let t = m.slice_to(1);
    assert_eq!(t.len(), 1);
    assert_eq!(t.read(&v, 0), 1);
}

#[test]
fn index_ignores_the_declared_length() {
    let v = vec![10, 20, 30, 40];
    let r = v.as_raw().slice(1, 2);
    assert_eq!(r.len(), 1);
    assert_eq!(r.read(&v, 2), 40);
    assert_eq!(*r.get(&v, 1), 30);
}

#[test]
fn region_write_and_get_mut() {
    let mut v = vec![0, 0, 0, 0];
    let m = v.as_mut_raw().slice(1, 3);
    m.write(&mut v, 0, 5);
    *m.get_mut(&mut v, 1) = 6;
    assert_eq!(v, vec![0, 5, 6, 0]);
    assert_eq!(m.read(&v, 1), 6);
    assert_eq!(*m.get(&v, 0), 5);
}

#[test]
fn region_as_mut_slice_writes_through() {
    let mut v = vec![1, 2, 3, 4, 5];
    let m = v.as_mut_raw().slice(1, 4);
    {
        let view = m.as_mut_slice(&mut v);
        assert_eq!(view.len(), 3);
        view[2] = 9;
    }
    assert_eq!(v, vec![1, 2, 3, 9, 5]);
}

#[test]
fn write_bytes_zeroes_a_region() {
    let mut v = vec![1, 2, 3, 4];
    v.as_mut_raw().write_bytes(&mut v, 0);
    assert_eq!(v, vec![0, 0, 0, 0]);

    let mut w = vec![1u16, 2, 3, 4];
    w.as_mut_raw().slice(1, 3).write_bytes(&mut w, 0x02);
    assert_eq!(w, vec![1, 0x0202, 0x0202, 4]);
}

#[test]
fn region_copy_overlapping() {
    let mut v = vec![1, 2, 3, 4];
    let whole = v.as_mut_raw();
    let dest = whole.slice(0, 3);
    let src = whole.as_const().slice(1, 3);
    dest.copy(&mut v, src);
    assert_eq!(v, vec![2, 3, 3, 4]);

    let mut w = vec![1, 2, 3, 4];
    let whole = w.as_mut_raw();
    whole.slice_from(1).copy(&mut w, whole.as_const().slice(0, 3));
    assert_eq!(w, vec![1, 1, 2, 3]);
}

#[test]
fn region_copy_nonoverlapping_uses_the_source_length() {
    let mut v = vec![1, 2, 3, 4, 5, 6, 7, 8];
    let whole = v.as_mut_raw();
    let dest = whole.slice(0, 1);
    let src = whole.as_const().slice(4, 8);
    dest.copy_nonoverlapping(&mut v, src);
    assert_eq!(v, vec![5, 6, 7, 8, 5, 6, 7, 8]);
}
