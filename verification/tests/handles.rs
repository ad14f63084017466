use cpp_ref::memory::ForeignMemory;
use cpp_ref::reference_wrapper::{Const, CppRef, Mut};

#[test]
fn copies_read_the_same_value() {
    let mut mem: ForeignMemory<u64> = ForeignMemory::new();
    let a = mem.allocate(7);
    let h: CppRef<Const, u64> = CppRef::new(a);
    let c1 = h.clone();
    let c2 = c1.clone();
    let c3 = c2;
    assert_eq!(*h.as_ref(&mem), 7);
    assert_eq!(*c1.as_ref(&mem), 7);
    assert_eq!(*c2.as_ref(&mem), 7);
    assert_eq!(*c3.as_ref(&mem), 7);
}

#[test]
fn write_is_seen_by_every_alias() {
    let mut mem: ForeignMemory<i32> = ForeignMemory::new();
    let a = mem.allocate(-5);
    let w: CppRef<Mut, i32> = CppRef::new(a);
    let w_copy = w.clone();
    let r: CppRef<Const, i32> = CppRef::new(a);
    *w.as_mut(&mut mem) = 99;
    assert_eq!(*w_copy.as_ref(&mem), 99);
    assert_eq!(*r.as_ref(&mem), 99);
    assert_eq!(*w.as_ref(&mem), 99);
}

#[test]
fn clone_leaves_the_original_unchanged() {
    let mut mem: ForeignMemory<u8> = ForeignMemory::new();
    let a = mem.allocate(1);
    let h: CppRef<Mut, u8> = CppRef::new(a);
    let before = h.address();
    let copy = h.clone();
    assert_eq!(h.address(), before);
    assert_eq!(copy.address(), before);
}

#[test]
fn mutable_write_then_read_only_read() {
    let mut mem: ForeignMemory<i64> = ForeignMemory::new();
    let a = mem.allocate(10);
    let writer: CppRef<Mut, i64> = CppRef::new(a);
    *writer.as_mut(&mut mem) = 42;
    let reader: CppRef<Const, i64> = CppRef::new(a);
    assert_eq!(*reader.as_ref(&mem), 42);
}

#[test]
fn read_only_handle_over_a_string() {
    let mut mem: ForeignMemory<String> = ForeignMemory::new();
    let a = mem.allocate(String::from("abc"));
    let h: CppRef<Const, String> = CppRef::new(a);
    assert_eq!(h.as_ref(&mem), "abc");
}

#[test]
fn addresses_come_out_in_order() {
    let mut mem: ForeignMemory<u32> = ForeignMemory::new();
    assert_eq!(mem.len(), 0);
    let a0 = mem.allocate(100);
    let a1 = mem.allocate(200);
    let a2 = mem.allocate(300);
    assert_eq!((a0, a1, a2), (0, 1, 2));
    assert_eq!(mem.len(), 3);
    assert_eq!(*mem.borrow_at(a1), 200);
}

#[test]
fn distinct_addresses_stay_independent() {
    let mut mem: ForeignMemory<u16> = ForeignMemory::new();
    let a = mem.allocate(1);
    let b = mem.allocate(2);
    let ha: CppRef<Mut, u16> = CppRef::new(a);
    let hb: CppRef<Const, u16> = CppRef::new(b);
    *ha.as_mut(&mut mem) = 11;
    assert_eq!(*hb.as_ref(&mem), 2);
    assert_eq!(*ha.as_ref(&mem), 11);
}

#[test]
fn new_keeps_the_given_address() {
    let h: CppRef<Const, u64> = CppRef::new(5);
    assert_eq!(h.address(), 5);
    let m: CppRef<Mut, u64> = CppRef::new(5);
    assert_eq!(m.address(), 5);
}
