use std::mem;

use wrs32::buf::Buf;

#[derive(Clone)]
struct X {
    a: i32,
    b: String,
    c: Box<i32>,
}

impl Default for X {
    fn default() -> Self {
        Self {
            a: Default::default(),
            b: Default::default(),
            c: Default::default(),
        }
    }
}

fn create_some_x() -> X {
    X {
        a: 123,
        b: "Hello".into(),
        c: Box::new(67),
    }
}

#[test]
fn sanity_value() {
    for size in [
        mem::size_of::<X>(),
        mem::size_of::<X>() * 3,
        mem::size_of::<X>() + 3,
    ] {
        let mut x = Buf::<X>::new_aligned(size, mem::align_of::<X>(), create_some_x());
        x.a = 55;
        assert!(x.a == 55);
        assert!(x.b == "Hello");
        assert!(*x.c == 67);
    }
}

#[test]
fn new_uses_alignment_of_value_type() {
    let b = Buf::<u64>::new(16, 7);
    assert_eq!(*b.as_ptr(), 7);
    assert_eq!(*b, 7);
}

#[test]
fn default_value_is_kept() {
    let b = Buf::<X>::new(mem::size_of::<X>(), X::default());
    assert_eq!(b.a, 0);
    assert_eq!(b.b, "");
    assert_eq!(*b.c, 0);
}

#[test]
fn write_through_deref_mut_is_read_back() {
    let mut b = Buf::<u32>::new_aligned(64, 16, 1);
    *b = 9;
    assert_eq!(*b.as_ptr(), 9);
    b.layout_rules();
}
