//! The declarations that the layout compiler emits for three interfaces,
//! written out by hand, and calls through the tables that they build.

use vtable_rs::{vmt_instance, VPtr, VmtInstance, VmtLayout};

struct LtStruct<'a> {
    _data: &'a [u8],
}

pub trait Test: 'static {
    fn returns_ref_implicit(&self) -> &u32;
    fn returns_lt_bound_struct(&self) -> LtStruct<'_>;
    fn returns_ref_complex<'a, 'b>(&'a self, other: &'b u32) -> &'a u32;
}

pub struct TestLayout<T: 'static> {
    returns_ref_implicit: for<> fn(this: &T) -> &u32,
    returns_lt_bound_struct: for<> fn(this: &T) -> LtStruct<'_>,
    returns_ref_complex: for<'a, 'b> fn(this: &'a T, other: &'b u32) -> &'a u32,
}

impl<T> Clone for TestLayout<T> {
    fn clone(&self) -> Self {
        Self {
            returns_ref_implicit: self.returns_ref_implicit,
            returns_lt_bound_struct: self.returns_lt_bound_struct,
            returns_ref_complex: self.returns_ref_complex,
        }
    }
}

impl<T> Copy for TestLayout<T> {}

impl<T: 'static> VmtLayout<T> for dyn Test {
    type Layout = TestLayout<T>;
}

impl<T: Test> VmtInstance<T> for dyn Test {
    const VTABLE: &'static Self::Layout = &TestLayout {
        returns_ref_implicit: <T as Test>::returns_ref_implicit,
        returns_lt_bound_struct: <T as Test>::returns_lt_bound_struct,
        returns_ref_complex: <T as Test>::returns_ref_complex,
    };
}

pub trait Base: 'static {
    fn a(&self, arg1: u32) -> bool {
        let _ = arg1;
        false
    }
    fn b(&self, arg1: &[u8], arg2: u32) -> bool;
}

pub struct BaseLayout<T: 'static> {
    a: fn(this: &T, arg1: u32) -> bool,
    b: fn(this: &T, arg1: &[u8], arg2: u32) -> bool,
}

impl<T> Clone for BaseLayout<T> {
    fn clone(&self) -> Self {
        Self { a: self.a, b: self.b }
    }
}

impl<T> Copy for BaseLayout<T> {}

impl<T: 'static> VmtLayout<T> for dyn Base {
    type Layout = BaseLayout<T>;
}

impl<T: Base> VmtInstance<T> for dyn Base {
    const VTABLE: &'static Self::Layout = &BaseLayout { a: <T as Base>::a, b: <T as Base>::b };
}

pub(crate) trait Derived: Base + 'static {
    fn c(&mut self) -> usize;
}

pub(crate) struct DerivedLayout<T: 'static> {
    _base: <dyn Base as VmtLayout<T>>::Layout,
    c: fn(this: &mut T) -> usize,
}

impl<T> Clone for DerivedLayout<T> {
    fn clone(&self) -> Self {
        Self { _base: self._base, c: self.c }
    }
}

impl<T> Copy for DerivedLayout<T> {}

impl<T: 'static> core::ops::Deref for DerivedLayout<T> {
    type Target = <dyn Base as VmtLayout<T>>::Layout;

    fn deref(&self) -> &Self::Target {
        &self._base
    }
}

impl<T: 'static> core::ops::DerefMut for DerivedLayout<T> {
    fn deref_mut(&mut self) -> &mut Self::Target {
        &mut self._base
    }
}

impl<T: 'static> VmtLayout<T> for dyn Derived {
    type Layout = DerivedLayout<T>;
}

impl<T: Derived> VmtInstance<T> for dyn Derived {
    const VTABLE: &'static Self::Layout =
        &DerivedLayout { _base: *<dyn Base as VmtInstance<T>>::VTABLE, c: <T as Derived>::c };
}

#[derive(Default)]
struct DerivedImpl {
    // VPtr<dyn T, Self: T> supports `Default`, so the table that was built
    // at compile time is handed to the object without more ado.
    vftable: VPtr<dyn Derived, Self>,
}

impl Base for DerivedImpl {
    fn a(&self, arg1: u32) -> bool {
        arg1 == 42
    }

    fn b(&self, _arg1: &[u8], _arg2: u32) -> bool {
        false
    }
}

impl Derived for DerivedImpl {
    fn c(&mut self) -> usize {
        1234
    }
}

/// An implementer that keeps the default body of `a`.
struct Plain {
    vftable: VPtr<dyn Base, Self>,
    seen: u32,
}

impl Base for Plain {
    fn b(&self, arg1: &[u8], arg2: u32) -> bool {
        arg1.len() == 3 && arg2 == self.seen
    }
}

struct Holder {
    value: u32,
    other: u32,
}

impl Test for Holder {
    fn returns_ref_implicit(&self) -> &u32 {
        &self.value
    }

    fn returns_lt_bound_struct(&self) -> LtStruct<'_> {
        LtStruct { _data: b"xyz" }
    }

    fn returns_ref_complex<'a, 'b>(&'a self, other: &'b u32) -> &'a u32 {
        if *other == 0 {
            &self.value
        } else {
            &self.other
        }
    }
}

fn always(_this: &Plain, _arg1: u32) -> bool {
    true
}

#[test]
fn default_derived_impls_correct() {
    let mut d = DerivedImpl::default();

    let _vmt_copy = d.vftable;

    assert_eq!(d.a(42), (d.vftable.a)(&d, 42));

    let s = b"abc";
    let ptr: &[u8] = s;
    assert_eq!(d.b(ptr, 420), (d.vftable.b)(&d, ptr, 420));

    assert_eq!(d.c(), (d.vftable.c)(&mut d))
}

#[test]
fn calls_through_the_table_give_the_expected_values() {
    let mut d = DerivedImpl::default();
    let s = b"abc";
    assert!(d.a(42));
    assert!((d.vftable.a)(&d, 42));
    assert!(!(d.vftable.a)(&d, 41));
    assert!(!(d.vftable.b)(&d, s, 420));
    let c = d.vftable.c;
    assert_eq!(c(&mut d), 1234);
}

#[test]
fn default_body_is_reached_through_the_table() {
    let p = Plain { vftable: VPtr::new(), seen: 7 };
    assert!(!p.a(42));
    assert_eq!(p.a(42), (p.vftable.a)(&p, 42));
    assert!((p.vftable.b)(&p, b"abc", 7));
    assert!(!(p.vftable.b)(&p, b"abc", 8));
    assert_eq!(p.b(b"ab", 7), (p.vftable.b)(&p, b"ab", 7));
}

#[test]
fn methods_with_lifetimes_are_called_through_the_table() {
    let h = Holder { value: 5, other: 9 };
    let table: VPtr<dyn Test, Holder> = VPtr::new();
    assert_eq!(*(table.returns_ref_implicit)(&h), 5);
    assert_eq!((table.returns_lt_bound_struct)(&h)._data, b"xyz");
    assert_eq!(*(table.returns_ref_complex)(&h, &0), 5);
    assert_eq!(*(table.returns_ref_complex)(&h, &1), 9);
    assert_eq!(h.returns_ref_complex(&1), (table.returns_ref_complex)(&h, &1));
}

#[test]
fn new_and_default_point_to_the_same_table() {
    let a: VPtr<dyn Derived, DerivedImpl> = VPtr::new();
    let b: VPtr<dyn Derived, DerivedImpl> = VPtr::default();
    let direct = vmt_instance::<dyn Derived, DerivedImpl>();
    assert_eq!(a.c as usize, b.c as usize);
    assert_eq!(a.a as usize, b.a as usize);
    assert_eq!(a.b as usize, b.b as usize);
    assert_eq!(a.c as usize, direct.c as usize);
    assert_eq!(a.a as usize, direct.a as usize);
    let again = vmt_instance::<dyn Derived, DerivedImpl>();
    assert_eq!(direct.c as usize, again.c as usize);
    assert_eq!(direct.b as usize, again.b as usize);
}

#[test]
fn every_access_gives_the_table_at_the_same_address() {
    let first = vmt_instance::<dyn Derived, DerivedImpl>();
    for _ in 0..3 {
        assert!(core::ptr::eq(first, vmt_instance::<dyn Derived, DerivedImpl>()));
    }
    let pointers: Vec<VPtr<dyn Base, Plain>> = (0..3).map(|_| VPtr::new()).collect();
    let tables: Vec<&BaseLayout<Plain>> = pointers.iter().map(|p| **p).collect();
    assert!(core::ptr::eq(tables[0], tables[1]));
    assert!(core::ptr::eq(tables[1], tables[2]));
}

#[test]
fn copies_of_a_pointer_point_to_the_same_table() {
    let a: VPtr<dyn Base, Plain> = VPtr::new();
    let b = a;
    let c = a.clone();
    assert_eq!(a.a as usize, b.a as usize);
    assert_eq!(a.b as usize, b.b as usize);
    assert_eq!(a.a as usize, c.a as usize);
    assert_eq!(a.b as usize, c.b as usize);
}

#[test]
fn pointer_is_one_pointer_wide() {
    assert_eq!(
        core::mem::size_of::<VPtr<dyn Derived, DerivedImpl>>(),
        core::mem::size_of::<usize>()
    );
    assert_eq!(core::mem::size_of::<DerivedImpl>(), core::mem::size_of::<usize>());
}

#[test]
fn derived_table_is_no_smaller_than_base_table() {
    let base = core::mem::size_of::<BaseLayout<DerivedImpl>>();
    let derived = core::mem::size_of::<DerivedLayout<DerivedImpl>>();
    assert!(derived >= base);
    assert_eq!(base, 2 * core::mem::size_of::<usize>());
    assert_eq!(derived, 3 * core::mem::size_of::<usize>());
}

#[test]
fn derived_table_holds_the_base_table_of_the_same_implementer() {
    let derived = vmt_instance::<dyn Derived, DerivedImpl>();
    let base = vmt_instance::<dyn Base, DerivedImpl>();
    assert_eq!(derived._base.a as usize, base.a as usize);
    assert_eq!(derived._base.b as usize, base.b as usize);
    let through_deref: &BaseLayout<DerivedImpl> = derived;
    assert_eq!(through_deref.a as usize, base.a as usize);
}

#[test]
fn pointer_can_be_repointed_through_deref_mut() {
    let other: &'static BaseLayout<Plain> =
        Box::leak(Box::new(BaseLayout { a: always, b: <Plain as Base>::b }));
    let mut p = Plain { vftable: VPtr::new(), seen: 1 };
    assert!(!(p.vftable.a)(&p, 1));
    *p.vftable = other;
    assert!((p.vftable.a)(&p, 1));
}
