//! The vtable pointer: what an object holds to be called through its
//! constant table.
//!
//! An interface is a type `V`, most often `dyn Trait`; an implementer is a
//! type `T`. [`VmtLayout`] names the layout record of the pair, and
//! [`VmtInstance`] holds the one constant table that `T` has for `V`.

use vstd::prelude::*;

verus! {

/// The layout record of the interface `Self` for the implementer `T`: a
/// plain record of function pointers that is copied bit by bit.
pub trait VmtLayout<T: 'static>: 'static {
    type Layout: 'static + Copy;
}

/// The constant table of the implementer `T` for the interface `Self`.
pub trait VmtInstance<T: 'static>: 'static + VmtLayout<T> {
    const VTABLE: &'static Self::Layout;
}

/// A pointer to the table of `T` for the interface `V`. Its view is the
/// table that it points to.
pub struct VPtr<V: VmtLayout<T> + ?Sized, T: 'static>(&'static <V as VmtLayout<T>>::Layout);

impl<V: VmtLayout<T> + ?Sized, T: 'static> View for VPtr<V, T> {
    type V = <V as VmtLayout<T>>::Layout;

    closed spec fn view(&self) -> Self::V {
        *self.0
    }
}

impl<V: VmtLayout<T> + ?Sized, T: 'static> core::ops::Deref for VPtr<V, T> {
    type Target = &'static <V as VmtLayout<T>>::Layout;

    /// The table, to read its fields.
    fn deref(&self) -> (r: &Self::Target)
        ensures
            **r == self@,
    {
        &self.0
    }
}

impl<V: VmtLayout<T> + ?Sized, T: 'static> core::ops::DerefMut for VPtr<V, T> {
    /// The place of the reference itself. The pointer then points to
    /// whatever table the caller leaves there.
    fn deref_mut(&mut self) -> (r: &mut Self::Target)
        ensures
            **r == old(self)@,
            final(self)@ == **final(r),
    {
        &mut self.0
    }
}

impl<V: VmtLayout<T> + ?Sized, T: 'static> Clone for VPtr<V, T> {
    fn clone(&self) -> (r: Self)
        ensures
            r == *self,
    {
        VPtr(self.0)
    }
}

impl<V: VmtLayout<T> + ?Sized, T: 'static> Copy for VPtr<V, T> {

}

impl<T, V: VmtInstance<T> + ?Sized> VPtr<V, T> {
    /// Whether the pointer points to the constant table of `T` for `V`.
    pub open spec fn is_canonical(&self) -> bool {
        self@ == *V::VTABLE
    }

    /// A pointer to the constant table of `T` for `V`.
    pub fn new() -> (r: Self)
        ensures
            r.is_canonical(),
    {
        VPtr(vmt_instance::<V, T>())
    }
}

impl<T, V: VmtInstance<T> + ?Sized> Default for VPtr<V, T> {
    /// The same pointer as [`VPtr::new`].
    fn default() -> (r: Self)
        ensures
            r.is_canonical(),
    {
        VPtr(vmt_instance::<V, T>())
    }
}

/// The constant table of `T` for `V`.
pub fn vmt_instance<V: VmtInstance<T> + ?Sized, T>() -> (r: &'static V::Layout)
    ensures
        r == V::VTABLE,
{
    V::VTABLE
}

/// Every access gives the same table: two pointers that were made by
/// [`VPtr::new`] or by `default`, or copied from such a pointer, for the
/// same interface and the same implementer, point to equal tables.
pub proof fn lemma_canonical_table_is_unique<T: 'static, V: VmtInstance<T> + ?Sized>(
    a: VPtr<V, T>,
    b: VPtr<V, T>,
)
    requires
        a.is_canonical(),
        b.is_canonical(),
    ensures
        a@ == b@,
{
}

} // verus!
