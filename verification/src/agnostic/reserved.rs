//! Storage for architecturally reserved fields.

use core::mem::MaybeUninit;

use vstd::prelude::*;

verus! {

/// Storage for an architecturally reserved field.
///
/// The wrapper gives the stored bytes no meaning. It carries initialized
/// bytes verbatim, or stays uninitialized where the enclosing representation
/// allows that state.
#[derive(Debug)]
pub struct Reserved<S>(MaybeUninit<S>);

impl<S> View for Reserved<S> {
    type V = Option<S>;

    /// The stored value when the storage is initialized.
    closed spec fn view(&self) -> Option<S> {
        self.0.as_option()
    }
}

/// Creates zero-filled storage with `MaybeUninit::zeroed`.
///
/// Nothing is stated of the result: whether an all-zero bit pattern is a
/// valid `S` depends on `S`, so the storage may count as uninitialized.
#[verifier::external_body]
fn zeroed_storage<S>() -> MaybeUninit<S> {
    MaybeUninit::zeroed()
}

impl<S: Copy> Clone for Reserved<S> {
    fn clone(&self) -> (r: Self)
        ensures
            r@ == self@,
    {
        *self
    }
}

impl<S: Copy> Copy for Reserved<S> {

}

impl<S> Reserved<S> {
    /// Reserved storage holding an initialized value.
    pub fn new(target_value: S) -> (r: Self)
        ensures
            r@ == Some(target_value),
    {
        Self(MaybeUninit::new(target_value))
    }

    /// Uninitialized reserved storage.
    pub fn uninit() -> (r: Self)
        ensures
            r@ is None,
    {
        Self(MaybeUninit::uninit())
    }

    /// Zero-filled reserved storage.
    pub fn zeroed() -> (r: Self) {
        Self(zeroed_storage())
    }

    /// Zero-filled reserved storage, under the name that reserved fields use.
    pub fn field() -> (r: Self) {
        Self::zeroed()
    }

    /// Wraps existing storage without changing its bytes.
    pub fn wrap(storage: MaybeUninit<S>) -> (r: Self)
        ensures
            r@ == storage.as_option(),
    {
        Self(storage)
    }

    /// The underlying storage.
    pub fn storage(&self) -> (r: &MaybeUninit<S>)
        ensures
            r.as_option() == self@,
    {
        &self.0
    }

    /// The underlying storage, for writing.
    pub fn storage_mut(&mut self) -> (r: &mut MaybeUninit<S>)
        ensures
            r.as_option() == old(self)@,
            final(self)@ == final(r).as_option(),
    {
        &mut self.0
    }

    /// Unwraps the storage without reading it.
    pub fn into_storage(self) -> (r: MaybeUninit<S>)
        ensures
            r.as_option() == self@,
    {
        self.0
    }
}

impl<S> Default for Reserved<S> {
    fn default() -> (r: Self) {
        Self::zeroed()
    }
}

} // verus!
