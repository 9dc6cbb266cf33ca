//! Initializers and the errors they give rise to.
//!
//! A guarded value is constructed with one initializer, fixed for its
//! lifetime. The primary shape is the in-place one: the initializer is
//! handed a mutable view directly onto the storage cell and fills it
//! there, so a large value never has to be built in a temporary first.
//! The value-returning shape, convenient for small values, is the
//! [`ValueInit`] adapter over a [`ValueInitializer`].

use vstd::prelude::*;

verus! {

/// The error an initializer reports when it fails.
///
/// The code is chosen by the initializer itself; it is re-raised verbatim
/// to the one caller whose attempt ran the initializer.
#[derive(Clone, Copy, PartialEq, Eq, Structural, Debug)]
pub struct InitFailure {
    /// An initializer-chosen description of what went wrong.
    pub code: u64,
}

/// What `init` reports when it produces no token.
#[derive(Clone, Copy, PartialEq, Eq, Structural, Debug)]
pub enum InitError {
    /// The initializer itself failed during its single execution, with its
    /// own failure. Only the caller whose attempt ran the initializer
    /// sees this.
    Failure(InitFailure),
    /// Initialization failed at some earlier point and the guarded value
    /// is poisoned for the rest of the process. Every caller after the
    /// triggering one sees this, forever.
    Poisoned,
}

/// An in-place initializer for a guarded value of type `T`.
///
/// `run` is executed at most once per guarded value, by the one caller
/// that wins the init gate's claim. It receives a mutable view directly
/// onto the storage (holding the placeholder value) and either fills it
/// and returns `Ok`, or returns its failure, which poisons the guarded
/// value. Implementations are free to keep state of their own (for
/// example an execution counter) behind `&mut self`.
pub trait Initializer<T> {
    /// Fill `storage` in place.
    fn run(&mut self, storage: &mut T) -> (r: Result<(), InitFailure>);
}

/// A value-returning initializer: computes the whole value at once.
/// Appropriate for small, cheaply moved values.
pub trait ValueInitializer<T> {
    /// Produce the value, or the failure that poisons the guarded value.
    fn produce(&mut self) -> (r: Result<T, InitFailure>);
}

/// Adapter giving a [`ValueInitializer`] the in-place [`Initializer`]
/// shape: the produced value is moved into the storage, replacing the
/// placeholder wholesale.
pub struct ValueInit<V> {
    inner: V,
}

impl<V> ValueInit<V> {
    /// Wrap a value-returning initializer.
    pub fn new(inner: V) -> (r: Self)
        ensures
            r.inner_spec() == inner,
    {
        ValueInit { inner }
    }

    /// The wrapped value-returning initializer.
    pub closed spec fn inner_spec(&self) -> V {
        self.inner
    }
}

/// What the adapter does with whatever `produce` returned: a produced
/// value replaces the placeholder wholesale and the run succeeds; a
/// failure leaves the storage untouched and is passed on.
pub fn apply_produced<T>(storage: &mut T, produced: Result<T, InitFailure>) -> (r: Result<
    (),
    InitFailure,
>)
    ensures
        match produced {
            Ok(value) => *final(storage) == value && r == Result::<(), InitFailure>::Ok(()),
            Err(failure) => *final(storage) == *old(storage) && r == Result::<
                (),
                InitFailure,
            >::Err(failure),
        },
{
    match produced {
        Ok(value) => {
            *storage = value;
            Ok(())
        },
        Err(failure) => Err(failure),
    }
}

impl<T, V: ValueInitializer<T>> Initializer<T> for ValueInit<V> {
    /// Runs `produce` and applies its result through [`apply_produced`]:
    /// what `produce` returns is up to the wrapped initializer, but a
    /// failed run is guaranteed to leave the placeholder untouched.
    fn run(&mut self, storage: &mut T) -> (r: Result<(), InitFailure>)
        ensures
            r is Err ==> *final(storage) == *old(storage),
    {
        let produced = self.inner.produce();
        apply_produced(storage, produced)
    }
}

} // verus!
