//! A single-owner holder that lends its value out for one operation at a time.

use vstd::prelude::*;
use crate::error::Error;

verus! {

/// Holds a value that is moved out for the length of one operation and moved
/// back in afterwards. A bridge whose value was moved out and never came back
/// is poisoned: it holds nothing and rejects every operation.
pub struct BlockingBridge<T> {
    inner: Option<T>,
}

impl<T> View for BlockingBridge<T> {
    type V = Option<T>;

    closed spec fn view(&self) -> Option<T> {
        self.inner
    }
}

impl<T> BlockingBridge<T> {
    /// A bridge that holds `value`.
    pub fn new(value: T) -> (bridge: Self)
        ensures
            bridge@ == Some(value),
    {
        BlockingBridge { inner: Some(value) }
    }

    /// Whether the bridge has lost its value.
    pub fn is_poisoned(&self) -> (poisoned: bool)
        ensures
            poisoned == (self@ is None),
    {
        self.inner.is_none()
    }

    /// The held value, or `PoisonedResource` where there is none.
    pub fn get(&self) -> (result: Result<&T, Error>)
        ensures
            match self@ {
                Some(v) => result == Ok::<&T, Error>(&v),
                None => result == Err::<&T, Error>(Error::PoisonedResource),
            },
    {
        match &self.inner {
            Some(x) => Ok(x),
            None => Err(Error::PoisonedResource),
        }
    }

    /// Moves the value into a new bridge and leaves this one poisoned.
    pub fn take(&mut self) -> (taken: Self)
        ensures
            taken@ == old(self)@,
            final(self)@ is None,
    {
        BlockingBridge { inner: self.inner.take() }
    }

    /// Moves the value out for one operation on a worker. The bridge stays
    /// poisoned until `finish_blocking` brings the value back.
    pub fn start_blocking(&mut self) -> (result: Result<T, Error>)
        ensures
            final(self)@ is None,
            match old(self)@ {
                Some(v) => result == Ok::<T, Error>(v),
                None => result == Err::<T, Error>(Error::PoisonedResource),
            },
    {
        match self.inner.take() {
            Some(value) => Ok(value),
            None => Err(Error::PoisonedResource),
        }
    }

    /// Puts back the value that an operation has finished with.
    pub fn finish_blocking(&mut self, value: T)
        ensures
            final(self)@ == Some(value),
    {
        self.inner = Some(value);
    }

    /// Gives up the bridge for what it holds.
    pub fn into_inner(self) -> (value: Option<T>)
        ensures
            value == self@,
    {
        self.inner
    }

    /// Runs `func` on the held value and puts back the value that `func`
    /// returns beside its result. A poisoned bridge calls nothing.
    pub fn run_blocking<R, F: FnOnce(T) -> (T, Result<R, Error>)>(&mut self, func: F) -> (result:
        Result<R, Error>)
        requires
            old(self)@ matches Some(v) ==> call_requires(func, (v,)),
        ensures
            old(self)@ is None ==> final(self)@ is None && result == Err::<R, Error>(
                Error::PoisonedResource,
            ),
            old(self)@ matches Some(v) ==> final(self)@ is Some
                && call_ensures(func, (v,), (final(self)@->0, result)),
    {
        match self.inner.take() {
            None => Err(Error::PoisonedResource),
            Some(value) => {
                let (value, result) = func(value);
                self.inner = Some(value);
                result
            },
        }
    }
}

} // verus!
