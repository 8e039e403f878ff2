//! The wrapper that thread-local data is stored in.
use vstd::prelude::*;

verus! {

/// A wrapper type used for creating references to thread-local data.
pub struct Context<T: Sync + 'static>(T);

impl<T: Sync + 'static> Context<T> {
    /// The value held by this context.
    pub closed spec fn value(&self) -> T {
        self.0
    }

    /// Creates a new thread-local context holding `inner`.
    pub fn new(inner: T) -> (c: Context<T>)
        ensures
            c.value() == inner,
    {
        Context(inner)
    }

    /// Returns this context itself.
    pub fn as_ref(&self) -> (r: &Context<T>)
        ensures
            *r == *self,
    {
        self
    }
}

impl<T: Sync + 'static> core::ops::Deref for Context<T> {
    type Target = T;

    fn deref(&self) -> (r: &T)
        ensures
            *r == self.value(),
    {
        &self.0
    }
}

/// A type from which a [`Context`] can be borrowed for as long as the type lives.
pub trait AsContext {
    /// The type of the data held by the context.
    type Target: Sync + 'static;

    /// Borrows the context.
    fn as_context(&self) -> &Context<Self::Target>;
}

impl<T: Sync + 'static> AsContext for Context<T> {
    type Target = T;

    fn as_context(&self) -> (r: &Context<T>)
        ensures
            *r == *self,
    {
        self
    }
}

} // verus!
