//! References to thread-local contexts branded with a generative lifetime.
use vstd::prelude::*;
use crate::context::Context;
use generativity::{Guard, Id};

verus! {

/// `generativity::Id`, the invariant lifetime brand, known to Verus as an opaque type.
#[verifier::external_type_specification]
#[verifier::external_body]
pub struct ExGenerativityId<'id>(Id<'id>);

/// `generativity::Guard`, the unique carrier of a brand, known to Verus as an opaque type.
#[verifier::external_type_specification]
#[verifier::external_body]
pub struct ExGenerativityGuard<'id>(Guard<'id>);

/// `generativity`'s `From<Guard<'id>> for Id<'id>`: turns the unique guard
/// into the brand it carries. The brand is opaque; nothing is claimed of it.
#[verifier::external_body]
fn brand_of<'id>(guard: Guard<'id>) -> (id: Id<'id>) {
    Id::from(guard)
}

/// A thread-safe reference to the data of a thread-local [`Context`], constrained by a
/// generative lifetime brand that is invariant over `'id`.
#[derive(Debug)]
pub struct LocalRef<'id, T: Sync + 'static> {
    inner: &'id T,
    brand: Id<'id>,
}

impl<'id, T: Sync + 'static> LocalRef<'id, T> {
    /// The data this reference points to.
    pub closed spec fn value(&self) -> T {
        *self.inner
    }

    /// Creates a reference to the data of `context`, branded by `guard`.
    pub fn new(context: &'id Context<T>, guard: Guard<'id>) -> (r: LocalRef<'id, T>)
        ensures
            r.value() == context.value(),
    {
        let inner: &'id T = &**context;
        LocalRef { inner, brand: brand_of(guard) }
    }
}

impl<'id, T: Sync + 'static> core::ops::Deref for LocalRef<'id, T> {
    type Target = T;

    fn deref(&self) -> (r: &T)
        ensures
            *r == self.value(),
    {
        self.inner
    }
}

impl<'id, T: Sync + 'static> Clone for LocalRef<'id, T> {
    fn clone(&self) -> (r: Self)
        ensures
            r.value() == self.value(),
    {
        *self
    }
}

impl<'id, T: Sync + 'static> Copy for LocalRef<'id, T> {}

} // verus!
