use async_local::context::{AsContext, Context};
use std::ops::Deref;
use std::sync::atomic::{AtomicUsize, Ordering};

#[test]
fn context_derefs_to_inner() {
    let c = Context::new(42u64);
    assert_eq!(*c.deref(), 42);
    assert_eq!(*c, 42);
}

#[test]
fn context_as_ref_is_itself() {
    let c = Context::new(String::from("local"));
    let r = c.as_ref();
    assert!(std::ptr::eq(r, &c));
    assert_eq!(r.deref().as_str(), "local");
}

#[test]
fn context_as_context_is_itself() {
    let c = Context::new(AtomicUsize::new(3));
    let r = c.as_context();
    assert!(std::ptr::eq(r, &c));
    r.fetch_add(1, Ordering::SeqCst);
    assert_eq!(c.load(Ordering::SeqCst), 4);
}
