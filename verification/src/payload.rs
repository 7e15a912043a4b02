//! The trusted storage layer: each payload owns one value of an unknown
//! concrete type behind a `core::any` trait object, together with the
//! identifier of that type and, for clone-capable payloads, a duplication
//! hook captured at creation time.
//!
//! Everything Verus knows about a payload it knows through the three
//! uninterpreted functions per payload kind (its type identifier, its
//! mathematical value, and whether it carries a duplication hook) and the
//! contracts below. The contracts assume what [`crate::model::Erasable`]
//! demands of its implementors: distinct concrete types carry distinct
//! identifiers, so a payload whose identifier equals `T::type_tag()` does
//! hold a value of concrete type `T`. Under that assumption every runtime
//! downcast below succeeds, and no conversion here panics on an input its
//! precondition admits.

use vstd::prelude::*;
use core::any::Any;
use std::sync::Arc;
use crate::model::Erasable;
use crate::model::Model;
use crate::any::CloneToAny;

verus! {

/// A payload confined to one execution context: its contents need not be
/// transferable. Verus sees nothing inside a value of this type.
#[verifier::external_body]
pub struct PayloadLocal {
    inner: Box<dyn Any>,
    tag: u64,
    dup: Option<Arc<dyn Fn(&Box<dyn Any>) -> Box<dyn Any>>>,
}

/// The identifier of the concrete type of the value a payload holds.
pub uninterp spec fn payload_local_tag(p: PayloadLocal) -> u64;

/// The mathematical value a payload holds.
pub uninterp spec fn payload_local_model(p: PayloadLocal) -> Model;

/// Whether a payload carries a duplication hook.
pub uninterp spec fn payload_local_cloneable(p: PayloadLocal) -> bool;

/// Relies on `Box::new` and the unsizing coercion to `Box<dyn Any>`:
/// the box stores `v` itself, unchanged.
#[verifier::external_body]
pub(crate) fn payload_local_new<T: Erasable + 'static>(v: T, tag: u64) -> (p: PayloadLocal)
    requires
        tag == T::type_tag(),
    ensures
        payload_local_tag(p) == T::type_tag(),
        payload_local_model(p) == v.model(),
        !payload_local_cloneable(p),
{
    PayloadLocal { inner: Box::new(v), tag, dup: None }
}

/// Relies on `Box::new` as above. The duplication hook handed to the stored
/// closure is the verified [`CloneToAny::clone_to_any`] of the concrete type,
/// which preserves the value's model; `<dyn Any>::downcast_ref` only hands it
/// the stored value.
#[verifier::external_body]
pub(crate) fn payload_local_new_dup<T: CloneToAny + 'static>(v: T, tag: u64) -> (p: PayloadLocal)
    requires
        tag == T::type_tag(),
    ensures
        payload_local_tag(p) == T::type_tag(),
        payload_local_model(p) == v.model(),
        payload_local_cloneable(p),
{
    PayloadLocal {
        inner: Box::new(v),
        tag,
        dup: Some(Arc::new(|b: &Box<dyn Any>| -> Box<dyn Any> {
            Box::new((&**b).downcast_ref::<T>().unwrap().clone_to_any())
        })),
    }
}

/// Relies on a stored copy of the identifier, written at creation and never
/// changed afterwards.
#[verifier::external_body]
pub(crate) fn payload_local_tag_read(p: &PayloadLocal) -> (t: u64)
    ensures
        t == payload_local_tag(*p),
{
    p.tag
}

/// Relies on `<dyn Any>::downcast_ref`: when the stored value has concrete
/// type `T`, the result is a reference to that value.
#[verifier::external_body]
pub(crate) fn payload_local_borrow<T: Erasable + 'static>(p: &PayloadLocal) -> (r: &T)
    requires
        payload_local_tag(*p) == T::type_tag(),
    ensures
        r.model() == payload_local_model(*p),
{
    (&*p.inner).downcast_ref::<T>().unwrap()
}

/// Relies on `<dyn Any>::downcast_mut`: when the stored value has concrete
/// type `T`, the result borrows that value in place, so the payload afterwards
/// holds whatever the caller leaves behind the returned reference.
#[verifier::external_body]
pub(crate) fn payload_local_borrow_mut<T: Erasable + 'static>(p: &mut PayloadLocal) -> (r: &mut T)
    requires
        payload_local_tag(*old(p)) == T::type_tag(),
    ensures
        r.model() == payload_local_model(*old(p)),
        payload_local_tag(*final(p)) == payload_local_tag(*old(p)),
        payload_local_cloneable(*final(p)) == payload_local_cloneable(*old(p)),
        payload_local_model(*final(p)) == final(r).model(),
{
    (&mut *p.inner).downcast_mut::<T>().unwrap()
}

/// Relies on `Box::<dyn Any>::downcast`: when the stored value has concrete
/// type `T`, the box is reboxed at that type and the value moves out unchanged.
#[verifier::external_body]
pub(crate) fn payload_local_take<T: Erasable + 'static>(p: PayloadLocal) -> (r: T)
    requires
        payload_local_tag(p) == T::type_tag(),
    ensures
        r.model() == payload_local_model(p),
{
    *p.inner.downcast::<T>().ok().unwrap()
}

/// Relies on the duplication hook captured by [`payload_local_new_dup`]: it
/// re-erases, at the same concrete type and through the same kind of payload,
/// the result of the concrete type's own model-preserving duplication.
#[verifier::external_body]
pub(crate) fn payload_local_dup(p: &PayloadLocal) -> (r: PayloadLocal)
    requires
        payload_local_cloneable(*p),
    ensures
        payload_local_tag(r) == payload_local_tag(*p),
        payload_local_model(r) == payload_local_model(*p),
        payload_local_cloneable(r),
{
    PayloadLocal {
        inner: (p.dup.as_ref().unwrap())(&p.inner),
        tag: p.tag,
        dup: p.dup.clone(),
    }
}

/// A payload that may move between execution contexts: every field, the
/// stored value and the duplication hook included, is `Send`.
#[verifier::external_body]
pub struct PayloadSend {
    inner: Box<dyn Any + Send>,
    tag: u64,
    dup: Option<Arc<dyn Fn(&Box<dyn Any + Send>) -> Box<dyn Any + Send> + Send + Sync>>,
}

/// The identifier of the concrete type of the value a payload holds.
pub uninterp spec fn payload_send_tag(p: PayloadSend) -> u64;

/// The mathematical value a payload holds.
pub uninterp spec fn payload_send_model(p: PayloadSend) -> Model;

/// Whether a payload carries a duplication hook.
pub uninterp spec fn payload_send_cloneable(p: PayloadSend) -> bool;

/// Relies on `Box::new` and the unsizing coercion to `Box<dyn Any + Send>`:
/// the box stores `v` itself, unchanged.
#[verifier::external_body]
pub(crate) fn payload_send_new<T: Erasable + Send + 'static>(v: T, tag: u64) -> (p: PayloadSend)
    requires
        tag == T::type_tag(),
    ensures
        payload_send_tag(p) == T::type_tag(),
        payload_send_model(p) == v.model(),
        !payload_send_cloneable(p),
{
    PayloadSend { inner: Box::new(v), tag, dup: None }
}

/// Relies on `Box::new` as above. The duplication hook handed to the stored
/// closure is the verified [`CloneToAny::clone_to_any`] of the concrete type,
/// which preserves the value's model; `<dyn Any>::downcast_ref` only hands it
/// the stored value. The hook rebuilds a `Box<dyn Any + Send>` directly, so a
/// duplicate's transferability is derived from the concrete type, never
/// relabeled from a weaker payload.
#[verifier::external_body]
pub(crate) fn payload_send_new_dup<T: CloneToAny + Send + 'static>(v: T, tag: u64) -> (p:
    PayloadSend)
    requires
        tag == T::type_tag(),
    ensures
        payload_send_tag(p) == T::type_tag(),
        payload_send_model(p) == v.model(),
        payload_send_cloneable(p),
{
    PayloadSend {
        inner: Box::new(v),
        tag,
        dup: Some(Arc::new(|b: &Box<dyn Any + Send>| -> Box<dyn Any + Send> {
            Box::new((&**b).downcast_ref::<T>().unwrap().clone_to_any())
        })),
    }
}

/// Relies on a stored copy of the identifier, written at creation and never
/// changed afterwards.
#[verifier::external_body]
pub(crate) fn payload_send_tag_read(p: &PayloadSend) -> (t: u64)
    ensures
        t == payload_send_tag(*p),
{
    p.tag
}

/// Relies on `<dyn Any>::downcast_ref`: when the stored value has concrete
/// type `T`, the result is a reference to that value.
#[verifier::external_body]
pub(crate) fn payload_send_borrow<T: Erasable + 'static>(p: &PayloadSend) -> (r: &T)
    requires
        payload_send_tag(*p) == T::type_tag(),
    ensures
        r.model() == payload_send_model(*p),
{
    (&*p.inner).downcast_ref::<T>().unwrap()
}

/// Relies on `<dyn Any>::downcast_mut`: when the stored value has concrete
/// type `T`, the result borrows that value in place, so the payload afterwards
/// holds whatever the caller leaves behind the returned reference.
#[verifier::external_body]
pub(crate) fn payload_send_borrow_mut<T: Erasable + 'static>(p: &mut PayloadSend) -> (r: &mut T)
    requires
        payload_send_tag(*old(p)) == T::type_tag(),
    ensures
        r.model() == payload_send_model(*old(p)),
        payload_send_tag(*final(p)) == payload_send_tag(*old(p)),
        payload_send_cloneable(*final(p)) == payload_send_cloneable(*old(p)),
        payload_send_model(*final(p)) == final(r).model(),
{
    (&mut *p.inner).downcast_mut::<T>().unwrap()
}

/// Relies on `Box::<dyn Any + Send>::downcast`: when the stored value has
/// concrete type `T`, the box is reboxed at that type and the value moves out
/// unchanged.
#[verifier::external_body]
pub(crate) fn payload_send_take<T: Erasable + 'static>(p: PayloadSend) -> (r: T)
    requires
        payload_send_tag(p) == T::type_tag(),
    ensures
        r.model() == payload_send_model(p),
{
    *p.inner.downcast::<T>().ok().unwrap()
}

/// Relies on the duplication hook captured by [`payload_send_new_dup`]: it
/// re-erases, at the same concrete type and through the same kind of payload,
/// the result of the concrete type's own model-preserving duplication.
#[verifier::external_body]
pub(crate) fn payload_send_dup(p: &PayloadSend) -> (r: PayloadSend)
    requires
        payload_send_cloneable(*p),
    ensures
        payload_send_tag(r) == payload_send_tag(*p),
        payload_send_model(r) == payload_send_model(*p),
        payload_send_cloneable(r),
{
    PayloadSend {
        inner: (p.dup.as_ref().unwrap())(&p.inner),
        tag: p.tag,
        dup: p.dup.clone(),
    }
}

/// A payload that may be accessed from several execution contexts at once:
/// every field is `Send + Sync`.
#[verifier::external_body]
pub struct PayloadSync {
    inner: Box<dyn Any + Send + Sync>,
    tag: u64,
    dup: Option<
        Arc<dyn Fn(&Box<dyn Any + Send + Sync>) -> Box<dyn Any + Send + Sync> + Send + Sync>,
    >,
}

/// The identifier of the concrete type of the value a payload holds.
pub uninterp spec fn payload_sync_tag(p: PayloadSync) -> u64;

/// The mathematical value a payload holds.
pub uninterp spec fn payload_sync_model(p: PayloadSync) -> Model;

/// Whether a payload carries a duplication hook.
pub uninterp spec fn payload_sync_cloneable(p: PayloadSync) -> bool;

/// Relies on `Box::new` and the unsizing coercion to
/// `Box<dyn Any + Send + Sync>`: the box stores `v` itself, unchanged.
#[verifier::external_body]
pub(crate) fn payload_sync_new<T: Erasable + Send + Sync + 'static>(v: T, tag: u64) -> (p:
    PayloadSync)
    requires
        tag == T::type_tag(),
    ensures
        payload_sync_tag(p) == T::type_tag(),
        payload_sync_model(p) == v.model(),
        !payload_sync_cloneable(p),
{
    PayloadSync { inner: Box::new(v), tag, dup: None }
}

/// Relies on `Box::new` as above. The duplication hook handed to the stored
/// closure is the verified [`CloneToAny::clone_to_any`] of the concrete type,
/// which preserves the value's model; `<dyn Any>::downcast_ref` only hands it
/// the stored value. The hook rebuilds a `Box<dyn Any + Send + Sync>`
/// directly, so a duplicate's shareability is derived from the concrete type,
/// never relabeled from a weaker payload.
#[verifier::external_body]
pub(crate) fn payload_sync_new_dup<T: CloneToAny + Send + Sync + 'static>(v: T, tag: u64) -> (p:
    PayloadSync)
    requires
        tag == T::type_tag(),
    ensures
        payload_sync_tag(p) == T::type_tag(),
        payload_sync_model(p) == v.model(),
        payload_sync_cloneable(p),
{
    PayloadSync {
        inner: Box::new(v),
        tag,
        dup: Some(
            Arc::new(|b: &Box<dyn Any + Send + Sync>| -> Box<dyn Any + Send + Sync> {
                Box::new((&**b).downcast_ref::<T>().unwrap().clone_to_any())
            }),
        ),
    }
}

/// Relies on a stored copy of the identifier, written at creation and never
/// changed afterwards.
#[verifier::external_body]
pub(crate) fn payload_sync_tag_read(p: &PayloadSync) -> (t: u64)
    ensures
        t == payload_sync_tag(*p),
{
    p.tag
}

/// Relies on `<dyn Any>::downcast_ref`: when the stored value has concrete
/// type `T`, the result is a reference to that value.
#[verifier::external_body]
pub(crate) fn payload_sync_borrow<T: Erasable + 'static>(p: &PayloadSync) -> (r: &T)
    requires
        payload_sync_tag(*p) == T::type_tag(),
    ensures
        r.model() == payload_sync_model(*p),
{
    (&*p.inner).downcast_ref::<T>().unwrap()
}

/// Relies on `<dyn Any>::downcast_mut`: when the stored value has concrete
/// type `T`, the result borrows that value in place, so the payload afterwards
/// holds whatever the caller leaves behind the returned reference.
#[verifier::external_body]
pub(crate) fn payload_sync_borrow_mut<T: Erasable + 'static>(p: &mut PayloadSync) -> (r: &mut T)
    requires
        payload_sync_tag(*old(p)) == T::type_tag(),
    ensures
        r.model() == payload_sync_model(*old(p)),
        payload_sync_tag(*final(p)) == payload_sync_tag(*old(p)),
        payload_sync_cloneable(*final(p)) == payload_sync_cloneable(*old(p)),
        payload_sync_model(*final(p)) == final(r).model(),
{
    (&mut *p.inner).downcast_mut::<T>().unwrap()
}

/// Relies on `Box::<dyn Any + Send + Sync>::downcast`: when the stored value
/// has concrete type `T`, the box is reboxed at that type and the value moves
/// out unchanged.
#[verifier::external_body]
pub(crate) fn payload_sync_take<T: Erasable + 'static>(p: PayloadSync) -> (r: T)
    requires
        payload_sync_tag(p) == T::type_tag(),
    ensures
        r.model() == payload_sync_model(p),
{
    *p.inner.downcast::<T>().ok().unwrap()
}

/// Relies on the duplication hook captured by [`payload_sync_new_dup`]: it
/// re-erases, at the same concrete type and through the same kind of payload,
/// the result of the concrete type's own model-preserving duplication.
#[verifier::external_body]
pub(crate) fn payload_sync_dup(p: &PayloadSync) -> (r: PayloadSync)
    requires
        payload_sync_cloneable(*p),
    ensures
        payload_sync_tag(r) == payload_sync_tag(*p),
        payload_sync_model(r) == payload_sync_model(*p),
        payload_sync_cloneable(r),
{
    PayloadSync {
        inner: (p.dup.as_ref().unwrap())(&p.inner),
        tag: p.tag,
        dup: p.dup.clone(),
    }
}

} // verus!
