//! The erasure interfaces: the duplication-hook traits, the downcast
//! interface, the conversion interface, and the six handle types — three
//! capability flavors, each in a plain and a clone-capable form.

use vstd::prelude::*;
use crate::model::Erasable;
use crate::model::Model;
use crate::payload::PayloadLocal;
use crate::payload::PayloadSend;
use crate::payload::PayloadSync;
use crate::payload::payload_local_tag;
use crate::payload::payload_local_model;
use crate::payload::payload_local_cloneable;
use crate::payload::payload_local_new;
use crate::payload::payload_local_new_dup;
use crate::payload::payload_local_tag_read;
use crate::payload::payload_local_borrow;
use crate::payload::payload_local_borrow_mut;
use crate::payload::payload_local_take;
use crate::payload::payload_local_dup;
use crate::payload::payload_send_tag;
use crate::payload::payload_send_model;
use crate::payload::payload_send_cloneable;
use crate::payload::payload_send_new;
use crate::payload::payload_send_new_dup;
use crate::payload::payload_send_tag_read;
use crate::payload::payload_send_borrow;
use crate::payload::payload_send_borrow_mut;
use crate::payload::payload_send_take;
use crate::payload::payload_send_dup;
use crate::payload::payload_sync_tag;
use crate::payload::payload_sync_model;
use crate::payload::payload_sync_cloneable;
use crate::payload::payload_sync_new;
use crate::payload::payload_sync_new_dup;
use crate::payload::payload_sync_tag_read;
use crate::payload::payload_sync_borrow;
use crate::payload::payload_sync_borrow_mut;
use crate::payload::payload_sync_take;
use crate::payload::payload_sync_dup;

verus! {

/// A type whose own duplication is available as the hook of a clone-capable
/// erased handle. The result is a fresh value with the same model, produced
/// by the concrete type's own duplication logic: the erasure layer adds no
/// aliasing of its own.
pub trait CloneToAny: Erasable {
    /// Duplicate `self` for storage behind a clone-capable erased handle.
    fn clone_to_any(&self) -> (r: Self)
        ensures
            r.model() == self.model(),
    ;
}

/// A duplication hook usable behind a transferable handle: the type also
/// moves between execution contexts.
pub trait CloneToAnySend: CloneToAny + Send + 'static {
    /// Clone `self` straight into a new transferable clone-capable handle.
    fn clone_to_any_send(&self) -> (r: CloneAnySendBox)
        ensures
            r.tag() == Self::type_tag(),
            r.model() == self.model(),
            r.cloneable(),
    ;
}

impl<T: CloneToAny + Send + 'static> CloneToAnySend for T {
    fn clone_to_any_send(&self) -> (r: CloneAnySendBox) {
        CloneAnySendBox::erase(self.clone_to_any())
    }
}

/// A duplication hook usable behind a shareable handle: the type is also
/// accessible from several execution contexts at once.
pub trait CloneToAnySendSync: CloneToAny + Send + Sync + 'static {
    /// Clone `self` straight into a new shareable clone-capable handle.
    fn clone_to_any_send_sync(&self) -> (r: CloneAnySendSyncBox)
        ensures
            r.tag() == Self::type_tag(),
            r.model() == self.model(),
            r.cloneable(),
    ;
}

impl<T: CloneToAny + Send + Sync + 'static> CloneToAnySendSync for T {
    fn clone_to_any_send_sync(&self) -> (r: CloneAnySendSyncBox) {
        CloneAnySendSyncBox::erase(self.clone_to_any())
    }
}

/// An erasable type with duplication: exactly the types that qualify for a
/// clone-capable handle.
pub trait CloneAny: CloneToAny {
}

impl<T: CloneToAny> CloneAny for T {
}

impl CloneToAny for i32 {
    fn clone_to_any(&self) -> (r: i32) {
        *self
    }
}

impl CloneToAny for u64 {
    fn clone_to_any(&self) -> (r: u64) {
        *self
    }
}

impl CloneToAny for bool {
    fn clone_to_any(&self) -> (r: bool) {
        *self
    }
}

impl CloneToAny for String {
    fn clone_to_any(&self) -> (r: String) {
        self.clone()
    }
}

/// The downcast interface of an erased handle: the identifier of the stored
/// concrete type, and the three ways to reinterpret the handle at a concrete
/// type — by borrow, by mutable borrow, and by ownership transfer.
///
/// The downcasts are unchecked: no identifier comparison happens at runtime.
/// Instead, each carries the precondition that the caller names the true
/// concrete type, so the obligation rests on whoever tracked the type —
/// typically a container keyed by [`Downcast::type_id`].
pub trait Downcast: Sized {
    /// Whether handles of this kind carry a duplication hook.
    spec fn clone_capable() -> bool;

    /// The fixed text a debug rendering of an un-downcast handle of this
    /// kind shows.
    spec fn label() -> Seq<char>;

    /// The identifier of the concrete type of the stored value.
    spec fn tag(self) -> u64;

    /// The mathematical value stored behind the handle.
    spec fn model(self) -> Model;

    /// Whether this handle carries a duplication hook.
    spec fn cloneable(self) -> bool;

    /// The identifier of the stored concrete type, as a runtime value.
    fn type_id(&self) -> (t: u64)
        ensures
            t == self.tag(),
    ;

    /// Borrow the stored value at its concrete type. The caller must name
    /// the true concrete type.
    fn downcast_ref_unchecked<T: Erasable + 'static>(&self) -> (r: &T)
        requires
            T::type_tag() == self.tag(),
        ensures
            r.model() == self.model(),
    ;

    /// Mutably borrow the stored value at its concrete type; the handle
    /// afterwards stores whatever the caller leaves behind the reference.
    /// The caller must name the true concrete type.
    fn downcast_mut_unchecked<T: Erasable + 'static>(&mut self) -> (r: &mut T)
        requires
            T::type_tag() == old(self).tag(),
        ensures
            r.model() == old(self).model(),
            final(self).tag() == old(self).tag(),
            final(self).cloneable() == old(self).cloneable(),
            final(self).model() == final(r).model(),
    ;

    /// Consume the handle and move the stored value out at its concrete
    /// type. The caller must name the true concrete type.
    fn downcast_unchecked<T: Erasable + 'static>(self) -> (r: T)
        requires
            T::type_tag() == self.tag(),
        ensures
            r.model() == self.model(),
    ;

    /// The fixed placeholder a debug rendering shows for an un-downcast
    /// handle: it depends on the handle kind alone, never on the stored
    /// value or its concrete type.
    fn debug_label(&self) -> (s: String)
        ensures
            s@ == Self::label(),
    ;
}

/// Conversion of a concrete value into an erased handle of kind `A`: the
/// sole creation path for erased values.
pub trait IntoBox<A: Downcast>: Erasable {
    /// Erase `self` into an owning handle.
    fn into_box(self) -> (r: A)
        ensures
            r.tag() == Self::type_tag(),
            r.model() == self.model(),
            r.cloneable() == A::clone_capable(),
    ;
}

/// A plain erased handle: an owning box around a value of unknown concrete
/// type, confined to one execution context.
pub struct AnyBox {
    payload: PayloadLocal,
}

impl AnyBox {
    /// Erase a qualifying concrete value.
    pub fn erase<T: Erasable + 'static>(v: T) -> (r: AnyBox)
        ensures
            r.tag() == T::type_tag(),
            r.model() == v.model(),
            !r.cloneable(),
    {
        let t = T::type_tag_exec();
        AnyBox { payload: payload_local_new(v, t) }
    }
}

impl Downcast for AnyBox {
    open spec fn clone_capable() -> bool {
        false
    }

    open spec fn label() -> Seq<char> {
        "dyn Any"@
    }

    closed spec fn tag(self) -> u64 {
        payload_local_tag(self.payload)
    }

    closed spec fn model(self) -> Model {
        payload_local_model(self.payload)
    }

    closed spec fn cloneable(self) -> bool {
        payload_local_cloneable(self.payload)
    }

    fn type_id(&self) -> (t: u64) {
        payload_local_tag_read(&self.payload)
    }

    fn downcast_ref_unchecked<T: Erasable + 'static>(&self) -> (r: &T) {
        payload_local_borrow::<T>(&self.payload)
    }

    fn downcast_mut_unchecked<T: Erasable + 'static>(&mut self) -> (r: &mut T) {
        payload_local_borrow_mut::<T>(&mut self.payload)
    }

    fn downcast_unchecked<T: Erasable + 'static>(self) -> (r: T) {
        payload_local_take::<T>(self.payload)
    }

    fn debug_label(&self) -> (s: String) {
        "dyn Any".to_owned()
    }
}

impl<T: Erasable + 'static> IntoBox<AnyBox> for T {
    fn into_box(self) -> (r: AnyBox) {
        AnyBox::erase(self)
    }
}

/// A transferable erased handle: it may move between execution contexts,
/// so only concrete types that themselves move between contexts qualify.
pub struct AnySendBox {
    payload: PayloadSend,
}

impl AnySendBox {
    /// Erase a qualifying concrete value.
    pub fn erase<T: Erasable + Send + 'static>(v: T) -> (r: AnySendBox)
        ensures
            r.tag() == T::type_tag(),
            r.model() == v.model(),
            !r.cloneable(),
    {
        let t = T::type_tag_exec();
        AnySendBox { payload: payload_send_new(v, t) }
    }
}

impl Downcast for AnySendBox {
    open spec fn clone_capable() -> bool {
        false
    }

    open spec fn label() -> Seq<char> {
        "dyn Any + Send"@
    }

    closed spec fn tag(self) -> u64 {
        payload_send_tag(self.payload)
    }

    closed spec fn model(self) -> Model {
        payload_send_model(self.payload)
    }

    closed spec fn cloneable(self) -> bool {
        payload_send_cloneable(self.payload)
    }

    fn type_id(&self) -> (t: u64) {
        payload_send_tag_read(&self.payload)
    }

    fn downcast_ref_unchecked<T: Erasable + 'static>(&self) -> (r: &T) {
        payload_send_borrow::<T>(&self.payload)
    }

    fn downcast_mut_unchecked<T: Erasable + 'static>(&mut self) -> (r: &mut T) {
        payload_send_borrow_mut::<T>(&mut self.payload)
    }

    fn downcast_unchecked<T: Erasable + 'static>(self) -> (r: T) {
        payload_send_take::<T>(self.payload)
    }

    fn debug_label(&self) -> (s: String) {
        "dyn Any + Send".to_owned()
    }
}

impl<T: Erasable + Send + 'static> IntoBox<AnySendBox> for T {
    fn into_box(self) -> (r: AnySendBox) {
        AnySendBox::erase(self)
    }
}

/// A shareable erased handle: it may be accessed from several execution
/// contexts at once, so only concrete types safe for that qualify. Every
/// shareable handle is also transferable.
pub struct AnySendSyncBox {
    payload: PayloadSync,
}

impl AnySendSyncBox {
    /// Erase a qualifying concrete value.
    pub fn erase<T: Erasable + Send + Sync + 'static>(v: T) -> (r: AnySendSyncBox)
        ensures
            r.tag() == T::type_tag(),
            r.model() == v.model(),
            !r.cloneable(),
    {
        let t = T::type_tag_exec();
        AnySendSyncBox { payload: payload_sync_new(v, t) }
    }
}

impl Downcast for AnySendSyncBox {
    open spec fn clone_capable() -> bool {
        false
    }

    open spec fn label() -> Seq<char> {
        "dyn Any + Send + Sync"@
    }

    closed spec fn tag(self) -> u64 {
        payload_sync_tag(self.payload)
    }

    closed spec fn model(self) -> Model {
        payload_sync_model(self.payload)
    }

    closed spec fn cloneable(self) -> bool {
        payload_sync_cloneable(self.payload)
    }

    fn type_id(&self) -> (t: u64) {
        payload_sync_tag_read(&self.payload)
    }

    fn downcast_ref_unchecked<T: Erasable + 'static>(&self) -> (r: &T) {
        payload_sync_borrow::<T>(&self.payload)
    }

    fn downcast_mut_unchecked<T: Erasable + 'static>(&mut self) -> (r: &mut T) {
        payload_sync_borrow_mut::<T>(&mut self.payload)
    }

    fn downcast_unchecked<T: Erasable + 'static>(self) -> (r: T) {
        payload_sync_take::<T>(self.payload)
    }

    fn debug_label(&self) -> (s: String) {
        "dyn Any + Send + Sync".to_owned()
    }
}

impl<T: Erasable + Send + Sync + 'static> IntoBox<AnySendSyncBox> for T {
    fn into_box(self) -> (r: AnySendSyncBox) {
        AnySendSyncBox::erase(self)
    }
}

/// A clone-capable plain erased handle: beside the stored value it carries
/// a duplication hook bound at creation to the concrete type's own
/// duplication logic.
pub struct CloneAnyBox {
    payload: PayloadLocal,
}

impl CloneAnyBox {
    /// Erase a qualifying concrete value, capturing its duplication hook.
    pub fn erase<T: CloneAny + 'static>(v: T) -> (r: CloneAnyBox)
        ensures
            r.tag() == T::type_tag(),
            r.model() == v.model(),
            r.cloneable(),
    {
        let t = T::type_tag_exec();
        CloneAnyBox { payload: payload_local_new_dup(v, t) }
    }

    /// Duplicate the erased value without knowing its concrete type: the
    /// hook bound at creation runs the concrete type's own duplication, so
    /// the duplicate has the same concrete type, the same model, and is
    /// itself clone-capable.
    pub fn clone(&self) -> (r: CloneAnyBox)
        requires
            self.cloneable(),
        ensures
            r.tag() == self.tag(),
            r.model() == self.model(),
            r.cloneable(),
    {
        CloneAnyBox { payload: payload_local_dup(&self.payload) }
    }
}

impl Downcast for CloneAnyBox {
    open spec fn clone_capable() -> bool {
        true
    }

    open spec fn label() -> Seq<char> {
        "dyn CloneAny"@
    }

    closed spec fn tag(self) -> u64 {
        payload_local_tag(self.payload)
    }

    closed spec fn model(self) -> Model {
        payload_local_model(self.payload)
    }

    closed spec fn cloneable(self) -> bool {
        payload_local_cloneable(self.payload)
    }

    fn type_id(&self) -> (t: u64) {
        payload_local_tag_read(&self.payload)
    }

    fn downcast_ref_unchecked<T: Erasable + 'static>(&self) -> (r: &T) {
        payload_local_borrow::<T>(&self.payload)
    }

    fn downcast_mut_unchecked<T: Erasable + 'static>(&mut self) -> (r: &mut T) {
        payload_local_borrow_mut::<T>(&mut self.payload)
    }

    fn downcast_unchecked<T: Erasable + 'static>(self) -> (r: T) {
        payload_local_take::<T>(self.payload)
    }

    fn debug_label(&self) -> (s: String) {
        "dyn CloneAny".to_owned()
    }
}

impl<T: CloneAny + 'static> IntoBox<CloneAnyBox> for T {
    fn into_box(self) -> (r: CloneAnyBox) {
        CloneAnyBox::erase(self)
    }
}

/// A clone-capable transferable erased handle.
pub struct CloneAnySendBox {
    payload: PayloadSend,
}

impl CloneAnySendBox {
    /// Erase a qualifying concrete value, capturing its duplication hook.
    /// The hook is captured for this capability in particular, so a
    /// duplicate's transferability is derived from the concrete type rather
    /// than relabeled from a weaker handle.
    pub fn erase<T: CloneToAny + Send + 'static>(v: T) -> (r: CloneAnySendBox)
        ensures
            r.tag() == T::type_tag(),
            r.model() == v.model(),
            r.cloneable(),
    {
        let t = T::type_tag_exec();
        CloneAnySendBox { payload: payload_send_new_dup(v, t) }
    }

    /// Duplicate the erased value without knowing its concrete type.
    pub fn clone(&self) -> (r: CloneAnySendBox)
        requires
            self.cloneable(),
        ensures
            r.tag() == self.tag(),
            r.model() == self.model(),
            r.cloneable(),
    {
        CloneAnySendBox { payload: payload_send_dup(&self.payload) }
    }
}

impl Downcast for CloneAnySendBox {
    open spec fn clone_capable() -> bool {
        true
    }

    open spec fn label() -> Seq<char> {
        "dyn CloneAny + Send"@
    }

    closed spec fn tag(self) -> u64 {
        payload_send_tag(self.payload)
    }

    closed spec fn model(self) -> Model {
        payload_send_model(self.payload)
    }

    closed spec fn cloneable(self) -> bool {
        payload_send_cloneable(self.payload)
    }

    fn type_id(&self) -> (t: u64) {
        payload_send_tag_read(&self.payload)
    }

    fn downcast_ref_unchecked<T: Erasable + 'static>(&self) -> (r: &T) {
        payload_send_borrow::<T>(&self.payload)
    }

    fn downcast_mut_unchecked<T: Erasable + 'static>(&mut self) -> (r: &mut T) {
        payload_send_borrow_mut::<T>(&mut self.payload)
    }

    fn downcast_unchecked<T: Erasable + 'static>(self) -> (r: T) {
        payload_send_take::<T>(self.payload)
    }

    fn debug_label(&self) -> (s: String) {
        "dyn CloneAny + Send".to_owned()
    }
}

impl<T: CloneToAny + Send + 'static> IntoBox<CloneAnySendBox> for T {
    fn into_box(self) -> (r: CloneAnySendBox) {
        CloneAnySendBox::erase(self)
    }
}

/// A clone-capable shareable erased handle.
pub struct CloneAnySendSyncBox {
    payload: PayloadSync,
}

impl CloneAnySendSyncBox {
    /// Erase a qualifying concrete value, capturing its duplication hook.
    /// The hook is captured for this capability in particular, so a
    /// duplicate's shareability is derived from the concrete type rather
    /// than relabeled from a weaker handle.
    pub fn erase<T: CloneToAny + Send + Sync + 'static>(v: T) -> (r: CloneAnySendSyncBox)
        ensures
            r.tag() == T::type_tag(),
            r.model() == v.model(),
            r.cloneable(),
    {
        let t = T::type_tag_exec();
        CloneAnySendSyncBox { payload: payload_sync_new_dup(v, t) }
    }

    /// Duplicate the erased value without knowing its concrete type.
    pub fn clone(&self) -> (r: CloneAnySendSyncBox)
        requires
            self.cloneable(),
        ensures
            r.tag() == self.tag(),
            r.model() == self.model(),
            r.cloneable(),
    {
        CloneAnySendSyncBox { payload: payload_sync_dup(&self.payload) }
    }
}

impl Downcast for CloneAnySendSyncBox {
    open spec fn clone_capable() -> bool {
        true
    }

    open spec fn label() -> Seq<char> {
        "dyn CloneAny + Send + Sync"@
    }

    closed spec fn tag(self) -> u64 {
        payload_sync_tag(self.payload)
    }

    closed spec fn model(self) -> Model {
        payload_sync_model(self.payload)
    }

    closed spec fn cloneable(self) -> bool {
        payload_sync_cloneable(self.payload)
    }

    fn type_id(&self) -> (t: u64) {
        payload_sync_tag_read(&self.payload)
    }

    fn downcast_ref_unchecked<T: Erasable + 'static>(&self) -> (r: &T) {
        payload_sync_borrow::<T>(&self.payload)
    }

    fn downcast_mut_unchecked<T: Erasable + 'static>(&mut self) -> (r: &mut T) {
        payload_sync_borrow_mut::<T>(&mut self.payload)
    }

    fn downcast_unchecked<T: Erasable + 'static>(self) -> (r: T) {
        payload_sync_take::<T>(self.payload)
    }

    fn debug_label(&self) -> (s: String) {
        "dyn CloneAny + Send + Sync".to_owned()
    }
}

impl<T: CloneToAny + Send + Sync + 'static> IntoBox<CloneAnySendSyncBox> for T {
    fn into_box(self) -> (r: CloneAnySendSyncBox) {
        CloneAnySendSyncBox::erase(self)
    }
}

} // verus!
