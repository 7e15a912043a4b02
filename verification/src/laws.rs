//! The laws of the erasure layer, stated over the same spec functions that
//! the executable functions' contracts use.

use vstd::prelude::*;
use crate::any::Downcast;
use crate::model::Erasable;

verus! {

/// Round-trip law: a value erased into a handle of any kind and downcast
/// back at its true concrete type is, by the concrete type's own equality,
/// the value originally erased. The handle's model is the erased value's
/// model, a downcast's result has the handle's model, and one model pins
/// one value.
pub proof fn lemma_erase_downcast_round_trip<A: Downcast, T: Erasable>(v: T, h: A, r: T)
    requires
        h.model() == v.model(),
        r.model() == h.model(),
    ensures
        T::same_value(v, r),
{
    T::lemma_model_determines_value(v, r);
}

/// Clone law: a duplicate made through a clone-capable handle stores the
/// same concrete type as its original, and downcasting the duplicate
/// yields, by the concrete type's own equality, the value the original
/// held at duplication time.
pub proof fn lemma_clone_downcast<A: Downcast, T: Erasable>(h: A, c: A, v: T, r: T)
    requires
        c.tag() == h.tag(),
        c.model() == h.model(),
        v.model() == h.model(),
        r.model() == c.model(),
    ensures
        T::same_value(v, r),
{
    T::lemma_model_determines_value(v, r);
}

} // verus!
