//! The mathematical side of erasure: the universal value domain, and the
//! trait a concrete type implements to qualify for storage behind an
//! erased handle.

use vstd::prelude::*;

verus! {

/// The mathematical value of an erased payload: a small universal domain
/// into which every erasable concrete type maps its values.
pub enum Model {
    Int(int),
    Text(Seq<char>),
    Flag(bool),
}

/// A concrete type that can be stored behind an erased handle.
///
/// Distinct implementing types must choose distinct `type_tag` values:
/// the contracts of the whole erasure layer rest on the identifier of a
/// handle pinning down the concrete type of the value it stores.
pub trait Erasable: Sized {
    /// The process-stable identifier of this concrete type.
    spec fn type_tag() -> u64;

    /// The mathematical value of `self`.
    spec fn model(self) -> Model;

    /// The concrete type's own notion of value equality.
    spec fn same_value(a: Self, b: Self) -> bool;

    /// The identifier, as a runtime value.
    fn type_tag_exec() -> (t: u64)
        ensures
            t == Self::type_tag(),
    ;

    /// Two values with one model are the same value: the model forgets
    /// nothing that the concrete type's own equality can observe.
    proof fn lemma_model_determines_value(a: Self, b: Self)
        requires
            a.model() == b.model(),
        ensures
            Self::same_value(a, b),
    ;
}

impl Erasable for i32 {
    open spec fn type_tag() -> u64 {
        1
    }

    open spec fn model(self) -> Model {
        Model::Int(self as int)
    }

    open spec fn same_value(a: i32, b: i32) -> bool {
        a == b
    }

    fn type_tag_exec() -> (t: u64) {
        1
    }

    proof fn lemma_model_determines_value(a: i32, b: i32) {
    }
}

impl Erasable for u64 {
    open spec fn type_tag() -> u64 {
        2
    }

    open spec fn model(self) -> Model {
        Model::Int(self as int)
    }

    open spec fn same_value(a: u64, b: u64) -> bool {
        a == b
    }

    fn type_tag_exec() -> (t: u64) {
        2
    }

    proof fn lemma_model_determines_value(a: u64, b: u64) {
    }
}

impl Erasable for bool {
    open spec fn type_tag() -> u64 {
        3
    }

    open spec fn model(self) -> Model {
        Model::Flag(self)
    }

    open spec fn same_value(a: bool, b: bool) -> bool {
        a == b
    }

    fn type_tag_exec() -> (t: u64) {
        3
    }

    proof fn lemma_model_determines_value(a: bool, b: bool) {
    }
}

impl Erasable for String {
    open spec fn type_tag() -> u64 {
        4
    }

    open spec fn model(self) -> Model {
        Model::Text(self@)
    }

    open spec fn same_value(a: String, b: String) -> bool {
        a@ == b@
    }

    fn type_tag_exec() -> (t: u64) {
        4
    }

    proof fn lemma_model_determines_value(a: String, b: String) {
    }
}

/// The identifiers the library assigns are pairwise distinct, so handles
/// made from distinct provided types never compare as the same type.
pub proof fn lemma_provided_tags_distinct()
    ensures
        <i32 as Erasable>::type_tag() != <u64 as Erasable>::type_tag(),
        <i32 as Erasable>::type_tag() != <bool as Erasable>::type_tag(),
        <i32 as Erasable>::type_tag() != <String as Erasable>::type_tag(),
        <u64 as Erasable>::type_tag() != <bool as Erasable>::type_tag(),
        <u64 as Erasable>::type_tag() != <String as Erasable>::type_tag(),
        <bool as Erasable>::type_tag() != <String as Erasable>::type_tag(),
{
}

} // verus!
