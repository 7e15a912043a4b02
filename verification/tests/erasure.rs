use anymap::any::AnyBox;
use anymap::any::AnySendBox;
use anymap::any::AnySendSyncBox;
use anymap::any::CloneAnyBox;
use anymap::any::CloneAnySendBox;
use anymap::any::CloneAnySendSyncBox;
use anymap::any::Downcast;
use anymap::any::IntoBox;
use anymap::model::Erasable;
use anymap::any::CloneToAnySend;
use anymap::any::CloneToAnySendSync;

#[test]
fn scenario_plain_int() {
    let h = AnyBox::erase(42i32);
    assert_eq!(h.type_id(), <i32 as Erasable>::type_tag_exec());
    assert_eq!(*h.downcast_ref_unchecked::<i32>(), 42);
}

#[test]
fn scenario_shareable_clone_text() {
    let mut h = CloneAnySendSyncBox::erase(String::from("abc"));
    let c = h.clone();
    assert_eq!(h.downcast_ref_unchecked::<String>().as_str(), "abc");
    assert_eq!(c.downcast_ref_unchecked::<String>().as_str(), "abc");
    h.downcast_mut_unchecked::<String>().push('d');
    assert_eq!(h.downcast_ref_unchecked::<String>().as_str(), "abcd");
    assert_eq!(c.downcast_ref_unchecked::<String>().as_str(), "abc");
}

#[test]
fn scenario_distinct_types_distinct_ids() {
    let h = AnyBox::erase(5i32);
    let g = AnyBox::erase(String::from("five"));
    assert_ne!(h.type_id(), g.type_id());
}

#[test]
fn type_id_matches_type_for_every_variant() {
    assert_eq!(AnyBox::erase(1i32).type_id(), <i32 as Erasable>::type_tag_exec());
    assert_eq!(AnySendBox::erase(1u64).type_id(), <u64 as Erasable>::type_tag_exec());
    assert_eq!(AnySendSyncBox::erase(true).type_id(), <bool as Erasable>::type_tag_exec());
    assert_eq!(CloneAnyBox::erase(1i32).type_id(), <i32 as Erasable>::type_tag_exec());
    assert_eq!(
        CloneAnySendBox::erase(String::from("x")).type_id(),
        <String as Erasable>::type_tag_exec(),
    );
    assert_eq!(CloneAnySendSyncBox::erase(1u64).type_id(), <u64 as Erasable>::type_tag_exec());
}

#[test]
fn provided_identifiers_are_pairwise_distinct() {
    let ids = [
        <i32 as Erasable>::type_tag_exec(),
        <u64 as Erasable>::type_tag_exec(),
        <bool as Erasable>::type_tag_exec(),
        <String as Erasable>::type_tag_exec(),
    ];
    for i in 0..ids.len() {
        for j in 0..ids.len() {
            if i != j {
                assert_ne!(ids[i], ids[j]);
            }
        }
    }
}

#[test]
fn downcast_ref_returns_original() {
    let h = AnyBox::erase(7i32);
    assert_eq!(*h.downcast_ref_unchecked::<i32>(), 7);
}

#[test]
fn downcast_mut_sees_and_changes_original() {
    let mut h = AnyBox::erase(7i32);
    let r = h.downcast_mut_unchecked::<i32>();
    assert_eq!(*r, 7);
    *r = 9;
    assert_eq!(h.downcast_unchecked::<i32>(), 9);
}

#[test]
fn downcast_owned_returns_original() {
    let h = AnyBox::erase(String::from("owned"));
    assert_eq!(h.downcast_unchecked::<String>().as_str(), "owned");
}

#[test]
fn round_trip_plain() {
    assert_eq!(AnyBox::erase(11i32).downcast_unchecked::<i32>(), 11);
    assert_eq!(AnyBox::erase(String::from("p")).downcast_unchecked::<String>().as_str(), "p");
}

#[test]
fn round_trip_transferable() {
    assert_eq!(AnySendBox::erase(12u64).downcast_unchecked::<u64>(), 12);
}

#[test]
fn round_trip_shareable() {
    assert_eq!(AnySendSyncBox::erase(false).downcast_unchecked::<bool>(), false);
}

#[test]
fn round_trip_clone_capable_variants() {
    assert_eq!(CloneAnyBox::erase(21i32).downcast_unchecked::<i32>(), 21);
    assert_eq!(CloneAnySendBox::erase(22u64).downcast_unchecked::<u64>(), 22);
    assert_eq!(
        CloneAnySendSyncBox::erase(String::from("s")).downcast_unchecked::<String>().as_str(),
        "s",
    );
}

#[test]
fn into_box_erases_for_every_variant() {
    let a: AnyBox = 1i32.into_box();
    assert_eq!(a.downcast_unchecked::<i32>(), 1);
    let b: AnySendBox = 2u64.into_box();
    assert_eq!(b.downcast_unchecked::<u64>(), 2);
    let c: AnySendSyncBox = true.into_box();
    assert_eq!(c.downcast_unchecked::<bool>(), true);
    let d: CloneAnyBox = 3i32.into_box();
    assert_eq!(d.downcast_unchecked::<i32>(), 3);
    let e: CloneAnySendBox = String::from("e").into_box();
    assert_eq!(e.downcast_unchecked::<String>().as_str(), "e");
    let f: CloneAnySendSyncBox = 4u64.into_box();
    assert_eq!(f.downcast_unchecked::<u64>(), 4);
}

#[test]
fn clone_keeps_type_id_and_value() {
    let h = CloneAnyBox::erase(33i32);
    let c = h.clone();
    assert_eq!(c.type_id(), h.type_id());
    assert_eq!(h.downcast_unchecked::<i32>(), 33);
    assert_eq!(c.downcast_unchecked::<i32>(), 33);
}

#[test]
fn clone_is_deeply_independent() {
    let mut h = CloneAnyBox::erase(String::from("base"));
    let c = h.clone();
    h.downcast_mut_unchecked::<String>().push_str("-changed");
    assert_eq!(h.downcast_ref_unchecked::<String>().as_str(), "base-changed");
    assert_eq!(c.downcast_ref_unchecked::<String>().as_str(), "base");
}

#[test]
fn clone_of_clone_still_carries_the_hook() {
    let h = CloneAnySendBox::erase(String::from("twice"));
    let c = h.clone().clone();
    assert_eq!(c.type_id(), h.type_id());
    assert_eq!(c.downcast_unchecked::<String>().as_str(), "twice");
}

#[test]
fn debug_labels_are_fixed_per_variant() {
    assert_eq!(AnyBox::erase(1i32).debug_label(), "dyn Any");
    assert_eq!(AnyBox::erase(String::from("x")).debug_label(), "dyn Any");
    assert_eq!(AnySendBox::erase(1u64).debug_label(), "dyn Any + Send");
    assert_eq!(AnySendSyncBox::erase(true).debug_label(), "dyn Any + Send + Sync");
    assert_eq!(CloneAnyBox::erase(1i32).debug_label(), "dyn CloneAny");
    assert_eq!(CloneAnySendBox::erase(1u64).debug_label(), "dyn CloneAny + Send");
    assert_eq!(
        CloneAnySendSyncBox::erase(String::from("x")).debug_label(),
        "dyn CloneAny + Send + Sync",
    );
}

#[test]
fn clone_to_any_send_builds_a_transferable_handle() {
    let v = String::from("hook");
    let h = v.clone_to_any_send();
    assert_eq!(h.type_id(), <String as Erasable>::type_tag_exec());
    assert_eq!(h.downcast_unchecked::<String>().as_str(), "hook");
    assert_eq!(v.as_str(), "hook");
}

#[test]
fn clone_to_any_send_sync_builds_a_shareable_handle() {
    let v = 17u64;
    let h = v.clone_to_any_send_sync();
    assert_eq!(h.type_id(), <u64 as Erasable>::type_tag_exec());
    let c = h.clone();
    assert_eq!(h.downcast_unchecked::<u64>(), 17);
    assert_eq!(c.downcast_unchecked::<u64>(), 17);
}
