use rfvp::handle::next_generation;
use rfvp::{Handle, HandleRegistry};

#[derive(Debug, PartialEq)]
struct Runtime(u32);

#[test]
fn invalid_and_wrong_category_handles_do_not_resolve() {
    let mut runtimes = HandleRegistry::<Runtime>::new();
    let handle = runtimes.insert(Runtime(7));

    assert_eq!(runtimes.get(Handle::<Runtime>::invalid()), None);
    assert_eq!(runtimes.get(handle).map(|value| value.0), Some(7));
}

#[test]
fn removed_slots_advance_generation_before_reuse() {
    let mut registry = HandleRegistry::<u32>::new();
    let first = registry.insert(10);
    assert_eq!(registry.remove(first), Some(10));
    assert_eq!(registry.get(first), None);

    let second = registry.insert(20);
    assert_ne!(first.raw(), second.raw());
    assert_eq!(registry.get(first), None);
    assert_eq!(registry.get(second), Some(&20));
}

#[test]
fn clearing_invalidates_all_handles() {
    let mut registry = HandleRegistry::<u32>::new();
    let handle = registry.insert(1);
    registry.clear();
    assert_eq!(registry.get(handle), None);
    assert!(registry.is_empty());
}

#[test]
fn handle_layout_packs_generation_above_index() {
    let mut registry = HandleRegistry::<u32>::new();
    let first = registry.insert(1);
    let second = registry.insert(2);
    assert_eq!(first.raw(), (1u64 << 32) | 0);
    assert_eq!(second.raw(), (1u64 << 32) | 1);
    assert_eq!(registry.remove(first), Some(1));
    let reused = registry.insert(3);
    assert_eq!(reused.raw(), (2u64 << 32) | 0);
}

#[test]
fn next_generation_skips_zero_on_wrap() {
    assert_eq!(next_generation(1), 2);
    assert_eq!(next_generation(u32::MAX), 1);
    assert_eq!(next_generation(0), 1);
}

#[test]
fn stale_handle_stays_dead_after_slot_reuse() {
    let mut registry = HandleRegistry::<&str>::new();
    let stale = registry.insert("old");
    registry.remove(stale);
    let fresh = registry.insert("new");
    assert!(stale != fresh);
    assert_eq!(registry.get(stale), None);
    assert_eq!(registry.get(fresh), Some(&"new"));
    assert_eq!(registry.remove(stale), None);
    assert_eq!(registry.len(), 1);
}

#[test]
fn len_and_is_empty_count_live_objects() {
    let mut registry = HandleRegistry::<u8>::new();
    assert!(registry.is_empty());
    assert_eq!(registry.len(), 0);
    let a = registry.insert(1);
    let _b = registry.insert(2);
    assert_eq!(registry.len(), 2);
    registry.remove(a);
    assert_eq!(registry.len(), 1);
    assert!(!registry.is_empty());
}

#[test]
fn get_mut_changes_only_the_addressed_object() {
    let mut registry = HandleRegistry::<u32>::new();
    let a = registry.insert(1);
    let b = registry.insert(2);
    *registry.get_mut(a).unwrap() = 10;
    assert_eq!(registry.get(a), Some(&10));
    assert_eq!(registry.get(b), Some(&2));
    assert!(registry.get_mut(Handle::from_raw(0)).is_none());
    assert!(registry.get_mut(Handle::from_raw((9u64 << 32) | 1)).is_none());
}

#[test]
fn handle_validity_and_default() {
    let h: Handle<u8> = Handle::default();
    assert!(!h.is_valid());
    assert_eq!(h.raw(), 0);
    assert!(Handle::<u8>::from_raw(5).is_valid());
    let copy = h;
    assert!(copy == h.clone());
}

#[test]
fn handles_taken_before_clear_stay_dead() {
    let mut registry = HandleRegistry::<u32>::new();
    let first = registry.insert(1);
    let second = registry.insert(2);
    registry.clear();
    assert!(registry.is_empty());
    assert_eq!(registry.len(), 0);
    let reused = registry.insert(3);
    assert_ne!(reused.raw(), first.raw());
    assert_eq!(reused.raw(), (3u64 << 32) | 0);
    assert_eq!(registry.get(first), None);
    assert_eq!(registry.get(second), None);
    assert_eq!(registry.get(reused), Some(&3));
    let next = registry.insert(4);
    assert_eq!(next.raw(), (3u64 << 32) | 1);
    assert_eq!(registry.get(second), None);
    assert_eq!(registry.remove(first), None);
}
