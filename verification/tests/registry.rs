use basita::registry::{Handle, Registry};
use basita::storage::SdlAssetStorage;

#[test]
fn add_hands_out_handles_in_order() {
    let mut registry: Registry<&str> = Registry::new();
    let first = registry.add("first");
    let second = registry.add("second");
    let third = registry.add("third");
    assert_eq!(first.index(), 0);
    assert_eq!(second.index(), 1);
    assert_eq!(third.index(), 2);
    assert_eq!(registry.len(), 3);
}

#[test]
fn get_resolves_what_add_stored() {
    let mut registry: Registry<u32> = Registry::new();
    let seven = registry.add(7);
    let nine = registry.add(9);
    assert_eq!(*registry.get(seven), 7);
    assert_eq!(*registry.get(nine), 9);
}

#[test]
fn handles_survive_later_adds() {
    let mut registry: Registry<String> = Registry::new();
    let mut handles: Vec<Handle> = Vec::new();
    for round in 0..200usize {
        handles.push(registry.add(format!("value {}", round)));
        for (earlier, handle) in handles.iter().enumerate() {
            assert!(registry.contains(*handle));
            assert_eq!(*registry.get(*handle), format!("value {}", earlier));
        }
    }
    assert_eq!(registry.len(), 200);
}

#[test]
fn get_mut_changes_one_slot_only() {
    let mut registry: Registry<u32> = Registry::new();
    let a = registry.add(1);
    let b = registry.add(2);
    let c = registry.add(3);
    *registry.get_mut(b) = 20;
    assert_eq!(*registry.get(a), 1);
    assert_eq!(*registry.get(b), 20);
    assert_eq!(*registry.get(c), 3);
    assert_eq!(registry.len(), 3);
}

#[test]
fn contains_rejects_handles_that_were_never_issued() {
    let mut registry: Registry<u32> = Registry::new();
    assert!(!registry.contains(Handle::from_index(0)));
    let only = registry.add(5);
    assert!(registry.contains(only));
    assert!(!registry.contains(Handle::from_index(1)));
    assert!(!registry.contains(Handle::from_index(usize::MAX)));
}

#[test]
fn handles_compare_by_slot() {
    let mut registry: Registry<u32> = Registry::new();
    let a = registry.add(1);
    let b = registry.add(1);
    assert_ne!(a, b);
    assert_eq!(a, Handle::from_index(0));
    assert_eq!(b, Handle::from_index(b.index()));
}

#[test]
fn default_registry_is_empty() {
    let registry: Registry<u8> = Registry::default();
    assert_eq!(registry.len(), 0);
}

#[test]
fn storage_add_returns_the_index() {
    let mut storage: SdlAssetStorage<&str> = SdlAssetStorage::default();
    assert_eq!(storage.len(), 0);
    assert_eq!(storage.add("texture"), 0);
    assert_eq!(storage.add("font"), 1);
    assert_eq!(storage.add("chunk"), 2);
    assert_eq!(storage.len(), 3);
    assert_eq!(*storage.at(0), "texture");
    assert_eq!(*storage.at(1), "font");
    assert_eq!(*storage.at(2), "chunk");
}

#[test]
fn storage_at_mut_changes_one_resource_only() {
    let mut storage: SdlAssetStorage<Vec<u8>> = SdlAssetStorage::default();
    let a = storage.add(vec![1]);
    let b = storage.add(vec![2]);
    storage.at_mut(a).push(10);
    assert_eq!(*storage.at(a), vec![1, 10]);
    assert_eq!(*storage.at(b), vec![2]);
}
