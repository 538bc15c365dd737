use wgpu_player::id::{Backend, Id};
use wgpu_player::identity::InvalidHandle;
use wgpu_player::registry::Registry;

#[test]
fn registered_value_resolves_by_exact_handle() {
    let mut r: Registry<u32> = Registry::new(Backend::Vulkan);
    let id = Id::zip(3, 1, Backend::Vulkan);
    assert_eq!(r.register(id, 42), Ok(()));
    assert_eq!(r.get(id), Ok(&42));
    assert!(r.contains(id));
    assert!(r.is_occupied(3));
    assert!(!r.is_occupied(2));
    assert_eq!(r.get(Id::zip(3, 2, Backend::Vulkan)), Err(InvalidHandle));
    assert_eq!(r.get(Id::zip(3, 1, Backend::Metal)), Err(InvalidHandle));
}

#[test]
fn occupied_slot_and_foreign_backend_are_refused() {
    let mut r: Registry<u32> = Registry::new(Backend::Dx12);
    let id = Id::zip(0, 1, Backend::Dx12);
    assert_eq!(r.register(id, 1), Ok(()));
    assert_eq!(r.register(Id::zip(0, 2, Backend::Dx12), 2), Err(InvalidHandle));
    assert_eq!(r.register(Id::zip(1, 1, Backend::Vulkan), 2), Err(InvalidHandle));
    assert_eq!(r.backend(), Backend::Dx12);
}

#[test]
fn unregister_hands_back_and_frees_slot() {
    let mut r: Registry<u32> = Registry::new(Backend::Vulkan);
    let old = Id::zip(0, 1, Backend::Vulkan);
    r.register(old, 5).unwrap();
    assert_eq!(r.unregister(old), Ok(5));
    assert_eq!(r.unregister(old), Err(InvalidHandle));
    let new = Id::zip(0, 2, Backend::Vulkan);
    r.register(new, 6).unwrap();
    assert_eq!(r.get(old), Err(InvalidHandle));
    assert_eq!(r.get(new), Ok(&6));
}
