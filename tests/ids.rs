use wgpu_player::id::{Backend, Id, IdentityPassThrough, IdentityPassThroughFactory};
use wgpu_player::hub::ResourceKind;
use wgpu_player::identity::{IdentityManager, InvalidHandle};
use wgpu_player::lock_order::{LockOrderViolation, Token};

#[test]
fn zip_and_unzip_round_trip() {
    let id = Id::zip(7, 3, Backend::Metal);
    assert_eq!(id.unzip(), (7, 3, Backend::Metal));
    assert_eq!(id.index(), 7);
    assert_eq!(id.epoch(), 3);
    assert_eq!(id.backend(), Backend::Metal);
}

#[test]
fn packed_layout_is_index_epoch_backend() {
    let id = Id::zip(1, 2, Backend::Dx12);
    assert_eq!(id.to_raw(), 1 | (2u64 << 32) | (3u64 << 61));
    assert_eq!(Id::from_raw(id.to_raw()), Some(id));
}

#[test]
fn epoch_wraps_at_mask() {
    let id = Id::zip(0, 0x2000_0001, Backend::Vulkan);
    assert_eq!(id.epoch(), 1);
}

#[test]
fn raw_word_without_backend_is_refused() {
    assert_eq!(Id::from_raw(5), None);
    assert_eq!(Id::from_raw(7u64 << 61), None);
}

#[test]
fn every_backend_survives_packing() {
    for b in [Backend::Vulkan, Backend::Metal, Backend::Dx12, Backend::Dx11] {
        let id = Id::zip(u32::MAX, 0x1fff_ffff, b);
        assert_eq!(id.unzip(), (u32::MAX, 0x1fff_ffff, b));
    }
}

#[test]
fn pass_through_keeps_index_and_epoch_and_retags() {
    let handler = IdentityPassThroughFactory.spawn(0);
    let id = Id::zip(9, 4, Backend::Vulkan);
    let r = handler.process(id, Backend::Dx11);
    assert_eq!(r.unzip(), (9, 4, Backend::Dx11));
    IdentityPassThrough.free(r);
}

#[test]
fn allocated_ids_carry_their_backend() {
    let mut m = IdentityManager::new();
    let a = m.allocate(Backend::Dx12);
    let b = m.allocate(Backend::Metal);
    assert_eq!(a.unzip(), (0, 1, Backend::Dx12));
    assert_eq!(b.unzip(), (1, 1, Backend::Metal));
}

#[test]
fn freed_index_is_reused_with_new_epoch() {
    let mut m = IdentityManager::new();
    let a = m.allocate(Backend::Vulkan);
    let _b = m.allocate(Backend::Vulkan);
    assert_eq!(m.free(a), Ok(()));
    let c = m.allocate(Backend::Vulkan);
    assert_eq!(c.index(), a.index());
    assert_eq!(c.epoch(), 2);
    assert_ne!(c, a);
}

#[test]
fn double_free_and_stale_free_are_refused() {
    let mut m = IdentityManager::new();
    let a = m.allocate(Backend::Vulkan);
    assert_eq!(m.free(a), Ok(()));
    assert_eq!(m.free(a), Err(InvalidHandle));
    let c = m.allocate(Backend::Vulkan);
    assert_eq!(m.free(a), Err(InvalidHandle));
    assert_eq!(m.free(c), Ok(()));
    assert_eq!(m.free(Id::zip(40, 1, Backend::Vulkan)), Err(InvalidHandle));
}

#[test]
fn capacity_is_reported() {
    let m = IdentityManager::new();
    assert!(m.has_capacity());
}

#[test]
fn registries_are_entered_in_order() {
    let t = Token::root();
    let t = match t.try_enter(ResourceKind::CommandBuffer) {
        Ok(t) => t,
        Err(_) => panic!("root may enter any registry"),
    };
    let t = t.enter(ResourceKind::QuerySet);
    let back = match t.try_enter(ResourceKind::CommandBuffer) {
        Ok(_) => panic!("entered a shallower registry"),
        Err((t, e)) => {
            assert_eq!(e, LockOrderViolation);
            t
        }
    };
    assert!(back.try_enter(ResourceKind::QuerySet).is_err());
    let t = Token::root().enter(ResourceKind::QuerySet);
    assert!(t.try_enter(ResourceKind::Buffer).is_ok());
}

#[test]
fn pass_through_with_own_backend_keeps_the_handle() {
    let id = Id::zip(12, 5, Backend::Metal);
    let r = IdentityPassThrough.process(id, Backend::Metal);
    assert_eq!(r, id);
    assert_eq!(r.to_raw(), id.to_raw());
}
