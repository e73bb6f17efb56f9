use eww::texture::{
    DeltaAction, TextureDelta, TextureError, TextureId, TextureTable, UploadLayout,
};

#[test]
fn register_hands_out_growing_ids() {
    let mut table: TextureTable<&str> = TextureTable::new();
    assert_eq!(table.register("a"), TextureId::External(0));
    assert_eq!(table.register("b"), TextureId::External(1));
    assert_eq!(table.register("c"), TextureId::External(2));
    assert_eq!(table.resolve(TextureId::External(1)), Ok(&"b"));
}

#[test]
fn unregister_every_other_leaves_half() {
    let n: u64 = 10;
    let mut table: TextureTable<u64> = TextureTable::new();
    let ids: Vec<TextureId> = (0..n).map(|i| table.register(100 + i)).collect();
    for id in ids.iter().step_by(2) {
        table.unregister(*id);
    }
    let resolvable = ids.iter().filter(|id| table.resolve(**id).is_ok()).count();
    assert_eq!(resolvable as u64, n / 2);
    for (i, id) in ids.iter().enumerate() {
        if i % 2 == 0 {
            assert_eq!(table.resolve(*id), Err(TextureError::ResourceFreed));
        } else {
            assert_eq!(table.resolve(*id), Ok(&(100 + i as u64)));
        }
    }
}

#[test]
fn unregister_every_other_of_an_odd_number() {
    let mut table: TextureTable<u8> = TextureTable::new();
    let ids: Vec<TextureId> = (0..7u8).map(|i| table.register(i)).collect();
    for id in ids.iter().step_by(2) {
        table.unregister(*id);
    }
    assert_eq!(ids.iter().filter(|id| table.resolve(**id).is_ok()).count(), 3);
}

#[test]
fn unregister_is_idempotent_and_ignores_unknown_ids() {
    let mut table: TextureTable<u8> = TextureTable::new();
    let a = table.register(1);
    let b = table.register(2);
    table.unregister(a);
    table.unregister(a);
    table.unregister(TextureId::External(55));
    table.unregister(TextureId::Managed(0));
    assert_eq!(table.resolve(a), Err(TextureError::ResourceFreed));
    assert_eq!(table.resolve(b), Ok(&2));
    assert_eq!(table.register(3), TextureId::External(2));
}

#[test]
fn unknown_external_id() {
    let mut table: TextureTable<u8> = TextureTable::new();
    assert_eq!(table.resolve(TextureId::External(0)), Err(TextureError::ResourceUnknown));
    table.register(1);
    assert_eq!(table.resolve(TextureId::External(1)), Err(TextureError::ResourceUnknown));
    assert_eq!(table.resolve(TextureId::External(u64::MAX)), Err(TextureError::ResourceUnknown));
}

#[test]
fn managed_texture_is_not_ready_before_upload() {
    let mut table: TextureTable<&str> = TextureTable::new();
    let font = TextureId::Managed(0);
    assert_eq!(table.resolve(font), Err(TextureError::ResourceNotReady));
    assert_eq!(table.size_of(font), None);

    let delta = TextureDelta::full(1, 4, 2, vec![0u8; 32]).unwrap();
    assert_eq!(table.plan(font, &delta), DeltaAction::Replace { width: 4, height: 2 });
    table.install(0, "atlas", &delta);
    assert_eq!(table.resolve(font), Ok(&"atlas"));
    assert_eq!(table.size_of(font), Some((4, 2)));
    assert_eq!(table.resolve(TextureId::Managed(1)), Err(TextureError::ResourceNotReady));
}

#[test]
fn same_version_is_skipped() {
    let mut table: TextureTable<u8> = TextureTable::new();
    let font = TextureId::Managed(0);
    let delta = TextureDelta::full(7, 2, 2, vec![0u8; 16]).unwrap();
    table.install(0, 1, &delta);
    assert!(table.is_current(font, 7));
    assert!(!table.is_current(font, 8));
    assert!(!table.is_current(TextureId::Managed(1), 7));
    assert_eq!(table.plan(font, &delta), DeltaAction::Skip);
    let newer = TextureDelta::full(8, 3, 5, vec![0u8; 60]).unwrap();
    assert_eq!(table.plan(font, &newer), DeltaAction::Replace { width: 3, height: 5 });
    table.install(0, 2, &newer);
    assert_eq!(table.resolve(font), Ok(&2));
    assert_eq!(table.size_of(font), Some((3, 5)));
}

#[test]
fn region_is_patched_into_existing_texture() {
    let mut table: TextureTable<u8> = TextureTable::new();
    let font = TextureId::Managed(0);
    let patch = TextureDelta::region(2, 5, 6, 2, 1, vec![0u8; 8]).unwrap();
    assert_eq!(table.plan(font, &patch), DeltaAction::Replace { width: 2, height: 1 });
    let whole = TextureDelta::full(1, 16, 16, vec![0u8; 1024]).unwrap();
    table.install(0, 9, &whole);
    assert_eq!(table.plan(font, &patch), DeltaAction::Patch { x: 5, y: 6, width: 2, height: 1 });
    table.record_patch(0, &patch);
    assert_eq!(table.resolve(font), Ok(&9));
    assert_eq!(table.size_of(font), Some((16, 16)));
    assert!(table.is_current(font, 2));
    assert_eq!(table.plan(font, &patch), DeltaAction::Skip);
    table.record_patch(3, &patch);
    assert_eq!(table.resolve(TextureId::Managed(3)), Err(TextureError::ResourceNotReady));
}

#[test]
fn external_ids_take_no_deltas() {
    let mut table: TextureTable<u8> = TextureTable::new();
    let id = table.register(1);
    let delta = TextureDelta::full(1, 1, 1, vec![0u8; 4]).unwrap();
    assert_eq!(table.plan(id, &delta), DeltaAction::Skip);
}

#[test]
fn free_releases_both_kinds() {
    let mut table: TextureTable<u8> = TextureTable::new();
    let ext = table.register(1);
    let delta = TextureDelta::full(1, 1, 1, vec![0u8; 4]).unwrap();
    table.install(4, 2, &delta);
    table.free(TextureId::Managed(4));
    table.free(ext);
    assert_eq!(table.resolve(TextureId::Managed(4)), Err(TextureError::ResourceNotReady));
    assert_eq!(table.resolve(ext), Err(TextureError::ResourceFreed));
    table.free(TextureId::Managed(4));
    table.free(TextureId::External(9));
}

#[test]
fn reserved_slot_is_populated_later() {
    let mut table: TextureTable<u8> = TextureTable::new();
    let a = table.register(1);
    let b = table.reserve();
    assert_eq!(b, TextureId::External(1));
    assert_eq!(table.resolve(b), Err(TextureError::ResourceFreed));
    assert!(table.populate(b, 5));
    assert_eq!(table.resolve(b), Ok(&5));
    assert_eq!(table.resolve(a), Ok(&1));
    assert!(!table.populate(TextureId::External(2), 6));
    assert!(!table.populate(TextureId::Managed(0), 6));
}

#[test]
fn delta_checks_the_image() {
    assert!(TextureDelta::full(0, 2, 3, vec![0u8; 24]).is_some());
    assert!(TextureDelta::full(0, 2, 3, vec![0u8; 23]).is_none());
    assert!(TextureDelta::full(0, 2, 3, vec![0u8; 25]).is_none());
    assert!(TextureDelta::full(0, 0, 3, vec![]).is_none());
    assert!(TextureDelta::full(0, 3, 0, vec![]).is_none());
    assert!(TextureDelta::full(0, usize::MAX, 1, vec![0u8; 4]).is_none());
    assert!(TextureDelta::region(0, 1, 1, 1, 1, vec![0u8; 4]).is_some());
    assert!(TextureDelta::region(0, 1, 1, 1, 1, vec![0u8; 5]).is_none());
}

#[test]
fn delta_layout_is_tightly_packed() {
    let pixels: Vec<u8> = (0..60u8).collect();
    let delta = TextureDelta::region(9, 7, 8, 5, 3, pixels.clone()).unwrap();
    assert_eq!(delta.version(), 9);
    assert_eq!(delta.pos(), Some((7, 8)));
    assert_eq!(delta.width(), 5);
    assert_eq!(delta.height(), 3);
    assert_eq!(delta.pixels(), &pixels);
    assert_eq!(delta.layout(), UploadLayout { bytes_per_row: 20, rows_per_image: 3 });
    let whole = TextureDelta::full(1, 1, 1, vec![1, 2, 3, 4]).unwrap();
    assert_eq!(whole.pos(), None);
    assert_eq!(whole.layout(), UploadLayout { bytes_per_row: 4, rows_per_image: 1 });
}
