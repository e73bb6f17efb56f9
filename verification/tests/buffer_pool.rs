use eww::buffer_pool::{buffer_capacity, BufferPool, PoolSlot, UploadAction, BLOCK};

#[test]
fn capacity_is_rounded_up_to_blocks() {
    assert_eq!(BLOCK, 256);
    assert_eq!(buffer_capacity(0), 256);
    assert_eq!(buffer_capacity(1), 256);
    assert_eq!(buffer_capacity(255), 256);
    assert_eq!(buffer_capacity(256), 256);
    assert_eq!(buffer_capacity(257), 512);
    assert_eq!(buffer_capacity(1000), 1024);
    assert_eq!(buffer_capacity(u64::MAX - 255), u64::MAX - 255);
    assert_eq!(buffer_capacity(u64::MAX - 254), u64::MAX - 254);
    assert_eq!(buffer_capacity(u64::MAX), u64::MAX);
}

#[test]
fn new_pool_is_empty() {
    let pool = BufferPool::new();
    assert_eq!(pool.len(), 0);
    assert_eq!(pool.get(0), None);
}

#[test]
fn uploads_fill_slots_in_order() {
    let sizes: [u64; 4] = [100, 300, 0, 5000];
    let mut pool = BufferPool::new();
    pool.clear();
    for (i, &size) in sizes.iter().enumerate() {
        let action = pool.upload(size);
        assert_eq!(action, UploadAction { slot: i, allocate: Some(buffer_capacity(size)) });
    }
    assert_eq!(pool.len(), sizes.len());
    for (i, &size) in sizes.iter().enumerate() {
        let slot = pool.get(i).unwrap();
        assert!(slot.capacity >= size);
        assert_eq!(slot.len, size);
    }
    assert_eq!(pool.get(0), Some(PoolSlot { capacity: 256, len: 100 }));
    assert_eq!(pool.get(1), Some(PoolSlot { capacity: 512, len: 300 }));
    assert_eq!(pool.get(2), Some(PoolSlot { capacity: 256, len: 0 }));
    assert_eq!(pool.get(3), Some(PoolSlot { capacity: 5120, len: 5000 }));
    assert_eq!(pool.get(4), None);
}

#[test]
fn same_sizes_allocate_nothing_in_the_next_frame() {
    let sizes: [u64; 5] = [20, 4000, 256, 257, 1];
    let mut pool = BufferPool::new();
    let mut allocations = 0;
    pool.clear();
    for &size in sizes.iter() {
        if pool.upload(size).allocate.is_some() {
            allocations += 1;
        }
    }
    assert_eq!(allocations, 5);
    let first: Vec<Option<PoolSlot>> = (0..5).map(|i| pool.get(i)).collect();

    pool.clear();
    assert_eq!(pool.len(), 0);
    assert_eq!(pool.get(0), None);
    for (i, &size) in sizes.iter().enumerate() {
        let action = pool.upload(size);
        assert_eq!(action, UploadAction { slot: i, allocate: None });
    }
    let second: Vec<Option<PoolSlot>> = (0..5).map(|i| pool.get(i)).collect();
    assert_eq!(first, second);
}

#[test]
fn buffers_grow_and_never_shrink() {
    let mut pool = BufferPool::new();
    pool.clear();
    assert_eq!(pool.upload(1000).allocate, Some(1024));
    assert_eq!(pool.upload(10).allocate, Some(256));

    pool.clear();
    assert_eq!(pool.upload(10), UploadAction { slot: 0, allocate: None });
    assert_eq!(pool.get(0), Some(PoolSlot { capacity: 1024, len: 10 }));
    assert_eq!(pool.upload(300), UploadAction { slot: 1, allocate: Some(512) });
    assert_eq!(pool.get(1), Some(PoolSlot { capacity: 512, len: 300 }));
    assert_eq!(pool.upload(1), UploadAction { slot: 2, allocate: Some(256) });

    pool.clear();
    assert_eq!(pool.upload(1024), UploadAction { slot: 0, allocate: None });
    assert_eq!(pool.upload(512), UploadAction { slot: 1, allocate: None });
    assert_eq!(pool.len(), 2);
    assert_eq!(pool.get(2), None);
    assert_eq!(pool.upload(256), UploadAction { slot: 2, allocate: None });
}
