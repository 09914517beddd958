use dvs_studio::{EditorError, MediaAssetId, MediaPool};

fn aid(value: u64) -> MediaAssetId {
    MediaAssetId::new(value).expect("asset id")
}

#[test]
fn media_pool_counts_and_orders_registered_ids() {
    let mut pool = MediaPool::new();
    assert!(pool.is_empty());
    assert_eq!(pool.register(aid(40)), Ok(()));
    assert_eq!(pool.register(aid(7)), Ok(()));
    assert_eq!(pool.register(aid(19)), Ok(()));
    assert_eq!(pool.len(), 3);
    assert_eq!(pool.ids(), vec![aid(7), aid(19), aid(40)]);

    assert_eq!(pool.register(aid(19)), Err(EditorError::DuplicateId));
    assert_eq!(pool.len(), 3);

    let snapshot = pool.clone();
    assert_eq!(pool.unregister(aid(7)), Ok(()));
    assert_eq!(pool.unregister(aid(7)), Err(EditorError::AssetNotFound));
    assert_eq!(pool.len(), 2);
    assert_eq!(pool.ids(), vec![aid(19), aid(40)]);
    assert_eq!(snapshot.ids(), vec![aid(7), aid(19), aid(40)]);
    assert!(snapshot.contains(aid(7)));
    assert!(!pool.contains(aid(7)));
}
