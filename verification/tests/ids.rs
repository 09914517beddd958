use std::collections::HashSet;

use dvs_studio::{ClipId, IdError, MediaAssetId, ProjectId, TrackId};

#[test]
fn project_id_rejects_zero_and_round_trips() {
    assert_eq!(ProjectId::new(0), Err(IdError::ZeroReserved));
    let id = ProjectId::new(1).expect("non-zero");
    assert_eq!(id.get(), 1);
    assert_eq!(ProjectId::new(u64::MAX).expect("max").get(), u64::MAX);
}

#[test]
fn media_asset_id_rejects_zero_and_round_trips() {
    assert_eq!(MediaAssetId::new(0), Err(IdError::ZeroReserved));
    let id = MediaAssetId::new(42).expect("non-zero");
    assert_eq!(id.get(), 42);
}

#[test]
fn track_and_clip_ids_reject_zero_and_round_trip() {
    assert_eq!(TrackId::new(0), Err(IdError::ZeroReserved));
    assert_eq!(ClipId::new(0), Err(IdError::ZeroReserved));
    assert_eq!(TrackId::new(7).expect("track").get(), 7);
    assert_eq!(ClipId::new(9).expect("clip").get(), 9);
}

#[test]
fn ids_support_eq_ord_and_hash() {
    let a = ProjectId::new(1).expect("a");
    let b = ProjectId::new(2).expect("b");
    let a2 = ProjectId::new(1).expect("a2");
    assert_eq!(a, a2);
    assert_ne!(a, b);
    assert!(a < b);

    let mut set = HashSet::new();
    assert!(set.insert(a));
    assert!(!set.insert(a2));
    assert!(set.insert(b));
}

#[test]
fn distinct_id_domains_are_separate_types() {
    let project = ProjectId::new(1).expect("project");
    let media = MediaAssetId::new(1).expect("media");
    let track = TrackId::new(1).expect("track");
    let clip = ClipId::new(1).expect("clip");

    assert_eq!(project.get(), media.get());
    assert_eq!(track.get(), clip.get());

    let mut projects = HashSet::new();
    let mut media_assets = HashSet::new();
    assert!(projects.insert(project));
    assert!(media_assets.insert(media));
    assert_eq!(projects.len(), 1);
    assert_eq!(media_assets.len(), 1);
}

#[test]
fn ids_are_not_produced_by_implicit_global_state() {
    let first = MediaAssetId::new(99).expect("first");
    let second = MediaAssetId::new(99).expect("second");
    assert_eq!(first, second);
    assert_eq!(first.get(), 99);
}

#[test]
fn id_ordering_follows_the_wrapped_value() {
    let small = ClipId::new(3).expect("small");
    let large = ClipId::new(u64::MAX).expect("large");
    assert!(small < large);
    assert_eq!(TrackId::new(u64::MAX).expect("max").get(), u64::MAX);
}
