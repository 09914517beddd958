use dvs_studio::{
    ClipId, EditCommand, Editor, MediaAssetId, Project, ProjectId, Selection, SourceOffset,
    TimelineDuration, TimelinePosition, TrackId, TrackKind,
};

fn aid(n: u64) -> MediaAssetId {
    MediaAssetId::new(n).expect("asset id")
}
fn tid(n: u64) -> TrackId {
    TrackId::new(n).expect("track id")
}
fn cid(n: u64) -> ClipId {
    ClipId::new(n).expect("clip id")
}

fn script() -> Vec<EditCommand> {
    vec![
        EditCommand::RegisterAsset { id: aid(1) },
        EditCommand::RegisterAsset { id: aid(2) },
        EditCommand::AddTrack {
            id: tid(1),
            name: "V1".to_string(),
            kind: TrackKind::Video,
        },
        EditCommand::AddTrack {
            id: tid(2),
            name: "V2".to_string(),
            kind: TrackKind::Video,
        },
        EditCommand::InsertClip {
            id: cid(1),
            track_id: tid(1),
            asset_id: aid(1),
            start: TimelinePosition::from_micros(0),
            source_offset: SourceOffset::from_micros(0),
            duration: TimelineDuration::from_micros(100).expect("d"),
        },
        EditCommand::SplitClip {
            id: cid(1),
            at: TimelinePosition::from_micros(40),
            right_id: cid(2),
        },
        EditCommand::MoveClip {
            id: cid(2),
            track_id: tid(2),
            start: TimelinePosition::from_micros(10),
        },
        EditCommand::TrimClip {
            id: cid(1),
            start: TimelinePosition::from_micros(5),
            source_offset: SourceOffset::from_micros(5),
            duration: TimelineDuration::from_micros(20).expect("d"),
        },
        EditCommand::DeleteClip { id: cid(1) },
        EditCommand::UnregisterAsset { id: aid(2) },
        EditCommand::RemoveTrack { id: tid(1) },
    ]
}

#[test]
fn every_undo_and_redo_of_a_session_succeeds_and_retraces_it() {
    let project = Project::new(ProjectId::new(1).expect("id"), "Session".to_string()).expect("p");
    let mut ed = Editor::new(project);
    let mut states = vec![ed.project().clone()];
    for command in script() {
        ed.apply(command).expect("edit");
        states.push(ed.project().clone());
    }
    assert_eq!(ed.history().undo_len(), states.len() - 1);
    for i in (0..states.len() - 1).rev() {
        ed.undo().expect("undo");
        assert_eq!(ed.project(), &states[i]);
    }
    assert!(!ed.history().can_undo());
    for state in states.iter().skip(1) {
        ed.redo().expect("redo");
        assert_eq!(ed.project(), state);
    }
    assert!(!ed.history().can_redo());
}

#[test]
fn selection_changes_between_edits_do_not_break_undo() {
    let project = Project::new(ProjectId::new(1).expect("id"), "Sel".to_string()).expect("p");
    let mut ed = Editor::new(project);
    let commands = script();
    for command in commands.into_iter().take(6) {
        ed.apply(command).expect("edit");
    }
    ed.set_selection(Selection::Clip(cid(2))).expect("select");
    ed.undo().expect("undo split");
    assert_eq!(ed.project().selection(), Selection::Nothing);
    ed.set_selection(Selection::Track(tid(2))).expect("select track");
    ed.redo().expect("redo split");
    assert_eq!(ed.project().timeline().tracks()[0].clips().len(), 2);
    ed.set_selection(Selection::MediaAsset(aid(2))).expect("select asset");
    while ed.history().can_undo() {
        ed.undo().expect("undo");
    }
    assert!(ed.project().media_pool().is_empty());
    while ed.history().can_redo() {
        ed.redo().expect("redo");
    }
    assert_eq!(ed.project().timeline().tracks()[0].clips().len(), 2);
}
