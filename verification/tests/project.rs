use dvs_studio::{Project, ProjectError, ProjectId, Selection};

#[test]
fn project_preserves_id_and_name() {
    let id = ProjectId::new(10).expect("id");
    let project = Project::new(id, "Demo Reel".to_string()).expect("project");
    assert_eq!(project.id(), id);
    assert_eq!(project.name(), "Demo Reel");
    assert!(project.media_pool().is_empty());
    assert!(project.timeline().tracks().is_empty());
    assert_eq!(project.selection(), Selection::Nothing);
}

#[test]
fn project_rejects_empty_name() {
    let id = ProjectId::new(1).expect("id");
    assert_eq!(
        Project::new(id, String::new()),
        Err(ProjectError::EmptyName)
    );
}

#[test]
fn project_accepts_whitespace_only_name_without_normalization() {
    let id = ProjectId::new(2).expect("id");
    let project = Project::new(id, "   ".to_string()).expect("whitespace name");
    assert_eq!(project.name(), "   ");
}
