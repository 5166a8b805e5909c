use cargo_add_dynamic::{DirPath, Probe, Progress, Workspace};

fn dir(anchor: &str, segments: &[&str]) -> DirPath {
    DirPath {
        anchor: anchor.to_string(),
        segments: segments.iter().map(|s| s.to_string()).collect(),
    }
}

fn workspace_in(at: DirPath) -> Workspace {
    let search = Workspace::find_starting_in_dir(at, None);
    match search.step(Probe::Content("[package]\nname = \"root\"\n[workspace]\n".to_string())) {
        Progress::Found(workspace) => workspace,
        _ => panic!("the manifest declares a workspace and its own package"),
    }
}

#[test]
fn path_from_the_workspace_to_itself_is_empty() {
    let workspace = workspace_in(dir("/", &["w"]));
    assert_eq!(
        workspace.relative_path_to_workspace_from(&dir("/", &["w"])),
        Some(Vec::<String>::new())
    );
    let top = workspace_in(dir("/", &[]));
    assert_eq!(top.relative_path_to_workspace_from(&dir("/", &[])), Some(Vec::<String>::new()));
}

#[test]
fn path_from_the_workspace_to_a_directory_outside_is_none() {
    let workspace = workspace_in(dir("/", &["w"]));
    assert_eq!(workspace.relative_path_to_workspace_from(&dir("/", &["unrelated", "deep"])), None);
    assert_eq!(workspace.relative_path_to_workspace_from(&dir("/", &[])), None);
    assert_eq!(workspace.relative_path_to_workspace_from(&dir("/", &["x", "w"])), None);
    assert_eq!(workspace.relative_path_to_workspace_from(&dir("/", &["ww", "a"])), None);
    assert_eq!(workspace.relative_path_to_workspace_from(&dir("", &["w", "a"])), None);
    assert_eq!(workspace.relative_path_to_workspace_from(&dir("C:\\", &["w", "a"])), None);
    let deep = workspace_in(dir("/", &["w", "a", "b"]));
    assert_eq!(deep.relative_path_to_workspace_from(&dir("/", &["w", "a"])), None);
}

#[test]
fn path_from_the_workspace_to_a_directory_inside_is_what_lies_between() {
    let workspace = workspace_in(dir("/", &["home", "w"]));
    assert_eq!(
        workspace.relative_path_to_workspace_from(&dir("/", &["home", "w", "a"])),
        Some(vec!["a".to_string()])
    );
    assert_eq!(
        workspace.relative_path_to_workspace_from(&dir("/", &["home", "w", "crates", "x", "src"])),
        Some(vec!["crates".to_string(), "x".to_string(), "src".to_string()])
    );
    let top = workspace_in(dir("/", &[]));
    assert_eq!(
        top.relative_path_to_workspace_from(&dir("/", &["a", "b"])),
        Some(vec!["a".to_string(), "b".to_string()])
    );
}

#[test]
fn parent_drops_the_last_component() {
    let up = dir("/", &["a", "b"]).parent().unwrap();
    assert_eq!(up.anchor, "/");
    assert_eq!(up.segments, vec!["a".to_string()]);
    let top = up.parent().unwrap();
    assert_eq!(top.anchor, "/");
    assert!(top.segments.is_empty());
    assert!(top.parent().is_none());
    assert!(dir("", &[]).parent().is_none());
}

#[test]
fn paths_are_the_same_when_anchor_and_components_agree() {
    assert!(dir("/", &["a", "b"]).same_as(&dir("/", &["a", "b"])));
    assert!(dir("", &[]).same_as(&dir("", &[])));
    assert!(!dir("/", &["a", "b"]).same_as(&dir("/", &["a"])));
    assert!(!dir("/", &["a"]).same_as(&dir("/", &["a", "b"])));
    assert!(!dir("/", &["a", "b"]).same_as(&dir("/", &["a", "c"])));
    assert!(!dir("/", &["a"]).same_as(&dir("", &["a"])));
    let copy = dir("/", &["a", "b"]).duplicate();
    assert_eq!(copy.anchor, "/");
    assert_eq!(copy.segments, vec!["a".to_string(), "b".to_string()]);
}
