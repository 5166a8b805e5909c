use cargo_add_dynamic::{DirPath, ManifestDocument, Probe, Progress, Workspace};

fn workspace_of(text: &str) -> Workspace {
    let start = DirPath { anchor: "/".to_string(), segments: vec!["w".to_string()] };
    let search = Workspace::find_starting_in_dir(start, None);
    match search.step(Probe::Content(text.to_string())) {
        Progress::Found(workspace) => workspace,
        _ => panic!("the manifest declares a workspace and its own package"),
    }
}

#[test]
fn manifest_with_a_workspace_table_declares_a_workspace() {
    assert!(ManifestDocument::parse("[workspace]\n").ok().unwrap().is_workspace());
    assert!(ManifestDocument::parse("workspace = { members = [] }\n").ok().unwrap().is_workspace());
    assert!(ManifestDocument::parse("[workspace.metadata]\nx = 1\n").ok().unwrap().is_workspace());
}

#[test]
fn manifest_without_a_workspace_table_declares_none() {
    assert!(!ManifestDocument::parse("").ok().unwrap().is_workspace());
    assert!(!ManifestDocument::parse("[package]\nname = \"a\"\n").ok().unwrap().is_workspace());
    assert!(!ManifestDocument::parse("workspace = \"yes\"\n").ok().unwrap().is_workspace());
    assert!(!ManifestDocument::parse("[[workspace]]\nmembers = []\n").ok().unwrap().is_workspace());
}

#[test]
fn package_name_is_the_string_under_package_name() {
    let name = |text: &str| ManifestDocument::parse(text).ok().unwrap().package_name();
    assert_eq!(name("[package]\nname = \"foo\"\nversion = \"1.0.0\"\n"), Some("foo".to_string()));
    assert_eq!(name("package = { name = \"bar\" }\n"), Some("bar".to_string()));
    assert_eq!(name("package.name = \"baz\"\n"), Some("baz".to_string()));
    assert_eq!(name("[package]\nname = 3\n"), None);
    assert_eq!(name("[package]\nversion = \"1.0.0\"\n"), None);
    assert_eq!(name("package = \"foo\"\n"), None);
    assert_eq!(name("name = \"foo\"\n"), None);
    assert_eq!(name(""), None);
}

#[test]
fn members_are_the_strings_of_the_member_array_in_order() {
    let members = |text: &str| ManifestDocument::parse(text).ok().unwrap().members();
    assert_eq!(
        members("[workspace]\nmembers = [\"b\", \"a\", \"b\"]\n"),
        vec!["b".to_string(), "a".to_string(), "b".to_string()]
    );
    assert_eq!(
        members("[workspace]\nmembers = [\"a\", 1, \"c\", [\"d\"], true]\n"),
        vec!["a".to_string(), "c".to_string()]
    );
    assert_eq!(members("[workspace]\nmembers = []\n"), Vec::<String>::new());
    assert_eq!(members("[workspace]\nmembers = \"a\"\n"), Vec::<String>::new());
    assert_eq!(members("[workspace]\n"), Vec::<String>::new());
    assert_eq!(members("members = [\"a\"]\n"), Vec::<String>::new());
    assert_eq!(members("workspace = 1\n"), Vec::<String>::new());
}

#[test]
fn text_that_is_not_toml_is_rejected() {
    assert!(ManifestDocument::parse("[workspace\n").is_err());
    assert!(ManifestDocument::parse("a = 1\na = 2\n").is_err());
}

#[test]
fn pushed_member_stands_at_the_end_of_the_list() {
    let mut manifest =
        ManifestDocument::parse("[workspace]\nmembers = [\"a\", \"b\"]\n").ok().unwrap();
    assert!(manifest.push_member("c/d"));
    assert_eq!(manifest.members(), vec!["a".to_string(), "b".to_string(), "c/d".to_string()]);
    assert!(manifest.push_member("a"));
    assert_eq!(
        manifest.members(),
        vec!["a".to_string(), "b".to_string(), "c/d".to_string(), "a".to_string()]
    );
    assert_eq!(manifest.to_text(), "[workspace]\nmembers = [\"a\", \"b\", \"c/d\", \"a\"]\n");
}

#[test]
fn push_without_a_member_list_changes_nothing() {
    for text in ["[workspace]\nresolver = \"2\"\n", "[package]\nname = \"a\"\n", "[workspace]\nmembers = \"a\"\n"] {
        let mut manifest = ManifestDocument::parse(text).ok().unwrap();
        assert!(!manifest.push_member("new"));
        assert_eq!(manifest.to_text(), text);
        assert_eq!(manifest.package_name(), ManifestDocument::parse(text).ok().unwrap().package_name());
    }
}

#[test]
fn parsed_manifest_is_written_back_as_it_was_read() {
    let text = "# top\n[package]\nname   = \"root\" # the name\n\n[workspace]\nmembers = [\n  \"a\", # first\n]\n\n[dependencies]\nserde = { version = \"1\" }\n";
    assert_eq!(ManifestDocument::parse(text).ok().unwrap().to_text(), text);
}

#[test]
fn added_member_is_read_back_and_the_rest_is_kept() {
    let text = "# top\n[package]\nname   = \"root\" # the name\n\n[workspace]\nmembers = [\"a\", \"b\"]\nresolver = \"2\"\n\n[dependencies]\nserde = { version = \"1\" }\n";
    let mut workspace = workspace_of(text);
    assert_eq!(workspace.members(), vec!["a".to_string(), "b".to_string()]);
    let written = workspace.add_member("sub/foo-dynamic");
    assert_eq!(
        written,
        "# top\n[package]\nname   = \"root\" # the name\n\n[workspace]\nmembers = [\"a\", \"b\", \"sub/foo-dynamic\"]\nresolver = \"2\"\n\n[dependencies]\nserde = { version = \"1\" }\n"
    );
    assert_eq!(
        workspace.members(),
        vec!["a".to_string(), "b".to_string(), "sub/foo-dynamic".to_string()]
    );
    assert_eq!(workspace.target_package_name(), "root");
    assert!(workspace.target_is_root_package());
    assert_eq!(workspace.manifest_dir().segments, vec!["w".to_string()]);

    let read_again = ManifestDocument::parse(&written).ok().unwrap();
    assert_eq!(
        read_again.members(),
        vec!["a".to_string(), "b".to_string(), "sub/foo-dynamic".to_string()]
    );
    assert_eq!(read_again.package_name(), Some("root".to_string()));
    assert!(read_again.is_workspace());
}

#[test]
fn member_added_to_an_empty_list_is_the_only_one() {
    let mut workspace = workspace_of("[package]\nname = \"root\"\n[workspace]\nmembers = []\n");
    let written = workspace.add_member("foo-dynamic");
    assert_eq!(written, "[package]\nname = \"root\"\n[workspace]\nmembers = [\"foo-dynamic\"]\n");
    assert_eq!(workspace.members(), vec!["foo-dynamic".to_string()]);
}

#[test]
fn member_added_without_a_member_list_leaves_the_manifest_as_it_was() {
    let text = "[package]\nname = \"root\"\n\n[workspace]\nresolver = \"2\"\n";
    let mut workspace = workspace_of(text);
    assert_eq!(workspace.add_member("foo-dynamic"), text);
    assert_eq!(workspace.members(), Vec::<String>::new());
}
