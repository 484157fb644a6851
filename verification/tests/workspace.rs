use remedy::workspace::Workspace;

#[test]
fn meta_path_lies_below_the_metadata_directory() {
    let workspace = Workspace::new("/projects/deck".to_string());
    assert_eq!(workspace.get_meta("config.toml"), "/projects/deck/.remedy/config.toml");
}

#[test]
fn workspace_path_lies_below_the_root() {
    let workspace = Workspace::new("/projects/deck".to_string());
    assert_eq!(workspace.get_path("notes/a.txt"), "/projects/deck/notes/a.txt");
}

#[test]
fn absolute_path_stands_for_itself() {
    let workspace = Workspace::new("/projects/deck".to_string());
    assert_eq!(workspace.get_path("/etc/grammar.pest"), "/etc/grammar.pest");
    assert_eq!(workspace.get_meta("/etc/grammar.pest"), "/etc/grammar.pest");
}

#[test]
fn root_that_ends_in_a_separator_gets_no_second_one() {
    let workspace = Workspace::new("/projects/deck/".to_string());
    assert_eq!(workspace.get_meta("g"), "/projects/deck/.remedy/g");
}
