use scan_core::filter::extension_of;
use scan_core::filter::should_submit;

#[test]
fn extension_of_simple_name() {
    assert_eq!(extension_of(&"a.txt".to_string()), Some("txt".to_string()));
}

#[test]
fn extension_of_takes_last_dot() {
    assert_eq!(
        extension_of(&"archive.tar.gz".to_string()),
        Some("gz".to_string())
    );
}

#[test]
fn extension_of_none_without_dot() {
    assert_eq!(extension_of(&"Makefile".to_string()), None);
}

#[test]
fn extension_of_hidden_file_has_none() {
    assert_eq!(extension_of(&".bashrc".to_string()), None);
}

#[test]
fn extension_of_ignores_dot_in_directory() {
    assert_eq!(extension_of(&"dir.d/file".to_string()), None);
}

#[test]
fn extension_of_final_component_only() {
    assert_eq!(
        extension_of(&"/root/sub.dir/x.EXE".to_string()),
        Some("EXE".to_string())
    );
}

#[test]
fn extension_of_trailing_dot_is_empty() {
    assert_eq!(extension_of(&"a.".to_string()), Some("".to_string()));
}

#[test]
fn empty_allow_list_accepts_every_regular_file() {
    let allow: Vec<String> = vec![];
    assert!(should_submit(true, &allow, &"anything".to_string()));
    assert!(should_submit(true, &allow, &"no/extension/here".to_string()));
    assert!(should_submit(true, &allow, &"a.txt".to_string()));
}

#[test]
fn empty_allow_list_rejects_non_regular_paths() {
    let allow: Vec<String> = vec![];
    assert!(!should_submit(false, &allow, &"vanished.exe".to_string()));
    assert!(!should_submit(false, &allow, &"somedir".to_string()));
}

#[test]
fn allow_list_matches_case_insensitively() {
    let allow = vec!["exe".to_string(), "dll".to_string()];
    assert!(should_submit(true, &allow, &"a.EXE".to_string()));
    assert!(should_submit(true, &allow, &"b.Dll".to_string()));
    assert!(!should_submit(true, &allow, &"c.txt".to_string()));
}

#[test]
fn allow_list_rejects_directory_with_matching_name() {
    let allow = vec!["exe".to_string(), "dll".to_string()];
    // a directory is not a regular file, whatever it is named
    assert!(!should_submit(false, &allow, &"d.exe".to_string()));
}

#[test]
fn allow_list_entries_may_carry_case() {
    let allow = vec!["ExE".to_string()];
    assert!(should_submit(true, &allow, &"a.exe".to_string()));
}

#[test]
fn allow_list_rejects_path_without_extension() {
    let allow = vec!["exe".to_string()];
    assert!(!should_submit(true, &allow, &"Makefile".to_string()));
    assert!(!should_submit(true, &allow, &".hidden".to_string()));
}
