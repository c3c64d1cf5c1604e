use spirv_out::paths::{file_name_of, join, parent_of, with_spv_extension};

#[test]
fn join_inserts_separator() {
    assert_eq!(join(&b"/out".to_vec(), &b"x.spv".to_vec()), b"/out/x.spv".to_vec());
}

#[test]
fn join_keeps_existing_trailing_separator() {
    assert_eq!(join(&b"/out/".to_vec(), &b"x".to_vec()), b"/out/x".to_vec());
}

#[test]
fn join_with_empty_directory_is_the_name() {
    assert_eq!(join(&Vec::new(), &b"x".to_vec()), b"x".to_vec());
}

#[test]
fn spv_extension_replaces_existing_extension() {
    assert_eq!(with_spv_extension(&b"main.rs".to_vec()), b"main.spv".to_vec());
}

#[test]
fn spv_extension_appends_when_name_has_none() {
    assert_eq!(with_spv_extension(&b"compute".to_vec()), b"compute.spv".to_vec());
}

#[test]
fn spv_extension_replaces_only_the_last_extension() {
    assert_eq!(with_spv_extension(&b"a.tar.gz".to_vec()), b"a.tar.spv".to_vec());
}

#[test]
fn spv_extension_treats_leading_dot_as_no_extension() {
    assert_eq!(with_spv_extension(&b".hidden".to_vec()), b".hidden.spv".to_vec());
}

#[test]
fn parent_and_file_name_of_nested_path() {
    let path = b"/proj/shaders/main.rs".to_vec();
    assert_eq!(parent_of(&path), Some(b"/proj/shaders".to_vec()));
    assert_eq!(file_name_of(&path), Some(b"main.rs".to_vec()));
}

#[test]
fn parent_of_bare_file_name_is_empty() {
    let path = b"main.rs".to_vec();
    assert_eq!(parent_of(&path), Some(Vec::new()));
    assert_eq!(file_name_of(&path), Some(b"main.rs".to_vec()));
}

#[test]
fn parent_of_root_child_is_root() {
    let path = b"/x".to_vec();
    assert_eq!(parent_of(&path), Some(b"/".to_vec()));
    assert_eq!(file_name_of(&path), Some(b"x".to_vec()));
}

#[test]
fn trailing_separators_are_ignored() {
    let path = b"/usr/bin/".to_vec();
    assert_eq!(parent_of(&path), Some(b"/usr".to_vec()));
    assert_eq!(file_name_of(&path), Some(b"bin".to_vec()));
}

#[test]
fn trailing_slash_keeps_parent_and_file_name() {
    let path = b"dir/sub/".to_vec();
    assert_eq!(parent_of(&path), Some(b"dir".to_vec()));
    assert_eq!(file_name_of(&path), Some(b"sub".to_vec()));
}

#[test]
fn trailing_current_dir_component_is_skipped() {
    assert_eq!(file_name_of(&b"foo.txt/.".to_vec()), Some(b"foo.txt".to_vec()));
    assert_eq!(file_name_of(&b"foo.txt/.//".to_vec()), Some(b"foo.txt".to_vec()));
    assert_eq!(parent_of(&b"foo.txt/.".to_vec()), Some(Vec::new()));
}

#[test]
fn path_terminating_in_parent_dir_has_no_file_name() {
    let path = b"foo.txt/..".to_vec();
    assert_eq!(file_name_of(&path), None);
    assert_eq!(parent_of(&path), Some(b"foo.txt".to_vec()));
    assert_eq!(file_name_of(&b"..".to_vec()), None);
    assert_eq!(parent_of(&b"..".to_vec()), Some(Vec::new()));
}

#[test]
fn lone_current_dir_has_no_file_name_but_an_empty_parent() {
    let path = b".".to_vec();
    assert_eq!(file_name_of(&path), None);
    assert_eq!(parent_of(&path), Some(Vec::new()));
}

#[test]
fn repeated_separators_collapse_in_the_parent() {
    let path = b"a//b".to_vec();
    assert_eq!(parent_of(&path), Some(b"a".to_vec()));
    assert_eq!(file_name_of(&path), Some(b"b".to_vec()));
}

#[test]
fn root_alone_has_no_parent_and_no_file_name() {
    let path = b"/".to_vec();
    assert_eq!(parent_of(&path), None);
    assert_eq!(file_name_of(&path), None);
}

#[test]
fn empty_path_has_no_parent_and_no_file_name() {
    let path = Vec::new();
    assert_eq!(parent_of(&path), None);
    assert_eq!(file_name_of(&path), None);
}
