use dnotepadx::paths::copy_default_name;

#[test]
fn copy_name_without_an_original() {
    assert_eq!(copy_default_name(None), "untitled_copy.txt");
}

#[test]
fn copy_name_keeps_stem_and_extension() {
    let p = "dir/file.txt".to_string();
    assert_eq!(copy_default_name(Some(&p)), "file_copy.txt");
}

#[test]
fn copy_name_takes_the_final_component() {
    let p = "/home/user/notes/report.md".to_string();
    assert_eq!(copy_default_name(Some(&p)), "report_copy.md");
}

#[test]
fn copy_name_without_extension_defaults_to_txt() {
    let p = "dir/README".to_string();
    assert_eq!(copy_default_name(Some(&p)), "README_copy.txt");
}

#[test]
fn copy_name_splits_at_the_last_dot() {
    let p = "archive.tar.gz".to_string();
    assert_eq!(copy_default_name(Some(&p)), "archive.tar_copy.gz");
}

#[test]
fn copy_name_of_a_hidden_file_has_no_extension() {
    let p = ".bashrc".to_string();
    assert_eq!(copy_default_name(Some(&p)), ".bashrc_copy.txt");
}

#[test]
fn copy_name_with_a_trailing_dot_keeps_it_empty() {
    let p = "notes.".to_string();
    assert_eq!(copy_default_name(Some(&p)), "notes_copy.");
}

#[test]
fn copy_name_strips_a_trailing_separator() {
    let p = "some/dir/".to_string();
    assert_eq!(copy_default_name(Some(&p)), "dir_copy.txt");
}

#[test]
fn copy_name_of_a_root_path_is_untitled() {
    let p = "/".to_string();
    assert_eq!(copy_default_name(Some(&p)), "untitled_copy.txt");
}

#[test]
fn copy_name_of_an_empty_path_is_untitled() {
    let p = String::new();
    assert_eq!(copy_default_name(Some(&p)), "untitled_copy.txt");
}
