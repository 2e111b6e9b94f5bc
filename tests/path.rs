use shell::path::{candidate_path, candidate_paths, get_env_path, search_file_in_paths};

fn strings(v: &[&str]) -> Vec<String> {
    v.iter().map(|s| s.to_string()).collect()
}

#[test]
fn path_variable_is_split_on_separator() {
    assert_eq!(get_env_path("/usr/bin:/bin", ':'), strings(&["/usr/bin", "/bin"]));
    assert_eq!(get_env_path("C:\\bin;D:\\tools", ';'), strings(&["C:\\bin", "D:\\tools"]));
}

#[test]
fn empty_fields_and_placeholder_are_dropped() {
    assert_eq!(
        get_env_path("::/usr/bin:$PATH::/bin:", ':'),
        strings(&["/usr/bin", "/bin"])
    );
    assert_eq!(get_env_path("$PATH:/opt/$PATH", ':'), strings(&["/opt/$PATH"]));
    assert!(get_env_path("", ':').is_empty());
    assert!(get_env_path(":::", ':').is_empty());
}

#[test]
fn candidate_paths_join_with_one_slash() {
    let name = "ls".to_string();
    assert_eq!(candidate_path(&"/usr/bin".to_string(), &name), "/usr/bin/ls");
    assert_eq!(candidate_path(&"/usr/bin/".to_string(), &name), "/usr/bin/ls");
    assert_eq!(candidate_path(&"/usr/bin".to_string(), &"/bin/ls".to_string()), "/bin/ls");
    assert_eq!(
        candidate_paths(&name, &strings(&["/a", "/b/"])),
        strings(&["/a/ls", "/b/ls"])
    );
}

#[test]
fn earliest_directory_wins() {
    let dirs = strings(&["/one", "/two", "/three"]);
    let name = "tool".to_string();
    assert_eq!(
        search_file_in_paths(&name, &dirs, &vec![false, true, true]),
        Some("/two/tool".to_string())
    );
    assert_eq!(
        search_file_in_paths(&name, &dirs, &vec![true, true, true]),
        Some("/one/tool".to_string())
    );
}

#[test]
fn no_executable_candidate_resolves_to_none() {
    let dirs = strings(&["/one", "/two"]);
    let name = "tool".to_string();
    assert_eq!(search_file_in_paths(&name, &dirs, &vec![false, false]), None);
    assert_eq!(search_file_in_paths(&name, &dirs, &vec![]), None);
    assert_eq!(search_file_in_paths(&name, &dirs, &vec![false]), None);
    assert_eq!(search_file_in_paths(&name, &vec![], &vec![true]), None);
}
