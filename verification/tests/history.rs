use crush::history::crush_history_file;

#[test]
fn history_is_kept_in_the_home_directory() {
    assert_eq!(crush_history_file(Some("/home/ann".to_string())), "/home/ann/.crush_history");
}

#[test]
fn history_without_home_is_kept_in_the_current_directory() {
    assert_eq!(crush_history_file(None), "./.crush_history");
}

#[test]
fn home_with_separator_gets_no_second_one() {
    assert_eq!(crush_history_file(Some("/home/ann/".to_string())), "/home/ann/.crush_history");
    assert_eq!(crush_history_file(Some("/".to_string())), "/.crush_history");
}

#[test]
fn empty_home_gives_the_bare_file_name() {
    assert_eq!(crush_history_file(Some("".to_string())), ".crush_history");
}

#[test]
fn home_with_other_than_ascii_is_kept() {
    assert_eq!(crush_history_file(Some("/home/zoë".to_string())), "/home/zoë/.crush_history");
}
