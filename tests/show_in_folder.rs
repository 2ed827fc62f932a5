use takma::show_in_folder::{has_comma, plan_reveal, RevealPlan};

#[test]
fn plain_path_is_shown_as_item() {
    match plan_reveal("/home/u/notes.txt".to_string(), false, Some("/home/u".to_string())) {
        RevealPlan::ShowItem(p) => assert_eq!(p, "/home/u/notes.txt"),
        RevealPlan::OpenDirectory(_) => panic!("expected the item to be shown"),
    }
}

#[test]
fn comma_file_opens_parent_directory() {
    match plan_reveal("/home/u/a,b.txt".to_string(), false, Some("/home/u".to_string())) {
        RevealPlan::OpenDirectory(p) => assert_eq!(p, "/home/u"),
        RevealPlan::ShowItem(_) => panic!("expected the parent to be opened"),
    }
}

#[test]
fn comma_directory_opens_itself() {
    match plan_reveal("/home/u/a,b".to_string(), true, Some("/home/u".to_string())) {
        RevealPlan::OpenDirectory(p) => assert_eq!(p, "/home/u/a,b"),
        RevealPlan::ShowItem(_) => panic!("expected the directory to be opened"),
    }
}

#[test]
fn comma_path_without_parent_opens_itself() {
    match plan_reveal("a,b".to_string(), false, None) {
        RevealPlan::OpenDirectory(p) => assert_eq!(p, "a,b"),
        RevealPlan::ShowItem(_) => panic!("expected the path to be opened"),
    }
}

#[test]
fn comma_detection() {
    assert!(has_comma(","));
    assert!(has_comma("x,"));
    assert!(!has_comma(""));
    assert!(!has_comma("/tmp/plain"));
}
