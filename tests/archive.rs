use ouch::archive::{compressing_message, join, tar, zip};

#[test]
fn join_paths() {
    assert_eq!(join("out", "a/b.txt"), "out/a/b.txt");
    assert_eq!(join("out/", "b.txt"), "out/b.txt");
    assert_eq!(join("out", "/etc/x"), "/etc/x");
    assert_eq!(join("", "b.txt"), "b.txt");
}

#[test]
fn tar_unpack_targets() {
    let files = tar::unpack_archive("/tmp/out", &vec![String::from("a.txt"), String::from("d/b.txt")]);
    assert_eq!(files, vec![String::from("/tmp/out/a.txt"), String::from("/tmp/out/d/b.txt")]);
}

#[test]
fn tar_listing_keeps_every_entry() {
    let listed = tar::list_archive(&vec![(String::from("d/"), true), (String::from("d/a"), false)]);
    assert_eq!(listed.len(), 2);
    assert_eq!(listed[0].path, "d/");
    assert!(listed[0].is_dir);
    assert_eq!(listed[1].path, "d/a");
    assert!(!listed[1].is_dir);
}

#[test]
fn zip_listing_skips_unsafe_names() {
    let listed = zip::list_archive(&vec![(Some(String::from("a")), false), (None, false), (Some(String::from("d/")), true)]);
    assert_eq!(listed.len(), 2);
    assert_eq!(listed[0].path, "a");
    assert_eq!(listed[1].path, "d/");
    assert!(listed[1].is_dir);
}

#[test]
fn zip_comments() {
    assert_eq!(zip::check_for_comments("a.txt", "hello").as_deref(), Some("Found comment in a.txt: hello"));
    assert_eq!(zip::check_for_comments("a.txt", ""), None);
}

#[test]
fn compressing_status_line() {
    assert_eq!(compressing_message("a.txt"), "Compressing 'a.txt'.");
    assert_eq!(compressing_message(""), "Compressing ''.");
}
