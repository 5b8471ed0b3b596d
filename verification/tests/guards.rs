use rmf::guard::{home_or_root, is_force_protected_canonical, is_protected_canonical};

#[test]
fn filesystem_root_is_always_protected() {
    let root = "/".to_owned();
    assert!(is_protected_canonical(&root, None, false));
    assert!(is_protected_canonical(&root, None, true));
    assert!(is_force_protected_canonical(&root, false));
    assert!(is_force_protected_canonical(&root, true));
}

#[test]
fn home_directory_is_protected_on_unix() {
    let home = "/home/alice".to_owned();
    assert!(is_protected_canonical(&home.clone(), Some(&home), false));
    let other = "/home/alice/projects".to_owned();
    assert!(!is_protected_canonical(&other, Some(&home), false));
}

#[test]
fn no_home_means_only_the_root_is_protected_on_unix() {
    let p = "/home/alice".to_owned();
    assert!(!is_protected_canonical(&p, None, false));
}

#[test]
fn drive_roots_are_protected_on_windows_whatever_the_case() {
    let upper = "C:\\".to_owned();
    let lower = "c:\\".to_owned();
    let slash = "C:/".to_owned();
    assert!(is_protected_canonical(&upper, None, true));
    assert!(is_protected_canonical(&lower, None, true));
    assert!(is_protected_canonical(&slash, None, true));
    assert!(is_force_protected_canonical(&upper, true));
    assert!(is_force_protected_canonical(&lower, true));
    // On unix the same strings are ordinary names.
    assert!(!is_protected_canonical(&upper, None, false));
    assert!(!is_force_protected_canonical(&upper, false));
}

#[test]
fn ordinary_paths_are_not_force_protected() {
    let p = "/var/tmp/scratch".to_owned();
    assert!(!is_force_protected_canonical(&p, false));
    assert!(!is_force_protected_canonical(&p, true));
}

#[test]
fn missing_home_falls_back_to_root() {
    assert_eq!(home_or_root(None), "/".to_owned());
    assert_eq!(home_or_root(Some("/home/bob".to_owned())), "/home/bob".to_owned());
}
