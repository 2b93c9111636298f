use clientats_shell::dirs::DirectoryTree;
use clientats_shell::paths::RuntimeDirectories;

#[test]
fn prepare_creates_the_layout() {
    let rd = RuntimeDirectories::from_config_dir("/home/u/.config/clientats");
    let mut tree = DirectoryTree::new();
    tree.prepare(&rd);
    assert!(tree.contains_dir("/home/u/.config/clientats"));
    assert!(tree.contains_dir("/home/u/.config/clientats/db"));
    assert!(tree.contains_dir("/home/u/.config/clientats/uploads"));
    assert!(!tree.contains_dir("/home/u/.config/other"));
}

#[test]
fn prepare_twice_is_idempotent() {
    // Preparing the same path set twice produces no error and the same
    // directory structure.
    let rd = RuntimeDirectories::from_config_dir("/home/u/.config/clientats");
    let mut once = DirectoryTree::new();
    once.prepare(&rd);
    let mut twice = DirectoryTree::new();
    twice.prepare(&rd);
    twice.prepare(&rd);
    let mut a = once.created.clone();
    let mut b = twice.created.clone();
    a.sort();
    b.sort();
    assert_eq!(a, b);
}

#[test]
fn existing_directory_is_not_an_error() {
    let mut tree = DirectoryTree::new();
    tree.ensure_dir("/tmp/x");
    tree.ensure_dir("/tmp/x");
    assert!(tree.contains_dir("/tmp/x"));
    assert_eq!(tree.created.len(), 1);
}
