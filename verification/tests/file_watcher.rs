use maestro_tui::file_watcher::{
    ancestors, changed_worktrees, find_worktree_root, first_root, git_entry, WatchEvent, WatchedPaths,
};
use tempfile::{Builder, TempDir};

/// A directory named exactly `name` inside `parent`.
fn named_dir(parent: &std::path::Path, name: &str) -> TempDir {
    Builder::new().prefix(name).rand_bytes(0).tempdir_in(parent).unwrap()
}

fn path_str(p: &std::path::Path) -> String {
    p.to_str().unwrap().to_string()
}

#[test]
fn test_find_worktree_root_not_git() {
    let dir = tempfile::tempdir().unwrap();
    let result = find_worktree_root(&path_str(dir.path()));
    assert!(result.is_none());
}

#[test]
fn test_find_worktree_root_with_git_dir() {
    let dir = tempfile::tempdir().unwrap();
    let _git = named_dir(dir.path(), ".git");

    let result = find_worktree_root(&path_str(dir.path()));
    assert_eq!(result, Some(path_str(dir.path())));
}

#[test]
fn test_find_worktree_root_nested_file() {
    let dir = tempfile::tempdir().unwrap();
    let _git = named_dir(dir.path(), ".git");
    let src = named_dir(dir.path(), "src");
    let nested = named_dir(src.path(), "nested");
    let file = Builder::new().prefix("file.rs").rand_bytes(0).tempfile_in(nested.path()).unwrap();

    let result = find_worktree_root(&path_str(file.path()));
    assert_eq!(result, Some(path_str(dir.path())));
}

// --- further cases ---

#[test]
fn changed_worktrees_lists_each_path_once() {
    let events = vec![
        WatchEvent::FileChanged("/a".to_string()),
        WatchEvent::FileChanged("/b".to_string()),
        WatchEvent::FileChanged("/a".to_string()),
        WatchEvent::FileChanged("/a/".to_string()),
    ];
    assert_eq!(changed_worktrees(events), vec!["/a".to_string(), "/b".to_string()]);
    assert!(changed_worktrees(Vec::new()).is_empty());
}

#[test]
fn watched_paths_insert_and_remove() {
    let mut watched = WatchedPaths::new();
    assert!(!watched.contains("/w"));
    assert!(watched.insert("/w".to_string()));
    assert!(watched.contains("/w"));
    assert!(watched.contains("/w/"));
    assert!(!watched.insert("/w".to_string()));
    assert!(watched.insert("/x".to_string()));
    assert!(watched.remove("/w"));
    assert!(!watched.contains("/w"));
    assert!(watched.contains("/x"));
    assert!(!watched.remove("/w"));
}

#[test]
fn ancestors_walk_up_to_the_root() {
    assert_eq!(ancestors("/a/b/c"), vec!["/a/b/c", "/a/b", "/a", "/"]);
    assert_eq!(ancestors("/"), vec!["/"]);
}

#[test]
fn git_entry_is_inside_the_directory() {
    assert_eq!(git_entry("/a/b"), "/a/b/.git");
}

#[test]
fn first_root_takes_the_nearest_found_directory() {
    let dirs = vec!["/a/b".to_string(), "/a".to_string(), "/".to_string()];
    assert_eq!(first_root(&dirs, &vec![false, true]), Some("/a".to_string()));
    assert_eq!(first_root(&dirs, &vec![true]), Some("/a/b".to_string()));
    assert_eq!(first_root(&dirs, &vec![false, false, false]), None);
    assert_eq!(first_root(&dirs, &Vec::new()), None);
}

#[test]
fn nested_directory_finds_enclosing_root() {
    let dir = tempfile::tempdir().unwrap();
    let _git = named_dir(dir.path(), ".git");
    let src = named_dir(dir.path(), "src");
    assert_eq!(find_worktree_root(&path_str(src.path())), Some(path_str(dir.path())));
}
