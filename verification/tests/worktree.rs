use std::cell::RefCell;
use std::collections::HashMap;

use std::rc::Rc;

use maestro_tui::worktree::{
    add_args, added_worktree, checkout_args, counts_needed, diff_args, list_args, merge_args,
    merged_args, remove_args, rev_list_args, should_remove, status_args, toplevel_args,
    verify_args,
    diff_from_output, main_from_main, main_from_master, merged_from_main, merged_from_master,
    removal_outcome, step_outcome, worktree_status, parse_worktree_list, slugify_prompt, GitBackend, GitOutput, RemoveWarning, Worktree, WorktreeError,
    WorktreeManager, WorktreeStatus,
};

/// Git backend with scripted answers; unscripted commands succeed with no output.
struct MockGit {
    responses: HashMap<String, GitOutput>,
    executed: RefCell<Vec<Vec<String>>>,
}

impl MockGit {
    fn new() -> Self {
        MockGit { responses: HashMap::new(), executed: RefCell::new(Vec::new()) }
    }

    fn set_raw_response(&mut self, args: &[&str], output: GitOutput) {
        self.responses.insert(args.join(" "), output);
    }
}

fn success_output(stdout: &str) -> GitOutput {
    GitOutput { success: true, stdout: stdout.to_string(), stderr: String::new() }
}

impl GitBackend for MockGit {
    fn execute(&self, args: &[&str]) -> Result<GitOutput, String> {
        self.executed.borrow_mut().push(args.iter().map(|s| s.to_string()).collect());
        match self.responses.get(&args.join(" ")) {
            Some(o) => Ok(o.clone()),
            None => Ok(GitOutput {
                success: true,
                stdout: String::new(),
                stderr: "command not mocked".to_string(),
            }),
        }
    }

    fn execute_in_dir(&self, _dir: &str, args: &[&str]) -> Result<GitOutput, String> {
        self.execute(args)
    }
}

#[test]
fn test_parse_worktree_list_single() {
    let output = "worktree /home/user/project\nbranch refs/heads/main\n\n";
    let worktrees = parse_worktree_list(output);

    assert_eq!(worktrees.len(), 1);
    assert_eq!(worktrees[0].path, "/home/user/project");
    assert_eq!(worktrees[0].branch, Some("main".to_string()));
    assert!(worktrees[0].is_main);
    assert!(!worktrees[0].is_bare);
}

#[test]
fn test_parse_worktree_list_multiple() {
    let output = "\
worktree /home/user/project
branch refs/heads/main

worktree /home/user/project.feature-x
branch refs/heads/feature-x

worktree /home/user/project.bugfix
branch refs/heads/bugfix
";
    let worktrees = parse_worktree_list(output);

    assert_eq!(worktrees.len(), 3);

    assert_eq!(worktrees[0].path, "/home/user/project");
    assert_eq!(worktrees[0].branch, Some("main".to_string()));
    assert!(worktrees[0].is_main);

    assert_eq!(worktrees[1].path, "/home/user/project.feature-x");
    assert_eq!(worktrees[1].branch, Some("feature-x".to_string()));
    assert!(!worktrees[1].is_main);

    assert_eq!(worktrees[2].path, "/home/user/project.bugfix");
    assert_eq!(worktrees[2].branch, Some("bugfix".to_string()));
    assert!(!worktrees[2].is_main);
}

#[test]
fn test_parse_worktree_list_bare() {
    let output = "worktree /home/user/project.git\nbare\n\n";
    let worktrees = parse_worktree_list(output);

    assert_eq!(worktrees.len(), 1);
    assert!(worktrees[0].is_bare);
    assert!(worktrees[0].branch.is_none());
}

#[test]
fn test_resolve_worktree_path() {
    let mut git = MockGit::new();
    git.set_raw_response(&["rev-parse", "--show-toplevel"], success_output("/home/user/myapp\n"));

    let manager = WorktreeManager::with_backend(git).unwrap();

    assert_eq!(manager.resolve_worktree_path("feature-x"), "/home/user/myapp.feature-x");
    assert_eq!(manager.resolve_worktree_path("bugfix-123"), "/home/user/myapp.bugfix-123");
}

#[test]
fn test_manager_repo_info() {
    let mut git = MockGit::new();
    git.set_raw_response(
        &["rev-parse", "--show-toplevel"],
        success_output("/code/awesome-project\n"),
    );

    let manager = WorktreeManager::with_backend(git).unwrap();

    assert_eq!(manager.repo_root(), "/code/awesome-project");
    assert_eq!(manager.repo_name(), "awesome-project");
}

#[test]
fn test_slugify_prompt_basic() {
    assert_eq!(slugify_prompt("Add user authentication"), "add-user-authentication");
    assert_eq!(slugify_prompt("Fix bug in login"), "fix-bug-in-login");
}

#[test]
fn test_slugify_prompt_special_chars() {
    assert_eq!(slugify_prompt("Add feature: auth!"), "add-feature-auth");
    assert_eq!(slugify_prompt("Fix #123 bug"), "fix-123-bug");
}

#[test]
fn test_slugify_prompt_truncates_words() {
    assert_eq!(
        slugify_prompt("one two three four five six seven"),
        "one-two-three-four-five"
    );
}

#[test]
fn test_slugify_prompt_empty() {
    assert_eq!(slugify_prompt(""), "worktree");
    assert_eq!(slugify_prompt("   "), "worktree");
}

#[test]
fn test_slugify_prompt_consecutive_special() {
    assert_eq!(slugify_prompt("test--multiple---dashes"), "test-multiple-dashes");
}

#[test]
fn test_remove_warning_equality() {
    let w1 = RemoveWarning::NotMerged { branch: "test".to_string() };
    let w2 = RemoveWarning::NotMerged { branch: "test".to_string() };
    let w3 = RemoveWarning::NotMerged { branch: "other".to_string() };
    let w4 = RemoveWarning::UncommittedChanges;

    assert_eq!(w1, w2);
    assert_ne!(w1, w3);
    assert_ne!(w1, w4);
}

#[test]
fn test_worktree_status_debug() {
    let status = WorktreeStatus {
        worktree: Worktree {
            path: "/test".to_string(),
            branch: Some("main".to_string()),
            is_main: true,
            is_bare: false,
        },
        is_dirty: true,
        ahead: 5,
        behind: 3,
    };

    let debug_str = format!("{:?}", status);
    assert!(debug_str.contains("WorktreeStatus"));
}

fn two_worktrees() -> &'static str {
    "\
worktree /home/user/project
branch refs/heads/main

worktree /home/user/project.feature
branch refs/heads/feature
"
}

#[test]
fn test_list_worktrees() {
    let mut git = MockGit::new();
    git.set_raw_response(&["rev-parse", "--show-toplevel"], success_output("/home/user/project\n"));
    git.set_raw_response(
        &["worktree", "list", "--porcelain"],
        success_output(
            "\
worktree /home/user/project
branch refs/heads/main

worktree /home/user/project.dev
branch refs/heads/dev
",
        ),
    );

    let manager = WorktreeManager::with_backend(git).unwrap();
    let worktrees = manager.list().unwrap();

    assert_eq!(worktrees.len(), 2);
    assert_eq!(worktrees[0].branch, Some("main".to_string()));
    assert_eq!(worktrees[1].branch, Some("dev".to_string()));
}

#[test]
fn test_switch_finds_worktree() {
    let mut git = MockGit::new();
    git.set_raw_response(&["rev-parse", "--show-toplevel"], success_output("/home/user/project\n"));
    git.set_raw_response(&["worktree", "list", "--porcelain"], success_output(two_worktrees()));

    let manager = WorktreeManager::with_backend(git).unwrap();
    let path = manager.switch("feature").unwrap();

    assert_eq!(path, "/home/user/project.feature");
}

#[test]
fn test_switch_not_found() {
    let mut git = MockGit::new();
    git.set_raw_response(&["rev-parse", "--show-toplevel"], success_output("/home/user/project\n"));
    git.set_raw_response(
        &["worktree", "list", "--porcelain"],
        success_output("worktree /home/user/project\nbranch refs/heads/main\n"),
    );

    let manager = WorktreeManager::with_backend(git).unwrap();
    let result = manager.switch("nonexistent");

    assert!(result.is_err());
    assert!(result.unwrap_err().message().contains("No worktree found"));
}

#[test]
fn test_create_worktree_succeeds() {
    let mut git = MockGit::new();
    git.set_raw_response(&["rev-parse", "--show-toplevel"], success_output("/tmp/test-project\n"));
    git.set_raw_response(
        &["worktree", "add", "-b", "feature-x", "/tmp/test-project.feature-x"],
        success_output(""),
    );

    let manager = WorktreeManager::with_backend(git).unwrap();
    let worktree = manager.create("feature-x", Some("Test prompt")).unwrap();

    assert_eq!(worktree.path, "/tmp/test-project.feature-x");
    assert_eq!(worktree.branch, Some("feature-x".to_string()));
    assert!(!worktree.is_main);
    assert!(!worktree.is_bare);
}

#[test]
fn test_remove_returns_not_merged_warning() {
    let mut git = MockGit::new();
    git.set_raw_response(&["rev-parse", "--show-toplevel"], success_output("/home/user/project\n"));
    git.set_raw_response(&["worktree", "list", "--porcelain"], success_output(two_worktrees()));
    git.set_raw_response(&["branch", "--merged", "main"], success_output("  main\n"));
    git.set_raw_response(&["status", "--porcelain"], success_output(""));

    let manager = WorktreeManager::with_backend(git).unwrap();
    let warnings = manager.remove("feature", false).unwrap();

    assert_eq!(warnings.len(), 1);
    assert!(matches!(
        &warnings[0],
        RemoveWarning::NotMerged { branch } if branch == "feature"
    ));
}

#[test]
fn test_remove_returns_uncommitted_changes_warning() {
    let mut git = MockGit::new();
    git.set_raw_response(&["rev-parse", "--show-toplevel"], success_output("/home/user/project\n"));
    git.set_raw_response(&["worktree", "list", "--porcelain"], success_output(two_worktrees()));
    git.set_raw_response(&["branch", "--merged", "main"], success_output("  main\n  feature\n"));
    git.set_raw_response(&["status", "--porcelain"], success_output(" M src/main.rs\n"));

    let manager = WorktreeManager::with_backend(git).unwrap();
    let warnings = manager.remove("feature", false).unwrap();

    assert_eq!(warnings.len(), 1);
    assert!(matches!(&warnings[0], RemoveWarning::UncommittedChanges));
}

#[test]
fn test_remove_with_force_proceeds() {
    let mut git = MockGit::new();
    git.set_raw_response(&["rev-parse", "--show-toplevel"], success_output("/home/user/project\n"));
    git.set_raw_response(&["worktree", "list", "--porcelain"], success_output(two_worktrees()));
    git.set_raw_response(&["branch", "--merged", "main"], success_output("  main\n"));
    git.set_raw_response(&["status", "--porcelain"], success_output(" M src/main.rs\n"));
    git.set_raw_response(
        &["worktree", "remove", "--force", "/home/user/project.feature"],
        success_output(""),
    );

    let manager = WorktreeManager::with_backend(git).unwrap();
    let warnings = manager.remove("feature", true).unwrap();

    assert_eq!(warnings.len(), 2);
}

#[test]
fn test_get_ahead_behind_returns_counts() {
    let mut git = MockGit::new();
    git.set_raw_response(&["rev-parse", "--show-toplevel"], success_output("/home/user/project\n"));
    git.set_raw_response(&["rev-parse", "--verify", "main"], success_output("abc123\n"));
    git.set_raw_response(
        &["rev-list", "--left-right", "--count", "main...feature"],
        success_output("2\t5\n"),
    );

    let manager = WorktreeManager::with_backend(git).unwrap();
    let (ahead, behind) = manager.get_ahead_behind("feature").unwrap();

    assert_eq!(ahead, 5);
    assert_eq!(behind, 2);
}

#[test]
fn test_get_ahead_behind_main_branch_is_zero() {
    let mut git = MockGit::new();
    git.set_raw_response(&["rev-parse", "--show-toplevel"], success_output("/home/user/project\n"));
    git.set_raw_response(&["rev-parse", "--verify", "main"], success_output("abc123\n"));

    let manager = WorktreeManager::with_backend(git).unwrap();
    let (ahead, behind) = manager.get_ahead_behind("main").unwrap();

    assert_eq!(ahead, 0);
    assert_eq!(behind, 0);
}

#[test]
fn test_merge_with_custom_message() {
    let mut git = MockGit::new();
    git.set_raw_response(&["rev-parse", "--show-toplevel"], success_output("/home/user/project\n"));
    git.set_raw_response(&["rev-parse", "--verify", "main"], success_output("abc123\n"));
    git.set_raw_response(&["checkout", "main"], success_output(""));
    git.set_raw_response(&["merge", "feature", "-m", "Custom merge message"], success_output(""));

    let manager = WorktreeManager::with_backend(git).unwrap();
    let result = manager.merge("feature", Some("Custom merge message"));

    assert!(result.is_ok());
}

#[test]
fn test_merge_without_message() {
    let mut git = MockGit::new();
    git.set_raw_response(&["rev-parse", "--show-toplevel"], success_output("/home/user/project\n"));
    git.set_raw_response(&["rev-parse", "--verify", "main"], success_output("abc123\n"));
    git.set_raw_response(&["checkout", "main"], success_output(""));
    git.set_raw_response(&["merge", "feature"], success_output(""));

    let manager = WorktreeManager::with_backend(git).unwrap();
    let result = manager.merge("feature", None);

    assert!(result.is_ok());
}

#[test]
fn test_list_with_status_includes_dirty_and_ahead_behind() {
    let mut git = MockGit::new();
    git.set_raw_response(&["rev-parse", "--show-toplevel"], success_output("/home/user/project\n"));
    git.set_raw_response(&["worktree", "list", "--porcelain"], success_output(two_worktrees()));
    git.set_raw_response(&["status", "--porcelain"], success_output(""));
    git.set_raw_response(&["rev-parse", "--verify", "main"], success_output("abc123\n"));
    git.set_raw_response(
        &["rev-list", "--left-right", "--count", "main...main"],
        success_output("0\t0\n"),
    );
    git.set_raw_response(
        &["rev-list", "--left-right", "--count", "main...feature"],
        success_output("2\t1\n"),
    );

    let manager = WorktreeManager::with_backend(git).unwrap();
    let statuses = manager.list_with_status().unwrap();

    assert_eq!(statuses.len(), 2);

    assert_eq!(statuses[0].worktree.branch, Some("main".to_string()));
    assert!(!statuses[0].is_dirty);
    assert_eq!(statuses[0].ahead, 0);
    assert_eq!(statuses[0].behind, 0);

    assert_eq!(statuses[1].worktree.branch, Some("feature".to_string()));
    assert_eq!(statuses[1].ahead, 1);
    assert_eq!(statuses[1].behind, 2);
}

// --- further cases ---

#[test]
fn slug_names_are_clean_branch_names() {
    for prompt in ["  --Hello,   World!!  ", "ÄÖÜ ß", "a-b", "x  y  z", "___"] {
        let slug = slugify_prompt(prompt);
        assert!(!slug.is_empty());
        assert!(!slug.starts_with('-') && !slug.ends_with('-'));
        assert!(!slug.contains("--"));
        assert!(slug.chars().all(|c| c.is_ascii_lowercase() || c.is_ascii_digit() || c == '-'));
    }
    assert_eq!(slugify_prompt("ÄÖÜ ß"), "worktree");
    assert_eq!(slugify_prompt("  --Hello,   World!!  "), "hello-world");
}

#[test]
fn manager_outside_repository_is_refused() {
    let mut git = MockGit::new();
    git.set_raw_response(
        &["rev-parse", "--show-toplevel"],
        GitOutput { success: false, stdout: String::new(), stderr: "fatal: not a git repository\n".to_string() },
    );
    let result = WorktreeManager::with_backend(git);
    assert!(matches!(result, Err(WorktreeError::NotARepository { .. })));
}

#[test]
fn merge_without_main_branch_fails() {
    let mut git = MockGit::new();
    git.set_raw_response(&["rev-parse", "--show-toplevel"], success_output("/home/user/project\n"));
    let fail = GitOutput { success: false, stdout: String::new(), stderr: "bad".to_string() };
    git.set_raw_response(&["rev-parse", "--verify", "main"], fail.clone());
    git.set_raw_response(&["rev-parse", "--verify", "master"], fail);
    let manager = WorktreeManager::with_backend(git).unwrap();
    assert!(matches!(manager.merge("feature", None), Err(WorktreeError::NoMainBranch)));
}

#[test]
fn create_refuses_existing_worktree_path_or_failed_add() {
    let mut git = MockGit::new();
    git.set_raw_response(&["rev-parse", "--show-toplevel"], success_output("/tmp/test-project\n"));
    git.set_raw_response(
        &["worktree", "add", "-b", "x", "/tmp/test-project.x"],
        GitOutput { success: false, stdout: String::new(), stderr: "  fatal: exists \n".to_string() },
    );
    let manager = WorktreeManager::with_backend(git).unwrap();
    match manager.create("x", None) {
        Err(WorktreeError::CommandFailed { command, stderr }) => {
            assert_eq!(command, "git worktree add");
            assert_eq!(stderr, "fatal: exists");
        }
        Err(WorktreeError::PathExists { .. }) => {}
        other => panic!("unexpected result: {:?}", other.is_ok()),
    }
}

fn failed_output(stderr: &str) -> GitOutput {
    GitOutput { success: false, stdout: String::new(), stderr: stderr.to_string() }
}

#[test]
fn merged_decisions_follow_git() {
    assert!(matches!(merged_from_main(Ok(success_output("  main\n* feat\n")), "feat"), Some(Ok(true))));
    assert!(matches!(merged_from_main(Ok(success_output("  main\n")), "feat"), Some(Ok(false))));
    assert!(merged_from_main(Ok(failed_output("no main")), "feat").is_none());
    assert!(matches!(
        merged_from_main(Err("spawn".to_string()), "feat"),
        Some(Err(WorktreeError::Exec { .. }))
    ));
    assert!(matches!(merged_from_master(Ok(failed_output("x")), "feat"), Ok(false)));
    assert!(matches!(merged_from_master(Ok(success_output("  feat\n")), "feat"), Ok(true)));
}

#[test]
fn main_branch_decisions_follow_git() {
    assert_eq!(main_from_main(Ok(success_output("abc\n"))).unwrap().unwrap(), "main");
    assert!(main_from_main(Ok(failed_output("bad"))).is_none());
    assert_eq!(main_from_master(Ok(success_output("abc\n"))).unwrap(), "master");
    assert!(matches!(main_from_master(Ok(failed_output("bad"))), Err(WorktreeError::NoMainBranch)));
}

#[test]
fn merge_steps_and_removal_outcomes() {
    assert!(step_outcome(Ok(success_output("")), "Failed to merge", "git merge").is_ok());
    match step_outcome(Ok(failed_output("  conflict \n")), "Failed to merge", "git merge") {
        Err(WorktreeError::CommandFailed { command, stderr }) => {
            assert_eq!(command, "git merge");
            assert_eq!(stderr, "conflict");
        }
        _ => panic!("expected a failed command"),
    }
    match step_outcome(Err("no git".to_string()), "Failed to merge", "git merge") {
        Err(WorktreeError::Exec { context, cause }) => {
            assert_eq!(context, "Failed to merge");
            assert_eq!(cause, "no git");
        }
        _ => panic!("expected an exec error"),
    }
    let ws = vec![RemoveWarning::UncommittedChanges];
    assert_eq!(removal_outcome(Ok(success_output("")), ws.clone()).unwrap(), ws);
    assert!(removal_outcome(Ok(failed_output("locked")), ws).is_err());
    assert_eq!(diff_from_output(Ok(failed_output("x"))).unwrap(), "");
    assert_eq!(diff_from_output(Ok(success_output("+a\n"))).unwrap(), "+a\n");
}

#[test]
fn status_from_checks() {
    let wt = Worktree { path: "/p".to_string(), branch: None, is_main: true, is_bare: false };
    let st = worktree_status(wt.clone(), Ok(true), Ok((2, 3)));
    assert!(st.is_dirty);
    assert_eq!((st.ahead, st.behind), (2, 3));
    let st = worktree_status(wt, Err(WorktreeError::NoMainBranch), Err(WorktreeError::NoMainBranch));
    assert!(!st.is_dirty);
    assert_eq!((st.ahead, st.behind), (0, 0));
}

/// Git backend with scripted answers that logs every command into a shared log.
struct LoggingGit {
    responses: HashMap<String, GitOutput>,
    log: Rc<RefCell<Vec<String>>>,
}

impl LoggingGit {
    fn new(root: &str) -> (Self, Rc<RefCell<Vec<String>>>) {
        let log = Rc::new(RefCell::new(Vec::new()));
        let mut g = LoggingGit { responses: HashMap::new(), log: log.clone() };
        g.answer(&["rev-parse", "--show-toplevel"], &format!("{}\n", root));
        (g, log)
    }

    fn answer(&mut self, args: &[&str], stdout: &str) {
        self.responses.insert(args.join(" "), success_output(stdout));
    }
}

impl GitBackend for LoggingGit {
    fn execute(&self, args: &[&str]) -> Result<GitOutput, String> {
        self.log.borrow_mut().push(args.join(" "));
        match self.responses.get(&args.join(" ")) {
            Some(o) => Ok(o.clone()),
            None => Ok(GitOutput { success: false, stdout: String::new(), stderr: "unknown".to_string() }),
        }
    }

    fn execute_in_dir(&self, _dir: &str, args: &[&str]) -> Result<GitOutput, String> {
        self.execute(args)
    }
}

fn logged(log: &Rc<RefCell<Vec<String>>>) -> Vec<String> {
    log.borrow().clone()
}

#[test]
fn git_argument_lists() {
    assert_eq!(toplevel_args(), vec!["rev-parse", "--show-toplevel"]);
    assert_eq!(list_args(), vec!["worktree", "list", "--porcelain"]);
    assert_eq!(add_args("feat", "/p.feat"), vec!["worktree", "add", "-b", "feat", "/p.feat"]);
    assert_eq!(merged_args("main"), vec!["branch", "--merged", "main"]);
    assert_eq!(status_args(), vec!["status", "--porcelain"]);
    assert_eq!(remove_args("/p.feat", false), vec!["worktree", "remove", "/p.feat"]);
    assert_eq!(remove_args("/p.feat", true), vec!["worktree", "remove", "--force", "/p.feat"]);
    assert_eq!(diff_args("main...feat"), vec!["diff", "main...feat"]);
    assert_eq!(checkout_args("main"), vec!["checkout", "main"]);
    assert_eq!(merge_args("feat", None), vec!["merge", "feat"]);
    assert_eq!(merge_args("feat", Some("msg")), vec!["merge", "feat", "-m", "msg"]);
    assert_eq!(verify_args("master"), vec!["rev-parse", "--verify", "master"]);
    assert_eq!(rev_list_args("main...feat"), vec!["rev-list", "--left-right", "--count", "main...feat"]);
}

#[test]
fn removal_and_count_decisions() {
    let w = vec![RemoveWarning::UncommittedChanges];
    assert!(should_remove(&Vec::new(), false));
    assert!(!should_remove(&w, false));
    assert!(should_remove(&w, true));
    assert!(!counts_needed("main", "main"));
    assert!(counts_needed("main", "feature"));
    assert!(counts_needed("master", "main"));
}

#[test]
fn added_worktree_follows_git_answer() {
    let ok = added_worktree(Ok(success_output("")), "/p.feat".to_string(), "feat").unwrap();
    assert_eq!(ok.path, "/p.feat");
    assert_eq!(ok.branch, Some("feat".to_string()));
    assert!(!ok.is_main && !ok.is_bare);
    let failed = GitOutput { success: false, stdout: String::new(), stderr: " exists \n".to_string() };
    assert_eq!(
        added_worktree(Ok(failed), "/p.feat".to_string(), "feat"),
        Err(WorktreeError::CommandFailed { command: "git worktree add".to_string(), stderr: "exists".to_string() })
    );
    assert_eq!(
        added_worktree(Err("no git".to_string()), "/p.feat".to_string(), "feat"),
        Err(WorktreeError::Exec { context: "Failed to execute git worktree add".to_string(), cause: "no git".to_string() })
    );
}

#[test]
fn create_sends_worktree_add() {
    let (mut git, log) = LoggingGit::new("/tmp/logged-project");
    git.answer(&["worktree", "add", "-b", "feature-x", "/tmp/logged-project.feature-x"], "");
    let manager = WorktreeManager::with_backend(git).unwrap();
    if std::path::Path::new("/tmp/logged-project.feature-x").exists() {
        return;
    }
    assert!(manager.create("feature-x", Some("prompt")).is_ok());
    assert_eq!(
        logged(&log).last().unwrap(),
        "worktree add -b feature-x /tmp/logged-project.feature-x"
    );
}

#[test]
fn remove_with_warnings_and_no_force_sends_no_remove() {
    let (mut git, log) = LoggingGit::new("/home/user/project");
    git.answer(&["worktree", "list", "--porcelain"], two_worktrees());
    git.answer(&["branch", "--merged", "main"], "  main\n");
    git.answer(&["status", "--porcelain"], "");
    let manager = WorktreeManager::with_backend(git).unwrap();
    let warnings = manager.remove("feature", false).unwrap();
    assert_eq!(warnings, vec![RemoveWarning::NotMerged { branch: "feature".to_string() }]);
    assert!(logged(&log).iter().all(|c| !c.starts_with("worktree remove")));
}

#[test]
fn forced_remove_sends_force_flag() {
    let (mut git, log) = LoggingGit::new("/home/user/project");
    git.answer(&["worktree", "list", "--porcelain"], two_worktrees());
    git.answer(&["branch", "--merged", "main"], "  main\n");
    git.answer(&["status", "--porcelain"], " M src/main.rs\n");
    git.answer(&["worktree", "remove", "--force", "/home/user/project.feature"], "");
    let manager = WorktreeManager::with_backend(git).unwrap();
    let warnings = manager.remove("feature", true).unwrap();
    assert_eq!(
        warnings,
        vec![RemoveWarning::NotMerged { branch: "feature".to_string() }, RemoveWarning::UncommittedChanges]
    );
    assert_eq!(logged(&log).last().unwrap(), "worktree remove --force /home/user/project.feature");
}

#[test]
fn clean_merged_remove_sends_plain_remove() {
    let (mut git, log) = LoggingGit::new("/home/user/project");
    git.answer(&["worktree", "list", "--porcelain"], two_worktrees());
    git.answer(&["branch", "--merged", "main"], "  main\n  feature\n");
    git.answer(&["status", "--porcelain"], "");
    git.answer(&["worktree", "remove", "/home/user/project.feature"], "");
    let manager = WorktreeManager::with_backend(git).unwrap();
    assert_eq!(manager.remove("feature", false).unwrap(), Vec::new());
    assert_eq!(logged(&log).last().unwrap(), "worktree remove /home/user/project.feature");
}

#[test]
fn merge_checks_out_main_then_merges() {
    let (mut git, log) = LoggingGit::new("/home/user/project");
    git.answer(&["rev-parse", "--verify", "main"], "abc\n");
    git.answer(&["checkout", "main"], "");
    git.answer(&["merge", "feature", "-m", "Custom merge message"], "");
    git.answer(&["merge", "feature"], "");
    let manager = WorktreeManager::with_backend(git).unwrap();
    assert!(manager.merge("feature", Some("Custom merge message")).is_ok());
    let l = logged(&log);
    assert_eq!(&l[l.len() - 2..], &["checkout main".to_string(), "merge feature -m Custom merge message".to_string()]);
    assert!(manager.merge("feature", None).is_ok());
    let l = logged(&log);
    assert_eq!(&l[l.len() - 2..], &["checkout main".to_string(), "merge feature".to_string()]);
}

#[test]
fn merge_stops_when_checkout_fails() {
    let (mut git, log) = LoggingGit::new("/home/user/project");
    git.answer(&["rev-parse", "--verify", "main"], "abc\n");
    let manager = WorktreeManager::with_backend(git).unwrap();
    assert_eq!(
        manager.merge("feature", None),
        Err(WorktreeError::CommandFailed { command: "git checkout".to_string(), stderr: "unknown".to_string() })
    );
    assert!(logged(&log).iter().all(|c| !c.starts_with("merge")));
}

#[test]
fn ahead_behind_of_main_asks_no_counts() {
    let (mut git, log) = LoggingGit::new("/home/user/project");
    git.answer(&["rev-parse", "--verify", "main"], "abc\n");
    git.answer(&["rev-list", "--left-right", "--count", "main...feature"], "2\t5\n");
    let manager = WorktreeManager::with_backend(git).unwrap();
    assert_eq!(manager.get_ahead_behind("main").unwrap(), (0, 0));
    assert!(logged(&log).iter().all(|c| !c.starts_with("rev-list")));
    assert_eq!(manager.get_ahead_behind("feature").unwrap(), (5, 2));
    assert_eq!(logged(&log).last().unwrap(), "rev-list --left-right --count main...feature");
}

#[test]
fn slug_of_slug_is_unchanged() {
    for p in ["Add user authentication", "Fix #123 bug!", "  --weird--  input  ", "", "one two three four five six"] {
        let s = slugify_prompt(p);
        assert_eq!(slugify_prompt(&s), s);
    }
}

#[test]
fn listing_has_one_entry_per_worktree_line() {
    let out = "worktree /r\nHEAD abc\nbranch refs/heads/main\n\nworktree /r.a\ndetached\n\nworktree /r.b\nbare\n";
    let ws = parse_worktree_list(out);
    let paths: Vec<&str> = ws.iter().map(|w| w.path.as_str()).collect();
    assert_eq!(paths, vec!["/r", "/r.a", "/r.b"]);
    assert_eq!(ws.iter().map(|w| w.is_main).collect::<Vec<_>>(), vec![true, false, false]);
    assert_eq!(ws[1].branch, None);
    assert!(ws[2].is_bare);
}

#[test]
fn switch_takes_first_worktree_on_branch() {
    let (mut git, _log) = LoggingGit::new("/home/user/project");
    git.answer(
        &["worktree", "list", "--porcelain"],
        "worktree /home/user/project\nbranch refs/heads/main\n\nworktree /x/one\nbranch refs/heads/feature\n\nworktree /x/two\nbranch refs/heads/feature\n",
    );
    let manager = WorktreeManager::with_backend(git).unwrap();
    assert_eq!(manager.switch("feature").unwrap(), "/x/one");
    assert!(matches!(manager.switch("other"), Err(WorktreeError::NoWorktree { .. })));
}

#[test]
fn each_block_gives_its_own_branch_and_bare_mark() {
    let ws = parse_worktree_list("worktree /home/user/project.git\nbare\n\n");
    assert_eq!(ws.len(), 1);
    assert!(ws[0].is_bare);
    assert_eq!(ws[0].branch, None);
    let ws = parse_worktree_list(
        "worktree /a\nbranch refs/heads/main\n\nworktree /b\nbare\n\nworktree /c\nbranch refs/heads/x\nbranch refs/heads/y\n",
    );
    assert_eq!(ws.iter().map(|w| w.branch.clone()).collect::<Vec<_>>(), vec![Some("main".to_string()), None, Some("y".to_string())]);
    assert_eq!(ws.iter().map(|w| w.is_bare).collect::<Vec<_>>(), vec![false, true, false]);
}
