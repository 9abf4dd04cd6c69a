use fsmeta::{mkdirat, Error, MkdirStep, Platform};
use std::collections::HashMap;
use std::path::Path;

/// A directory tree in memory: each directory with the mode it was made
/// with, and the order in which they were made.
struct Tree {
    dirs: HashMap<String, u32>,
    files: Vec<String>,
    made: Vec<String>,
}

fn empty_tree() -> Tree {
    Tree { dirs: HashMap::new(), files: Vec::new(), made: Vec::new() }
}

fn tree_mkdir(tree: &mut Tree, path: &str, mode: u32) -> Result<(), Error> {
    if path.is_empty() {
        return Err(Error::Sys(libc::ENOENT));
    }
    if tree.dirs.contains_key(path) || tree.files.iter().any(|f| f == path) {
        return Err(Error::Sys(libc::EEXIST));
    }
    let parent = Path::new(path).parent().map(|p| p.to_str().unwrap().to_string());
    match parent {
        Some(parent) if parent.is_empty() || parent == "/" || tree.dirs.contains_key(&parent) => {
            tree.dirs.insert(path.to_string(), mode);
            tree.made.push(path.to_string());
            Ok(())
        }
        Some(parent) if tree.files.iter().any(|f| *f == parent) => Err(Error::Sys(libc::ENOTDIR)),
        _ => Err(Error::Sys(libc::ENOENT)),
    }
}

/// Runs the work against the tree and counts the steps.
fn run_on_tree(tree: &mut Tree, path: &str, mode: u32, recursive: bool) -> (Result<(), Error>, usize) {
    let p = Platform::native();
    let mut work = mkdirat(p, None, path, mode, recursive);
    let mut steps = 0;
    loop {
        match work.action() {
            MkdirStep::Create { dirfd, path, mode } => {
                assert_eq!(dirfd, libc::AT_FDCWD);
                let result = tree_mkdir(tree, &path, mode);
                work.created(result);
            }
            MkdirStep::Inspect { path } => {
                let is_dir = tree.dirs.contains_key(&path);
                work.inspected(is_dir);
            }
            MkdirStep::Done(result) => return (result, steps),
        }
        steps += 1;
        assert!(steps <= 4 * path.len() + 3);
    }
}

#[test]
fn parents_are_made_before_children() {
    let mut tree = empty_tree();
    let (result, _) = run_on_tree(&mut tree, "a/b/c", 0o755, true);
    assert_eq!(result, Ok(()));
    assert_eq!(tree.made, vec!["a", "a/b", "a/b/c"]);
    assert_eq!(tree.dirs["a"], 0o777);
    assert_eq!(tree.dirs["a/b"], 0o777);
    assert_eq!(tree.dirs["a/b/c"], 0o755);
}

#[test]
fn the_steps_of_a_deep_path() {
    let p = Platform::native();
    let enoent = Err(Error::Sys(libc::ENOENT));
    let mut work = mkdirat(p, Some(11), "a/b/c", 0o750, true);
    let create = |path: &str, mode: u32| MkdirStep::Create { dirfd: 11, path: path.to_string(), mode };
    assert_eq!(work.action(), create("a/b/c", 0o750));
    work.created(enoent);
    assert_eq!(work.action(), create("a/b", 0o777));
    work.created(enoent);
    assert_eq!(work.action(), create("a", 0o777));
    // The parent of "a" is the empty path, which is there: "a" is tried again.
    work.created(enoent);
    assert_eq!(work.action(), create("a", 0o777));
    work.created(Ok(()));
    assert_eq!(work.action(), create("a/b", 0o777));
    work.created(Ok(()));
    assert_eq!(work.action(), create("a/b/c", 0o750));
    work.created(Ok(()));
    assert_eq!(work.action(), MkdirStep::Done(Ok(())));
    // Nothing is asked for any more, and answers change nothing.
    work.created(enoent);
    work.inspected(false);
    assert_eq!(work.action(), MkdirStep::Done(Ok(())));
}

#[test]
fn making_twice_succeeds_twice() {
    let mut tree = empty_tree();
    assert_eq!(run_on_tree(&mut tree, "a/b/c", 0o755, true).0, Ok(()));
    let dirs = tree.dirs.clone();
    let made = tree.made.clone();
    let (result, steps) = run_on_tree(&mut tree, "a/b/c", 0o700, true);
    assert_eq!(result, Ok(()));
    assert_eq!(steps, 2);
    assert_eq!(tree.dirs, dirs);
    assert_eq!(tree.made, made);
}

#[test]
fn only_what_is_missing_is_made() {
    let mut tree = empty_tree();
    assert_eq!(run_on_tree(&mut tree, "a", 0o700, true).0, Ok(()));
    assert_eq!(run_on_tree(&mut tree, "a/b/c/d", 0o711, true).0, Ok(()));
    assert_eq!(tree.made, vec!["a", "a/b", "a/b/c", "a/b/c/d"]);
    assert_eq!(tree.dirs["a"], 0o700);
    assert_eq!(tree.dirs["a/b"], 0o777);
    assert_eq!(tree.dirs["a/b/c"], 0o777);
    assert_eq!(tree.dirs["a/b/c/d"], 0o711);
}

#[test]
fn the_empty_path_is_done() {
    let p = Platform::native();
    let work = mkdirat(p, None, "", 0o755, true);
    assert_eq!(work.action(), MkdirStep::Done(Ok(())));
    // One directory alone is asked of the system even then.
    let mut work = mkdirat(p, None, "", 0o755, false);
    assert_eq!(
        work.action(),
        MkdirStep::Create { dirfd: libc::AT_FDCWD, path: String::new(), mode: 0o755 }
    );
    work.created(Err(Error::Sys(libc::ENOENT)));
    assert_eq!(work.action(), MkdirStep::Done(Err(Error::Sys(libc::ENOENT))));
}

#[test]
fn one_directory_alone() {
    let mut tree = empty_tree();
    assert_eq!(run_on_tree(&mut tree, "a/b", 0o755, false), (Err(Error::Sys(libc::ENOENT)), 1));
    assert_eq!(run_on_tree(&mut tree, "a", 0o755, false), (Ok(()), 1));
    assert_eq!(run_on_tree(&mut tree, "a", 0o755, false), (Err(Error::Sys(libc::EEXIST)), 1));
    assert_eq!(run_on_tree(&mut tree, "a/b", 0o700, false), (Ok(()), 1));
    assert_eq!(tree.dirs["a/b"], 0o700);
}

#[test]
fn a_file_in_the_way_is_an_error() {
    let mut tree = empty_tree();
    tree.files.push("a".to_string());
    assert_eq!(run_on_tree(&mut tree, "a", 0o755, true).0, Err(Error::Sys(libc::EEXIST)));
    assert_eq!(run_on_tree(&mut tree, "a/b/c", 0o755, true).0, Err(Error::Sys(libc::ENOTDIR)));
    assert!(tree.made.is_empty());
}

#[test]
fn other_errors_are_passed_on() {
    let p = Platform::native();
    let mut work = mkdirat(p, None, "a/b", 0o755, true);
    work.created(Err(Error::Sys(libc::EROFS)));
    assert_eq!(work.action(), MkdirStep::Inspect { path: "a/b".to_string() });
    work.inspected(false);
    assert_eq!(work.action(), MkdirStep::Done(Err(Error::Sys(libc::EROFS))));

    // An error on the way up ends the work too.
    let mut work = mkdirat(p, None, "a/b", 0o755, true);
    work.created(Err(Error::Sys(libc::ENOENT)));
    work.created(Err(Error::Sys(libc::EACCES)));
    assert_eq!(work.action(), MkdirStep::Inspect { path: "a".to_string() });
    work.inspected(false);
    assert_eq!(work.action(), MkdirStep::Done(Err(Error::Sys(libc::EACCES))));

    // A missing ancestor on the second attempt is not gone after again.
    let mut work = mkdirat(p, None, "a/b", 0o755, true);
    work.created(Err(Error::Sys(libc::ENOENT)));
    work.created(Ok(()));
    work.created(Err(Error::Sys(libc::ENOENT)));
    assert_eq!(work.action(), MkdirStep::Inspect { path: "a/b".to_string() });
    work.inspected(false);
    assert_eq!(work.action(), MkdirStep::Done(Err(Error::Sys(libc::ENOENT))));
}

#[test]
fn a_directory_made_by_someone_else_counts() {
    let p = Platform::native();
    let mut work = mkdirat(p, None, "a/b", 0o755, true);
    work.created(Err(Error::Sys(libc::ENOENT)));
    assert_eq!(
        work.action(),
        MkdirStep::Create { dirfd: libc::AT_FDCWD, path: "a".to_string(), mode: 0o777 }
    );
    // Someone else made "a" in between.
    work.created(Err(Error::Sys(libc::EEXIST)));
    assert_eq!(work.action(), MkdirStep::Inspect { path: "a".to_string() });
    work.inspected(true);
    assert_eq!(
        work.action(),
        MkdirStep::Create { dirfd: libc::AT_FDCWD, path: "a/b".to_string(), mode: 0o755 }
    );
    // And "a/b" too.
    work.created(Err(Error::Sys(libc::EEXIST)));
    work.inspected(true);
    assert_eq!(work.action(), MkdirStep::Done(Ok(())));
}

#[test]
fn a_path_without_a_parent_is_denied() {
    let p = Platform::native();
    let mut work = mkdirat(p, None, "/", 0o755, true);
    work.created(Err(Error::Sys(libc::ENOENT)));
    assert_eq!(work.action(), MkdirStep::Done(Err(Error::Sys(libc::EACCES))));
}

#[test]
fn parents_as_the_standard_library_sees_them() {
    let p = Platform::native();
    for (path, parent) in [("a/b/", "a"), ("a//b", "a"), ("/a", "/"), ("a/./b", "a"), ("a/b/..", "a/b")] {
        let mut work = mkdirat(p, None, path, 0o755, true);
        work.created(Err(Error::Sys(libc::ENOENT)));
        assert_eq!(
            work.action(),
            MkdirStep::Create { dirfd: libc::AT_FDCWD, path: parent.to_string(), mode: 0o777 }
        );
    }
}

#[test]
fn directories_are_made_on_disk() {
    let p = Platform::native();
    let base = format!("/tmp/fsmeta_mkdir_{}", nix::unistd::getpid());
    nix::unistd::mkdir(base.as_str(), nix::sys::stat::Mode::S_IRWXU).unwrap();
    let dirfd = nix::fcntl::open(
        base.as_str(),
        nix::fcntl::OFlag::O_RDONLY | nix::fcntl::OFlag::O_DIRECTORY,
        nix::sys::stat::Mode::empty(),
    )
    .unwrap();
    let old_mask = nix::sys::stat::umask(nix::sys::stat::Mode::from_bits_truncate(0o022));
    for round in 0..2 {
        let mut work = mkdirat(p, Some(dirfd), "a/b/c", 0o750, true);
        let mut made = Vec::new();
        let result = loop {
            match work.action() {
                MkdirStep::Create { dirfd, path, mode } => {
                    let result = nix::sys::stat::mkdirat(
                        dirfd,
                        path.as_str(),
                        nix::sys::stat::Mode::from_bits_truncate(mode),
                    )
                    .map_err(|e| Error::Sys(e.as_errno().unwrap() as i32));
                    if result.is_ok() {
                        made.push(path);
                    }
                    work.created(result);
                }
                MkdirStep::Inspect { path } => {
                    let is_dir = nix::sys::stat::fstatat(dirfd, path.as_str(), nix::fcntl::AtFlags::empty())
                        .map(|s| s.st_mode & libc::S_IFMT == libc::S_IFDIR)
                        .unwrap_or(false);
                    work.inspected(is_dir);
                }
                MkdirStep::Done(result) => break result,
            }
        };
        assert_eq!(result, Ok(()));
        if round == 0 {
            assert_eq!(made, vec!["a", "a/b", "a/b/c"]);
        } else {
            assert!(made.is_empty());
        }
        for (path, mode) in [("a", 0o755), ("a/b", 0o755), ("a/b/c", 0o750)] {
            let info = nix::sys::stat::fstatat(dirfd, path, nix::fcntl::AtFlags::empty()).unwrap();
            assert_eq!(info.st_mode & libc::S_IFMT, libc::S_IFDIR);
            assert_eq!(info.st_mode & 0o777, mode);
        }
    }
    nix::sys::stat::umask(old_mask);
    for path in ["a/b/c", "a/b", "a"] {
        nix::unistd::unlinkat(Some(dirfd), path, nix::unistd::UnlinkatFlags::RemoveDir).unwrap();
    }
    nix::unistd::close(dirfd).unwrap();
    nix::unistd::unlinkat(None, base.as_str(), nix::unistd::UnlinkatFlags::RemoveDir).unwrap();
}
