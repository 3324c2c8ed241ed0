//! The working-tree state verifier: staged-diff emptiness and porcelain
//! classification.

use git_util::git::Git;
use git_util::outcome::GitCommandResult;
use git_util::status::{parse_status_line, porcelain_status_command, staged_diff_command,
    status_is_well_formed, verify_no_unstaged_changes};

#[test]
fn staging_area_empty_iff_diff_output_is_empty() {
    assert_eq!(Git::verify_staging_area_is_empty(b""), GitCommandResult::Success);
    assert_eq!(Git::verify_staging_area_is_empty(b"file.txt\n"), GitCommandResult::Error);
    // even a single byte counts as a nonempty staging area
    assert_eq!(Git::verify_staging_area_is_empty(b"\n"), GitCommandResult::Error);
}

#[test]
fn fully_staged_entry_is_clean() {
    assert_eq!(verify_no_unstaged_changes(b"M  file.txt\n"), GitCommandResult::Success);
}

#[test]
fn unstaged_modification_is_dirty() {
    assert_eq!(verify_no_unstaged_changes(b" M file.txt\n"), GitCommandResult::Error);
}

#[test]
fn untracked_file_is_dirty() {
    assert_eq!(verify_no_unstaged_changes(b"?? newfile.txt\n"), GitCommandResult::Error);
}

#[test]
fn empty_status_is_clean() {
    assert_eq!(verify_no_unstaged_changes(b""), GitCommandResult::Success);
}

#[test]
fn one_dirty_line_among_staged_lines_is_dirty() {
    let porcelain = b"A  new.rs\nM  lib.rs\nMM half.rs\n";
    assert_eq!(verify_no_unstaged_changes(porcelain), GitCommandResult::Error);
}

#[test]
fn all_staged_lines_are_clean() {
    let porcelain = b"A  new.rs\nM  lib.rs\nD  old.rs\nR  renamed.rs\n";
    assert_eq!(verify_no_unstaged_changes(porcelain), GitCommandResult::Success);
}

#[test]
fn parse_status_line_reads_both_codes_and_the_path() {
    let entry = parse_status_line(b"MM src/lib.rs").unwrap();
    assert_eq!(entry.index_status, b'M');
    assert_eq!(entry.worktree_status, b'M');
    assert_eq!(entry.path, b"src/lib.rs".to_vec());
    assert!(entry.is_dirty());

    let staged = parse_status_line(b"A  src/new.rs").unwrap();
    assert!(!staged.is_dirty());
}

#[test]
fn unknown_status_codes_are_never_accepted() {
    assert!(parse_status_line(b"XY file.txt").is_none());
    assert!(parse_status_line(b"M").is_none());
    assert!(parse_status_line(b"M-_file.txt").is_none());
    assert!(!status_is_well_formed(b"M  ok.txt\nXY strange.txt\n"));
    assert!(status_is_well_formed(b"M  ok.txt\n?? new.txt\n"));
}

#[test]
fn verifier_commands_are_the_documented_ones() {
    let diff = staged_diff_command();
    assert_eq!(diff.subcommand, "diff");
    assert_eq!(diff.default_args, vec!["--staged".to_string(), "--name-only".to_string()]);
    assert!(diff.user_args.is_empty());

    let status = porcelain_status_command();
    assert_eq!(status.subcommand, "status");
    assert_eq!(status.default_args, vec!["--porcelain".to_string()]);
}
