//! The pre-commit policy engine: identity check, opt-in content check, and
//! their strict ordering.

use git_util::outcome::{GitCommandResult, GitFailure, PolicyVar};
use git_util::policy::{parse_disallowed_patterns, EnvVarRead, PolicyPhase, PreCommitHook};

fn present(value: &[u8]) -> EnvVarRead {
    EnvVarRead::Present(value.to_vec())
}

#[test]
fn mismatched_emails_fail_with_both_values() {
    let phase = PreCommitHook::run(
        &present(b"a@example.com"),
        &present(b"b@example.com"),
        &EnvVarRead::Missing,
    );
    match phase {
        PolicyPhase::Done(Err(GitFailure::IdentityMismatch { expected, actual })) => {
            assert_eq!(expected, b"a@example.com".to_vec());
            assert_eq!(actual, b"b@example.com".to_vec());
        }
        _ => panic!("expected an identity mismatch"),
    }
}

#[test]
fn matching_emails_without_disallowed_list_succeed_without_a_diff() {
    let phase = PreCommitHook::run(
        &present(b"a@example.com"),
        &present(b"a@example.com"),
        &EnvVarRead::Missing,
    );
    // success at once: the diff pipeline is never requested
    match phase {
        PolicyPhase::Done(Ok(outcome)) => assert_eq!(outcome, GitCommandResult::Success),
        PolicyPhase::NeedDiff { .. } => panic!("the diff must not be requested"),
        PolicyPhase::Done(Err(_)) => panic!("no failure expected"),
    }
}

#[test]
fn disallowed_addition_fails_with_the_offending_line() {
    let phase = PreCommitHook::run(
        &present(b"a@example.com"),
        &present(b"a@example.com"),
        &present(b"secret"),
    );
    let (patterns, diff_command) = match phase {
        PolicyPhase::NeedDiff { patterns, diff_command } => (patterns, diff_command),
        _ => panic!("the content check needs the staged diff"),
    };
    assert_eq!(diff_command.subcommand, "diff-index");
    assert_eq!(
        diff_command.default_args,
        vec![
            "--p".to_string(),
            "--find-renames".to_string(),
            "--cached".to_string(),
            "HEAD".to_string()
        ]
    );

    let diff = b"context line\n+ the secretKey = 1\n+ another addition\n";
    match PreCommitHook::content_check(&patterns, true, diff) {
        Err(GitFailure::DisallowedContent { line }) => {
            assert_eq!(line, b"+ the secretKey = 1".to_vec());
        }
        _ => panic!("expected disallowed content"),
    }
}

#[test]
fn clean_diff_passes_the_content_check() {
    let patterns = parse_disallowed_patterns(b"secret;password");
    let diff = b"+ nothing remarkable\n- the old secret stays history, not an addition\n";
    assert!(matches!(
        PreCommitHook::content_check(&patterns, true, diff),
        Ok(GitCommandResult::Success)
    ));
}

#[test]
fn unremoved_lines_are_not_scanned() {
    // the pattern occurs only on a context line, not on an addition
    let patterns = parse_disallowed_patterns(b"secret");
    let diff = b" context with secret\n+ a harmless addition\n";
    assert!(matches!(
        PreCommitHook::content_check(&patterns, true, diff),
        Ok(GitCommandResult::Success)
    ));
}

#[test]
fn failed_diff_command_leaves_nothing_to_scan() {
    let patterns = parse_disallowed_patterns(b"secret");
    assert!(matches!(
        PreCommitHook::content_check(&patterns, false, b"+ the secret\n"),
        Ok(GitCommandResult::Success)
    ));
}

#[test]
fn patterns_split_on_the_delimiter_and_fold_case() {
    let patterns = parse_disallowed_patterns(b"Secret;PassWord");
    assert_eq!(patterns.len(), 2);
    assert_eq!(patterns[0], b"secret".to_vec());
    assert_eq!(patterns[1], b"password".to_vec());

    // matching is case-insensitive on the diff side too
    let diff = b"+PASSWORD=1\n";
    assert!(matches!(
        PreCommitHook::content_check(&patterns, true, diff),
        Err(GitFailure::DisallowedContent { .. })
    ));
}

#[test]
fn scanning_stops_at_the_first_violation() {
    let patterns = parse_disallowed_patterns(b"secret");
    let diff = b"+ first secret\n+ second secret\n";
    match PreCommitHook::content_check(&patterns, true, diff) {
        Err(GitFailure::DisallowedContent { line }) => {
            assert_eq!(line, b"+ first secret".to_vec());
        }
        _ => panic!("expected disallowed content"),
    }
}

#[test]
fn missing_allowed_email_fails_before_everything_else() {
    let phase = PreCommitHook::run(
        &EnvVarRead::Missing,
        &present(b"a@example.com"),
        &present(b"secret"),
    );
    match phase {
        PolicyPhase::Done(Err(GitFailure::PolicyConfig { var, missing })) => {
            assert_eq!(var, PolicyVar::AllowedEmail);
            assert!(missing);
        }
        _ => panic!("expected a configuration failure"),
    }
}

#[test]
fn unreadable_author_email_fails_the_identity_step() {
    let phase = PreCommitHook::run(
        &present(b"a@example.com"),
        &EnvVarRead::Unreadable,
        &EnvVarRead::Missing,
    );
    match phase {
        PolicyPhase::Done(Err(GitFailure::PolicyConfig { var, missing })) => {
            assert_eq!(var, PolicyVar::AuthorEmail);
            assert!(!missing);
        }
        _ => panic!("expected a configuration failure"),
    }
}

#[test]
fn unreadable_disallowed_list_is_an_error_not_a_skip() {
    let phase = PreCommitHook::run(
        &present(b"a@example.com"),
        &present(b"a@example.com"),
        &EnvVarRead::Unreadable,
    );
    match phase {
        PolicyPhase::Done(Err(GitFailure::PolicyConfig { var, missing })) => {
            assert_eq!(var, PolicyVar::DisallowedStrings);
            assert!(!missing);
        }
        _ => panic!("expected a configuration failure"),
    }
}
