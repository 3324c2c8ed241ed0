//! The pipeline composer: exact stage lists and the verified
//! configuration-listing filter.

use git_util::git::GitConfigOpts;
use git_util::immutable::ImmutableCommands;
use git_util::pipeline::{filter_config_lines, render_alias_lines, replace_first_space,
    strip_alias_prefix};

fn opts(show_origin: bool, show_scope: bool) -> GitConfigOpts {
    GitConfigOpts { show_origin, show_scope }
}

fn strings(words: &[&str]) -> Vec<String> {
    words.iter().map(|w| w.to_string()).collect()
}

#[test]
fn alias_pipeline_without_filter_has_four_stages() {
    let stages = ImmutableCommands::list_aliases(None, opts(false, false));
    assert_eq!(stages.len(), 4);
    assert_eq!(stages[0].program, "git");
    assert_eq!(stages[0].args, strings(&["config", "--get-regexp", "^alias\\."]));
    assert_eq!(stages[1].program, "sed");
    assert_eq!(stages[1].args, strings(&["s/^alias\\.//"]));
    assert_eq!(stages[2].program, "sed");
    assert_eq!(stages[2].args, strings(&["s/ /\\t/"]));
    assert_eq!(stages[3].program, "column");
    assert_eq!(stages[3].args, strings(&["--table", "--separator", "\t"]));
}

#[test]
fn alias_pipeline_with_filter_inserts_the_fixed_string_stage() {
    let filter = "co".to_string();
    let stages = ImmutableCommands::list_aliases(Some(&filter), opts(true, false));
    assert_eq!(stages.len(), 5);
    assert_eq!(
        stages[0].args,
        strings(&["config", "--show-origin", "--get-regexp", "^alias\\."])
    );
    assert_eq!(stages[2].program, "rg");
    assert_eq!(stages[2].args, strings(&["--fixed-strings", "co"]));
}

#[test]
fn config_pipeline_excludes_aliases_and_formats_on_equals() {
    let stages = ImmutableCommands::list_configuration_settings(None, opts(false, true));
    assert_eq!(stages.len(), 3);
    assert_eq!(stages[0].args, strings(&["config", "--list", "--show-scope"]));
    assert_eq!(stages[1].program, "rg");
    assert_eq!(stages[1].args, strings(&["--invert-match", "^alias\\."]));
    assert_eq!(stages[2].args, strings(&["--table", "--separator", "="]));

    let filter = "user".to_string();
    let with_filter =
        ImmutableCommands::list_configuration_settings(Some(&filter), opts(false, false));
    assert_eq!(with_filter.len(), 4);
    assert_eq!(with_filter[2].args, strings(&["--fixed-strings", "user"]));
}

#[test]
fn config_filter_round_trip_keeps_only_matching_non_alias_lines() {
    let dump = b"user.name=Ada\nalias.co=checkout\nuser.email=ada@example.com\ncore.editor=vi\n";
    let filter = b"user".to_vec();
    let kept = filter_config_lines(dump, Some(&filter));
    assert_eq!(kept.len(), 2);
    assert_eq!(kept[0], b"user.name=Ada".to_vec());
    assert_eq!(kept[1], b"user.email=ada@example.com".to_vec());
    // every kept line contains the filter text and none is an alias entry
    for line in &kept {
        let lowered: Vec<u8> = line.iter().map(|b| b.to_ascii_lowercase()).collect();
        assert!(lowered.windows(4).any(|w| w == b"user"));
        assert!(!line.starts_with(b"alias."));
    }
}

#[test]
fn config_filter_without_text_only_drops_alias_lines() {
    let dump = b"alias.st=status\ncore.editor=vi\n";
    let kept = filter_config_lines(dump, None);
    assert_eq!(kept.len(), 1);
    assert_eq!(kept[0], b"core.editor=vi".to_vec());
}

#[test]
fn alias_rendering_strips_filters_and_delimits() {
    let dump = b"alias.co checkout\nalias.st status --short\nalias.last log --compact-summary\n";
    let filter = b"st".to_vec();
    let rendered = render_alias_lines(dump, Some(&filter));
    // "co checkout" holds no "st"; the other two stay, tab-delimited
    assert_eq!(rendered.len(), 2);
    assert_eq!(rendered[0], b"st\tstatus --short".to_vec());
    assert_eq!(rendered[1], b"last\tlog --compact-summary".to_vec());

    let all = render_alias_lines(dump, None);
    assert_eq!(all.len(), 3);
    assert_eq!(all[0], b"co\tcheckout".to_vec());
}

#[test]
fn alias_prefix_is_stripped_only_at_the_start() {
    assert_eq!(strip_alias_prefix(b"alias.co checkout"), b"co checkout".to_vec());
    assert_eq!(strip_alias_prefix(b"core.alias.x"), b"core.alias.x".to_vec());
    assert_eq!(strip_alias_prefix(b"alias"), b"alias".to_vec());
}

#[test]
fn only_the_first_space_becomes_the_delimiter() {
    assert_eq!(replace_first_space(b"st status --short"), b"st\tstatus --short".to_vec());
    assert_eq!(replace_first_space(b"nospace"), b"nospace".to_vec());
    assert_eq!(replace_first_space(b" leading"), b"\tleading".to_vec());
}

#[test]
fn config_filter_on_unmatched_text_keeps_nothing() {
    let dump = b"core.editor=vi\nuser.name=Ada\n";
    let filter = b"nothing-here".to_vec();
    let kept = filter_config_lines(dump, Some(&filter));
    assert!(kept.is_empty());
}
