//! The pipeline composer: the two read-only reporting verbs run small
//! producer → filter → formatter pipelines of external tools.  This module
//! builds the exact stage list to spawn — every stage's stdout feeds the
//! next stage's stdin, all stages spawned before any output is consumed —
//! and models the text transformation the filter stages perform, so the
//! listing behaviour itself is verified.

use vstd::prelude::*;
use crate::git::push_arg;
use crate::git::push_arg_string;
use crate::git::Git;
use crate::git::GitConfigOpts;
use crate::immutable::ImmutableCommands;
use crate::text::contains_bytes;
use crate::text::contains_subslice;
use crate::text::bytes_have_prefix;
use crate::text::has_prefix;
use crate::text::lines_spec;
use crate::text::lower_bytes;
use crate::text::split_lines;

verus! {

pub const SPACE: u8 = 32;

pub const TAB: u8 = 9;

/// The mathematical content of a pipeline stage: a program name and its
/// argument list.
pub struct PipelineStageView {
    pub program: Seq<char>,
    pub args: Seq<Seq<char>>,
}

/// One stage of a filter pipeline: an external program and its arguments.
pub struct PipelineStage {
    pub program: String,
    pub args: Vec<String>,
}

impl View for PipelineStage {
    type V = PipelineStageView;

    open spec fn view(&self) -> PipelineStageView {
        PipelineStageView { program: self.program@, args: self.args.deep_view() }
    }
}

impl DeepView for PipelineStage {
    type V = PipelineStageView;

    open spec fn deep_view(&self) -> PipelineStageView {
        self.view()
    }
}

/// A `PipelineStageView` from its parts.
pub open spec fn spec_stage(program: Seq<char>, args: Seq<Seq<char>>) -> PipelineStageView {
    PipelineStageView { program, args }
}

/// The flags the configuration options add, `--show-origin` before
/// `--show-scope`.
pub open spec fn config_opt_flags(opts: GitConfigOpts) -> Seq<Seq<char>> {
    (if opts.show_origin {
        seq!["--show-origin"@]
    } else {
        Seq::<Seq<char>>::empty()
    }) + (if opts.show_scope {
        seq!["--show-scope"@]
    } else {
        Seq::<Seq<char>>::empty()
    })
}

/// The alias-listing pipeline: query the alias config entries, strip the
/// alias prefix, optionally keep only lines containing the filter text,
/// turn the first space into a tab, and format as a table on that tab.
pub open spec fn alias_pipeline_spec(filter: Option<Seq<char>>, opts: GitConfigOpts) -> Seq<
    PipelineStageView,
> {
    let produce = spec_stage(
        "git"@,
        seq!["config"@] + config_opt_flags(opts) + seq!["--get-regexp"@, "^alias\\."@],
    );
    let strip = spec_stage("sed"@, seq!["s/^alias\\.//"@]);
    let delimit = spec_stage("sed"@, seq!["s/ /\\t/"@]);
    let format = spec_stage("column"@, seq!["--table"@, "--separator"@, "\t"@]);
    match filter {
        Some(f) => seq![
            produce,
            strip,
            spec_stage("rg"@, seq!["--fixed-strings"@, f]),
            delimit,
            format,
        ],
        None => seq![produce, strip, delimit, format],
    }
}

/// The configuration-listing pipeline: dump the whole configuration,
/// exclude alias entries, optionally keep only lines containing the filter
/// text, and format as a table on the equals sign.
pub open spec fn config_pipeline_spec(filter: Option<Seq<char>>, opts: GitConfigOpts) -> Seq<
    PipelineStageView,
> {
    let produce = spec_stage("git"@, seq!["config"@, "--list"@] + config_opt_flags(opts));
    let exclude = spec_stage("rg"@, seq!["--invert-match"@, "^alias\\."@]);
    let format = spec_stage("column"@, seq!["--table"@, "--separator"@, "="@]);
    match filter {
        Some(f) => seq![produce, exclude, spec_stage("rg"@, seq!["--fixed-strings"@, f]), format],
        None => seq![produce, exclude, format],
    }
}

/// Builds the `git config ...` producer stage of either pipeline.
fn config_producer_stage(listing: bool, options: GitConfigOpts) -> (r: PipelineStage)
    ensures
        listing ==> r@ == spec_stage("git"@, seq!["config"@, "--list"@] + config_opt_flags(options)),
        !listing ==> r@ == spec_stage(
            "git"@,
            seq!["config"@] + config_opt_flags(options) + seq!["--get-regexp"@, "^alias\\."@],
        ),
{
    let mut args: Vec<String> = Vec::new();
    push_arg(&mut args, "config");
    if listing {
        push_arg(&mut args, "--list");
        Git::parse_config_options(options, &mut args);
        proof {
            assert(args.deep_view() =~= seq!["config"@, "--list"@] + config_opt_flags(options));
        }
    } else {
        Git::parse_config_options(options, &mut args);
        // this argument pair has to be last
        push_arg(&mut args, "--get-regexp");
        push_arg(&mut args, "^alias\\.");
        proof {
            assert(args.deep_view() =~= seq!["config"@] + config_opt_flags(options) + seq![
                "--get-regexp"@,
                "^alias\\."@,
            ]);
        }
    }
    PipelineStage { program: "git".to_owned(), args }
}

/// Builds a one-argument stage.
fn one_arg_stage(program: &str, arg: &str) -> (r: PipelineStage)
    ensures
        r@ == spec_stage(program@, seq![arg@]),
{
    let mut args: Vec<String> = Vec::new();
    push_arg(&mut args, arg);
    proof {
        assert(args.deep_view() =~= seq![arg@]);
    }
    PipelineStage { program: program.to_owned(), args }
}

/// Builds the fixed-string filter stage for the caller's filter text.
fn filter_stage(pattern: &String) -> (r: PipelineStage)
    ensures
        r@ == spec_stage("rg"@, seq!["--fixed-strings"@, pattern@]),
{
    let mut args: Vec<String> = Vec::new();
    push_arg(&mut args, "--fixed-strings");
    push_arg_string(&mut args, pattern.clone());
    proof {
        assert(args.deep_view() =~= seq!["--fixed-strings"@, pattern@]);
    }
    PipelineStage { program: "rg".to_owned(), args }
}

/// Builds the column-formatting stage on the given separator.
fn column_stage(separator: &str) -> (r: PipelineStage)
    ensures
        r@ == spec_stage("column"@, seq!["--table"@, "--separator"@, separator@]),
{
    let mut args: Vec<String> = Vec::new();
    push_arg(&mut args, "--table");
    push_arg(&mut args, "--separator");
    push_arg(&mut args, separator);
    proof {
        assert(args.deep_view() =~= seq!["--table"@, "--separator"@, separator@]);
    }
    PipelineStage { program: "column".to_owned(), args }
}

impl ImmutableCommands {
    /// The alias-listing pipeline, ready to spawn in order with each stage's
    /// stdout connected to the next stage's stdin.
    pub fn list_aliases(filter: Option<&String>, options: GitConfigOpts) -> (r: Vec<PipelineStage>)
        ensures
            r.deep_view() == alias_pipeline_spec(
                match filter {
                    Some(f) => Some(f@),
                    None => None,
                },
                options,
            ),
    {
        let mut stages: Vec<PipelineStage> = Vec::new();
        stages.push(config_producer_stage(false, options));
        stages.push(one_arg_stage("sed", "s/^alias\\.//"));
        match filter {
            Some(pattern) => {
                stages.push(filter_stage(pattern));
            },
            None => {},
        }
        stages.push(one_arg_stage("sed", "s/ /\\t/"));
        stages.push(column_stage("\t"));
        proof {
            assert(stages.deep_view() =~= alias_pipeline_spec(
                match filter {
                    Some(f) => Some(f@),
                    None => None,
                },
                options,
            ));
        }
        stages
    }

    /// The configuration-listing pipeline, ready to spawn in order with each
    /// stage's stdout connected to the next stage's stdin.
    pub fn list_configuration_settings(filter: Option<&String>, options: GitConfigOpts) -> (r: Vec<
        PipelineStage,
    >)
        ensures
            r.deep_view() == config_pipeline_spec(
                match filter {
                    Some(f) => Some(f@),
                    None => None,
                },
                options,
            ),
    {
        let mut stages: Vec<PipelineStage> = Vec::new();
        stages.push(config_producer_stage(true, options));
        let mut exclude_args: Vec<String> = Vec::new();
        push_arg(&mut exclude_args, "--invert-match");
        push_arg(&mut exclude_args, "^alias\\.");
        proof {
            assert(exclude_args.deep_view() =~= seq!["--invert-match"@, "^alias\\."@]);
        }
        stages.push(PipelineStage { program: "rg".to_owned(), args: exclude_args });
        match filter {
            Some(pattern) => {
                stages.push(filter_stage(pattern));
            },
            None => {},
        }
        stages.push(column_stage("="));
        proof {
            assert(stages.deep_view() =~= config_pipeline_spec(
                match filter {
                    Some(f) => Some(f@),
                    None => None,
                },
                options,
            ));
        }
        stages
    }
}

/// The byte form of the alias prefix the listings strip or exclude.
pub open spec fn alias_prefix() -> Seq<u8> {
    seq![97u8, 108u8, 105u8, 97u8, 115u8, 46u8]
}

/// The byte form of the alias prefix.
pub fn alias_prefix_bytes() -> (r: Vec<u8>)
    ensures
        r@ == alias_prefix(),
{
    let mut r: Vec<u8> = Vec::new();
    r.push(97);
    r.push(108);
    r.push(105);
    r.push(97);
    r.push(115);
    r.push(46);
    proof {
        assert(r@ =~= alias_prefix());
    }
    r
}

/// An optional filter text, as bytes.
pub open spec fn opt_bytes(filter: Option<&Vec<u8>>) -> Option<Seq<u8>> {
    match filter {
        Some(f) => Some(f@),
        None => None,
    }
}

/// Whether a line passes the optional fixed-string filter.
pub open spec fn passes_filter(l: Seq<u8>, filter: Option<Seq<u8>>) -> bool {
    match filter {
        Some(f) => contains_bytes(l, f),
        None => true,
    }
}

/// Whether the configuration listing keeps a line: it must not be an alias
/// entry, and must contain the filter text if one was given.
pub open spec fn config_line_kept(l: Seq<u8>, filter: Option<Seq<u8>>) -> bool {
    !has_prefix(l, alias_prefix()) && passes_filter(l, filter)
}

/// What the configuration listing shows of a captured configuration dump:
/// exactly the lines it keeps, in their original order.
pub open spec fn rendered_config_lines(output: Seq<u8>, filter: Option<Seq<u8>>) -> Seq<Seq<u8>> {
    lines_spec(output).filter(|l: Seq<u8>| config_line_kept(l, filter))
}

/// The filtering the configuration listing performs, verified: keeps
/// exactly the non-alias lines that contain the filter text, in order.
pub fn filter_config_lines(output: &[u8], filter: Option<&Vec<u8>>) -> (r: Vec<Vec<u8>>)
    ensures
        r.deep_view() == rendered_config_lines(output@, opt_bytes(filter)),
{
    let ghost fo = opt_bytes(filter);
    let ghost pred = |l: Seq<u8>| config_line_kept(l, fo);
    let prefix = alias_prefix_bytes();
    let lines = split_lines(output);
    let ghost ls = lines_spec(output@);
    let mut out: Vec<Vec<u8>> = Vec::new();
    let mut k: usize = 0;
    proof {
        reveal(Seq::filter);
        assert(ls.take(0) =~= Seq::<Seq<u8>>::empty());
    }
    while k < lines.len()
        invariant
            lines.deep_view() == ls,
            ls == lines_spec(output@),
            prefix@ == alias_prefix(),
            fo == opt_bytes(filter),
            pred == (|l: Seq<u8>| config_line_kept(l, fo)),
            k <= lines@.len(),
            lines@.len() == ls.len(),
            out.deep_view() == ls.take(k as int).filter(pred),
        decreases lines@.len() - k,
    {
        let line: &Vec<u8> = &lines[k];
        assert(line@ =~= ls[k as int]);
        let keep = if bytes_have_prefix(line.as_slice(), prefix.as_slice()) {
            false
        } else {
            match filter {
                Some(f) => contains_subslice(line.as_slice(), f.as_slice()),
                None => true,
            }
        };
        assert(keep == pred(ls[k as int]));
        let ghost before = out.deep_view();
        if keep {
            out.push(vstd::slice::slice_to_vec(line.as_slice()));
            proof {
                assert(out.deep_view() =~~= before.push(ls[k as int]));
            }
        }
        proof {
            reveal(Seq::filter);
            assert(ls.take(k + 1) =~= ls.take(k as int).push(ls[k as int]));
            assert(ls.take(k + 1).drop_last() =~= ls.take(k as int));
            assert(ls.take(k + 1).filter(pred) == if pred(ls[k as int]) {
                ls.take(k as int).filter(pred).push(ls[k as int])
            } else {
                ls.take(k as int).filter(pred)
            });
        }
        k += 1;
    }
    proof {
        assert(ls.take(ls.len() as int) =~= ls);
    }
    out
}

/// The prefix stripped from a line, when it is there.
pub open spec fn strip_prefix_spec(l: Seq<u8>, p: Seq<u8>) -> Seq<u8> {
    if has_prefix(l, p) {
        l.skip(p.len() as int)
    } else {
        l
    }
}

/// The first space of a line turned into a tab — the delimiter the table
/// formatter splits on — with everything else untouched.
pub open spec fn replace_first_space_spec(l: Seq<u8>) -> Seq<u8>
    decreases l.len(),
{
    if l.len() == 0 {
        l
    } else if l[0] == SPACE {
        seq![TAB] + l.drop_first()
    } else {
        seq![l[0]] + replace_first_space_spec(l.drop_first())
    }
}

/// What the alias listing shows of a captured alias dump: each line with
/// the alias prefix stripped, only lines containing the filter text kept,
/// and each kept line's first space turned into a tab.
pub open spec fn rendered_alias_lines(output: Seq<u8>, filter: Option<Seq<u8>>) -> Seq<Seq<u8>> {
    lines_spec(output).map_values(|l: Seq<u8>| strip_prefix_spec(l, alias_prefix())).filter(
        |l: Seq<u8>| passes_filter(l, filter),
    ).map_values(|l: Seq<u8>| replace_first_space_spec(l))
}

proof fn lemma_replace_first_space_none(l: Seq<u8>)
    requires
        forall|k: int| 0 <= k < l.len() ==> l[k] != SPACE,
    ensures
        replace_first_space_spec(l) == l,
    decreases l.len(),
{
    if l.len() > 0 {
        lemma_replace_first_space_none(l.drop_first());
        assert(seq![l[0]] + l.drop_first() =~= l);
    }
}

proof fn lemma_replace_first_space_at(l: Seq<u8>, i: int)
    requires
        0 <= i < l.len(),
        l[i] == SPACE,
        forall|k: int| 0 <= k < i ==> l[k] != SPACE,
    ensures
        replace_first_space_spec(l) == l.take(i) + seq![TAB] + l.skip(i + 1),
    decreases i,
{
    if i == 0 {
        assert(l.take(0) + seq![TAB] + l.skip(1) =~= seq![TAB] + l.drop_first());
    } else {
        let t = l.drop_first();
        lemma_replace_first_space_at(t, i - 1);
        assert(seq![l[0]] + (t.take(i - 1) + seq![TAB] + t.skip(i)) =~= l.take(i) + seq![TAB]
            + l.skip(i + 1));
    }
}

/// Strips the alias prefix from one line, as the first stream-editing stage
/// of the alias pipeline does.
pub fn strip_alias_prefix(line: &[u8]) -> (r: Vec<u8>)
    ensures
        r@ == strip_prefix_spec(line@, alias_prefix()),
{
    let prefix = alias_prefix_bytes();
    if bytes_have_prefix(line, prefix.as_slice()) {
        let rest = vstd::slice::slice_subrange(line, prefix.len(), line.len());
        proof {
            assert(rest@ =~= line@.skip(alias_prefix().len() as int));
        }
        vstd::slice::slice_to_vec(rest)
    } else {
        vstd::slice::slice_to_vec(line)
    }
}

/// Turns the first space of one line into a tab, as the second
/// stream-editing stage of the alias pipeline does.
pub fn replace_first_space(line: &[u8]) -> (r: Vec<u8>)
    ensures
        r@ == replace_first_space_spec(line@),
{
    let mut i: usize = 0;
    while i < line.len() && line[i] != SPACE
        invariant
            i <= line@.len(),
            forall|k: int| 0 <= k < i ==> line@[k] != SPACE,
        decreases line@.len() - i,
    {
        i += 1;
    }
    if i == line.len() {
        proof {
            lemma_replace_first_space_none(line@);
        }
        return vstd::slice::slice_to_vec(line);
    }
    proof {
        lemma_replace_first_space_at(line@, i as int);
    }
    let mut out = vstd::slice::slice_to_vec(vstd::slice::slice_subrange(line, 0, i));
    out.push(TAB);
    proof {
        assert(out@ =~= line@.take(i as int) + seq![TAB]);
    }
    let ghost head = out@;
    let tail = vstd::slice::slice_subrange(line, i + 1, line.len());
    let mut j: usize = 0;
    while j < tail.len()
        invariant
            j <= tail@.len(),
            tail@ == line@.skip(i + 1),
            head == line@.take(i as int) + seq![TAB],
            out@ == head + tail@.take(j as int),
        decreases tail@.len() - j,
    {
        out.push(tail[j]);
        proof {
            assert(head + tail@.take(j + 1) =~= (head + tail@.take(j as int)).push(
                tail@[j as int],
            ));
        }
        j += 1;
    }
    proof {
        assert(tail@.take(tail@.len() as int) =~= tail@);
        assert(out@ =~= line@.take(i as int) + seq![TAB] + line@.skip(i + 1));
    }
    out
}

/// The whole text transformation of the alias listing, verified: strip the
/// alias prefix from every line, keep the lines that contain the filter
/// text, and turn each kept line's first space into the table delimiter.
pub fn render_alias_lines(output: &[u8], filter: Option<&Vec<u8>>) -> (r: Vec<Vec<u8>>)
    ensures
        r.deep_view() == rendered_alias_lines(output@, opt_bytes(filter)),
{
    let ghost fo = opt_bytes(filter);
    let ghost pred = |l: Seq<u8>| passes_filter(l, fo);
    let lines = split_lines(output);
    let ghost ls = lines_spec(output@);
    let ghost stripped_all = ls.map_values(|l: Seq<u8>| strip_prefix_spec(l, alias_prefix()));
    let mut out: Vec<Vec<u8>> = Vec::new();
    let mut k: usize = 0;
    proof {
        reveal(Seq::filter);
        assert(stripped_all.take(0) =~= Seq::<Seq<u8>>::empty());
    }
    while k < lines.len()
        invariant
            lines.deep_view() == ls,
            ls == lines_spec(output@),
            stripped_all == ls.map_values(|l: Seq<u8>| strip_prefix_spec(l, alias_prefix())),
            fo == opt_bytes(filter),
            pred == (|l: Seq<u8>| passes_filter(l, fo)),
            k <= lines@.len(),
            lines@.len() == ls.len(),
            out.deep_view() == stripped_all.take(k as int).filter(pred).map_values(
                |l: Seq<u8>| replace_first_space_spec(l),
            ),
        decreases lines@.len() - k,
    {
        let line: &Vec<u8> = &lines[k];
        assert(line@ =~= ls[k as int]);
        let stripped = strip_alias_prefix(line.as_slice());
        assert(stripped@ == stripped_all[k as int]);
        let keep = match filter {
            Some(f) => contains_subslice(stripped.as_slice(), f.as_slice()),
            None => true,
        };
        assert(keep == pred(stripped_all[k as int]));
        let ghost before = out.deep_view();
        if keep {
            out.push(replace_first_space(stripped.as_slice()));
            proof {
                assert(out.deep_view() =~~= before.push(
                    replace_first_space_spec(stripped_all[k as int]),
                ));
            }
        }
        proof {
            reveal(Seq::filter);
            assert(stripped_all.take(k + 1) =~= stripped_all.take(k as int).push(
                stripped_all[k as int],
            ));
            assert(stripped_all.take(k + 1).drop_last() =~= stripped_all.take(k as int));
            let kept_now = stripped_all.take(k + 1).filter(pred);
            assert(kept_now == if pred(stripped_all[k as int]) {
                stripped_all.take(k as int).filter(pred).push(stripped_all[k as int])
            } else {
                stripped_all.take(k as int).filter(pred)
            });
            if pred(stripped_all[k as int]) {
                assert(kept_now.map_values(|l: Seq<u8>| replace_first_space_spec(l)) =~= before.push(
                    replace_first_space_spec(stripped_all[k as int]),
                ));
            }
        }
        k += 1;
    }
    proof {
        assert(stripped_all.take(stripped_all.len() as int) =~= stripped_all);
    }
    out
}

/// Configuration-listing round trip: every line the filtered listing shows
/// contains the filter text — exactly, hence also case-insensitively — and
/// no shown line is an alias entry.
pub proof fn lemma_config_listing_round_trip(output: Seq<u8>, f: Seq<u8>)
    ensures
        forall|i: int|
            0 <= i < rendered_config_lines(output, Some(f)).len() ==> !has_prefix(
                #[trigger] rendered_config_lines(output, Some(f))[i],
                alias_prefix(),
            ),
        forall|i: int|
            0 <= i < rendered_config_lines(output, Some(f)).len() ==> contains_bytes(
                #[trigger] rendered_config_lines(output, Some(f))[i],
                f,
            ),
        forall|i: int|
            0 <= i < rendered_config_lines(output, Some(f)).len() ==> contains_bytes(
                lower_bytes(#[trigger] rendered_config_lines(output, Some(f))[i]),
                lower_bytes(f),
            ),
{
    let pred = |l: Seq<u8>| config_line_kept(l, Some(f));
    let kept = rendered_config_lines(output, Some(f));
    assert forall|i: int| 0 <= i < kept.len() implies !has_prefix(#[trigger] kept[i], alias_prefix())
        && contains_bytes(kept[i], f) && contains_bytes(
        lower_bytes(kept[i]),
        lower_bytes(f),
    ) by {
        lines_spec(output).lemma_filter_pred(pred, i);
        crate::text::lemma_lower_preserves_contains(kept[i], f);
    }
}

} // verus!
