//! Byte-text utilities shared by the status parser, the pipeline filters and
//! the policy engine: line splitting, ASCII case folding, prefix tests and
//! fixed-string (non-regex) substring search.

use vstd::prelude::*;

verus! {

pub const LINE_FEED: u8 = 10;

pub const CARRIAGE_RETURN: u8 = 13;

/// ASCII lower-casing of one byte; bytes outside `A`..=`Z` are unchanged.
pub open spec fn lower_byte(b: u8) -> u8 {
    if 65 <= b <= 90 {
        (b + 32) as u8
    } else {
        b
    }
}

/// ASCII lower-casing of a byte string.
pub open spec fn lower_bytes(s: Seq<u8>) -> Seq<u8> {
    s.map_values(|b: u8| lower_byte(b))
}

/// `needle` occurs in `hay` starting at position `i`.
pub open spec fn match_at(hay: Seq<u8>, needle: Seq<u8>, i: int) -> bool {
    &&& 0 <= i
    &&& i + needle.len() <= hay.len()
    &&& hay.subrange(i, i + needle.len() as int) == needle
}

/// `needle` occurs somewhere in `hay` (the empty needle occurs everywhere).
pub open spec fn contains_bytes(hay: Seq<u8>, needle: Seq<u8>) -> bool {
    exists|i: int| match_at(hay, needle, i)
}

/// `s` starts with `prefix`.
pub open spec fn has_prefix(s: Seq<u8>, prefix: Seq<u8>) -> bool {
    prefix.len() <= s.len() && s.subrange(0, prefix.len() as int) == prefix
}

/// One trailing carriage return is removed, as `str::lines` does.
pub open spec fn chomp_cr(line: Seq<u8>) -> Seq<u8> {
    if line.len() > 0 && line.last() == CARRIAGE_RETURN {
        line.drop_last()
    } else {
        line
    }
}

/// Splits on every occurrence of `sep`: `n` separators give `n + 1`
/// pieces, so the result is never empty and a trailing separator leaves an
/// empty last piece.
pub open spec fn split_on_byte(s: Seq<u8>, sep: u8) -> Seq<Seq<u8>>
    decreases s.len(),
{
    if s.len() == 0 {
        seq![Seq::<u8>::empty()]
    } else if s[0] == sep {
        seq![Seq::<u8>::empty()] + split_on_byte(s.drop_first(), sep)
    } else {
        let rest = split_on_byte(s.drop_first(), sep);
        seq![seq![s[0]] + rest[0]] + rest.drop_first()
    }
}

/// Splitting on line feeds, the first half of `lines_spec`.
pub open spec fn split_on_line_feed(s: Seq<u8>) -> Seq<Seq<u8>> {
    split_on_byte(s, LINE_FEED)
}

/// The lines of a byte text, as `str::lines` sees them: split on line feeds,
/// discard the single empty piece a trailing line feed leaves behind, and
/// drop one trailing carriage return from each line.
pub open spec fn lines_spec(s: Seq<u8>) -> Seq<Seq<u8>> {
    let pieces = split_on_line_feed(s);
    let kept = if pieces.last().len() == 0 {
        pieces.drop_last()
    } else {
        pieces
    };
    kept.map_values(|l: Seq<u8>| chomp_cr(l))
}

pub proof fn lemma_split_on_byte_len(s: Seq<u8>, sep: u8)
    ensures
        split_on_byte(s, sep).len() >= 1,
    decreases s.len(),
{
    if s.len() == 0 {
    } else {
        lemma_split_on_byte_len(s.drop_first(), sep);
    }
}

/// Appending one byte extends the last piece, or opens a fresh empty piece if
/// the byte is the separator.
pub proof fn lemma_split_on_byte_push(s: Seq<u8>, sep: u8, b: u8)
    ensures
        ({
            let p = split_on_byte(s, sep);
            split_on_byte(s.push(b), sep) == if b == sep {
                p.push(Seq::<u8>::empty())
            } else {
                p.update(p.len() - 1, p.last().push(b))
            }
        }),
    decreases s.len(),
{
    lemma_split_on_byte_len(s, sep);
    let p = split_on_byte(s, sep);
    if s.len() == 0 {
        let sb = s.push(b);
        assert(sb.len() == 1 && sb[0] == b);
        assert(sb.drop_first() =~= Seq::<u8>::empty());
        assert(split_on_byte(Seq::<u8>::empty(), sep) == seq![Seq::<u8>::empty()]);
        assert(p == seq![Seq::<u8>::empty()]);
        if b == sep {
            assert(split_on_byte(sb, sep) == seq![Seq::<u8>::empty()] + seq![Seq::<u8>::empty()]);
            assert(split_on_byte(sb, sep) =~= p.push(Seq::<u8>::empty()));
        } else {
            let rest = split_on_byte(sb.drop_first(), sep);
            assert(split_on_byte(sb, sep) == seq![seq![b] + rest[0]] + rest.drop_first());
            assert(seq![b] + rest[0] =~= Seq::<u8>::empty().push(b));
            assert(rest.drop_first() =~= Seq::<Seq<u8>>::empty());
            assert(split_on_byte(sb, sep) =~= p.update(0, p.last().push(b)));
        }
    } else {
        let t = s.drop_first();
        lemma_split_on_byte_len(t, sep);
        let q = split_on_byte(t, sep);
        assert(s.push(b).drop_first() =~= t.push(b));
        assert(s.push(b)[0] == s[0]);
        lemma_split_on_byte_push(t, sep, b);
        let q2 = split_on_byte(t.push(b), sep);
        if s[0] == sep {
            assert(split_on_byte(s.push(b), sep) == seq![Seq::<u8>::empty()] + q2);
            if b == sep {
                assert(seq![Seq::<u8>::empty()] + q.push(Seq::<u8>::empty()) =~= p.push(
                    Seq::<u8>::empty(),
                ));
            } else {
                assert(p.last() == q.last());
                assert(seq![Seq::<u8>::empty()] + q.update(q.len() - 1, q.last().push(b)) =~= p.update(
                    p.len() - 1,
                    p.last().push(b),
                ));
            }
        } else {
            assert(split_on_byte(s.push(b), sep) == seq![seq![s[0]] + q2[0]] + q2.drop_first());
            assert(p == seq![seq![s[0]] + q[0]] + q.drop_first());
            if b == sep {
                assert(q2 == q.push(Seq::<u8>::empty()));
                assert(q2[0] == q[0]);
                assert(q2.drop_first() =~= q.drop_first().push(Seq::<u8>::empty()));
                assert(seq![seq![s[0]] + q[0]] + q.drop_first().push(Seq::<u8>::empty()) =~= p.push(
                    Seq::<u8>::empty(),
                ));
            } else {
                assert(q2 == q.update(q.len() - 1, q.last().push(b)));
                if q.len() == 1 {
                    assert(q2[0] == q[0].push(b));
                    assert(q2.drop_first() =~= q.drop_first());
                    assert(p.len() == 1);
                    assert(p.last() == seq![s[0]] + q[0]);
                    assert(seq![s[0]] + q[0].push(b) =~= (seq![s[0]] + q[0]).push(b));
                    assert(seq![seq![s[0]] + q2[0]] + q2.drop_first() =~= p.update(
                        p.len() - 1,
                        p.last().push(b),
                    ));
                } else {
                    assert(q2[0] == q[0]);
                    assert(p.len() == q.len());
                    assert(p.last() == q.last());
                    assert(q2.drop_first() =~= q.drop_first().update(
                        q.len() - 2,
                        q.last().push(b),
                    ));
                    assert(seq![seq![s[0]] + q2[0]] + q2.drop_first() =~= p.update(
                        p.len() - 1,
                        p.last().push(b),
                    ));
                }
            }
        }
    }
}

/// An exact occurrence is also a case-insensitive one.
pub proof fn lemma_lower_preserves_contains(hay: Seq<u8>, needle: Seq<u8>)
    requires
        contains_bytes(hay, needle),
    ensures
        contains_bytes(lower_bytes(hay), lower_bytes(needle)),
{
    let i = choose|i: int| match_at(hay, needle, i);
    assert(lower_bytes(hay).subrange(i, i + needle.len() as int) =~= lower_bytes(needle));
    assert(match_at(lower_bytes(hay), lower_bytes(needle), i));
}

pub const SINGLE_QUOTE: u8 = 39;

/// Every leading single quote removed.
pub open spec fn strip_leading_quotes(l: Seq<u8>) -> Seq<u8>
    decreases l.len(),
{
    if l.len() > 0 && l[0] == SINGLE_QUOTE {
        strip_leading_quotes(l.drop_first())
    } else {
        l
    }
}

/// Every trailing single quote removed.
pub open spec fn strip_trailing_quotes(l: Seq<u8>) -> Seq<u8>
    decreases l.len(),
{
    if l.len() > 0 && l.last() == SINGLE_QUOTE {
        strip_trailing_quotes(l.drop_last())
    } else {
        l
    }
}

/// Every leading and trailing single quote removed, as
/// `str::trim_matches('\'')` does.
pub open spec fn trim_quotes(l: Seq<u8>) -> Seq<u8> {
    strip_trailing_quotes(strip_leading_quotes(l))
}

/// Removes every leading and trailing single quote from one line.
pub fn trim_quote_bytes(l: &[u8]) -> (r: Vec<u8>)
    ensures
        r@ == trim_quotes(l@),
{
    let mut i: usize = 0;
    let mut j: usize = l.len();
    proof {
        assert(l@.subrange(0, l@.len() as int) =~= l@);
    }
    while i < j && l[i] == SINGLE_QUOTE
        invariant
            0 <= i <= j <= l@.len(),
            j == l@.len(),
            strip_leading_quotes(l@) == strip_leading_quotes(l@.subrange(i as int, j as int)),
        decreases j - i,
    {
        proof {
            assert(l@.subrange(i as int, j as int).drop_first() =~= l@.subrange(i + 1, j as int));
        }
        i += 1;
    }
    proof {
        assert(strip_leading_quotes(l@.subrange(i as int, j as int)) == l@.subrange(
            i as int,
            j as int,
        ));
    }
    while j > i && l[j - 1] == SINGLE_QUOTE
        invariant
            0 <= i <= j <= l@.len(),
            trim_quotes(l@) == strip_trailing_quotes(l@.subrange(i as int, j as int)),
        decreases j,
    {
        proof {
            assert(l@.subrange(i as int, j as int).drop_last() =~= l@.subrange(i as int, j - 1));
        }
        j -= 1;
    }
    let r = vstd::slice::slice_to_vec(vstd::slice::slice_subrange(l, i, j));
    proof {
        assert(strip_trailing_quotes(l@.subrange(i as int, j as int)) == l@.subrange(
            i as int,
            j as int,
        ));
    }
    r
}

/// ASCII lower-casing of a byte string.
pub fn ascii_lower(s: &[u8]) -> (r: Vec<u8>)
    ensures
        r@ == lower_bytes(s@),
{
    let mut out: Vec<u8> = Vec::new();
    let mut i: usize = 0;
    while i < s.len()
        invariant
            i <= s.len(),
            out@ =~= lower_bytes(s@).take(i as int),
        decreases s.len() - i,
    {
        let b = s[i];
        if 65 <= b && b <= 90 {
            out.push(b + 32);
        } else {
            out.push(b);
        }
        assert(lower_bytes(s@).take(i + 1) =~= lower_bytes(s@).take(i as int).push(
            lower_byte(s@[i as int]),
        ));
        i += 1;
    }
    assert(lower_bytes(s@).take(s@.len() as int) =~= lower_bytes(s@));
    out
}

/// `needle` occurs at position `i` of `hay`.
fn matches_at(hay: &[u8], needle: &[u8], i: usize) -> (r: bool)
    requires
        i + needle@.len() <= hay@.len(),
    ensures
        r == match_at(hay@, needle@, i as int),
{
    let hay_len = hay.len();
    let mut j: usize = 0;
    while j < needle.len()
        invariant
            hay_len == hay@.len(),
            i + needle@.len() <= hay@.len(),
            j <= needle@.len(),
            hay@.subrange(i as int, i + j as int) =~= needle@.take(j as int),
        decreases needle.len() - j,
    {
        if hay[i + j] != needle[j] {
            assert(hay@.subrange(i as int, i + needle@.len() as int)[j as int] != needle@[j as int]);
            return false;
        }
        assert(hay@.subrange(i as int, i + (j + 1) as int) =~= hay@.subrange(
            i as int,
            i + j as int,
        ).push(hay@[i + j as int]));
        j += 1;
    }
    assert(needle@.take(needle@.len() as int) =~= needle@);
    true
}

/// Fixed-string search: does `needle` occur anywhere in `hay`?
pub fn contains_subslice(hay: &[u8], needle: &[u8]) -> (r: bool)
    ensures
        r == contains_bytes(hay@, needle@),
{
    if needle.len() > hay.len() {
        return false;
    }
    if needle.len() == 0 {
        assert(match_at(hay@, needle@, 0)) by {
            assert(hay@.subrange(0, 0) =~= needle@);
        }
        return true;
    }
    let mut i: usize = 0;
    while i <= hay.len() - needle.len()
        invariant
            0 < needle@.len() <= hay@.len(),
            i <= hay@.len() - needle@.len() + 1,
            forall|k: int| 0 <= k < i ==> !match_at(hay@, needle@, k),
        decreases hay.len() - i,
    {
        if matches_at(hay, needle, i) {
            return true;
        }
        i += 1;
    }
    false
}

/// Does `s` start with `prefix`?
pub fn bytes_have_prefix(s: &[u8], prefix: &[u8]) -> (r: bool)
    ensures
        r == has_prefix(s@, prefix@),
{
    if prefix.len() > s.len() {
        return false;
    }
    matches_at(s, prefix, 0)
}

/// Splits a byte text on every occurrence of `sep`, exactly as
/// `split_on_byte` reads: `n` separators give `n + 1` pieces, so the result
/// is never empty.
pub fn split_bytes(text: &[u8], sep: u8) -> (r: Vec<Vec<u8>>)
    ensures
        r.deep_view() == split_on_byte(text@, sep),
        r@.len() >= 1,
{
    let mut pieces: Vec<Vec<u8>> = Vec::new();
    let mut cur: Vec<u8> = Vec::new();
    let mut i: usize = 0;
    proof {
        assert(pieces.deep_view().push(cur@) =~= split_on_byte(text@.take(0), sep));
    }
    while i < text.len()
        invariant
            i <= text.len(),
            pieces.deep_view().push(cur@) == split_on_byte(text@.take(i as int), sep),
        decreases text.len() - i,
    {
        let b = text[i];
        proof {
            assert(text@.take(i + 1) =~= text@.take(i as int).push(text@[i as int]));
            lemma_split_on_byte_push(text@.take(i as int), sep, b);
            lemma_split_on_byte_len(text@.take(i as int), sep);
        }
        let ghost old_pieces = pieces.deep_view();
        let ghost old_cur = cur@;
        if b == sep {
            pieces.push(cur);
            cur = Vec::new();
            proof {
                assert(pieces.deep_view().push(cur@) =~~= old_pieces.push(old_cur).push(
                    Seq::<u8>::empty(),
                ));
            }
        } else {
            cur.push(b);
            proof {
                let p = old_pieces.push(old_cur);
                assert(pieces.deep_view().push(cur@) =~~= p.update(p.len() - 1, p.last().push(b)));
            }
        }
        i += 1;
    }
    proof {
        assert(text@.take(text@.len() as int) =~= text@);
    }
    let ghost all_pieces = pieces.deep_view().push(cur@);
    pieces.push(cur);
    proof {
        assert(pieces.deep_view() =~~= all_pieces);
    }
    pieces
}

/// Splits a byte text into its lines: pieces between line feeds, with the
/// empty piece after a trailing line feed discarded and one trailing carriage
/// return removed from each line.  Empty input has no lines.
pub fn split_lines(text: &[u8]) -> (r: Vec<Vec<u8>>)
    ensures
        r.deep_view() == lines_spec(text@),
{
    let mut pieces = split_bytes(text, LINE_FEED);
    let ghost all_pieces = pieces.deep_view();
    // discard the single empty piece that a trailing line feed leaves behind
    let last_is_empty = pieces[pieces.len() - 1].len() == 0;
    proof {
        assert(pieces.deep_view()[all_pieces.len() - 1] =~= pieces@[all_pieces.len() - 1]@);
        assert(last_is_empty == (all_pieces.last().len() == 0));
    }
    let kept: Vec<Vec<u8>> = if last_is_empty {
        let ghost before = pieces.deep_view();
        pieces.pop();
        proof {
            assert(pieces.deep_view() =~~= all_pieces.drop_last());
        }
        pieces
    } else {
        pieces
    };
    let ghost kept_view = kept.deep_view();
    // remove one trailing carriage return from each line
    let mut out: Vec<Vec<u8>> = Vec::new();
    let mut j: usize = 0;
    while j < kept.len()
        invariant
            j <= kept.len(),
            kept.deep_view() == kept_view,
            kept.deep_view().len() == kept@.len(),
            out.deep_view() == kept_view.take(j as int).map_values(|l: Seq<u8>| chomp_cr(l)),
        decreases kept.len() - j,
    {
        let piece: &Vec<u8> = &kept[j];
        assert(piece@ =~= kept_view[j as int]);
        let trimmed: Vec<u8> = if piece.len() > 0 && piece[piece.len() - 1] == CARRIAGE_RETURN {
            let shorter = vstd::slice::slice_subrange(piece.as_slice(), 0, piece.len() - 1);
            assert(shorter@ =~= chomp_cr(piece@));
            vstd::slice::slice_to_vec(shorter)
        } else {
            vstd::slice::slice_to_vec(piece.as_slice())
        };
        let ghost old_out = out.deep_view();
        out.push(trimmed);
        proof {
            assert(kept_view.take(j + 1) =~= kept_view.take(j as int).push(kept_view[j as int]));
            assert(out.deep_view() =~~= old_out.push(chomp_cr(kept_view[j as int])));
            assert(kept_view.take(j + 1).map_values(|l: Seq<u8>| chomp_cr(l)) =~= old_out.push(
                chomp_cr(kept_view[j as int]),
            ));
        }
        j += 1;
    }
    proof {
        assert(kept_view.take(kept_view.len() as int) =~= kept_view);
        lemma_split_on_byte_len(text@, LINE_FEED);
        assert(out.deep_view() =~= lines_spec(text@));
    }
    out
}

} // verus!
