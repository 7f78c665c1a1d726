//! From a line to its pipeline: the stages between the separators, each
//! resolved to a program and its arguments.

use crate::text::{
    characters, cut, cut_all, cuts, head_len, is_blank, is_space, is_word, lemma_head_len_bounds,
    law_trimmed_is_trim, lemma_no_tokens_iff_blank, lemma_tokens_are_words, lemma_trimmed_blank,
    piece_spans, pieces,
    spans_within, texts, token_spans, tokens, trim_span, trimmed,
};
use vstd::prelude::*;

verus! {

/// Which text a stage is resolved from.
#[derive(Clone, Copy, Debug, PartialEq, Eq)]
pub enum Resolution {
    /// Every stage is resolved from the whole line, separators included: all
    /// stages of a line name the same program and the same arguments.
    WholeLine,
    /// Each stage is resolved from its own piece of the line.
    OwnText,
}

/// One stage of a pipeline: a program and its arguments.
#[derive(Debug, PartialEq, Eq)]
pub struct Stage {
    pub program: String,
    pub arguments: Vec<String>,
}

/// What a stage holds, as sequences of characters.
pub struct StageView {
    pub program: Seq<char>,
    pub arguments: Seq<Seq<char>>,
}

impl View for Stage {
    type V = StageView;

    open spec fn view(&self) -> StageView {
        StageView { program: self.program@, arguments: texts(self.arguments@) }
    }
}

impl StageView {
    /// Whether the program and every argument is a word.
    pub open spec fn well_formed(self) -> bool {
        &&& is_word(self.program)
        &&& forall|j: int| 0 <= j < self.arguments.len() ==> is_word(#[trigger] self.arguments[j])
    }
}

/// The views of the stages of `v`, in order.
pub open spec fn stage_views(v: Seq<Stage>) -> Seq<StageView> {
    Seq::new(v.len(), |k: int| v[k]@)
}

/// The stage that a sequence of tokens names: the first is the program, the
/// others are its arguments.
pub open spec fn stage_from(words: Seq<Seq<char>>) -> StageView
    recommends
        words.len() > 0,
{
    StageView { program: words[0], arguments: words.skip(1) }
}

/// The pieces among `all` that are not blank, in order.
pub open spec fn kept(all: Seq<Seq<char>>) -> Seq<Seq<char>> {
    all.filter(|p: Seq<char>| !is_blank(p))
}

/// The text that the stage of `piece` is resolved from.
pub open spec fn source(resolution: Resolution, whole: Seq<char>, piece: Seq<char>) -> Seq<char> {
    match resolution {
        Resolution::WholeLine => whole,
        Resolution::OwnText => piece,
    }
}

/// A stage for each of `chosen`, resolved as `resolution` says.
pub open spec fn staged(resolution: Resolution, whole: Seq<char>, chosen: Seq<Seq<char>>) -> Seq<
    StageView,
> {
    Seq::new(chosen.len(), |k: int| stage_from(tokens(source(resolution, whole, chosen[k]))))
}

/// The pipeline of `line`: the line is trimmed and split at its separators,
/// blank pieces are dropped, and a stage is resolved for each piece that is
/// left.
pub open spec fn plan_of(line: Seq<char>, resolution: Resolution) -> Seq<StageView> {
    staged(resolution, trimmed(line), kept(pieces(trimmed(line))))
}

/// A piece more is kept exactly when it is not blank.
pub(crate) proof fn lemma_kept_push(all: Seq<Seq<char>>, piece: Seq<char>)
    ensures
        kept(all.push(piece)) == if is_blank(piece) {
            kept(all)
        } else {
            kept(all).push(piece)
        },
{
    reveal(Seq::filter);
    assert(all.push(piece).drop_last() =~= all);
}

/// Every kept piece is one of the pieces, and not blank.
pub proof fn lemma_kept_are_pieces(all: Seq<Seq<char>>)
    ensures
        forall|k: int|
            0 <= k < kept(all).len() ==> all.contains(#[trigger] kept(all)[k]) && !is_blank(
                kept(all)[k],
            ),
    decreases all.len(),
{
    reveal(Seq::filter);
    if all.len() > 0 {
        let init = all.drop_last();
        lemma_kept_are_pieces(init);
        assert forall|k: int| 0 <= k < kept(all).len() implies all.contains(
            #[trigger] kept(all)[k],
        ) && !is_blank(kept(all)[k]) by {
            if k < kept(init).len() {
                let i = choose|i: int| 0 <= i < init.len() && init[i] == kept(init)[k];
                assert(all[i] == kept(all)[k]);
            } else {
                assert(all[all.len() - 1] == kept(all)[k]);
            }
        }
    }
}

/// The stage that `spans`, the ranges of a text's tokens in `line`, names.
fn stage_of(line: &str, spans: &Vec<(usize, usize)>) -> (r: Stage)
    requires
        spans.len() > 0,
        spans_within(spans@, 0, line@.len() as int),
    ensures
        r@ == stage_from(cuts(line@, spans@)),
{
    let (lo, hi) = spans[0];
    let program = cut(line, lo, hi);
    let arguments = cut_all(line, spans, 1);
    Stage { program, arguments }
}

/// Plans the pipeline of `line`.
pub fn plan(line: &str, resolution: Resolution) -> (r: Vec<Stage>)
    ensures
        stage_views(r@) == plan_of(line@, resolution),
        forall|k: int| 0 <= k < r.len() ==> (#[trigger] r[k])@.well_formed(),
{
    let chars = characters(line);
    let n: usize = chars.len();
    let (lo, hi) = trim_span(&chars, 0, n);
    let spans = piece_spans(&chars, lo, hi);
    let whole_spans = token_spans(&chars, lo, hi);
    let ghost whole = trimmed(line@);
    let ghost all = pieces(whole);
    proof {
        assert(chars@.subrange(0, n as int) =~= chars@);
        assert(kept(all.take(0)) =~= Seq::<Seq<char>>::empty()) by {
            reveal(Seq::filter);
        }
        lemma_tokens_are_words(whole);
    }
    let mut out: Vec<Stage> = Vec::new();
    let count: usize = spans.len();
    let mut k: usize = 0;
    while k < count
        invariant
            chars@ == line@,
            lo <= hi <= chars.len(),
            whole == chars@.subrange(lo as int, hi as int),
            all == cuts(chars@, spans@),
            count == spans.len(),
            k <= count,
            spans_within(spans@, lo as int, hi as int),
            spans_within(whole_spans@, lo as int, hi as int),
            cuts(chars@, whole_spans@) == tokens(whole),
            forall|i: int| 0 <= i < tokens(whole).len() ==> is_word(#[trigger] tokens(whole)[i]),
            stage_views(out@) == staged(resolution, whole, kept(all.take(k as int))),
            forall|i: int| 0 <= i < out.len() ==> (#[trigger] out[i])@.well_formed(),
        decreases count - k,
    {
        let (a, b) = spans[k];
        let own_spans = token_spans(&chars, a, b);
        let ghost piece = chars@.subrange(a as int, b as int);
        let ghost before = kept(all.take(k as int));
        proof {
            assert(all[k as int] == piece);
            assert(all.take(k as int + 1) =~= all.take(k as int).push(piece));
            lemma_kept_push(all.take(k as int), piece);
            lemma_no_tokens_iff_blank(piece);
            lemma_no_tokens_iff_blank(whole);
            lemma_tokens_are_words(piece);
            if !is_blank(piece) {
                let i = choose|i: int| 0 <= i < piece.len() && !is_space(#[trigger] piece[i]);
                assert(whole[a - lo + i] == piece[i]);
                assert(!is_blank(whole));
            }
        }
        if own_spans.len() > 0 {
            let stage = match resolution {
                Resolution::WholeLine => stage_of(line, &whole_spans),
                Resolution::OwnText => stage_of(line, &own_spans),
            };
            proof {
                let words = tokens(source(resolution, whole, piece));
                assert(stage@ == stage_from(words));
                assert(stage@.well_formed()) by {
                    assert(is_word(words[0]));
                    assert forall|j: int| 0 <= j < stage@.arguments.len() implies is_word(
                        #[trigger] stage@.arguments[j],
                    ) by {
                        assert(stage@.arguments[j] == words[j + 1]);
                    }
                }
                let old_views = stage_views(out@);
                let new_views = stage_views(out@.push(stage));
                let wanted = staged(resolution, whole, before.push(piece));
                assert(old_views.len() == before.len());
                assert forall|i: int| 0 <= i < new_views.len() implies new_views[i]
                    == wanted[i] by {
                    if i < before.len() {
                        assert(old_views[i] == staged(resolution, whole, before)[i]);
                        assert(before.push(piece)[i] == before[i]);
                    }
                }
                assert(new_views =~= wanted);
            }
            out.push(stage);
        }
        k += 1;
    }
    proof {
        assert(all.take(count as int) =~= all);
    }
    out
}

/// The pieces of a blank text are blank.
pub(crate) proof fn lemma_blank_pieces(s: Seq<char>)
    requires
        is_blank(s),
    ensures
        forall|k: int| 0 <= k < pieces(s).len() ==> is_blank(#[trigger] pieces(s)[k]),
    decreases s.len(),
{
    lemma_head_len_bounds(s);
    let n = head_len(s) as int;
    if n < s.len() {
        let head = s.take(n);
        let rest = s.skip(n + 3);
        assert(is_blank(head)) by {
            assert forall|i: int| 0 <= i < head.len() implies is_space(#[trigger] head[i]) by {
                assert(head[i] == s[i]);
            }
        }
        assert(is_blank(rest)) by {
            assert forall|i: int| 0 <= i < rest.len() implies is_space(#[trigger] rest[i]) by {
                assert(rest[i] == s[i + n + 3]);
            }
        }
        lemma_blank_pieces(rest);
        assert forall|k: int| 0 <= k < pieces(s).len() implies is_blank(
            #[trigger] pieces(s)[k],
        ) by {
            if k > 0 {
                assert(pieces(s)[k] == pieces(rest)[k - 1]);
            }
        }
    }
}

/// Nothing of blank pieces is kept.
pub(crate) proof fn lemma_kept_of_blank(all: Seq<Seq<char>>)
    requires
        forall|k: int| 0 <= k < all.len() ==> is_blank(#[trigger] all[k]),
    ensures
        kept(all).len() == 0,
    decreases all.len(),
{
    reveal(Seq::filter);
    if all.len() > 0 {
        let init = all.drop_last();
        assert forall|k: int| 0 <= k < init.len() implies is_blank(#[trigger] init[k]) by {
            assert(init[k] == all[k]);
        }
        lemma_kept_of_blank(init);
        assert(is_blank(all[all.len() - 1]));
    }
}

/// A line that holds a piece that is not blank is not blank, once trimmed.
proof fn lemma_kept_piece_shows_words(line: Seq<char>)
    requires
        kept(pieces(trimmed(line))).len() > 0,
    ensures
        tokens(trimmed(line)).len() > 0,
{
    let whole = trimmed(line);
    lemma_no_tokens_iff_blank(whole);
    if is_blank(whole) {
        lemma_blank_pieces(whole);
        lemma_kept_of_blank(pieces(whole));
    }
}

/// The stage invariant: in every stage of a plan the program is a word,
/// and so is each argument. There is no stage without a program.
pub proof fn law_planned_stages_are_well_formed(line: Seq<char>, resolution: Resolution)
    ensures
        forall|k: int|
            0 <= k < plan_of(line, resolution).len() ==> (#[trigger] plan_of(
                line,
                resolution,
            )[k]).well_formed(),
{
    let whole = trimmed(line);
    let chosen = kept(pieces(whole));
    let stages = plan_of(line, resolution);
    lemma_kept_are_pieces(pieces(whole));
    assert forall|k: int| 0 <= k < stages.len() implies (#[trigger] stages[k]).well_formed() by {
        let text = source(resolution, whole, chosen[k]);
        let words = tokens(text);
        lemma_kept_piece_shows_words(line);
        lemma_no_tokens_iff_blank(chosen[k]);
        lemma_tokens_are_words(text);
        assert(stages[k] == stage_from(words));
        assert(is_word(words[0]));
        assert forall|j: int| 0 <= j < stages[k].arguments.len() implies is_word(
            #[trigger] stages[k].arguments[j],
        ) by {
            assert(stages[k].arguments[j] == words[j + 1]);
        }
    }
}

/// There is a stage for each piece of the trimmed line that is not blank,
/// and for no other: a blank line has no stage at all.
pub proof fn law_stages_match_kept_pieces(line: Seq<char>, resolution: Resolution)
    ensures
        plan_of(line, resolution).len() == kept(pieces(trimmed(line))).len(),
        plan_of(line, resolution).len() <= pieces(trimmed(line)).len(),
        is_blank(line) ==> plan_of(line, resolution).len() == 0,
{
    let whole = trimmed(line);
    pieces(whole).lemma_filter_len(|p: Seq<char>| !is_blank(p));
    if is_blank(line) {
        lemma_trimmed_blank(line);
        lemma_blank_pieces(whole);
        lemma_kept_of_blank(pieces(whole));
    }
}

/// Resolved from the whole line, all stages are alike: each has the first
/// token of the trimmed line as its program and the other tokens, the bars
/// between the stages among them, as its arguments.
pub proof fn law_whole_line_stages_are_alike(line: Seq<char>)
    ensures
        forall|k: int|
            0 <= k < plan_of(line, Resolution::WholeLine).len() ==> #[trigger] plan_of(
                line,
                Resolution::WholeLine,
            )[k] == stage_from(tokens(trimmed(line))),
{
}

/// Resolved from its own text, each stage has the first token of its piece
/// as its program and the other tokens of the piece as its arguments.
pub proof fn law_own_text_stages_follow_pieces(line: Seq<char>)
    ensures
        forall|k: int|
            0 <= k < plan_of(line, Resolution::OwnText).len() ==> #[trigger] plan_of(
                line,
                Resolution::OwnText,
            )[k] == stage_from(tokens(kept(pieces(trimmed(line)))[k])),
{
}

/// The plan of a line is the plan of the trimmed line: white space around a
/// line is of no account.
pub proof fn law_plan_ignores_outer_space(line: Seq<char>, resolution: Resolution)
    ensures
        plan_of(trimmed(line), resolution) == plan_of(line, resolution),
{
    law_trimmed_is_trim(line);
}

} // verus!
