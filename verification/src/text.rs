//! Lines of input as sequences of characters: white space, trimming, tokens
//! and splitting on the pipe separator.
//!
//! The spec functions speak of `Seq<char>`, the view of a `str`. The
//! executable functions scan a line once into a vector of characters and work
//! with index ranges into it; every piece they hand out is a sub-range of the
//! line.

use vstd::prelude::*;
use vstd::string::*;
use vstd::utf8::*;

verus! {

/// Whether `c` is white space: the code points that carry the Unicode
/// property `White_Space`.
pub open spec fn is_space(c: char) -> bool {
    let n = c as u32;
    ||| 0x09 <= n <= 0x0D
    ||| n == 0x20
    ||| n == 0x85
    ||| n == 0xA0
    ||| n == 0x1680
    ||| 0x2000 <= n <= 0x200A
    ||| n == 0x2028
    ||| n == 0x2029
    ||| n == 0x202F
    ||| n == 0x205F
    ||| n == 0x3000
}

/// `s` without its leading white space.
pub open spec fn trim_start(s: Seq<char>) -> Seq<char>
    decreases s.len(),
{
    if s.len() > 0 && is_space(s[0]) {
        trim_start(s.drop_first())
    } else {
        s
    }
}

/// `s` without its trailing white space.
pub open spec fn trim_end(s: Seq<char>) -> Seq<char>
    decreases s.len(),
{
    if s.len() > 0 && is_space(s.last()) {
        trim_end(s.drop_last())
    } else {
        s
    }
}

/// `s` without leading and trailing white space.
pub open spec fn trimmed(s: Seq<char>) -> Seq<char> {
    trim_end(trim_start(s))
}

/// Whether `s` holds nothing but white space.
pub open spec fn is_blank(s: Seq<char>) -> bool {
    forall|i: int| 0 <= i < s.len() ==> is_space(#[trigger] s[i])
}

/// How many characters stand at the start of `s` before the first white
/// space, or before the end.
pub open spec fn word_len(s: Seq<char>) -> nat
    decreases s.len(),
{
    if s.len() == 0 || is_space(s[0]) {
        0
    } else {
        1 + word_len(s.drop_first())
    }
}

/// The tokens of `s`: its maximal runs of characters that are not white
/// space, from left to right.
pub open spec fn tokens(s: Seq<char>) -> Seq<Seq<char>>
    decreases s.len(),
    via tokens_decreases
{
    if s.len() == 0 {
        Seq::empty()
    } else if is_space(s[0]) {
        tokens(s.drop_first())
    } else {
        seq![s.take(word_len(s) as int)] + tokens(s.skip(word_len(s) as int))
    }
}

#[via_fn]
proof fn tokens_decreases(s: Seq<char>) {
    lemma_word_len_bounds(s);
}

/// A word is no longer than its text, not empty where the text starts with
/// a character that is not white space, and free of white space.
pub proof fn lemma_word_len_bounds(s: Seq<char>)
    ensures
        word_len(s) <= s.len(),
        s.len() > 0 && !is_space(s[0]) ==> word_len(s) >= 1,
        forall|k: int| 0 <= k < word_len(s) ==> !is_space(#[trigger] s[k]),
    decreases s.len(),
{
    if s.len() > 0 && !is_space(s[0]) {
        let t = s.drop_first();
        lemma_word_len_bounds(t);
        assert forall|k: int| 0 <= k < word_len(s) implies !is_space(#[trigger] s[k]) by {
            if k > 0 {
                assert(s[k] == t[k - 1]);
            }
        }
    }
}

/// Whether `s` is a word: not empty and free of white space.
pub open spec fn is_word(s: Seq<char>) -> bool {
    &&& s.len() > 0
    &&& forall|i: int| 0 <= i < s.len() ==> !is_space(#[trigger] s[i])
}

/// Every token is a word.
pub proof fn lemma_tokens_are_words(s: Seq<char>)
    ensures
        forall|k: int| 0 <= k < tokens(s).len() ==> is_word(#[trigger] tokens(s)[k]),
    decreases s.len(),
{
    if s.len() == 0 {
        assert(tokens(s).len() == 0);
    } else if is_space(s[0]) {
        lemma_tokens_are_words(s.drop_first());
        assert(tokens(s) == tokens(s.drop_first()));
    } else {
        lemma_word_len_bounds(s);
        let n = word_len(s) as int;
        lemma_tokens_are_words(s.skip(n));
        assert(tokens(s) == seq![s.take(n)] + tokens(s.skip(n)));
        let head = s.take(n);
        assert(is_word(head)) by {
            assert forall|i: int| 0 <= i < head.len() implies !is_space(#[trigger] head[i]) by {
                assert(head[i] == s[i]);
            }
        }
        assert forall|k: int| 0 <= k < tokens(s).len() implies is_word(#[trigger] tokens(s)[k]) by {
            if k > 0 {
                assert(tokens(s)[k] == tokens(s.skip(n))[k - 1]);
            }
        }
    }
}

/// A text has no token exactly when it is blank.
pub proof fn lemma_no_tokens_iff_blank(s: Seq<char>)
    ensures
        tokens(s).len() == 0 <==> is_blank(s),
    decreases s.len(),
{
    if s.len() == 0 {
    } else if is_space(s[0]) {
        let t = s.drop_first();
        lemma_no_tokens_iff_blank(t);
        if is_blank(t) {
            assert forall|i: int| 0 <= i < s.len() implies is_space(#[trigger] s[i]) by {
                if i > 0 {
                    assert(s[i] == t[i - 1]);
                }
            }
        }
        if is_blank(s) {
            assert forall|i: int| 0 <= i < t.len() implies is_space(#[trigger] t[i]) by {
                assert(t[i] == s[i + 1]);
            }
        }
    } else {
        assert(!is_space(s[0]));
    }
}

/// A blank line is empty once trimmed.
pub proof fn lemma_trimmed_blank(line: Seq<char>)
    requires
        is_blank(line),
    ensures
        trimmed(line).len() == 0,
    decreases line.len(),
{
    if line.len() > 0 {
        let rest = line.drop_first();
        assert(is_space(line[0]));
        assert forall|i: int| 0 <= i < rest.len() implies is_space(
            #[trigger] rest[i],
        ) by {
            assert(rest[i] == line[i + 1]);
        }
        lemma_trimmed_blank(rest);
    }
}

/// A line whose trimmed form is empty is blank.
pub proof fn lemma_trimmed_empty_is_blank(line: Seq<char>)
    requires
        trimmed(line).len() == 0,
    ensures
        is_blank(line),
    decreases line.len(),
{
    if line.len() > 0 {
        if is_space(line[0]) {
            let rest = line.drop_first();
            lemma_trimmed_empty_is_blank(rest);
            assert forall|i: int| 0 <= i < line.len() implies is_space(
                #[trigger] line[i],
            ) by {
                if i > 0 {
                    assert(line[i] == rest[i - 1]);
                }
            }
        } else {
            lemma_trim_end_keeps_head(line);
        }
    }
}

/// Trimming the end leaves a first character that is not white space in
/// place.
pub(crate) proof fn lemma_trim_end_keeps_head(s: Seq<char>)
    requires
        s.len() > 0,
        !is_space(s[0]),
    ensures
        trim_end(s).len() > 0,
        trim_end(s)[0] == s[0],
    decreases s.len(),
{
    if is_space(s.last()) {
        lemma_trim_end_keeps_head(s.drop_last());
    }
}

/// What is left when leading white space is taken away is empty or starts
/// with a character that is not white space.
pub(crate) proof fn lemma_trim_start_shape(s: Seq<char>)
    ensures
        trim_start(s).len() == 0 || !is_space(trim_start(s)[0]),
    decreases s.len(),
{
    if s.len() > 0 && is_space(s[0]) {
        lemma_trim_start_shape(s.drop_first());
    }
}

/// What is left when trailing white space is taken away is empty or ends
/// with a character that is not white space.
pub(crate) proof fn lemma_trim_end_shape(s: Seq<char>)
    ensures
        trim_end(s).len() == 0 || !is_space(trim_end(s).last()),
    decreases s.len(),
{
    if s.len() > 0 && is_space(s.last()) {
        lemma_trim_end_shape(s.drop_last());
    }
}

/// A trimmed text is empty, or starts and ends with characters that are not
/// white space; and trimming it again changes nothing.
pub proof fn law_trimmed_is_trim(s: Seq<char>)
    ensures
        trimmed(s).len() == 0 || (!is_space(trimmed(s)[0]) && !is_space(trimmed(s).last())),
        trimmed(trimmed(s)) == trimmed(s),
{
    let start = trim_start(s);
    lemma_trim_start_shape(s);
    lemma_trim_end_shape(start);
    if trimmed(s).len() > 0 {
        assert(start.len() > 0);
        lemma_trim_end_keeps_head(start);
    }
}

/// Whether the separator of stages, a space, a bar and a space, stands in
/// `s` at index `i`.
pub open spec fn pipe_at(s: Seq<char>, i: int) -> bool {
    &&& 0 <= i
    &&& i + 3 <= s.len()
    &&& s[i] == ' '
    &&& s[i + 1] == '|'
    &&& s[i + 2] == ' '
}

/// How many characters stand in `s` before its first separator, or before
/// the end.
pub open spec fn head_len(s: Seq<char>) -> nat
    decreases s.len(),
{
    if s.len() == 0 || pipe_at(s, 0) {
        0
    } else {
        1 + head_len(s.drop_first())
    }
}

/// The pieces of `s` between its separators, from left to right. The
/// separators are found from the left and do not overlap; a piece may be
/// empty, and a text without a separator is its own single piece.
pub open spec fn pieces(s: Seq<char>) -> Seq<Seq<char>>
    decreases s.len(),
    via pieces_decreases
{
    if head_len(s) == s.len() {
        seq![s]
    } else {
        seq![s.take(head_len(s) as int)] + pieces(s.skip(head_len(s) as int + 3))
    }
}

#[via_fn]
proof fn pieces_decreases(s: Seq<char>) {
    lemma_head_len_bounds(s);
}

/// The first piece ends at the end of the text or at a separator.
pub proof fn lemma_head_len_bounds(s: Seq<char>)
    ensures
        head_len(s) <= s.len(),
        head_len(s) < s.len() ==> pipe_at(s, head_len(s) as int),
        forall|i: int| 0 <= i < head_len(s) ==> !pipe_at(s, i),
    decreases s.len(),
{
    if s.len() == 0 || pipe_at(s, 0) {
    } else {
        let t = s.drop_first();
        lemma_head_len_bounds(t);
        assert forall|i: int| 0 <= i < head_len(s) implies !pipe_at(s, i) by {
            if i > 0 {
                assert(!pipe_at(t, i - 1));
            }
        }
    }
}

/// A word ends at the first white space, or at the end of its text.
pub(crate) proof fn lemma_word_len_is(s: Seq<char>, n: int)
    requires
        0 <= n <= s.len(),
        forall|k: int| 0 <= k < n ==> !is_space(#[trigger] s[k]),
        n == s.len() || is_space(s[n]),
    ensures
        word_len(s) == n,
    decreases n,
{
    if n > 0 {
        let t = s.drop_first();
        assert forall|k: int| 0 <= k < n - 1 implies !is_space(#[trigger] t[k]) by {
            assert(t[k] == s[k + 1]);
        }
        lemma_word_len_is(t, n - 1);
    }
}

/// The first piece ends at the first separator, or at the end of its text.
pub(crate) proof fn lemma_head_len_is(s: Seq<char>, n: int)
    requires
        0 <= n <= s.len(),
        forall|k: int| 0 <= k < n ==> !pipe_at(s, k),
        n == s.len() || pipe_at(s, n),
    ensures
        head_len(s) == n,
    decreases n,
{
    if n > 0 {
        let t = s.drop_first();
        assert forall|k: int| 0 <= k < n - 1 implies !pipe_at(t, k) by {
            assert(!pipe_at(s, k + 1));
        }
        assert(n - 1 == t.len() || pipe_at(t, n - 1)) by {
            if n < s.len() {
                assert(pipe_at(s, n));
            }
        }
        lemma_head_len_is(t, n - 1);
    }
}

/// The texts that the index ranges `spans` cut out of `s`.
pub open spec fn cuts(s: Seq<char>, spans: Seq<(usize, usize)>) -> Seq<Seq<char>> {
    Seq::new(spans.len(), |k: int| s.subrange(spans[k].0 as int, spans[k].1 as int))
}

/// Whether each of `spans` is a range of indices between `lo` and `hi`.
pub open spec fn spans_within(spans: Seq<(usize, usize)>, lo: int, hi: int) -> bool {
    forall|k: int| 0 <= k < spans.len() ==> lo <= (#[trigger] spans[k]).0 <= spans[k].1 <= hi
}

/// The views of the strings of `v`, in order.
pub open spec fn texts(v: Seq<String>) -> Seq<Seq<char>> {
    Seq::new(v.len(), |k: int| v[k]@)
}

/// Decides `is_space`.
pub fn space(c: char) -> (r: bool)
    ensures
        r == is_space(c),
{
    let n: u32 = c as u32;
    (0x09 <= n && n <= 0x0D) || n == 0x20 || n == 0x85 || n == 0xA0 || n == 0x1680 || (0x2000 <= n
        && n <= 0x200A) || n == 0x2028 || n == 0x2029 || n == 0x202F || n == 0x205F || n == 0x3000
}

/// The characters of `s`, in order.
pub fn characters(s: &str) -> (r: Vec<char>)
    ensures
        r@ == s@,
{
    let mut r: Vec<char> = Vec::new();
    for c in it: s.chars()
        invariant
            r@ == it.seq().take(it.index() as int),
            it.seq() == s@,
    {
        r.push(c);
    }
    r
}

/// The range of `chars[lo..hi]` that is left when the white space at both of
/// its ends is taken away.
pub(crate) fn trim_span(chars: &Vec<char>, lo: usize, hi: usize) -> (r: (usize, usize))
    requires
        lo <= hi <= chars.len(),
    ensures
        lo <= r.0 <= r.1 <= hi,
        chars@.subrange(r.0 as int, r.1 as int) == trimmed(chars@.subrange(lo as int, hi as int)),
{
    let ghost s = chars@;
    let mut a: usize = lo;
    while a < hi && space(chars[a])
        invariant
            s == chars@,
            lo <= a <= hi <= chars.len(),
            trim_start(s.subrange(lo as int, hi as int)) == trim_start(
                s.subrange(a as int, hi as int),
            ),
        decreases hi - a,
    {
        proof {
            assert(s.subrange(a as int, hi as int).drop_first() =~= s.subrange(
                a as int + 1,
                hi as int,
            ));
        }
        a += 1;
    }
    let mut b: usize = hi;
    while a < b && space(chars[b - 1])
        invariant
            s == chars@,
            a <= b <= hi <= chars.len(),
            trim_end(s.subrange(a as int, hi as int)) == trim_end(s.subrange(a as int, b as int)),
        decreases b - a,
    {
        proof {
            assert(s.subrange(a as int, b as int).drop_last() =~= s.subrange(
                a as int,
                b as int - 1,
            ));
        }
        b -= 1;
    }
    (a, b)
}

/// The ranges of the tokens of `chars[lo..hi]`, from left to right.
pub(crate) fn token_spans(chars: &Vec<char>, lo: usize, hi: usize) -> (r: Vec<(usize, usize)>)
    requires
        lo <= hi <= chars.len(),
    ensures
        spans_within(r@, lo as int, hi as int),
        cuts(chars@, r@) == tokens(chars@.subrange(lo as int, hi as int)),
{
    let ghost s = chars@;
    let mut out: Vec<(usize, usize)> = Vec::new();
    let mut i: usize = lo;
    proof {
        assert(cuts(s, out@) + tokens(s.subrange(lo as int, hi as int)) =~= tokens(
            s.subrange(lo as int, hi as int),
        ));
    }
    while i < hi
        invariant
            s == chars@,
            lo <= i <= hi <= chars.len(),
            spans_within(out@, lo as int, hi as int),
            tokens(s.subrange(lo as int, hi as int)) == cuts(s, out@) + tokens(
                s.subrange(i as int, hi as int),
            ),
        decreases hi - i,
    {
        let ghost rest = s.subrange(i as int, hi as int);
        if space(chars[i]) {
            proof {
                assert(rest.drop_first() =~= s.subrange(i as int + 1, hi as int));
            }
            i += 1;
        } else {
            let mut j: usize = i + 1;
            while j < hi && !space(chars[j])
                invariant
                    s == chars@,
                    i < j <= hi <= chars.len(),
                    forall|k: int| i <= k < j ==> !is_space(#[trigger] s[k]),
                decreases hi - j,
            {
                j += 1;
            }
            proof {
                lemma_word_len_is(rest, j - i);
                assert(rest.take(j - i) =~= s.subrange(i as int, j as int));
                assert(rest.skip(j - i) =~= s.subrange(j as int, hi as int));
                assert(cuts(s, out@.push((i, j))) =~= cuts(s, out@) + seq![
                    s.subrange(i as int, j as int),
                ]);
            }
            out.push((i, j));
            i = j;
        }
    }
    proof {
        assert(cuts(s, out@) + tokens(s.subrange(i as int, hi as int)) =~= cuts(s, out@));
    }
    out
}

/// Whether the separator of stages stands in `chars[..hi]` at index `j`.
fn separator_at(chars: &Vec<char>, j: usize, hi: usize) -> (r: bool)
    requires
        j <= hi <= chars.len(),
    ensures
        r == pipe_at(chars@.subrange(j as int, hi as int), 0),
{
    hi - j >= 3 && chars[j] == ' ' && chars[j + 1] == '|' && chars[j + 2] == ' '
}

/// The ranges of the pieces of `chars[lo..hi]`, from left to right.
pub(crate) fn piece_spans(chars: &Vec<char>, lo: usize, hi: usize) -> (r: Vec<(usize, usize)>)
    requires
        lo <= hi <= chars.len(),
    ensures
        spans_within(r@, lo as int, hi as int),
        cuts(chars@, r@) == pieces(chars@.subrange(lo as int, hi as int)),
{
    let ghost s = chars@;
    let mut out: Vec<(usize, usize)> = Vec::new();
    let mut i: usize = lo;
    let mut j: usize = lo;
    proof {
        assert(cuts(s, out@) + pieces(s.subrange(lo as int, hi as int)) =~= pieces(
            s.subrange(lo as int, hi as int),
        ));
    }
    while j < hi
        invariant
            s == chars@,
            lo <= i <= j <= hi <= chars.len(),
            spans_within(out@, lo as int, hi as int),
            pieces(s.subrange(lo as int, hi as int)) == cuts(s, out@) + pieces(
                s.subrange(i as int, hi as int),
            ),
            forall|k: int| 0 <= k < j - i ==> !pipe_at(s.subrange(i as int, hi as int), k),
        decreases hi - j,
    {
        let ghost rest = s.subrange(i as int, hi as int);
        if separator_at(chars, j, hi) {
            proof {
                assert(pipe_at(rest, j - i)) by {
                    let tail = s.subrange(j as int, hi as int);
                    assert(tail[0] == rest[j - i]);
                    assert(tail[1] == rest[j - i + 1]);
                    assert(tail[2] == rest[j - i + 2]);
                }
                lemma_head_len_is(rest, j - i);
                assert(rest.take(j - i) =~= s.subrange(i as int, j as int));
                assert(rest.skip(j - i + 3) =~= s.subrange(j as int + 3, hi as int));
                assert(cuts(s, out@.push((i, j))) =~= cuts(s, out@) + seq![
                    s.subrange(i as int, j as int),
                ]);
            }
            out.push((i, j));
            i = j + 3;
            j = i;
        } else {
            proof {
                assert(!pipe_at(rest, j - i)) by {
                    let tail = s.subrange(j as int, hi as int);
                    if j + 3 <= hi {
                        assert(tail[0] == rest[j - i]);
                        assert(tail[1] == rest[j - i + 1]);
                        assert(tail[2] == rest[j - i + 2]);
                    }
                }
            }
            j += 1;
        }
    }
    proof {
        let rest = s.subrange(i as int, hi as int);
        lemma_head_len_is(rest, hi - i);
        assert(cuts(s, out@.push((i, hi))) =~= cuts(s, out@) + seq![rest]);
    }
    out.push((i, hi));
    out
}

/// The characters of `line` from index `lo` up to index `hi`, as a string of
/// their own.
pub(crate) fn cut(line: &str, lo: usize, hi: usize) -> (r: String)
    requires
        lo <= hi <= line@.len(),
    ensures
        r@ == line@.subrange(lo as int, hi as int),
{
    line.substring_char(lo, hi).to_owned()
}

/// A string for each of `spans` from index `from` on, cut out of `line`.
pub(crate) fn cut_all(line: &str, spans: &Vec<(usize, usize)>, from: usize) -> (r: Vec<String>)
    requires
        spans_within(spans@, 0, line@.len() as int),
        from <= spans.len(),
    ensures
        texts(r@) == cuts(line@, spans@).skip(from as int),
{
    let mut out: Vec<String> = Vec::new();
    let n: usize = spans.len();
    let mut k: usize = from;
    proof {
        assert(texts(out@) =~= cuts(line@, spans@).subrange(from as int, k as int));
    }
    while k < n
        invariant
            n == spans.len(),
            from <= k <= n,
            spans_within(spans@, 0, line@.len() as int),
            texts(out@) == cuts(line@, spans@).subrange(from as int, k as int),
        decreases n - k,
    {
        let (lo, hi) = spans[k];
        let piece = cut(line, lo, hi);
        proof {
            let all = cuts(line@, spans@);
            let before = texts(out@);
            let after = texts(out@.push(piece));
            let wanted = all.subrange(from as int, k as int + 1);
            assert(before.len() == k - from);
            assert forall|i: int| 0 <= i < after.len() implies after[i] == wanted[i] by {
                if i < k - from {
                    assert(before[i] == all.subrange(from as int, k as int)[i]);
                }
            }
            assert(after =~= wanted);
        }
        out.push(piece);
        k += 1;
    }
    out
}

/// `line` without the white space at its two ends.
pub fn trim(line: &str) -> (r: String)
    ensures
        r@ == trimmed(line@),
{
    let chars = characters(line);
    proof {
        assert(chars@.subrange(0, chars@.len() as int) =~= chars@);
    }
    let (lo, hi) = trim_span(&chars, 0, chars.len());
    cut(line, lo, hi)
}

/// The tokens of `line`: what stands between its stretches of white space.
pub fn split_whitespace(line: &str) -> (r: Vec<String>)
    ensures
        texts(r@) == tokens(line@),
{
    let chars = characters(line);
    proof {
        assert(chars@.subrange(0, chars@.len() as int) =~= chars@);
    }
    let spans = token_spans(&chars, 0, chars.len());
    cut_all(line, &spans, 0)
}

/// The pieces of `line` between its separators of stages.
pub fn split_pipes(line: &str) -> (r: Vec<String>)
    ensures
        texts(r@) == pieces(line@),
{
    let chars = characters(line);
    proof {
        assert(chars@.subrange(0, chars@.len() as int) =~= chars@);
    }
    let spans = piece_spans(&chars, 0, chars.len());
    cut_all(line, &spans, 0)
}

/// Whether `a` and `b` hold the same characters.
pub fn same(a: &str, b: &str) -> (r: bool)
    ensures
        r == (a@ == b@),
{
    let x = a.as_bytes();
    let y = b.as_bytes();
    if x.len() != y.len() {
        return false;
    }
    let n: usize = x.len();
    let mut k: usize = 0;
    while k < n
        invariant
            n == x@.len(),
            n == y@.len(),
            k <= n,
            x@ == encode_utf8(a@),
            y@ == encode_utf8(b@),
            forall|i: int| 0 <= i < k ==> x@[i] == y@[i],
        decreases n - k,
    {
        if x[k] != y[k] {
            return false;
        }
        k += 1;
    }
    proof {
        assert(x@ =~= y@);
        encode_utf8_decode_utf8(a@);
        encode_utf8_decode_utf8(b@);
    }
    true
}

} // verus!
