//! Word frequencies of a text, their aggregation over several texts, and
//! their order by count.

use vstd::prelude::*;
use vstd::seq_lib::*;
use vstd::string::*;

use crate::fetcher::{outcome_of, Lookup, LyricsFetcher};
use crate::song::SongDescriptor;
use crate::patterns::{
    has_ascii_alphanumeric, is_match, punctuation_to_spaces, replace_all_matches,
    PUNCTUATION_PATTERN, WORD_PATTERN,
};

verus! {

/// Words and how often each occurs.
pub type WordCounts = Vec<(String, usize)>;

#[derive(Clone, Copy, Debug, PartialEq, Eq)]
pub enum SortOrder {
    Ascending,
    Descending,
}

/// The lowercase form of a text, as Unicode defines it.
pub uninterp spec fn lower_of(s: Seq<char>) -> Seq<char>;

/// Relies on `str::to_lowercase`: the result depends on the characters alone.
#[verifier::external_body]
fn lowercase(s: &str) -> (r: String)
    ensures
        r@ == lower_of(s@),
{
    s.to_lowercase()
}

/// The pieces of `s` between single spaces, empty pieces included.
pub open spec fn split_spaces(s: Seq<char>) -> Seq<Seq<char>>
    decreases s.len(),
{
    if s.len() == 0 {
        seq![Seq::empty()]
    } else {
        let w = split_spaces(s.drop_last());
        if s.last() == ' ' {
            w.push(Seq::empty())
        } else {
            w.update(w.len() - 1, w.last().push(s.last()))
        }
    }
}

/// The words that hold an ASCII letter or digit, in order.
pub open spec fn alphanumeric_words(ws: Seq<Seq<char>>) -> Seq<Seq<char>>
    decreases ws.len(),
{
    if ws.len() == 0 {
        Seq::empty()
    } else if has_ascii_alphanumeric(ws.last()) {
        alphanumeric_words(ws.drop_last()).push(ws.last())
    } else {
        alphanumeric_words(ws.drop_last())
    }
}

/// The pieces of a text: punctuation and line breaks become spaces, and the
/// text is split at each space.
pub open spec fn pieces_of(src: Seq<char>) -> Seq<Seq<char>> {
    split_spaces(punctuation_to_spaces(src))
}

/// The words of a text, in order: its pieces in lowercase, without those
/// that hold no ASCII letter or digit.
pub open spec fn word_list(src: Seq<char>) -> Seq<Seq<char>> {
    alphanumeric_words(pieces_of(src).map_values(|p: Seq<char>| lower_of(p)))
}

pub open spec fn views(v: Seq<String>) -> Seq<Seq<char>> {
    v.map_values(|w: String| w@)
}

/// How often `w` occurs in `ws`.
pub open spec fn occurrences(ws: Seq<Seq<char>>, w: Seq<char>) -> nat
    decreases ws.len(),
{
    if ws.len() == 0 {
        0
    } else {
        occurrences(ws.drop_last(), w) + if ws.last() == w {
            1nat
        } else {
            0nat
        }
    }
}

/// The sum of the counts that `c` gives for `w`.
pub open spec fn count_of(c: Seq<(String, usize)>, w: Seq<char>) -> nat
    decreases c.len(),
{
    if c.len() == 0 {
        0
    } else {
        count_of(c.drop_last(), w) + if c.last().0@ == w {
            c.last().1 as nat
        } else {
            0nat
        }
    }
}

/// The sum of all counts in `c`.
pub open spec fn total(c: Seq<(String, usize)>) -> nat
    decreases c.len(),
{
    if c.len() == 0 {
        0
    } else {
        total(c.drop_last()) + c.last().1 as nat
    }
}

pub open spec fn has_word(c: Seq<(String, usize)>, w: Seq<char>) -> bool {
    exists|i: int| 0 <= i < c.len() && (#[trigger] c[i]).0@ == w
}

pub open spec fn unique_words(c: Seq<(String, usize)>) -> bool {
    forall|i: int, j: int| 0 <= i < c.len() && 0 <= j < c.len() && i != j ==> (#[trigger] c[i]).0@ != (#[trigger] c[j]).0@
}

/// `c` lists each word of `ws` once, with the number of its occurrences.
pub open spec fn tallies(c: Seq<(String, usize)>, ws: Seq<Seq<char>>) -> bool {
    &&& unique_words(c)
    &&& forall|w: Seq<char>| #[trigger] count_of(c, w) == occurrences(ws, w)
    &&& forall|w: Seq<char>| #[trigger] has_word(c, w) <==> occurrences(ws, w) > 0
}

/// `c` counts the words of the text `src`.
pub open spec fn counts_words_of(c: Seq<(String, usize)>, src: Seq<char>) -> bool {
    tallies(c, word_list(src))
}

proof fn lemma_occurrences_bound(ws: Seq<Seq<char>>, w: Seq<char>)
    ensures
        occurrences(ws, w) <= ws.len(),
    decreases ws.len(),
{
    if ws.len() > 0 {
        lemma_occurrences_bound(ws.drop_last(), w);
    }
}

proof fn lemma_count_of_bound(c: Seq<(String, usize)>, w: Seq<char>)
    ensures
        count_of(c, w) <= total(c),
    decreases c.len(),
{
    if c.len() > 0 {
        lemma_count_of_bound(c.drop_last(), w);
    }
}

proof fn lemma_count_of_absent(c: Seq<(String, usize)>, w: Seq<char>)
    requires
        !has_word(c, w),
    ensures
        count_of(c, w) == 0,
    decreases c.len(),
{
    if c.len() > 0 {
        assert(!has_word(c.drop_last(), w)) by {
            if has_word(c.drop_last(), w) {
                let i = choose|i: int| 0 <= i < c.len() - 1 && (#[trigger] c.drop_last()[i]).0@ == w;
                assert(c[i].0@ == w);
            }
        }
        lemma_count_of_absent(c.drop_last(), w);
    }
}

proof fn lemma_count_of_update(c: Seq<(String, usize)>, j: int, e: (String, usize), w: Seq<char>)
    requires
        0 <= j < c.len(),
    ensures
        count_of(c.update(j, e), w) + (if c[j].0@ == w { c[j].1 as nat } else { 0nat })
            == count_of(c, w) + (if e.0@ == w { e.1 as nat } else { 0nat }),
    decreases c.len(),
{
    let d = c.update(j, e);
    if j < c.len() - 1 {
        assert(d.drop_last() =~= c.drop_last().update(j, e));
        lemma_count_of_update(c.drop_last(), j, e, w);
    } else {
        assert(d.drop_last() =~= c.drop_last());
    }
}

proof fn lemma_count_of_unique(c: Seq<(String, usize)>, j: int)
    requires
        unique_words(c),
        0 <= j < c.len(),
    ensures
        count_of(c, c[j].0@) == c[j].1,
    decreases c.len(),
{
    let w = c[j].0@;
    let d = c.drop_last();
    assert(unique_words(d)) by {
        assert forall|a: int, b: int| 0 <= a < d.len() && 0 <= b < d.len() && a != b implies (#[trigger] d[a]).0@ != (#[trigger] d[b]).0@ by {
            assert(d[a] == c[a] && d[b] == c[b]);
        }
    }
    if j < c.len() - 1 {
        lemma_count_of_unique(d, j);
        assert(c.last().0@ != w) by {
            assert(c[c.len() - 1] == c.last());
        }
    } else {
        assert(!has_word(d, w)) by {
            if has_word(d, w) {
                let i = choose|i: int| 0 <= i < d.len() && (#[trigger] d[i]).0@ == w;
                assert(c[i].0@ == w);
            }
        }
        lemma_count_of_absent(d, w);
    }
}

/// Adds `n` to the count of `word`, listing the word if it was not listed.
fn add_count(counts: &mut Vec<(String, usize)>, word: String, n: usize)
    requires
        unique_words(old(counts)@),
        count_of(old(counts)@, word@) + n <= usize::MAX,
    ensures
        unique_words(final(counts)@),
        forall|w: Seq<char>|
            #[trigger] count_of(final(counts)@, w) == count_of(old(counts)@, w) + if w == word@ {
                n as nat
            } else {
                0nat
            },
        forall|w: Seq<char>|
            #[trigger] has_word(final(counts)@, w) <==> has_word(old(counts)@, w) || w == word@,
{
    let ghost c = counts@;
    let mut j: usize = 0;
    while j < counts.len()
        invariant
            counts@ == c,
            c == old(counts)@,
            unique_words(c),
            count_of(c, word@) + n <= usize::MAX,
            j <= c.len(),
            forall|i: int| 0 <= i < j ==> (#[trigger] c[i]).0@ != word@,
        decreases c.len() - j,
    {
        if counts[j].0 == word {
            proof {
                lemma_count_of_unique(c, j as int);
            }
            let updated = (word, counts[j].1 + n);
            proof {
                assert forall|w: Seq<char>| #[trigger] count_of(c.update(j as int, updated), w) == count_of(c, w) + if w == updated.0@ {
                    n as nat
                } else {
                    0nat
                } by {
                    lemma_count_of_update(c, j as int, updated, w);
                }
                let d = c.update(j as int, updated);
                assert forall|w: Seq<char>| #[trigger] has_word(d, w) <==> has_word(c, w) || w == updated.0@ by {
                    if has_word(c, w) {
                        let i = choose|i: int| 0 <= i < c.len() && (#[trigger] c[i]).0@ == w;
                        assert(d[i].0@ == w);
                    }
                    if w == updated.0@ {
                        assert(d[j as int].0@ == w);
                    }
                    if has_word(d, w) {
                        let i = choose|i: int| 0 <= i < d.len() && (#[trigger] d[i]).0@ == w;
                        if i != j {
                            assert(c[i].0@ == w);
                        }
                    }
                }
            }
            counts.set(j, updated);
            return;
        }
        j = j + 1;
    }
    proof {
        assert(!has_word(c, word@));
        lemma_count_of_absent(c, word@);
    }
    let ghost wv = word@;
    counts.push((word, n));
    proof {
        let d = counts@;
        assert(d.drop_last() =~= c);
        assert forall|w: Seq<char>| #[trigger] has_word(d, w) <==> has_word(c, w) || w == wv by {
            if has_word(c, w) {
                let i = choose|i: int| 0 <= i < c.len() && (#[trigger] c[i]).0@ == w;
                assert(d[i].0@ == w);
            }
            if w == wv {
                assert(d[c.len() as int].0@ == w);
            }
            if has_word(d, w) {
                let i = choose|i: int| 0 <= i < d.len() && (#[trigger] d[i]).0@ == w;
                if i < c.len() {
                    assert(c[i].0@ == w);
                }
            }
        }
    }
}

/// The pieces of `src` (see [`pieces_of`]), empty ones included.
pub fn split_words(src: &str) -> (r: Vec<String>)
    ensures
        views(r@) == pieces_of(src@),
{
    let spaced = replace_all_matches(PUNCTUATION_PATTERN, src, " ");
    let text = spaced.as_str();
    let n = text.unicode_len();
    let ghost s = text@;
    let mut pieces: Vec<String> = Vec::new();
    let mut start: usize = 0;
    let mut i: usize = 0;
    proof {
        assert(s.take(0) =~= Seq::<char>::empty());
        assert(s.subrange(0, 0) =~= Seq::<char>::empty());
        assert(views(pieces@).push(s.subrange(0, 0)) =~= split_spaces(s.take(0)));
    }
    while i < n
        invariant
            s == text@,
            n == s.len(),
            start <= i <= n,
            views(pieces@).push(s.subrange(start as int, i as int)) == split_spaces(s.take(i as int)),
        decreases n - i,
    {
        assert(s.take(i + 1).drop_last() =~= s.take(i as int));
        if text.get_char(i) == ' ' {
            let piece = text.substring_char(start, i).to_string();
            let ghost done = views(pieces@);
            pieces.push(piece);
            proof {
                assert(views(pieces@) =~= done.push(s.subrange(start as int, i as int)));
                assert(s.subrange(i + 1, i + 1) =~= Seq::<char>::empty());
                assert(views(pieces@).push(s.subrange(i + 1, i + 1)) =~= split_spaces(s.take(i + 1)));
            }
            start = i + 1;
        } else {
            proof {
                assert(s.subrange(start as int, i + 1) =~= s.subrange(start as int, i as int).push(
                    s[i as int],
                ));
                assert(views(pieces@).push(s.subrange(start as int, i + 1)) =~= split_spaces(
                    s.take(i + 1),
                ));
            }
        }
        i = i + 1;
    }
    let ghost done = views(pieces@);
    pieces.push(text.substring_char(start, n).to_string());
    proof {
        assert(views(pieces@) =~= done.push(s.subrange(start as int, n as int)));
        assert(s.take(n as int) =~= s);
    }
    pieces
}

/// How often each word of `words` occurs, skipping those without an ASCII
/// letter or digit. Words are compared as they are: case matters here. Each
/// word is listed once, in order of first occurrence.
pub fn tally_words(words: &Vec<String>) -> (r: WordCounts)
    ensures
        tallies(r@, alphanumeric_words(views(words@))),
{
    let mut counts: WordCounts = Vec::new();
    let mut i: usize = 0;
    proof {
        assert(views(words@).take(0) =~= Seq::<Seq<char>>::empty());
        assert forall|w: Seq<char>| #[trigger] has_word(counts@, w) <==> occurrences(alphanumeric_words(views(words@).take(0)), w) > 0 by {}
    }
    while i < words.len()
        invariant
            i <= words.len(),
            tallies(counts@, alphanumeric_words(views(words@).take(i as int))),
            alphanumeric_words(views(words@).take(i as int)).len() <= i,
        decreases words.len() - i,
    {
        let ghost k = alphanumeric_words(views(words@).take(i as int));
        assert(views(words@).take(i + 1).drop_last() =~= views(words@).take(i as int));
        assert(views(words@).take(i + 1).last() == words@[i as int]@);
        if is_match(WORD_PATTERN, words[i].as_str()) {
            let ghost l = words@[i as int]@;
            let ghost prev = counts@;
            proof {
                lemma_occurrences_bound(k, l);
            }
            add_count(&mut counts, words[i].clone(), 1);
            proof {
                assert(k.push(l).drop_last() =~= k);
                assert forall|w: Seq<char>| #[trigger] count_of(counts@, w) == occurrences(k.push(l), w) by {}
                assert forall|w: Seq<char>| #[trigger] has_word(counts@, w) <==> occurrences(k.push(l), w) > 0 by {
                    assert(count_of(prev, w) == occurrences(k, w));
                }
            }
        }
        i = i + 1;
    }
    assert(views(words@).take(words.len() as int) =~= views(words@));
    counts
}

/// How often each word occurs in `src`: punctuation and line breaks separate
/// words like spaces, case is ignored, and pieces without an ASCII letter or
/// digit are not words. Each word is listed once, in order of first
/// occurrence.
pub fn count_words(src: String) -> (r: WordCounts)
    ensures
        counts_words_of(r@, src@),
{
    let pieces = split_words(src.as_str());
    let ghost p = views(pieces@);
    let mut lowered: Vec<String> = Vec::new();
    let mut i: usize = 0;
    while i < pieces.len()
        invariant
            i <= pieces.len(),
            p == views(pieces@),
            views(lowered@) == p.take(i as int).map_values(|w: Seq<char>| lower_of(w)),
        decreases pieces.len() - i,
    {
        let ghost before = views(lowered@);
        lowered.push(lowercase(pieces[i].as_str()));
        assert(views(lowered@) =~= before.push(lower_of(p[i as int])));
        assert(p.take(i + 1).map_values(|w: Seq<char>| lower_of(w)) =~= p.take(i as int).map_values(
            |w: Seq<char>| lower_of(w),
        ).push(lower_of(p[i as int])));
        i = i + 1;
    }
    assert(p.take(pieces.len() as int) =~= p);
    tally_words(&lowered)
}

/// `a` may stand before `b` in `order`.
pub open spec fn in_order(order: SortOrder, a: usize, b: usize) -> bool {
    match order {
        SortOrder::Ascending => a <= b,
        SortOrder::Descending => a >= b,
    }
}

pub open spec fn sorted_by(c: Seq<(String, usize)>, order: SortOrder) -> bool {
    forall|i: int, j: int| 0 <= i < j < c.len() ==> in_order(order, #[trigger] c[i].1, #[trigger] c[j].1)
}

fn goes_before(order: SortOrder, a: usize, b: usize) -> (r: bool)
    ensures
        r == in_order(order, a, b),
{
    match order {
        SortOrder::Ascending => a <= b,
        SortOrder::Descending => a >= b,
    }
}

/// The same pairs, ordered by count.
pub fn sort_word_counts(word_counts: &WordCounts, sort_order: SortOrder) -> (r: WordCounts)
    ensures
        r@.to_multiset() == word_counts@.to_multiset(),
        sorted_by(r@, sort_order),
{
    broadcast use to_multiset_build, to_multiset_insert;

    let mut out: WordCounts = Vec::new();
    let mut i: usize = 0;
    assert(word_counts@.take(0) =~= out@);
    while i < word_counts.len()
        invariant
            i <= word_counts.len(),
            out@.to_multiset() == word_counts@.take(i as int).to_multiset(),
            sorted_by(out@, sort_order),
        decreases word_counts.len() - i,
    {
        let item = (word_counts[i].0.clone(), word_counts[i].1);
        assert(item == word_counts@[i as int]);
        let mut pos: usize = 0;
        while pos < out.len()
            invariant
                pos <= out.len(),
                forall|k: int| 0 <= k < pos ==> in_order(sort_order, #[trigger] out@[k].1, item.1),
            ensures
                pos <= out.len(),
                forall|k: int| 0 <= k < pos ==> in_order(sort_order, #[trigger] out@[k].1, item.1),
                pos < out.len() ==> !in_order(sort_order, out@[pos as int].1, item.1),
            decreases out.len() - pos,
        {
            if !goes_before(sort_order, out[pos].1, item.1) {
                break;
            }
            pos = pos + 1;
        }
        let ghost old_out = out@;
        proof {
            assert forall|k: int| pos <= k < old_out.len() implies in_order(sort_order, item.1, #[trigger] old_out[k].1) by {
                if k > pos {
                    assert(in_order(sort_order, old_out[pos as int].1, old_out[k].1));
                }
            }
        }
        out.insert(pos, item);
        proof {
            let t = out@;
            assert forall|a: int, b: int| 0 <= a < b < t.len() implies in_order(sort_order, #[trigger] t[a].1, #[trigger] t[b].1) by {
                if a < pos && b < pos {
                    assert(t[a] == old_out[a] && t[b] == old_out[b]);
                } else if a < pos && b == pos {
                } else if a < pos {
                    assert(t[a] == old_out[a] && t[b] == old_out[b - 1]);
                } else if a == pos {
                    assert(t[b] == old_out[b - 1]);
                } else {
                    assert(t[a] == old_out[a - 1] && t[b] == old_out[b - 1]);
                }
            }
            assert(word_counts@.take(i + 1) =~= word_counts@.take(i as int).push(item));
            to_multiset_insert(old_out, pos as int, item);
            to_multiset_build(word_counts@.take(i as int), item);
        }
        i = i + 1;
    }
    assert(word_counts@.take(word_counts.len() as int) =~= word_counts@);
    out
}

/// The lists one after the other.
pub open spec fn concat_counts(ls: Seq<WordCounts>) -> Seq<(String, usize)>
    decreases ls.len(),
{
    if ls.len() == 0 {
        Seq::empty()
    } else {
        ls[0]@ + concat_counts(ls.drop_first())
    }
}

proof fn lemma_total_take(c: Seq<(String, usize)>, k: int)
    requires
        0 <= k <= c.len(),
    ensures
        total(c.take(k)) <= total(c),
    decreases c.len(),
{
    if k < c.len() {
        assert(c.drop_last().take(k) =~= c.take(k));
        lemma_total_take(c.drop_last(), k);
    } else {
        assert(c.take(k) =~= c);
    }
}

/// The counts of several texts added up: each word once, with the sum of its
/// counts over all lists.
pub fn aggregate_word_counts(word_counts: Vec<WordCounts>) -> (r: WordCounts)
    requires
        total(concat_counts(word_counts@)) <= usize::MAX,
    ensures
        unique_words(r@),
        forall|w: Seq<char>| #[trigger] count_of(r@, w) == count_of(concat_counts(word_counts@), w),
        forall|w: Seq<char>| #[trigger] has_word(r@, w) <==> has_word(concat_counts(word_counts@), w),
{
    let ghost all = concat_counts(word_counts@);
    let mut lists = word_counts;
    let mut flat: WordCounts = Vec::new();
    while lists.len() > 0
        invariant
            flat@ + concat_counts(lists@) == all,
        decreases lists.len(),
    {
        let ghost rest = lists@;
        let mut first = lists.remove(0);
        assert(lists@ =~= rest.drop_first());
        flat.append(&mut first);
        assert(flat@ + concat_counts(lists@) =~= all);
    }
    assert(flat@ =~= all);
    let mut acc: WordCounts = Vec::new();
    let mut k: usize = 0;
    proof {
        assert forall|w: Seq<char>| #[trigger] has_word(acc@, w) <==> has_word(flat@.take(0), w) by {}
    }
    while k < flat.len()
        invariant
            flat@ == all,
            total(all) <= usize::MAX,
            k <= flat.len(),
            unique_words(acc@),
            forall|w: Seq<char>| #[trigger] count_of(acc@, w) == count_of(flat@.take(k as int), w),
            forall|w: Seq<char>| #[trigger] has_word(acc@, w) <==> has_word(flat@.take(k as int), w),
        decreases flat.len() - k,
    {
        let ghost p = flat@.take(k as int);
        let ghost q = flat@.take(k + 1);
        let word = flat[k].0.clone();
        let n = flat[k].1;
        proof {
            assert(q.drop_last() =~= p);
            lemma_count_of_bound(q, word@);
            lemma_total_take(flat@, k + 1);
        }
        add_count(&mut acc, word, n);
        proof {
            assert forall|w: Seq<char>| #[trigger] has_word(q, w) <==> has_word(p, w) || w == flat@[k as int].0@ by {
                if has_word(p, w) {
                    let j = choose|j: int| 0 <= j < p.len() && (#[trigger] p[j]).0@ == w;
                    assert(q[j] == p[j]);
                }
                if w == flat@[k as int].0@ {
                    assert(q[k as int] == flat@[k as int]);
                }
                if has_word(q, w) {
                    let j = choose|j: int| 0 <= j < q.len() && (#[trigger] q[j]).0@ == w;
                    if j < k {
                        assert(p[j] == q[j]);
                    }
                }
            }
        }
        k = k + 1;
    }
    assert(flat@.take(flat.len() as int) =~= flat@);
    acc
}

/// The word counts of one song as they follow from its lookup.
pub open spec fn counted_lookup(
    entry: (SongDescriptor, Result<WordCounts, String>),
    lookup: Lookup,
) -> bool {
    &&& lookup.0 == entry.0@
    &&& match lookup.1 {
        Ok(t) => entry.1 matches Ok(c) && counts_words_of(c@, t),
        Err(e) => entry.1 matches Err(m) && m@ == e,
    }
}

/// Fetches each song's lyrics in turn and counts their words; a failed fetch
/// keeps its message.
pub fn get_word_counts_for_songs<T: LyricsFetcher>(
    fetcher: &mut T,
    songs: &Vec<SongDescriptor>,
) -> (r: Vec<(SongDescriptor, Result<WordCounts, String>)>)
    ensures
        r.len() == songs.len(),
        final(fetcher).history().len() == old(fetcher).history().len() + songs.len(),
        final(fetcher).history().take(old(fetcher).history().len() as int) == old(
            fetcher,
        ).history(),
        forall|i: int|
            0 <= i < songs.len() ==> (#[trigger] r[i]).0 == songs[i] && counted_lookup(
                r[i],
                final(fetcher).history()[old(fetcher).history().len() + i],
            ),
{
    let ghost start = fetcher.history();
    let mut r: Vec<(SongDescriptor, Result<WordCounts, String>)> = Vec::new();
    let mut i: usize = 0;
    while i < songs.len()
        invariant
            i <= songs.len(),
            r.len() == i,
            start == old(fetcher).history(),
            fetcher.history().len() == start.len() + i,
            fetcher.history().take(start.len() as int) == start,
            forall|j: int|
                0 <= j < i ==> (#[trigger] r[j]).0 == songs[j] && counted_lookup(
                    r[j],
                    fetcher.history()[start.len() + j],
                ),
        decreases songs.len() - i,
    {
        let ghost h = fetcher.history();
        let song = &songs[i];
        let fetched = fetcher.fetch_lyrics(song);
        let ghost out = outcome_of(fetched);
        let counts = match fetched {
            Ok(lyrics) => Ok(count_words(lyrics)),
            Err(err) => Err(err),
        };
        r.push((song.clone(), counts));
        proof {
            let h2 = fetcher.history();
            assert(h2 == h.push((songs[i as int]@, out)));
            assert(h2.take(start.len() as int) =~= h.take(start.len() as int));
            assert forall|j: int| 0 <= j <= i implies (#[trigger] r[j]).0 == songs[j] && counted_lookup(r[j], h2[start.len() + j]) by {
                if j < i {
                    assert(h2[start.len() + j] == h[start.len() + j]);
                }
            }
        }
        i = i + 1;
    }
    r
}

} // verus!
