//! Words of a text and their counts: splitting on whitespace is proved
//! against a recursive specification, and the counts live in a small
//! map from words to numbers whose view is a mathematical `Map`.

use vstd::prelude::*;
use vstd::string::*;

verus! {

/// A whitespace character: one with Unicode's White_Space property.
pub open spec fn is_space(c: char) -> bool {
    ('\u{0009}' <= c && c <= '\u{000D}') || c == ' ' || c == '\u{0085}' || c == '\u{00A0}' || c
        == '\u{1680}' || ('\u{2000}' <= c && c <= '\u{200A}') || c == '\u{2028}' || c == '\u{2029}'
        || c == '\u{202F}' || c == '\u{205F}' || c == '\u{3000}'
}

/// How far the word at the head of a text runs: the number of leading
/// non-whitespace characters.
pub open spec fn head_word_len(s: Seq<char>) -> nat
    decreases s.len(),
{
    if s.len() == 0 || is_space(s[0]) {
        0
    } else {
        1 + head_word_len(s.drop_first())
    }
}

/// The head word never runs past the text.
pub proof fn lemma_head_word_len_bound(s: Seq<char>)
    ensures
        head_word_len(s) <= s.len(),
    decreases s.len(),
{
    if s.len() == 0 || is_space(s[0]) {
    } else {
        lemma_head_word_len_bound(s.drop_first());
    }
}

/// The words of a text: its maximal runs of non-whitespace characters,
/// in order.
pub open spec fn words_of(s: Seq<char>) -> Seq<Seq<char>>
    decreases s.len(),
    via words_of_decreases
{
    if s.len() == 0 {
        Seq::empty()
    } else if is_space(s[0]) {
        words_of(s.drop_first())
    } else {
        seq![s.take(head_word_len(s) as int)] + words_of(s.skip(head_word_len(s) as int))
    }
}

#[via_fn]
proof fn words_of_decreases(s: Seq<char>) {
    if s.len() > 0 && !is_space(s[0]) {
        lemma_head_word_len_bound(s);
    }
}

/// Whether a character is whitespace.
pub fn is_space_char(c: char) -> (r: bool)
    ensures
        r == is_space(c),
{
    ('\u{0009}' <= c && c <= '\u{000D}') || c == ' ' || c == '\u{0085}' || c == '\u{00A0}' || c
        == '\u{1680}' || ('\u{2000}' <= c && c <= '\u{200A}') || c == '\u{2028}' || c == '\u{2029}'
        || c == '\u{202F}' || c == '\u{205F}' || c == '\u{3000}'
}

/// A run of non-spaces of length `k`, stopped by the end or a space, is
/// the head word.
proof fn lemma_head_word_len_is(u: Seq<char>, k: int)
    requires
        0 <= k <= u.len(),
        forall|t: int| 0 <= t < k ==> !is_space(u[t]),
        k == u.len() || is_space(u[k]),
    ensures
        head_word_len(u) == k,
    decreases k,
{
    if k == 0 {
    } else {
        assert(!is_space(u[0]));
        assert forall|t: int| 0 <= t < k - 1 implies !is_space(u.drop_first()[t]) by {
            assert(u.drop_first()[t] == u[t + 1]);
        }
        if k - 1 < u.drop_first().len() {
            assert(u.drop_first()[k - 1] == u[k]);
        }
        lemma_head_word_len_is(u.drop_first(), k - 1);
    }
}

/// Skipping a leading space leaves the words unchanged.
proof fn lemma_words_skip_space(s: Seq<char>, i: int)
    requires
        0 <= i < s.len(),
        is_space(s[i]),
    ensures
        words_of(s.skip(i)) == words_of(s.skip(i + 1)),
{
    assert(s.skip(i).drop_first() =~= s.skip(i + 1));
}

/// A word running from `i` to `j` is the first word of the rest of the
/// text, and the remaining words follow from `j`.
proof fn lemma_words_take_word(s: Seq<char>, i: int, j: int)
    requires
        0 <= i < j <= s.len(),
        forall|t: int| i <= t < j ==> !is_space(s[t]),
        j == s.len() || is_space(s[j]),
    ensures
        words_of(s.skip(i)) == seq![s.subrange(i, j)] + words_of(s.skip(j)),
{
    let u = s.skip(i);
    assert forall|t: int| 0 <= t < j - i implies !is_space(u[t]) by {
        assert(u[t] == s[t + i]);
    }
    if j - i < u.len() {
        assert(u[j - i] == s[j]);
    }
    lemma_head_word_len_is(u, j - i);
    assert(!is_space(u[0]));
    assert(u.take(j - i) =~= s.subrange(i, j));
    assert(u.skip(j - i) =~= s.skip(j));
}

/// Splits a text into its words: the maximal runs of non-whitespace
/// characters, in order.
pub fn split_words(s: &str) -> (words: Vec<String>)
    ensures
        words@.map_values(|w: String| w@) == words_of(s@),
{
    let n = s.unicode_len();
    let mut words: Vec<String> = Vec::new();
    let mut i: usize = 0;
    proof {
        assert(s@.skip(0) =~= s@);
    }
    while i < n
        invariant
            0 <= i <= n == s@.len(),
            words@.map_values(|w: String| w@) + words_of(s@.skip(i as int)) =~= words_of(s@),
        decreases n - i,
    {
        let c = s.get_char(i);
        if is_space_char(c) {
            proof {
                lemma_words_skip_space(s@, i as int);
            }
            i += 1;
        } else {
            let start = i;
            let mut j = i;
            while j < n && !is_space_char(s.get_char(j))
                invariant
                    0 <= start <= j <= n == s@.len(),
                    forall|t: int| start <= t < j ==> !is_space(s@[t]),
                decreases n - j,
            {
                j += 1;
            }
            let w = s.substring_char(start, j).to_owned();
            proof {
                lemma_words_take_word(s@, start as int, j as int);
                assert(words@.push(w).map_values(|x: String| x@) =~= words@.map_values(
                    |x: String| x@,
                ).push(w@));
            }
            words.push(w);
            i = j;
        }
    }
    proof {
        assert(s@.skip(n as int) =~= Seq::<char>::empty());
    }
    words
}

/// The number of times a word occurs among some words.
pub open spec fn occurrences(ws: Seq<Seq<char>>, w: Seq<char>) -> nat
    decreases ws.len(),
{
    if ws.len() == 0 {
        0
    } else {
        occurrences(ws.drop_last(), w) + (if ws.last() == w {
            1nat
        } else {
            0nat
        })
    }
}

/// A word occurs no more often than there are words.
pub proof fn lemma_occurrences_bound(ws: Seq<Seq<char>>, w: Seq<char>)
    ensures
        occurrences(ws, w) <= ws.len(),
    decreases ws.len(),
{
    if ws.len() > 0 {
        lemma_occurrences_bound(ws.drop_last(), w);
    }
}

/// A map from words to numbers, kept as a list of entries with
/// pairwise-distinct keys.
pub struct Scores {
    entries: Vec<(String, u64)>,
}

impl View for Scores {
    type V = Map<Seq<char>, u64>;

    /// The map the entries spell out.
    closed spec fn view(&self) -> Map<Seq<char>, u64> {
        Map::new(
            |k: Seq<char>| exists|i: int| 0 <= i < self.entries@.len() && self.entries@[i].0@ == k,
            |k: Seq<char>|
                self.entries@[choose|i: int|
                    0 <= i < self.entries@.len() && self.entries@[i].0@ == k].1,
        )
    }
}

impl Scores {
    /// The keys of distinct entries differ.
    pub closed spec fn wf(&self) -> bool {
        forall|i: int, j: int|
            0 <= i < j < self.entries@.len() ==> self.entries@[i].0@ != self.entries@[j].0@
    }

    /// The entry at `i` is what the map says of its key.
    proof fn lemma_entry_agrees(&self, i: int)
        requires
            self.wf(),
            0 <= i < self.entries@.len(),
        ensures
            self@.contains_key(self.entries@[i].0@),
            self@[self.entries@[i].0@] == self.entries@[i].1,
    {
        let k = self.entries@[i].0@;
        let c = choose|j: int| 0 <= j < self.entries@.len() && self.entries@[j].0@ == k;
        assert(0 <= c < self.entries@.len() && self.entries@[c].0@ == k);
        assert(c == i);
    }

    /// An empty map.
    pub fn new() -> (r: Scores)
        ensures
            r.wf(),
            r@ =~= Map::<Seq<char>, u64>::empty(),
    {
        Scores { entries: Vec::new() }
    }

    /// Where the key sits among the entries, if anywhere.
    fn position(&self, key: &str) -> (r: Option<usize>)
        requires
            self.wf(),
        ensures
            match r {
                Some(i) => i < self.entries@.len() && self.entries@[i as int].0@ == key@
                    && self@.contains_key(key@) && self@[key@] == self.entries@[i as int].1,
                None => !self@.contains_key(key@),
            },
    {
        let k: String = key.to_owned();
        let mut i: usize = 0;
        while i < self.entries.len()
            invariant
                0 <= i <= self.entries@.len(),
                k@ == key@,
                self.wf(),
                forall|j: int| 0 <= j < i ==> self.entries@[j].0@ != key@,
            decreases self.entries@.len() - i,
        {
            if self.entries[i].0 == k {
                proof {
                    self.lemma_entry_agrees(i as int);
                }
                return Some(i);
            }
            i += 1;
        }
        proof {
            if self@.contains_key(key@) {
                let c = choose|j: int|
                    0 <= j < self.entries@.len() && self.entries@[j].0@ == key@;
                assert(self.entries@[c].0@ != key@);
            }
        }
        None
    }

    /// Looks a word up.
    pub fn get(&self, key: &str) -> (r: Option<u64>)
        requires
            self.wf(),
        ensures
            self@.contains_key(key@) ==> r == Some(self@[key@]),
            !self@.contains_key(key@) ==> r is None,
    {
        match self.position(key) {
            Some(i) => Some(self.entries[i].1),
            None => None,
        }
    }

    /// Sets a word's number, replacing any it had.
    pub fn set(&mut self, key: &str, value: u64)
        requires
            old(self).wf(),
        ensures
            final(self).wf(),
            final(self)@ =~= old(self)@.insert(key@, value),
    {
        match self.position(key) {
            Some(i) => {
                let k: String = key.to_owned();
                self.entries.set(i, (k, value));
                proof {
                    assert forall|w: Seq<char>| #[trigger] self@.contains_key(w)
                        == old(self)@.insert(key@, value).contains_key(w) && (
                    self@.contains_key(w) ==> self@[w] == old(self)@.insert(key@, value)[w]) by {
                        if w == key@ {
                            self.lemma_entry_agrees(i as int);
                        } else {
                            assert forall|j: int|
                                0 <= j < self.entries@.len() && self.entries@[j].0@ == w implies
                            old(self).entries@[j].0@ == w by {}
                            if self@.contains_key(w) {
                                let c = choose|j: int|
                                    0 <= j < self.entries@.len() && self.entries@[j].0@ == w;
                                self.lemma_entry_agrees(c);
                                old(self).lemma_entry_agrees(c);
                            }
                            if old(self)@.contains_key(w) {
                                let c = choose|j: int|
                                    0 <= j < old(self).entries@.len() && old(
                                        self,
                                    ).entries@[j].0@ == w;
                                old(self).lemma_entry_agrees(c);
                                self.lemma_entry_agrees(c);
                            }
                        }
                    }
                }
            },
            None => {
                let k: String = key.to_owned();
                self.entries.push((k, value));
                proof {
                    let m = old(self).entries@.len() as int;
                    assert(self.entries@ =~= old(self).entries@.push((k, value)));
                    assert forall|w: Seq<char>| #[trigger] self@.contains_key(w)
                        == old(self)@.insert(key@, value).contains_key(w) && (
                    self@.contains_key(w) ==> self@[w] == old(self)@.insert(key@, value)[w]) by {
                        if w == key@ {
                            self.lemma_entry_agrees(m);
                        } else {
                            if self@.contains_key(w) {
                                let c = choose|j: int|
                                    0 <= j < self.entries@.len() && self.entries@[j].0@ == w;
                                self.lemma_entry_agrees(c);
                                old(self).lemma_entry_agrees(c);
                            }
                            if old(self)@.contains_key(w) {
                                let c = choose|j: int|
                                    0 <= j < old(self).entries@.len() && old(
                                        self,
                                    ).entries@[j].0@ == w;
                                old(self).lemma_entry_agrees(c);
                                self.lemma_entry_agrees(c);
                            }
                        }
                    }
                }
            },
        }
    }

    /// Sets a word's number only if the word has none yet.
    pub fn or_insert(&mut self, key: &str, value: u64)
        requires
            old(self).wf(),
        ensures
            final(self).wf(),
            old(self)@.contains_key(key@) ==> final(self)@ =~= old(self)@,
            !old(self)@.contains_key(key@) ==> final(self)@ =~= old(self)@.insert(key@, value),
    {
        match self.position(key) {
            Some(_) => {},
            None => {
                self.set(key, value);
            },
        }
    }

    /// Counts a word once more: its number grows by one, from zero if it
    /// had none.
    pub fn add_one(&mut self, key: &str)
        requires
            old(self).wf(),
            old(self)@.contains_key(key@) ==> old(self)@[key@] < u64::MAX,
        ensures
            final(self).wf(),
            old(self)@.contains_key(key@) ==> final(self)@ =~= old(self)@.insert(
                key@,
                (old(self)@[key@] + 1) as u64,
            ),
            !old(self)@.contains_key(key@) ==> final(self)@ =~= old(self)@.insert(key@, 1),
    {
        match self.position(key) {
            Some(i) => {
                let v = self.entries[i].1;
                self.set(key, v + 1);
            },
            None => {
                self.set(key, 1);
            },
        }
    }

    /// Hands the entries out for reading: each pairs a word the map
    /// knows with that word's number, no word appears twice, and every
    /// word of the map is listed.
    pub fn entries(&self) -> (r: &Vec<(String, u64)>)
        requires
            self.wf(),
        ensures
            forall|i: int|
                0 <= i < r@.len() ==> self@.contains_key(#[trigger] r@[i].0@) && self@[r@[i].0@]
                    == r@[i].1,
            forall|i: int, j: int| 0 <= i < j < r@.len() ==> r@[i].0@ != r@[j].0@,
            forall|k: Seq<char>| #[trigger] self@.contains_key(k) ==> exists|i: int|
                0 <= i < r@.len() && r@[i].0@ == k,
    {
        proof {
            assert forall|i: int| 0 <= i < self.entries@.len() implies self@.contains_key(
                #[trigger] self.entries@[i].0@,
            ) && self@[self.entries@[i].0@] == self.entries@[i].1 by {
                self.lemma_entry_agrees(i);
            }
        }
        &self.entries
    }
}

/// Counts how often each word of the list occurs: afterwards the map
/// knows exactly the words given, each with its number of occurrences.
pub fn word_counts(words: &Vec<String>) -> (counts: Scores)
    ensures
        counts.wf(),
        forall|w: Seq<char>| #[trigger] counts@.contains_key(w) <==> occurrences(
            words@.map_values(|x: String| x@),
            w,
        ) > 0,
        forall|w: Seq<char>| #[trigger] counts@.contains_key(w) ==> counts@[w] == occurrences(
            words@.map_values(|x: String| x@),
            w,
        ),
{
    let ghost ws = words@.map_values(|x: String| x@);
    let mut counts = Scores::new();
    let mut i: usize = 0;
    proof {
        assert(ws.take(0) =~= Seq::<Seq<char>>::empty());
    }
    while i < words.len()
        invariant
            0 <= i <= words@.len(),
            ws == words@.map_values(|x: String| x@),
            counts.wf(),
            forall|w: Seq<char>| #[trigger] counts@.contains_key(w) <==> occurrences(
                ws.take(i as int),
                w,
            ) > 0,
            forall|w: Seq<char>| #[trigger] counts@.contains_key(w) ==> counts@[w] == occurrences(
                ws.take(i as int),
                w,
            ),
        decreases words@.len() - i,
    {
        proof {
            if counts@.contains_key(words@[i as int]@) {
                lemma_occurrences_bound(ws.take(i as int), words@[i as int]@);
            }
        }
        counts.add_one(words[i].as_str());
        proof {
            assert(ws.take(i + 1).drop_last() =~= ws.take(i as int));
            assert(ws.take(i + 1).last() == ws[i as int]);
            assert forall|w: Seq<char>|
                occurrences(ws.take(i + 1), w) == occurrences(ws.take(i as int), w) + (if w
                    == ws[i as int] {
                    1int
                } else {
                    0int
                }) by {}
        }
        i += 1;
    }
    proof {
        assert(ws.take(words@.len() as int) =~= ws);
    }
    counts
}

/// Splits a text and counts its words in one stroke.
pub fn count_words(text: &str) -> (counts: Scores)
    ensures
        counts.wf(),
        forall|w: Seq<char>| #[trigger] counts@.contains_key(w) <==> occurrences(
            words_of(text@),
            w,
        ) > 0,
        forall|w: Seq<char>| #[trigger] counts@.contains_key(w) ==> counts@[w] == occurrences(
            words_of(text@),
            w,
        ),
{
    let words = split_words(text);
    word_counts(&words)
}

} // verus!
