//! The most frequent word of a text.
use vstd::prelude::*;

verus! {

/// Whether `c` has the Unicode property White_Space.
pub open spec fn is_space(c: char) -> bool {
    let u = c as u32;
    ||| 0x09 <= u <= 0x0d
    ||| u == 0x20 || u == 0x85 || u == 0xa0 || u == 0x1680
    ||| 0x2000 <= u <= 0x200a
    ||| u == 0x2028 || u == 0x2029 || u == 0x202f || u == 0x205f || u == 0x3000
}

/// The words of `s` after the partial word `cur`: the maximal runs of
/// characters that are not whitespace, in order.
pub open spec fn words_after(s: Seq<char>, cur: Seq<char>) -> Seq<Seq<char>>
    decreases s.len(),
{
    let done: Seq<Seq<char>> = if cur.len() == 0 { seq![] } else { seq![cur] };
    if s.len() == 0 {
        done
    } else if is_space(s[0]) {
        done + words_after(s.drop_first(), seq![])
    } else {
        words_after(s.drop_first(), cur.push(s[0]))
    }
}

/// The words of a text: its maximal runs of characters that are not whitespace.
pub open spec fn whitespace_words(text: Seq<char>) -> Seq<Seq<char>> {
    words_after(text, seq![])
}

/// Relies on str::split_whitespace: the text's non-empty pieces between runs
/// of Unicode White_Space characters, in order.
#[verifier::external_body]
fn split_words(text: &str) -> (r: Vec<String>)
    ensures
        views(r@) == whitespace_words(text@),
{
    text.split_whitespace().map(|w| w.to_string()).collect()
}

/// The texts of a sequence of strings.
pub open spec fn views(ws: Seq<String>) -> Seq<Seq<char>> {
    ws.map_values(|s: String| s@)
}

/// How often `w` occurs in `ws`.
pub open spec fn occurrences(ws: Seq<Seq<char>>, w: Seq<char>) -> nat
    decreases ws.len(),
{
    if ws.len() == 0 {
        0
    } else {
        occurrences(ws.drop_last(), w) + if ws.last() == w { 1nat } else { 0nat }
    }
}

/// `w` occurs `c` times in `ws`, no word occurs more often, and every word
/// that stands before the first `w` occurs less often.
pub open spec fn is_most_frequent(ws: Seq<Seq<char>>, w: Seq<char>, c: nat) -> bool {
    &&& c == occurrences(ws, w)
    &&& exists|k: int| 0 <= k < ws.len() && ws[k] == w && forall|j: int| 0 <= j < k ==> #[trigger] occurrences(ws, ws[j]) < c
    &&& forall|j: int| 0 <= j < ws.len() ==> #[trigger] occurrences(ws, ws[j]) <= c
}

fn count_of(words: &Vec<String>, w: &String) -> (r: usize)
    ensures
        r == occurrences(views(words@), w@),
{
    let mut c: usize = 0;
    let mut i: usize = 0;
    while i < words.len()
        invariant
            i <= words.len(),
            c <= i,
            c == occurrences(views(words@).subrange(0, i as int), w@),
        decreases words.len() - i,
    {
        assert(views(words@).subrange(0, i + 1).drop_last() == views(words@).subrange(0, i as int));
        if words[i] == *w {
            c = c + 1;
        }
        i = i + 1;
    }
    assert(views(words@).subrange(0, words.len() as int) == views(words@));
    c
}

/// The word of `words` that occurs most often, with its count; of several
/// such words, the one that occurs first.
pub fn most_frequent_in(words: &Vec<String>) -> (r: (String, usize))
    requires
        words.len() > 0,
    ensures
        is_most_frequent(views(words@), r.0@, r.1 as nat),
{
    let ghost ws = views(words@);
    let mut best: usize = 0;
    let mut best_count: usize = count_of(words, &words[0]);
    let mut i: usize = 1;
    while i < words.len()
        invariant
            ws == views(words@),
            1 <= i <= words.len(),
            best < i,
            best_count == occurrences(ws, ws[best as int]),
            forall|j: int| 0 <= j < i ==> #[trigger] occurrences(ws, ws[j]) <= best_count,
            forall|j: int| 0 <= j < best ==> #[trigger] occurrences(ws, ws[j]) < best_count,
        decreases words.len() - i,
    {
        let c = count_of(words, &words[i]);
        if c > best_count {
            best = i;
            best_count = c;
        }
        i = i + 1;
    }
    (words[best].clone(), best_count)
}

/// The most frequent word of `text` with its count; of several such words,
/// the one that occurs first.
pub fn most_frequent_word(text: &str) -> (r: (String, usize))
    requires
        whitespace_words(text@).len() > 0,
    ensures
        is_most_frequent(whitespace_words(text@), r.0@, r.1 as nat),
{
    let words = split_words(text);
    most_frequent_in(&words)
}

/// The most frequent word of `text` with its count, or `None` when the text
/// holds no word.
pub fn try_most_frequent_word(text: &str) -> (r: Option<(String, usize)>)
    ensures
        r is None <==> whitespace_words(text@).len() == 0,
        r matches Some(p) ==> is_most_frequent(whitespace_words(text@), p.0@, p.1 as nat),
{
    let words = split_words(text);
    if words.len() == 0 {
        None
    } else {
        Some(most_frequent_word(text))
    }
}

} // verus!
