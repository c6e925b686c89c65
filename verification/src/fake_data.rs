//! Random sample content for new feeds, drawn from `fake` and `rand`.

use vstd::prelude::*;
use fake::Fake;
use rand::Rng;
use rand::seq::SliceRandom;

verus! {

/// How many times `c` occurs in `s`.
pub open spec fn count_char(s: Seq<char>, c: char) -> nat
    decreases s.len(),
{
    if s.len() == 0 {
        0
    } else {
        count_char(s.drop_last(), c) + if s.last() == c { 1nat } else { 0nat }
    }
}

/// Calls `fake::faker::company::en::Buzzword().fake::<String>()`: one random
/// buzzword, never empty. Which word comes out is left open.
#[verifier::external_body]
pub(crate) fn fake_buzzword() -> (res: String)
    ensures
        res@.len() > 0,
{
    fake::faker::company::en::Buzzword().fake::<String>()
}

/// Calls `fake::faker::lorem::en::Sentence(min_words..max_words).fake::<String>()`:
/// a number of words drawn from `min_words..max_words`, joined by single
/// spaces and closed by a period, so the text is not empty and ends with
/// `.`. The English lorem words hold no space, so with at least one word
/// the spaces are one fewer than the words. The words are left open.
#[verifier::external_body]
pub(crate) fn fake_sentence(min_words: usize, max_words: usize) -> (res: String)
    requires
        min_words < max_words,
    ensures
        res@.len() > 0,
        res@.last() == '.',
        1 <= min_words ==> min_words <= count_char(res@, ' ') + 1 < max_words,
{
    fake::faker::lorem::en::Sentence(min_words..max_words).fake::<String>()
}

/// Calls `fake::faker::lorem::en::Paragraph(min_sentences..max_sentences).fake::<String>()`:
/// a number of sentences drawn from `min_sentences..max_sentences`, joined
/// by newlines; a sentence holds no newline, so with at least one sentence
/// the newlines are one fewer than the sentences. The text is left open.
#[verifier::external_body]
pub(crate) fn fake_paragraph(min_sentences: usize, max_sentences: usize) -> (res: String)
    requires
        min_sentences < max_sentences,
    ensures
        1 <= min_sentences ==> min_sentences <= count_char(res@, '\n') + 1 < max_sentences,
{
    fake::faker::lorem::en::Paragraph(min_sentences..max_sentences).fake::<String>()
}

/// `s` is a first name, one space and a last name: exactly one space, with
/// characters on both sides of it.
pub open spec fn is_full_name(s: Seq<char>) -> bool {
    &&& s.len() >= 3
    &&& count_char(s, ' ') == 1
    &&& s[0] != ' '
    &&& s.last() != ' '
}

/// Calls `fake::faker::name::en::Name().fake::<String>()`: a random
/// person's name, a first name, a space and a last name, where neither name
/// holds a space or is empty. Which name comes out is left open.
#[verifier::external_body]
pub(crate) fn fake_name() -> (res: String)
    ensures
        is_full_name(res@),
{
    fake::faker::name::en::Name().fake::<String>()
}

/// Calls `rand::thread_rng().gen_range(low..high)`: a random number at
/// least `low` and below `high`.
#[verifier::external_body]
pub(crate) fn random_below(low: usize, high: usize) -> (res: usize)
    requires
        low < high,
    ensures
        low <= res < high,
{
    rand::thread_rng().gen_range(low..high)
}

/// The number of elements drawn when `amount` are asked of `len`.
pub open spec fn sample_size(amount: int, len: int) -> int {
    if amount < len { amount } else { len }
}

/// `picked` holds elements of `pool` taken from distinct positions.
pub open spec fn is_sample_of(picked: Seq<String>, pool: Seq<String>) -> bool {
    exists|pos: Seq<int>|
        #![trigger pos.len()]
        pos.len() == picked.len()
        && pos.no_duplicates()
        && (forall|i: int| 0 <= i < pos.len() ==> 0 <= #[trigger] pos[i] < pool.len())
        && (forall|i: int| 0 <= i < pos.len() ==> #[trigger] picked[i]@ == pool[pos[i]]@)
}

/// Calls `pool.choose_multiple(&mut rand::thread_rng(), amount).cloned()` and
/// collects: `min(amount, pool.len())` elements of `pool`, taken from distinct
/// positions, in random order. Which positions are taken is left open.
#[verifier::external_body]
pub(crate) fn choose_distinct(pool: &Vec<String>, amount: usize) -> (res: Vec<String>)
    ensures
        res@.len() == sample_size(amount as int, pool@.len() as int),
        is_sample_of(res@, pool@),
{
    pool.as_slice().choose_multiple(&mut rand::thread_rng(), amount).cloned().collect()
}

} // verus!
