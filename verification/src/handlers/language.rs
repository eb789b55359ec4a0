//! Looking at the languages.

use vstd::prelude::*;
use crate::model::Language;
use crate::table::{keyed_later, last_of_keys, lemma_last_of_keys_step};

verus! {

/// The code of a language.
pub open spec fn code_of() -> spec_fn(Language) -> Seq<char> {
    |language: Language| language.code@
}

/// Whether a row behind row `at` has the code of row `at`.
fn is_coded_later(rows: &Vec<Language>, at: usize) -> (r: bool)
    requires
        at < rows.len(),
    ensures
        r == keyed_later(rows@, code_of(), at as int),
{
    let mut j: usize = at + 1;
    while j < rows.len()
        invariant
            at < j <= rows.len(),
            forall|k: int| at < k < j ==> code_of()(#[trigger] rows@[k]) != code_of()(rows@[at as int]),
        decreases rows.len() - j,
    {
        if rows[j].code == rows[at].code {
            return true;
        }
        j += 1;
    }
    false
}

/// The languages by code: for each code of the table one pair of the code and
/// an identifier, in the order of the table. Where several rows have one
/// code, the code stands with the identifier of the last of them.
pub fn get_all_languages(languages: &Vec<Language>) -> (r: Vec<(String, u128)>)
    ensures
        r@.len() == last_of_keys(languages@, code_of()).len(),
        forall|i: int|
            0 <= i < r@.len() ==> (#[trigger] r@[i]).0 == last_of_keys(languages@, code_of())[i].code
                && r@[i].1 == last_of_keys(languages@, code_of())[i].id,
{
    let ghost mut done: Seq<Language> = Seq::empty();
    let mut pairs: Vec<(String, u128)> = Vec::new();
    let mut i: usize = 0;
    assert(languages@.subrange(0, languages@.len() as int) == languages@);
    while i < languages.len()
        invariant
            i <= languages.len(),
            last_of_keys(languages@, code_of()) == done + last_of_keys(
                languages@.subrange(i as int, languages@.len() as int),
                code_of(),
            ),
            pairs@.len() == done.len(),
            forall|j: int|
                0 <= j < pairs@.len() ==> (#[trigger] pairs@[j]).0 == done[j].code && pairs@[j].1
                    == done[j].id,
        decreases languages.len() - i,
    {
        let later = is_coded_later(languages, i);
        proof {
            lemma_last_of_keys_step(languages@, code_of(), i as int);
        }
        if !later {
            pairs.push((languages[i].code.clone(), languages[i].id));
            proof {
                let rest = last_of_keys(
                    languages@.subrange(i + 1, languages@.len() as int),
                    code_of(),
                );
                let before = done;
                done = done.push(languages@[i as int]);
                assert(done + rest == before + (seq![languages@[i as int]] + rest));
            }
        }
        i += 1;
    }
    assert(done + Seq::<Language>::empty() == done);
    pairs
}

} // verus!
