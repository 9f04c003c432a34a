//! The answer matcher: literal comparison after trimming both sides.

use vstd::prelude::*;
use crate::text::{trimmed, trim_owned};

verus! {

/// The views of a list of strings.
pub open spec fn views(v: Seq<String>) -> Seq<Seq<char>> {
    v.map_values(|s: String| s@)
}

/// Each string trimmed.
pub open spec fn all_trimmed(v: Seq<Seq<char>>) -> Seq<Seq<char>> {
    v.map_values(|s: Seq<char>| trimmed(s))
}

/// `input` equals the answer or one of the aliases, literally.
pub open spec fn literal_matches(input: Seq<char>, answer: Seq<char>, aliases: Seq<Seq<char>>) -> bool {
    input == answer || exists|k: int| 0 <= k < aliases.len() && #[trigger] aliases[k] == input
}

/// `input` matches an answer with the given aliases when, both trimmed, it
/// equals the answer or one of the aliases. Nothing else is normalised.
pub open spec fn answer_matches(input: Seq<char>, answer: Seq<char>, aliases: Seq<Seq<char>>) -> bool {
    literal_matches(trimmed(input), trimmed(answer), all_trimmed(aliases))
}

/// Compares already trimmed strings: the input against the answer, then
/// against each alias in order.
pub fn matches_trimmed(input: &str, answer: &str, aliases: &Vec<String>) -> (r: bool)
    ensures
        r == literal_matches(input@, answer@, views(aliases@)),
{
    let owned_input = input.to_owned();
    let owned_answer = answer.to_owned();
    if owned_input == owned_answer {
        return true;
    }
    let mut i: usize = 0;
    while i < aliases.len()
        invariant
            i <= aliases.len(),
            owned_input@ == input@,
            input@ != answer@,
            forall|k: int| 0 <= k < i ==> #[trigger] views(aliases@)[k] != input@,
        decreases aliases.len() - i,
    {
        if aliases[i] == owned_input {
            assert(views(aliases@)[i as int] == input@);
            return true;
        }
        i = i + 1;
    }
    false
}

/// Compares `input` with `answer` and then with each alias, all trimmed.
pub fn matches_answer(input: &str, answer: &str, aliases: &Vec<String>) -> (r: bool)
    ensures
        r == answer_matches(input@, answer@, views(aliases@)),
{
    let t_input = trim_owned(input);
    let t_answer = trim_owned(answer);
    let mut t_aliases: Vec<String> = Vec::new();
    let mut i: usize = 0;
    while i < aliases.len()
        invariant
            i <= aliases.len(),
            t_aliases@.len() == i,
            forall|k: int| 0 <= k < i ==> #[trigger] t_aliases@[k]@ == trimmed(aliases@[k]@),
        decreases aliases.len() - i,
    {
        t_aliases.push(trim_owned(aliases[i].as_str()));
        i = i + 1;
    }
    assert(views(t_aliases@) =~= all_trimmed(views(aliases@)));
    matches_trimmed(t_input.as_str(), t_answer.as_str(), &t_aliases)
}

} // verus!
