//! Question sets of the results-screen trainer: a question, the expected
//! command and its accepted aliases.

use vstd::prelude::*;
use crate::matcher::{answer_matches, matches_answer, views};

verus! {

/// A question set with its description.
#[derive(Debug, Clone)]
pub struct Dictionary {
    pub name: String,
    pub description: String,
    pub items: Vec<DictionaryItem>,
}

/// A question, the expected command and the other accepted commands.
#[derive(Debug, Clone)]
pub struct DictionaryItem {
    pub question: String,
    pub command: String,
    pub aliases: Vec<String>,
}

impl DictionaryItem {
    /// The item's content as plain values.
    pub open spec fn content(&self) -> (Seq<char>, Seq<char>, Seq<Seq<char>>) {
        (self.question@, self.command@, views(self.aliases@))
    }

    /// Whether `answer` is accepted, both sides trimmed.
    pub fn is_correct(&self, answer: &str) -> (r: bool)
        ensures
            r == answer_matches(answer@, self.command@, views(self.aliases@)),
    {
        matches_answer(answer, self.command.as_str(), &self.aliases)
    }

    /// A copy with the same content.
    pub fn duplicate(&self) -> (r: DictionaryItem)
        ensures
            r.content() == self.content(),
    {
        DictionaryItem {
            question: self.question.clone(),
            command: self.command.clone(),
            aliases: copy_strings(&self.aliases),
        }
    }
}

/// A copy of a list of strings.
fn copy_strings(v: &Vec<String>) -> (r: Vec<String>)
    ensures
        views(r@) == views(v@),
{
    let mut r: Vec<String> = Vec::new();
    let mut i: usize = 0;
    while i < v.len()
        invariant
            i <= v.len(),
            r@.len() == i,
            forall|k: int| 0 <= k < i ==> #[trigger] r@[k]@ == v@[k]@,
        decreases v.len() - i,
    {
        r.push(v[i].clone());
        i = i + 1;
    }
    assert(views(r@) =~= views(v@));
    r
}

impl Dictionary {
    /// The set's content as plain values.
    pub open spec fn content(&self) -> (Seq<char>, Seq<char>, Seq<(Seq<char>, Seq<char>, Seq<Seq<char>>)>) {
        (self.name@, self.description@, self.items@.map_values(|it: DictionaryItem| it.content()))
    }

    /// A copy with the same content.
    pub fn duplicate(&self) -> (r: Dictionary)
        ensures
            r.content() == self.content(),
            r.items.len() == self.items.len(),
    {
        let mut items: Vec<DictionaryItem> = Vec::new();
        let mut i: usize = 0;
        while i < self.items.len()
            invariant
                i <= self.items.len(),
                items@.len() == i,
                forall|k: int| 0 <= k < i ==> #[trigger] items@[k].content() == self.items@[k].content(),
            decreases self.items.len() - i,
        {
            items.push(self.items[i].duplicate());
            i = i + 1;
        }
        let r = Dictionary { name: self.name.clone(), description: self.description.clone(), items };
        assert(r.items@.map_values(|it: DictionaryItem| it.content())
            =~= self.items@.map_values(|it: DictionaryItem| it.content()));
        r
    }
}

} // verus!
