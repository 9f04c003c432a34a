//! Vocabulary sets: named, versioned lists of drill items.

use vstd::prelude::*;
use crate::matcher::{all_trimmed, answer_matches, matches_answer, views};
use crate::text::trimmed;

verus! {

/// A vocabulary set. Usable for a session only with at least one item.
#[derive(Debug, Clone)]
pub struct Dictionary {
    pub name: String,
    pub version: i32,
    pub language: String,
    pub items: Vec<DictItem>,
}

/// One prompt/answer unit of a vocabulary set.
#[derive(Debug, Clone)]
pub struct DictItem {
    pub id: String,
    pub prompt: String,
    pub answer: String,
    pub aliases: Vec<String>,
    pub tags: Vec<String>,
    pub difficulty: i32,
}

/// A vocabulary set found on disk: where it is and the name to show.
#[derive(Debug, Clone)]
pub struct DictMeta {
    pub path: String,
    pub name: String,
}

/// Why a vocabulary set could not be had.
#[derive(Debug, Clone)]
pub enum LoadError {
    /// The backing data could not be read.
    Unreadable(String),
    /// The backing data is not a well-formed vocabulary set.
    Malformed(String),
    /// The set holds no items.
    NoItems,
}

/// The language tag of a set that names none.
pub fn default_language() -> (r: String)
    ensures
        r@ == "en"@,
{
    String::from_str("en")
}

impl DictItem {
    /// The item has an id, a prompt and an answer.
    pub open spec fn is_complete(&self) -> bool {
        self.id@.len() > 0 && self.prompt@.len() > 0 && self.answer@.len() > 0
    }

    /// Whether `input` matches this item's answer or one of its aliases.
    pub open spec fn accepts(&self, input: Seq<char>) -> bool {
        answer_matches(input, self.answer@, views(self.aliases@))
    }

    /// Compares `input` with the answer and the aliases, all trimmed.
    pub fn matches(&self, input: &str) -> (r: bool)
        ensures
            r == self.accepts(input@),
    {
        matches_answer(input, self.answer.as_str(), &self.aliases)
    }
}

impl DictMeta {
    /// The entry for a set file at `path`: named after the set where it
    /// loaded, else after the file's stem, else "Unknown".
    pub fn from_scan(path: String, loaded_name: Option<String>, stem: Option<String>) -> (r: DictMeta)
        ensures
            r.path == path,
            loaded_name is Some ==> r.name == loaded_name->Some_0,
            loaded_name is None && stem is Some ==> r.name == stem->Some_0,
            loaded_name is None && stem is None ==> r.name@ == "Unknown"@,
    {
        let name = match loaded_name {
            Some(n) => n,
            None => match stem {
                Some(s) => s,
                None => String::from_str("Unknown"),
            },
        };
        DictMeta { path, name }
    }
}

impl Dictionary {
    /// The set holds at least one item, and every item has an id, a prompt
    /// and an answer.
    pub open spec fn is_usable(&self) -> bool {
        &&& self.items@.len() > 0
        &&& forall|k: int| 0 <= k < self.items@.len() ==> (#[trigger] self.items@[k]).is_complete()
    }

    /// Accepts a freshly parsed set only when it is usable: a set without
    /// items is refused as such, one with an incomplete item as malformed.
    pub fn into_usable(self) -> (r: Result<Dictionary, LoadError>)
        ensures
            r is Ok <==> self.is_usable(),
            r is Ok ==> r->Ok_0 == self,
            self.items@.len() == 0 ==> r is Err && r->Err_0 is NoItems,
            self.items@.len() > 0 && !self.is_usable() ==> r is Err && r->Err_0 is Malformed,
    {
        if self.items.len() == 0 {
            return Err(LoadError::NoItems);
        }
        let mut i: usize = 0;
        while i < self.items.len()
            invariant
                i <= self.items@.len(),
                forall|k: int| 0 <= k < i ==> (#[trigger] self.items@[k]).is_complete(),
            decreases self.items@.len() - i,
        {
            let item = &self.items[i];
            if item.id.as_str().is_empty() || item.prompt.as_str().is_empty() || item.answer.as_str().is_empty() {
                return Err(LoadError::Malformed(String::from_str("an item has an empty id, prompt or answer")));
            }
            i = i + 1;
        }
        Ok(self)
    }

    /// Whether `user_input` matches the item at `item_index`; false where
    /// there is no such item.
    pub fn validate_answer(&self, item_index: usize, user_input: &str) -> (r: bool)
        ensures
            r == (item_index < self.items.len() && self.items[item_index as int].accepts(user_input@)),
    {
        if item_index >= self.items.len() {
            return false;
        }
        self.items[item_index].matches(user_input)
    }
}

/// An input that equals the item's answer once both are trimmed is accepted.
pub proof fn lemma_trimmed_answer_accepted(item: DictItem, input: Seq<char>)
    requires
        trimmed(input) == trimmed(item.answer@),
    ensures
        item.accepts(input),
{
}

/// An input that equals one of the item's aliases once both are trimmed is
/// accepted.
pub proof fn lemma_trimmed_alias_accepted(item: DictItem, input: Seq<char>, k: int)
    requires
        0 <= k < item.aliases@.len(),
        trimmed(input) == trimmed(item.aliases@[k]@),
    ensures
        item.accepts(input),
{
    assert(all_trimmed(views(item.aliases@))[k] == trimmed(input));
}

/// An input that, trimmed, differs from the trimmed answer and from every
/// trimmed alias (by case, inner spacing or anything else) is refused.
pub proof fn lemma_other_input_refused(item: DictItem, input: Seq<char>)
    requires
        trimmed(input) != trimmed(item.answer@),
        forall|k: int| 0 <= k < item.aliases@.len() ==> trimmed(input) != trimmed(#[trigger] item.aliases@[k]@),
    ensures
        !item.accepts(input),
{
    assert forall|k: int| 0 <= k < all_trimmed(views(item.aliases@)).len() implies #[trigger] all_trimmed(
        views(item.aliases@),
    )[k] != trimmed(input) by {
        assert(all_trimmed(views(item.aliases@))[k] == trimmed(item.aliases@[k]@));
    }
}

} // verus!
