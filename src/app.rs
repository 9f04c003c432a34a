//! The trainer's controller: choose a vocabulary set, then drill it item by
//! item with feedback after each answer.
//!
//! An empty input buffer is never submitted: submitting it does nothing.

use vstd::prelude::*;
use crate::dict::{DictItem, DictMeta, Dictionary, LoadError};
use crate::engine::TrainingSession;
use crate::text::{pop_char, push_char};

verus! {

/// The controller's mode.
#[derive(Debug, Clone, Copy, PartialEq, Eq, Structural)]
pub enum AppState {
    SelectDictionary,
    Training,
    Quit,
}

/// The controller: the catalog, and at most one session with its set.
pub struct App {
    pub state: AppState,
    pub dictionaries: Vec<DictMeta>,
    pub selected_dict_index: usize,
    pub current_dictionary: Option<Dictionary>,
    pub session: Option<TrainingSession>,
    pub input: String,
    pub show_feedback: bool,
    pub is_correct: bool,
    pub feedback_message: String,
}

impl App {
    /// The selection stays within the catalog; a session and its set exist
    /// exactly while training, and a running session is never complete.
    pub open spec fn wf(&self) -> bool {
        &&& self.selection_ok()
        &&& (self.state == AppState::Training) == self.session is Some
        &&& (self.state == AppState::Training) == self.current_dictionary is Some
        &&& (self.session is Some ==> {
            let s = self.session->Some_0;
            &&& s.wf()
            &&& !s.complete()
            &&& s.total() == self.current_dictionary->Some_0.items@.len()
        })
    }

    /// The selection stays within the catalog.
    pub open spec fn selection_ok(&self) -> bool {
        &&& (self.dictionaries@.len() == 0 ==> self.selected_dict_index == 0)
        &&& (self.dictionaries@.len() > 0 ==> self.selected_dict_index < self.dictionaries@.len())
    }

    /// The item at the session's cursor.
    pub open spec fn current_item(&self) -> DictItem {
        let s = self.session->Some_0;
        self.current_dictionary->Some_0.items@[s.items_order@[s.current_index as int] as int]
    }

    /// `self` is `prev` after moving the session on: back to selection when
    /// the pass is over, else at the next position with a fresh input.
    pub open spec fn advanced_from(&self, prev: App) -> bool {
        let s = prev.session->Some_0.after_advance();
        &&& self.dictionaries == prev.dictionaries
        &&& self.selected_dict_index == prev.selected_dict_index
        &&& self.is_correct == prev.is_correct
        &&& self.input@.len() == 0
        &&& !self.show_feedback
        &&& if s.complete() {
            &&& self.state == AppState::SelectDictionary
            &&& self.session is None
            &&& self.current_dictionary is None
            &&& self.feedback_message == prev.feedback_message
        } else {
            &&& self.state == AppState::Training
            &&& self.session == Some(s)
            &&& self.current_dictionary == prev.current_dictionary
            &&& self.feedback_message@.len() == 0
        }
    }

    /// A controller in selection mode over `dictionaries`.
    pub fn new(dictionaries: Vec<DictMeta>) -> (r: App)
        ensures
            r.wf(),
            r.state == AppState::SelectDictionary,
            r.dictionaries == dictionaries,
            r.selected_dict_index == 0,
            r.current_dictionary is None,
            r.session is None,
            r.input@.len() == 0,
            !r.show_feedback,
            !r.is_correct,
            r.feedback_message@.len() == 0,
    {
        App {
            state: AppState::SelectDictionary,
            dictionaries,
            selected_dict_index: 0,
            current_dictionary: None,
            session: None,
            input: String::new(),
            show_feedback: false,
            is_correct: false,
            feedback_message: String::new(),
        }
    }

    /// Moves the selection up by one, stopping at the first set.
    pub fn previous_dictionary(&mut self)
        requires
            old(self).wf(),
        ensures
            final(self).wf(),
            *final(self) == (App {
                selected_dict_index: if old(self).selected_dict_index > 0 {
                    (old(self).selected_dict_index - 1) as usize
                } else {
                    0
                },
                ..*old(self)
            }),
    {
        if self.dictionaries.len() > 0 && self.selected_dict_index > 0 {
            self.selected_dict_index = self.selected_dict_index - 1;
        }
    }

    /// Moves the selection down by one, stopping at the last set.
    pub fn next_dictionary(&mut self)
        requires
            old(self).wf(),
        ensures
            final(self).wf(),
            *final(self) == (App {
                selected_dict_index: if old(self).selected_dict_index + 1 < old(self).dictionaries@.len() {
                    (old(self).selected_dict_index + 1) as usize
                } else {
                    old(self).selected_dict_index
                },
                ..*old(self)
            }),
    {
        if self.dictionaries.len() > 0 && self.selected_dict_index < self.dictionaries.len() - 1 {
            self.selected_dict_index = self.selected_dict_index + 1;
        }
    }

    /// Starts a shuffled session over `loaded`, the set behind the selected
    /// entry. Nothing happens with an empty catalog; a set that failed to
    /// load, holds no items or has an incomplete item, is refused and changes
    /// nothing.
    pub fn select_dictionary(&mut self, loaded: Result<Dictionary, LoadError>) -> (r: Result<(), LoadError>)
        requires
            old(self).wf(),
        ensures
            final(self).wf(),
            old(self).dictionaries@.len() == 0 ==> r is Ok && *final(self) == *old(self),
            old(self).dictionaries@.len() > 0 && loaded is Err ==> r == Err::<(), LoadError>(loaded->Err_0)
                && *final(self) == *old(self),
            old(self).dictionaries@.len() > 0 && loaded is Ok && loaded->Ok_0.items@.len() == 0 ==> r
                == Err::<(), LoadError>(LoadError::NoItems) && *final(self) == *old(self),
            old(self).dictionaries@.len() > 0 && loaded is Ok && loaded->Ok_0.items@.len() > 0
                && !loaded->Ok_0.is_usable() ==> r is Err && r->Err_0 is Malformed && *final(self) == *old(self),
            old(self).dictionaries@.len() > 0 && loaded is Ok && loaded->Ok_0.is_usable() ==> {
                let s = final(self).session->Some_0;
                &&& r is Ok
                &&& final(self).state == AppState::Training
                &&& final(self).current_dictionary == Some(loaded->Ok_0)
                &&& final(self).session is Some
                &&& s.total() == loaded->Ok_0.items@.len()
                &&& s.current_index == 0
                &&& s.correct_count == 0
                &&& s.incorrect_count == 0
                &&& s.streak == 0
                &&& final(self).input@.len() == 0
                &&& !final(self).show_feedback
                &&& final(self).dictionaries == old(self).dictionaries
                &&& final(self).selected_dict_index == old(self).selected_dict_index
                &&& final(self).is_correct == old(self).is_correct
                &&& final(self).feedback_message == old(self).feedback_message
            },
    {
        if self.dictionaries.len() == 0 {
            return Ok(());
        }
        let dictionary = match loaded {
            Ok(d) => d,
            Err(e) => {
                return Err(e);
            },
        };
        let dictionary = match dictionary.into_usable() {
            Ok(d) => d,
            Err(e) => {
                return Err(e);
            },
        };
        let session = TrainingSession::new(&dictionary, true);
        self.current_dictionary = Some(dictionary);
        self.session = Some(session);
        self.state = AppState::Training;
        self.input = String::new();
        self.show_feedback = false;
        Ok(())
    }

    /// Leaves the session, if any, and returns to selection.
    pub fn back_to_selection(&mut self)
        requires
            old(self).selection_ok(),
        ensures
            final(self).wf(),
            *final(self) == (App {
                state: AppState::SelectDictionary,
                current_dictionary: None,
                session: None,
                input: final(self).input,
                show_feedback: false,
                ..*old(self)
            }),
            final(self).input@.len() == 0,
    {
        self.state = AppState::SelectDictionary;
        self.current_dictionary = None;
        self.session = None;
        self.input = String::new();
        self.show_feedback = false;
    }

    /// Appends a character to the answer being typed, unless feedback is shown.
    pub fn add_char(&mut self, c: char)
        requires
            old(self).wf(),
        ensures
            final(self).wf(),
            *final(self) == (App { input: final(self).input, ..*old(self) }),
            final(self).input@ == if old(self).show_feedback {
                old(self).input@
            } else {
                old(self).input@.push(c)
            },
    {
        if !self.show_feedback {
            push_char(&mut self.input, c);
        }
    }

    /// Removes the last character of the answer being typed, unless
    /// feedback is shown.
    pub fn delete_char(&mut self)
        requires
            old(self).wf(),
        ensures
            final(self).wf(),
            *final(self) == (App { input: final(self).input, ..*old(self) }),
            final(self).input@ == if old(self).show_feedback || old(self).input@.len() == 0 {
                old(self).input@
            } else {
                old(self).input@.drop_last()
            },
    {
        if !self.show_feedback {
            pop_char(&mut self.input);
        }
    }

    /// Moves the session on; see `advanced_from`.
    fn next_item(&mut self)
        requires
            old(self).wf(),
            old(self).state == AppState::Training,
        ensures
            final(self).wf(),
            final(self).advanced_from(*old(self)),
    {
        let done = match &mut self.session {
            Some(session) => {
                session.next_item();
                session.is_complete()
            },
            None => false,
        };
        if done {
            self.back_to_selection();
        } else {
            self.input = String::new();
            self.show_feedback = false;
            self.feedback_message = String::new();
        }
    }

    /// Enter: while feedback on a correct answer is shown, moves on; while
    /// feedback on an incorrect answer is shown, does nothing (retry or skip
    /// instead); otherwise scores the typed answer against the current item
    /// and shows the feedback. An empty answer is not submitted.
    pub fn validate_answer(&mut self)
        requires
            old(self).wf(),
        ensures
            final(self).wf(),
            old(self).show_feedback && old(self).is_correct && old(self).state == AppState::Training
                ==> final(self).advanced_from(*old(self)),
            old(self).show_feedback && !(old(self).is_correct && old(self).state == AppState::Training)
                ==> *final(self) == *old(self),
            !old(self).show_feedback && (old(self).state != AppState::Training || old(self).input@.len()
                == 0) ==> *final(self) == *old(self),
            !old(self).show_feedback && old(self).state == AppState::Training && old(self).input@.len() > 0
                ==> {
                &&& final(self).is_correct == old(self).current_item().accepts(old(self).input@)
                &&& final(self).show_feedback
                &&& final(self).session == Some(
                    old(self).session->Some_0.after_score(final(self).is_correct),
                )
                &&& final(self).feedback_message@ == if final(self).is_correct {
                    "✓ Correct!"@
                } else {
                    "✗ Incorrect. Expected: "@ + old(self).current_item().answer@
                }
                &&& final(self).state == old(self).state
                &&& final(self).dictionaries == old(self).dictionaries
                &&& final(self).selected_dict_index == old(self).selected_dict_index
                &&& final(self).current_dictionary == old(self).current_dictionary
                &&& final(self).input == old(self).input
            },
    {
        if self.show_feedback {
            if self.is_correct && self.state == AppState::Training {
                self.next_item();
            }
            return;
        }
        if self.state != AppState::Training || self.input.as_str().is_empty() {
            return;
        }
        let item_index = match &self.session {
            Some(session) => session.current_item_index(),
            None => {
                return;
            },
        };
        let (correct, message) = match &self.current_dictionary {
            Some(dict) => {
                let correct = dict.validate_answer(item_index, self.input.as_str());
                let message = if correct {
                    String::from_str("✓ Correct!")
                } else {
                    let mut m = String::from_str("✗ Incorrect. Expected: ");
                    m.append(dict.items[item_index].answer.as_str());
                    m
                };
                (correct, message)
            },
            None => {
                return;
            },
        };
        match &mut self.session {
            Some(session) => {
                if correct {
                    session.mark_correct();
                } else {
                    session.mark_incorrect();
                }
            },
            None => {},
        }
        self.is_correct = correct;
        self.show_feedback = true;
        self.feedback_message = message;
    }

    /// Clears the answer and the feedback to try the same item again; not
    /// offered after a correct answer.
    pub fn retry(&mut self)
        requires
            old(self).wf(),
        ensures
            final(self).wf(),
            old(self).show_feedback && old(self).is_correct ==> *final(self) == *old(self),
            !(old(self).show_feedback && old(self).is_correct) ==> *final(self) == (App {
                input: final(self).input,
                feedback_message: final(self).feedback_message,
                show_feedback: false,
                ..*old(self)
            }) && final(self).input@.len() == 0 && final(self).feedback_message@.len() == 0,
    {
        if self.show_feedback && self.is_correct {
            return;
        }
        self.input = String::new();
        self.show_feedback = false;
        self.feedback_message = String::new();
    }

    /// Moves on to the next item while training, scored or not.
    pub fn skip(&mut self)
        requires
            old(self).wf(),
        ensures
            final(self).wf(),
            old(self).state == AppState::Training ==> final(self).advanced_from(*old(self)),
            old(self).state != AppState::Training ==> *final(self) == *old(self),
    {
        if self.state == AppState::Training {
            self.next_item();
        }
    }

    /// The prompt of the current item while training.
    pub fn get_current_prompt(&self) -> (r: Option<&str>)
        requires
            self.wf(),
        ensures
            self.state == AppState::Training <==> r is Some,
            r is Some ==> r->Some_0@ == self.current_item().prompt@,
    {
        match (&self.current_dictionary, &self.session) {
            (Some(dict), Some(session)) => {
                let item_index = session.current_item_index();
                Some(dict.items[item_index].prompt.as_str())
            },
            _ => None,
        }
    }
}

} // verus!
