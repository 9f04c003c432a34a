//! The trainer's screen states: choose a question set, answer each
//! question with feedback, then see the results.
//!
//! An answer is submitted only while no feedback is shown and the input
//! is not empty; otherwise submitting does nothing.

use vstd::prelude::*;
use crate::dictionary::{Dictionary, DictionaryItem};
use crate::matcher::{answer_matches, views};
use crate::text::{pop_char, push_char};

verus! {

/// The screen being shown.
#[derive(Debug, Clone, Copy, PartialEq, Eq, Structural)]
pub enum AppState {
    SelectDictionary,
    Training,
    Results,
}

/// A key press, as the trainer sees it.
#[derive(Debug, Clone, Copy, PartialEq, Eq, Structural)]
pub enum Key {
    Up,
    Down,
    Enter,
    Esc,
    Backspace,
    Char(char),
    Other,
}

/// Running tally of one pass.
#[derive(Debug, Clone, Copy, PartialEq, Eq, Structural)]
pub struct Stats {
    pub correct: usize,
    pub incorrect: usize,
    pub total: usize,
}

impl Stats {
    /// Every answer is either correct or incorrect.
    pub open spec fn wf(&self) -> bool {
        self.correct + self.incorrect == self.total
    }

    /// Correct answers in whole percent of all answers, rounded down; 0
    /// before any answer.
    pub open spec fn percent(&self) -> nat {
        if self.total == 0 {
            0
        } else {
            (100 * self.correct as nat) / (self.total as nat)
        }
    }

    /// The empty tally.
    pub open spec fn empty() -> Stats {
        Stats { correct: 0, incorrect: 0, total: 0 }
    }

    /// An empty tally.
    pub fn new() -> (r: Stats)
        ensures
            r == Stats::empty(),
    {
        Stats { correct: 0, incorrect: 0, total: 0 }
    }

    /// Correct answers in whole percent of all answers, rounded down; 0
    /// before any answer.
    pub fn accuracy(&self) -> (r: usize)
        requires
            self.wf(),
        ensures
            r == self.percent(),
            r <= 100,
    {
        if self.total == 0 {
            0
        } else {
            let c = self.correct as u128;
            let t = self.total as u128;
            proof {
                let ci = c as int;
                let ti = t as int;
                assert(ci * 100 / ti <= 100) by (nonlinear_arith)
                    requires ci <= ti, ti > 0;
            }
            ((c * 100) / t) as usize
        }
    }
}

/// The trainer: the catalog of question sets, and the pass under way.
pub struct App {
    pub state: AppState,
    pub dictionaries: Vec<(String, Dictionary)>,
    pub selected_dict_index: usize,
    pub current_dict: Option<Dictionary>,
    pub current_item_index: usize,
    pub input: String,
    pub feedback: Option<(bool, String)>,
    pub stats: Stats,
    pub should_quit: bool,
}

impl App {
    /// The selection stays within the catalog; a set is held exactly
    /// outside selection, with a current question while training and all
    /// questions passed on the results screen; feedback only while
    /// training; at most one answer per question.
    pub open spec fn wf(&self) -> bool {
        &&& (self.dictionaries@.len() == 0 ==> self.selected_dict_index == 0)
        &&& (self.dictionaries@.len() > 0 ==> self.selected_dict_index < self.dictionaries@.len())
        &&& (self.state == AppState::SelectDictionary) == self.current_dict is None
        &&& (self.state == AppState::Training ==> self.current_item_index
            < self.current_dict->Some_0.items@.len())
        &&& (self.state == AppState::Results ==> self.current_item_index
            == self.current_dict->Some_0.items@.len())
        &&& (self.state != AppState::Training ==> self.feedback is None)
        &&& self.stats.wf()
        &&& self.stats.total <= self.current_item_index + if self.feedback is Some {
            1int
        } else {
            0int
        }
    }

    /// The question being asked.
    pub open spec fn current_entry(&self) -> DictionaryItem {
        self.current_dict->Some_0.items@[self.current_item_index as int]
    }

    /// `self` is `prev` after choosing the selected set: a pass over a copy
    /// of it from its first question with an empty tally, unless the catalog
    /// is empty or the set has no questions.
    pub open spec fn selected_from(&self, prev: App) -> bool {
        if prev.dictionaries@.len() == 0 || prev.dictionaries@[prev.selected_dict_index as int].1.items@.len()
            == 0 {
            *self == prev
        } else {
            &&& self.state == AppState::Training
            &&& self.current_dict is Some
            &&& self.current_dict->Some_0.content() == prev.dictionaries@[prev.selected_dict_index as int].1.content()
            &&& self.current_item_index == 0
            &&& self.stats == Stats::empty()
            &&& self.feedback is None
            &&& self.input@.len() == 0
            &&& self.dictionaries == prev.dictionaries
            &&& self.selected_dict_index == prev.selected_dict_index
            &&& self.should_quit == prev.should_quit
        }
    }

    /// `self` is `prev` with the selection one further down, wrapping.
    pub open spec fn moved_down_from(&self, prev: App) -> bool {
        *self == (App {
            selected_dict_index: if prev.dictionaries@.len() == 0 {
                0
            } else {
                ((prev.selected_dict_index + 1) % (prev.dictionaries@.len() as int)) as usize
            },
            ..prev
        })
    }

    /// `self` is `prev` with the selection one further up, wrapping.
    pub open spec fn moved_up_from(&self, prev: App) -> bool {
        *self == (App {
            selected_dict_index: if prev.dictionaries@.len() == 0 {
                0
            } else if prev.selected_dict_index == 0 {
                (prev.dictionaries@.len() - 1) as usize
            } else {
                (prev.selected_dict_index - 1) as usize
            },
            ..prev
        })
    }

    /// An answer is due: training, no feedback shown, something typed.
    pub open spec fn answer_due(&self) -> bool {
        self.state == AppState::Training && self.feedback is None && self.input@.len() > 0
    }

    /// `self` is `prev` after submitting the typed answer where one is due:
    /// the answer is checked against the current question and counted, the
    /// feedback shown and the input cleared.
    pub open spec fn submitted_from(&self, prev: App) -> bool {
        if !prev.answer_due() {
            *self == prev
        } else {
            let item = prev.current_entry();
            let correct = answer_matches(prev.input@, item.command@, views(item.aliases@));
            &&& self.feedback is Some
            &&& self.feedback->Some_0.0 == correct
            &&& self.feedback->Some_0.1@ == if correct {
                "Correct!"@
            } else {
                "Wrong! Expected: "@ + item.command@
            }
            &&& self.stats == (Stats {
                correct: if correct { (prev.stats.correct + 1) as usize } else { prev.stats.correct },
                incorrect: if correct { prev.stats.incorrect } else { (prev.stats.incorrect + 1) as usize },
                total: (prev.stats.total + 1) as usize,
            })
            &&& self.input@.len() == 0
            &&& *self == (App { feedback: self.feedback, stats: self.stats, input: self.input, ..prev })
        }
    }

    /// `self` is `prev` after moving past the current question while
    /// training: feedback cleared, and the results shown after the last one.
    pub open spec fn advanced_from(&self, prev: App) -> bool {
        if prev.state != AppState::Training {
            *self == prev
        } else {
            let next = prev.current_item_index + 1;
            &&& self.current_item_index == next
            &&& self.state == if next >= prev.current_dict->Some_0.items@.len() {
                AppState::Results
            } else {
                AppState::Training
            }
            &&& *self == (App {
                feedback: None,
                current_item_index: self.current_item_index,
                state: self.state,
                ..prev
            })
        }
    }

    /// `self` is `prev` back on the selection screen with an empty tally.
    pub open spec fn menu_from(&self, prev: App) -> bool {
        &&& self.state == AppState::SelectDictionary
        &&& self.current_dict is None
        &&& self.current_item_index == 0
        &&& self.input@.len() == 0
        &&& self.feedback is None
        &&& self.stats == Stats::empty()
        &&& self.dictionaries == prev.dictionaries
        &&& self.selected_dict_index == prev.selected_dict_index
        &&& self.should_quit == prev.should_quit
    }

    /// `self` is `prev` after one key: on the selection screen, arrows move,
    /// Enter chooses and `q` quits; while an answer is typed, characters and
    /// Backspace edit it, Enter submits it and Esc goes back; while feedback
    /// is shown, Enter moves on and Esc goes back; on the results screen,
    /// Enter goes back and `q` quits. Any other key changes nothing.
    pub open spec fn handled_from(&self, prev: App, key: Key) -> bool {
        if prev.state != AppState::Training && key == Key::Char('q') {
            *self == (App { should_quit: true, ..prev })
        } else {
            match prev.state {
                AppState::SelectDictionary => match key {
                    Key::Down => self.moved_down_from(prev),
                    Key::Up => self.moved_up_from(prev),
                    Key::Enter => self.selected_from(prev),
                    _ => *self == prev,
                },
                AppState::Results => match key {
                    Key::Enter => self.menu_from(prev),
                    _ => *self == prev,
                },
                AppState::Training => if prev.feedback is Some {
                    match key {
                        Key::Enter => self.advanced_from(prev),
                        Key::Esc => self.menu_from(prev),
                        _ => *self == prev,
                    }
                } else {
                    match key {
                        Key::Char(c) => {
                            &&& *self == (App { input: self.input, ..prev })
                            &&& self.input@ == prev.input@.push(c)
                        },
                        Key::Backspace => {
                            &&& *self == (App { input: self.input, ..prev })
                            &&& self.input@ == if prev.input@.len() == 0 {
                                prev.input@
                            } else {
                                prev.input@.drop_last()
                            }
                        },
                        Key::Enter => self.submitted_from(prev),
                        Key::Esc => self.menu_from(prev),
                        _ => *self == prev,
                    }
                },
            }
        }
    }

    /// A trainer on the selection screen over `dictionaries`.
    pub fn new(dictionaries: Vec<(String, Dictionary)>) -> (r: App)
        ensures
            r.wf(),
            r.state == AppState::SelectDictionary,
            r.dictionaries == dictionaries,
            r.selected_dict_index == 0,
            r.current_dict is None,
            r.current_item_index == 0,
            r.input@.len() == 0,
            r.feedback is None,
            r.stats == Stats::empty(),
            !r.should_quit,
    {
        App {
            state: AppState::SelectDictionary,
            dictionaries,
            selected_dict_index: 0,
            current_dict: None,
            current_item_index: 0,
            input: String::new(),
            feedback: None,
            stats: Stats::new(),
            should_quit: false,
        }
    }

    /// Starts a pass over the selected set from its first question with an
    /// empty tally. Nothing happens with an empty catalog or a set without
    /// questions.
    pub fn select_dictionary(&mut self)
        requires
            old(self).wf(),
        ensures
            final(self).wf(),
            final(self).selected_from(*old(self)),
    {
        if self.selected_dict_index >= self.dictionaries.len() {
            return;
        }
        let chosen = &self.dictionaries[self.selected_dict_index].1;
        if chosen.items.len() == 0 {
            return;
        }
        let copy = chosen.duplicate();
        self.current_dict = Some(copy);
        self.current_item_index = 0;
        self.stats = Stats::new();
        self.feedback = None;
        self.input = String::new();
        self.state = AppState::Training;
    }

    /// Moves the selection down by one, wrapping to the first set.
    pub fn next_dict(&mut self)
        requires
            old(self).wf(),
        ensures
            final(self).wf(),
            final(self).moved_down_from(*old(self)),
    {
        if self.dictionaries.len() > 0 {
            self.selected_dict_index = (self.selected_dict_index + 1) % self.dictionaries.len();
        }
    }

    /// Moves the selection up by one, wrapping to the last set.
    pub fn prev_dict(&mut self)
        requires
            old(self).wf(),
        ensures
            final(self).wf(),
            final(self).moved_up_from(*old(self)),
    {
        if self.dictionaries.len() > 0 {
            if self.selected_dict_index == 0 {
                self.selected_dict_index = self.dictionaries.len() - 1;
            } else {
                self.selected_dict_index = self.selected_dict_index - 1;
            }
        }
    }

    /// Checks the typed answer against the current question, counts it,
    /// shows the feedback and clears the input.
    pub fn submit_answer(&mut self)
        requires
            old(self).wf(),
        ensures
            final(self).wf(),
            final(self).submitted_from(*old(self)),
    {
        if self.state != AppState::Training || self.feedback.is_some() || self.input.as_str().is_empty() {
            return;
        }
        let (correct, message) = match &self.current_dict {
            Some(dict) => {
                // the count of questions fits in an index, and so does the tally
                let n = dict.items.len();
                assert(self.stats.total < n);
                let item = &dict.items[self.current_item_index];
                let correct = item.is_correct(self.input.as_str());
                let message = if correct {
                    String::from_str("Correct!")
                } else {
                    let mut m = String::from_str("Wrong! Expected: ");
                    m.append(item.command.as_str());
                    m
                };
                (correct, message)
            },
            None => {
                return;
            },
        };
        self.stats.total = self.stats.total + 1;
        if correct {
            self.stats.correct = self.stats.correct + 1;
        } else {
            self.stats.incorrect = self.stats.incorrect + 1;
        }
        self.feedback = Some((correct, message));
        self.input = String::new();
    }

    /// Clears the feedback and moves to the next question, or to the
    /// results once every question has been passed.
    pub fn next_question(&mut self)
        requires
            old(self).wf(),
        ensures
            final(self).wf(),
            final(self).advanced_from(*old(self)),
    {
        if self.state != AppState::Training {
            return;
        }
        self.feedback = None;
        match &self.current_dict {
            Some(dict) => {
                let n = dict.items.len();
                self.current_item_index = self.current_item_index + 1;
                if self.current_item_index >= n {
                    self.state = AppState::Results;
                }
            },
            None => {},
        }
    }

    /// Leaves the pass, if any, and returns to selection with an empty tally.
    pub fn back_to_menu(&mut self)
        requires
            old(self).wf(),
        ensures
            final(self).wf(),
            final(self).menu_from(*old(self)),
    {
        self.state = AppState::SelectDictionary;
        self.current_dict = None;
        self.current_item_index = 0;
        self.input = String::new();
        self.feedback = None;
        self.stats = Stats::new();
    }

    /// Applies one key press to the screen being shown; see `handled_from`.
    pub fn handle_key(&mut self, key: Key)
        requires
            old(self).wf(),
        ensures
            final(self).wf(),
            final(self).handled_from(*old(self), key),
    {
        match self.state {
            AppState::SelectDictionary => match key {
                Key::Char('q') => self.should_quit = true,
                Key::Down => self.next_dict(),
                Key::Up => self.prev_dict(),
                Key::Enter => self.select_dictionary(),
                _ => {},
            },
            AppState::Training => {
                if self.feedback.is_some() {
                    match key {
                        Key::Enter => self.next_question(),
                        Key::Esc => self.back_to_menu(),
                        _ => {},
                    }
                } else {
                    match key {
                        Key::Char(c) => push_char(&mut self.input, c),
                        Key::Backspace => {
                            pop_char(&mut self.input);
                        },
                        Key::Enter => self.submit_answer(),
                        Key::Esc => self.back_to_menu(),
                        _ => {},
                    }
                }
            },
            AppState::Results => match key {
                Key::Char('q') => self.should_quit = true,
                Key::Enter => self.back_to_menu(),
                _ => {},
            },
        }
    }
}

} // verus!
