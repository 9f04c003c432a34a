//! The training session: presentation order, cursor and running scores.

use vstd::prelude::*;
use rand::seq::SliceRandom;
use crate::dict::Dictionary;

verus! {

broadcast use vstd::seq_lib::group_to_multiset_ensures;

/// The identity order `[0, 1, ..., n - 1]`.
pub open spec fn identity_order(n: nat) -> Seq<usize> {
    Seq::new(n, |i: int| i as usize)
}

/// `order` presents each of the indices `0..n` exactly once.
pub open spec fn is_order_of(order: Seq<usize>, n: nat) -> bool {
    order.to_multiset() == identity_order(n).to_multiset()
}

/// Relies on rand's `SliceRandom::shuffle` over `thread_rng`: the slice is
/// permuted by swaps, so the result holds the same elements, in an order
/// that chance decides. `thread_rng` panics only where the operating
/// system gives no randomness at all.
#[verifier::external_body]
fn shuffled(order: Vec<usize>) -> (r: Vec<usize>)
    ensures
        r@.to_multiset() == order@.to_multiset(),
{
    let mut order = order;
    order.shuffle(&mut rand::thread_rng());
    order
}

/// Every entry of an order of `0..n` is below `n`.
proof fn lemma_order_entry_in_range(order: Seq<usize>, n: nat, i: int)
    requires
        is_order_of(order, n),
        0 <= i < order.len(),
    ensures
        order[i] < n,
{
    assert(order.contains(order[i]));
    assert(order.to_multiset().count(order[i]) > 0);
    assert(identity_order(n).to_multiset().count(order[i]) > 0);
    assert(identity_order(n).contains(order[i]));
    assert(exists|j: int| 0 <= j < n && #[trigger] identity_order(n)[j] == order[i]);
}

/// One operation on a session: scoring the current position, or moving on.
pub enum SessionStep {
    Score(bool),
    Advance,
}

/// A pass over a vocabulary set.
pub struct TrainingSession {
    pub current_index: usize,
    pub correct_count: usize,
    pub incorrect_count: usize,
    pub streak: usize,
    pub items_order: Vec<usize>,
}

impl TrainingSession {
    /// Number of items in the pass.
    pub open spec fn total(&self) -> nat {
        self.items_order@.len()
    }

    /// Number of scores recorded.
    pub open spec fn scored(&self) -> nat {
        (self.correct_count + self.incorrect_count) as nat
    }

    /// The cursor stays within the order, the order is a permutation of
    /// the item indices, each position is scored at most once (so at most
    /// the positions passed plus the current one), and the streak counts
    /// correct answers only.
    pub open spec fn wf(&self) -> bool {
        &&& 0 < self.total() <= usize::MAX
        &&& is_order_of(self.items_order@, self.total())
        &&& self.current_index <= self.total()
        &&& self.scored() <= self.current_index + 1
        &&& self.scored() <= self.total()
        &&& self.streak <= self.correct_count
    }

    /// Whether every position has been passed.
    pub open spec fn complete(&self) -> bool {
        self.current_index >= self.total()
    }

    /// The current position may still take a score.
    pub open spec fn can_score(&self) -> bool {
        !self.complete() && self.scored() <= self.current_index
    }

    /// The session after scoring the current position.
    pub open spec fn after_score(self, correct: bool) -> TrainingSession {
        if !self.can_score() {
            self
        } else if correct {
            TrainingSession {
                correct_count: (self.correct_count + 1) as usize,
                streak: (self.streak + 1) as usize,
                ..self
            }
        } else {
            TrainingSession { incorrect_count: (self.incorrect_count + 1) as usize, streak: 0, ..self }
        }
    }

    /// The session after moving to the next position.
    pub open spec fn after_advance(self) -> TrainingSession {
        if self.complete() {
            self
        } else {
            TrainingSession { current_index: (self.current_index + 1) as usize, ..self }
        }
    }

    /// The session after one step.
    pub open spec fn after_step(self, step: SessionStep) -> TrainingSession {
        match step {
            SessionStep::Score(correct) => self.after_score(correct),
            SessionStep::Advance => self.after_advance(),
        }
    }

    /// The session after the steps, in order.
    pub open spec fn after_steps(self, steps: Seq<SessionStep>) -> TrainingSession
        decreases steps.len(),
    {
        if steps.len() == 0 {
            self
        } else {
            self.after_steps(steps.drop_last()).after_step(steps.last())
        }
    }

    /// The success rate in whole percent, rounded down; 0 before any score.
    pub open spec fn rate(&self) -> nat {
        if self.scored() == 0 {
            0
        } else {
            (100 * self.correct_count as nat) / self.scored()
        }
    }

    /// A fresh session that presents the items in `order`.
    pub fn from_order(order: Vec<usize>) -> (r: TrainingSession)
        requires
            order@.len() > 0,
            is_order_of(order@, order@.len()),
        ensures
            r.wf(),
            r.items_order@ == order@,
            r.current_index == 0,
            r.correct_count == 0,
            r.incorrect_count == 0,
            r.streak == 0,
    {
        // the length of a vector fits in its index type
        let n = order.len();
        assert(order@.len() == n);
        TrainingSession {
            current_index: 0,
            correct_count: 0,
            incorrect_count: 0,
            streak: 0,
            items_order: order,
        }
    }

    /// A fresh session over the set's items, in their order, or in an
    /// order that chance decides where `shuffle` is set.
    pub fn new(dictionary: &Dictionary, shuffle: bool) -> (r: TrainingSession)
        requires
            dictionary.items.len() > 0,
        ensures
            r.wf(),
            r.total() == dictionary.items.len(),
            !shuffle ==> r.items_order@ == identity_order(dictionary.items.len() as nat),
            r.current_index == 0,
            r.correct_count == 0,
            r.incorrect_count == 0,
            r.streak == 0,
    {
        let n = dictionary.items.len();
        let mut order: Vec<usize> = Vec::new();
        let mut i: usize = 0;
        while i < n
            invariant
                i <= n,
                order@ == identity_order(i as nat),
            decreases n - i,
        {
            order.push(i);
            i = i + 1;
            assert(order@ =~= identity_order(i as nat));
        }
        if shuffle {
            let ghost before = order@;
            order = shuffled(order);
            assert(order@.len() == order@.to_multiset().len());
            assert(before.len() == before.to_multiset().len());
        }
        TrainingSession::from_order(order)
    }

    /// Number of items in the pass.
    pub fn total_items(&self) -> (r: usize)
        ensures
            r == self.total(),
    {
        self.items_order.len()
    }

    /// The index, in the set, of the item at the cursor.
    pub fn current_item_index(&self) -> (r: usize)
        requires
            self.wf(),
            !self.complete(),
        ensures
            r == self.items_order@[self.current_index as int],
            r < self.total(),
    {
        proof {
            lemma_order_entry_in_range(self.items_order@, self.total(), self.current_index as int);
        }
        self.items_order[self.current_index]
    }

    /// Records a correct answer for the current position, unless it has
    /// already been scored or the pass is complete.
    pub fn mark_correct(&mut self)
        requires
            old(self).wf(),
        ensures
            final(self).wf(),
            *final(self) == old(self).after_score(true),
    {
        if self.current_index < self.items_order.len()
            && self.correct_count + self.incorrect_count <= self.current_index {
            self.correct_count = self.correct_count + 1;
            self.streak = self.streak + 1;
        }
    }

    /// Records an incorrect answer for the current position, unless it has
    /// already been scored or the pass is complete.
    pub fn mark_incorrect(&mut self)
        requires
            old(self).wf(),
        ensures
            final(self).wf(),
            *final(self) == old(self).after_score(false),
    {
        if self.current_index < self.items_order.len()
            && self.correct_count + self.incorrect_count <= self.current_index {
            self.incorrect_count = self.incorrect_count + 1;
            self.streak = 0;
        }
    }

    /// Moves the cursor on by one, stopping at the end.
    pub fn next_item(&mut self)
        requires
            old(self).wf(),
        ensures
            final(self).wf(),
            *final(self) == old(self).after_advance(),
            final(self).scored() <= final(self).current_index,
    {
        if self.current_index < self.items_order.len() {
            self.current_index = self.current_index + 1;
        }
    }

    /// Whether every position has been passed.
    pub fn is_complete(&self) -> (r: bool)
        ensures
            r == self.complete(),
    {
        self.current_index >= self.items_order.len()
    }

    /// Correct answers as a share of the scores, in whole percent rounded
    /// down; 0 before any score.
    pub fn success_rate(&self) -> (r: usize)
        requires
            self.wf(),
        ensures
            r == self.rate(),
            r <= 100,
    {
        let n = self.items_order.len();
        assert(self.scored() <= n);
        let total = self.correct_count + self.incorrect_count;
        if total == 0 {
            0
        } else {
            let c = self.correct_count as u128;
            let t = total as u128;
            proof {
                let ci = c as int;
                let ti = t as int;
                assert(ci * 100 / ti <= 100) by (nonlinear_arith)
                    requires ci <= ti, ti > 0;
            }
            ((c * 100) / t) as usize
        }
    }
}

/// Every step keeps a session well formed.
pub proof fn lemma_step_keeps_wf(s: TrainingSession, step: SessionStep)
    requires
        s.wf(),
    ensures
        s.after_step(step).wf(),
{
}

/// Whatever scores and advances are applied to a session, the cursor never
/// passes the number of items, the scores never exceed the positions passed
/// plus the current one, and right after an advance they never exceed the
/// positions passed.
pub proof fn lemma_scores_within_cursor(s: TrainingSession, steps: Seq<SessionStep>)
    requires
        s.wf(),
    ensures
        s.after_steps(steps).wf(),
        s.after_steps(steps).current_index <= s.after_steps(steps).total(),
        s.after_steps(steps).scored() <= s.after_steps(steps).current_index + 1,
        steps.len() > 0 && steps.last() is Advance ==> s.after_steps(steps).scored()
            <= s.after_steps(steps).current_index,
    decreases steps.len(),
{
    if steps.len() > 0 {
        lemma_scores_within_cursor(s, steps.drop_last());
        lemma_step_keeps_wf(s.after_steps(steps.drop_last()), steps.last());
    }
}

/// Advancing a complete session changes nothing.
pub proof fn lemma_advance_complete_is_noop(s: TrainingSession)
    requires
        s.wf(),
        s.complete(),
    ensures
        s.after_advance() == s,
{
}

/// A correct score right after an incorrect one (with the move to the next
/// position between them) leaves a streak of one; two incorrect scores in
/// a row leave a streak of zero.
pub proof fn lemma_streak_after_incorrect(s: TrainingSession)
    requires
        s.wf(),
        s.can_score(),
    ensures
        s.after_score(false).streak == 0,
        s.after_score(false).after_score(false).streak == 0,
        s.after_score(false).after_advance().after_score(false).streak == 0,
        s.after_score(false).after_advance().can_score() ==> s.after_score(false).after_advance().after_score(
            true,
        ).streak == 1,
{
}

/// After an incorrect score the streak is zero. From there, another
/// incorrect score keeps it at zero and counts one more incorrect answer
/// where the position was still open; a correct score on an open position
/// brings it to one.
pub proof fn lemma_streak_from_zero(s: TrainingSession)
    requires
        s.wf(),
        s.streak == 0,
    ensures
        s.after_score(false).streak == 0,
        s.can_score() ==> s.after_score(false).incorrect_count == s.incorrect_count + 1,
        s.can_score() ==> s.after_score(true).streak == 1,
{
}

/// A session with no scores has a success rate of zero; one correct and
/// one incorrect score on its first two positions give fifty percent.
pub proof fn lemma_rate_fresh_and_even(s: TrainingSession)
    requires
        s.wf(),
        s.scored() == 0,
        s.current_index == 0,
        s.total() >= 2,
    ensures
        s.rate() == 0,
        s.after_score(true).after_advance().after_score(false).rate() == 50,
{
    let t = s.after_score(true).after_advance().after_score(false);
    assert(t.correct_count == 1 && t.incorrect_count == 1);
    assert((100 * 1nat) / 2nat == 50) by (nonlinear_arith);
}

} // verus!
