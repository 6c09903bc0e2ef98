//! History ledger: two parallel stacks that make "go back one step"
//! possible while keeping choice provenance consistent.
//!
//! `previous_stages` records every stage the reader departed from, whether
//! by plain forward progress or by a choice. `history` records the choice
//! events as `(from_stage, choice_index, to_stage)` triples. Popping a stage
//! also pops the top choice event exactly when that event was recorded for
//! the departure from the popped stage, so backtracking over a choice-driven
//! transition removes its record and backtracking over plain progress leaves
//! the record alone.

use vstd::prelude::*;

verus! {

/// How `go_back` relates the ledger before the call to the ledger after:
/// with no history, nothing happens; otherwise the top stage is popped and
/// returned, and the top choice event is popped with it exactly when it
/// recorded the departure from that stage.
pub open spec fn go_back_post(
    pre: DialogHistory,
    post: DialogHistory,
    r: Option<usize>,
) -> bool {
    if pre.stages().len() == 0 {
        &&& r is None
        &&& post.stages() == pre.stages()
        &&& post.events() == pre.events()
    } else {
        &&& r == Some(pre.stages().last())
        &&& post.stages() == pre.stages().drop_last()
        &&& post.events() == (
        if pre.events().len() > 0 && pre.events().last().0 == pre.stages().last() {
            pre.events().drop_last()
        } else {
            pre.events()
        })
    }
}

/// Append-only-with-pop ledger of visited stages and choice events.
pub struct DialogHistory {
    history: Vec<(usize, usize, usize)>,
    previous_stages: Vec<usize>,
}

impl Default for DialogHistory {
    /// An empty ledger.
    fn default() -> (r: DialogHistory)
        ensures
            r.events() == Seq::<(usize, usize, usize)>::empty(),
            r.stages() == Seq::<usize>::empty(),
    {
        DialogHistory { history: Vec::new(), previous_stages: Vec::new() }
    }
}

impl DialogHistory {
    /// The recorded choice events, oldest first.
    pub closed spec fn events(&self) -> Seq<(usize, usize, usize)> {
        self.history@
    }

    /// The stack of departed stages, oldest first.
    pub closed spec fn stages(&self) -> Seq<usize> {
        self.previous_stages@
    }

    /// An empty ledger: nothing to go back to.
    pub fn new() -> (r: DialogHistory)
        ensures
            r.events() == Seq::<(usize, usize, usize)>::empty(),
            r.stages() == Seq::<usize>::empty(),
    {
        DialogHistory { history: Vec::new(), previous_stages: Vec::new() }
    }

    /// Record a choice-driven transition: the event is appended and the
    /// departed stage pushed onto the stage stack.
    pub fn add_choice(&mut self, from_stage: usize, choice_index: usize, to_stage: usize)
        ensures
            final(self).events() == old(self).events().push((from_stage, choice_index, to_stage)),
            final(self).stages() == old(self).stages().push(from_stage),
    {
        self.history.push((from_stage, choice_index, to_stage));
        self.previous_stages.push(from_stage);
    }

    /// Record a plain forward transition away from `stage`.
    pub fn add_stage(&mut self, stage: usize)
        ensures
            final(self).events() == old(self).events(),
            final(self).stages() == old(self).stages().push(stage),
    {
        self.previous_stages.push(stage);
    }

    /// Pop the most recently departed stage, if any. When the top choice
    /// event was recorded for the departure from that stage, the event is
    /// popped with it, keeping the two stacks consistent.
    pub fn go_back(&mut self) -> (r: Option<usize>)
        ensures
            go_back_post(*old(self), *final(self), r),
    {
        if self.previous_stages.len() == 0 {
            return None;
        }

        let top_stage = self.previous_stages[self.previous_stages.len() - 1];
        if self.history.len() > 0 && self.history[self.history.len() - 1].0 == top_stage {
            self.history.pop();
        }

        self.previous_stages.pop()
    }

    /// How many choice events are recorded.
    pub fn event_count(&self) -> (r: usize)
        ensures
            r == self.events().len(),
    {
        self.history.len()
    }

    /// How many departed stages are recorded.
    pub fn stage_count(&self) -> (r: usize)
        ensures
            r == self.stages().len(),
    {
        self.previous_stages.len()
    }

    /// The most recently recorded choice event, if any.
    pub fn last_event(&self) -> (r: Option<(usize, usize, usize)>)
        ensures
            self.events().len() == 0 ==> r is None,
            self.events().len() > 0 ==> r == Some(self.events().last()),
    {
        if self.history.len() > 0 {
            Some(self.history[self.history.len() - 1])
        } else {
            None
        }
    }

    /// Forget all recorded history.
    pub fn clear(&mut self)
        ensures
            final(self).events() == Seq::<(usize, usize, usize)>::empty(),
            final(self).stages() == Seq::<usize>::empty(),
    {
        self.history.clear();
        self.previous_stages.clear();
    }
}

/// Back out one step: pop and hand back the most recently departed stage,
/// if any — "nothing to go back to" is a reported no-op, not an error.
pub fn handle_back_action(history: &mut DialogHistory) -> (r: Option<usize>)
    ensures
        go_back_post(*old(history), *final(history), r),
{
    history.go_back()
}

/// Round trip over plain forward progress: going back right after a stage
/// was recorded with `add_stage` returns exactly that stage — the stage
/// the reader departed from, which the caller reinstates directly.
pub proof fn lemma_go_back_restores_stage(
    h0: DialogHistory,
    h1: DialogHistory,
    h2: DialogHistory,
    from: usize,
    r: Option<usize>,
)
    requires
        h1.stages() == h0.stages().push(from),
        h1.events() == h0.events(),
        go_back_post(h1, h2, r),
    ensures
        r == Some(from),
        h2.stages() == h0.stages(),
{
    assert(h1.stages().drop_last() =~= h0.stages());
}

/// Round trip over a choice: going back right after a choice event was
/// recorded with `add_choice` returns the pre-choice stage and removes the
/// matching choice-event record, leaving both stacks as they were.
pub proof fn lemma_go_back_undoes_choice(
    h0: DialogHistory,
    h1: DialogHistory,
    h2: DialogHistory,
    from: usize,
    choice_index: usize,
    to: usize,
    r: Option<usize>,
)
    requires
        h1.stages() == h0.stages().push(from),
        h1.events() == h0.events().push((from, choice_index, to)),
        go_back_post(h1, h2, r),
    ensures
        r == Some(from),
        h2.stages() == h0.stages(),
        h2.events() == h0.events(),
{
    assert(h1.stages().drop_last() =~= h0.stages());
    assert(h1.events().drop_last() =~= h0.events());
}

} // verus!
