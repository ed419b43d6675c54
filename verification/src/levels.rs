//! Which level is loaded, and when the next one is.
//!
//! The levels are numbered from zero and follow each other in a ring. The
//! functions here decide the number of the level to show; loading it is left
//! to the caller, who is handed that number.

use vstd::arithmetic::div_mod::{lemma_mod_self_0, lemma_small_mod};
use vstd::prelude::*;

verus! {

/// The number of levels that the game comes with.
pub const LEVEL_COUNT: usize = 3;

/// What a level state holds, as numbers without bounds.
pub struct LevelView {
    pub current_level_index: nat,
    pub max_levels: nat,
    pub level_is_populated: bool,
}

impl LevelView {
    /// The state before any level was loaded: the first of `max_levels`
    /// levels, not yet populated.
    pub open spec fn first(max_levels: nat) -> LevelView {
        LevelView { current_level_index: 0, max_levels, level_is_populated: false }
    }

    /// What holds of every level state: the current level is one of the
    /// levels.
    pub open spec fn wf(self) -> bool {
        self.current_level_index < self.max_levels
    }

    /// The level that follows the current one, the first after the last.
    pub open spec fn next_index(self) -> nat
        recommends
            self.max_levels > 0,
    {
        (self.current_level_index + 1) % self.max_levels
    }

    /// The level has its collectibles.
    pub open spec fn populated(self) -> LevelView {
        LevelView { level_is_populated: true, ..self }
    }

    /// A request for the next level: granted where the level is populated,
    /// and ignored where it is not.
    pub open spec fn advanced(self) -> LevelView {
        if self.level_is_populated {
            LevelView {
                current_level_index: self.next_index(),
                level_is_populated: false,
                ..self
            }
        } else {
            self
        }
    }

    /// `requests` requests for the next level, one after the other.
    pub open spec fn after_requests(self, requests: nat) -> LevelView
        decreases requests,
    {
        if requests == 0 {
            self
        } else {
            self.advanced().after_requests((requests - 1) as nat)
        }
    }

    /// Back to the first level, which is yet to be populated.
    pub open spec fn restarted(self) -> LevelView {
        LevelView { current_level_index: 0, level_is_populated: false, ..self }
    }
}

/// The level that is shown, the number of levels, and whether the level that
/// is shown has been populated.
#[derive(Clone, Copy, Debug)]
pub struct LevelState {
    current_level: usize,
    max_levels: usize,
    level_is_populated: bool,
}

impl View for LevelState {
    type V = LevelView;

    closed spec fn view(&self) -> LevelView {
        LevelView {
            current_level_index: self.current_level as nat,
            max_levels: self.max_levels as nat,
            level_is_populated: self.level_is_populated,
        }
    }
}

impl Default for LevelState {
    /// The first level of the levels that the game comes with.
    fn default() -> (state: LevelState)
        ensures
            state@ == LevelView::first(LEVEL_COUNT as nat),
    {
        LevelState { current_level: 0, max_levels: LEVEL_COUNT, level_is_populated: false }
    }
}

impl LevelState {
    #[verifier::type_invariant]
    pub(crate) closed spec fn inv(self) -> bool {
        self.current_level < self.max_levels
    }

    /// A state that keeps its invariant has a well formed view.
    pub(crate) proof fn lemma_inv_is_wf(self)
        requires
            self.inv(),
        ensures
            self@.wf(),
    {
    }

    /// The first of `max_levels` levels, or nothing where there is no level.
    pub fn new(max_levels: usize) -> (state: Option<LevelState>)
        ensures
            max_levels == 0 <==> state is None,
            state matches Some(s) ==> s@ == LevelView::first(max_levels as nat),
    {
        if max_levels == 0 {
            None
        } else {
            Some(LevelState { current_level: 0, max_levels, level_is_populated: false })
        }
    }

    /// The number of the level that is shown.
    pub fn current_level_index(&self) -> (index: usize)
        ensures
            index == self@.current_level_index,
            index < self@.max_levels,
    {
        proof {
            use_type_invariant(self);
        }
        self.current_level
    }

    /// The number of levels.
    pub fn max_levels(&self) -> (count: usize)
        ensures
            count == self@.max_levels,
            count > 0,
    {
        proof {
            use_type_invariant(self);
        }
        self.max_levels
    }

    /// Whether the level that is shown has been populated.
    pub fn level_is_populated(&self) -> (populated: bool)
        ensures
            populated == self@.level_is_populated,
    {
        self.level_is_populated
    }

    /// Notes that the level that is shown has its collectibles. Noting it
    /// again changes nothing.
    pub fn mark_level_populated(&mut self)
        ensures
            final(self)@ == old(self)@.populated(),
            final(self)@.wf(),
    {
        proof {
            use_type_invariant(&*self);
        }
        self.level_is_populated = true;
    }

    /// Asks for the next level. Where the level that is shown is populated,
    /// the next level becomes the current one, not yet populated, and its
    /// number is returned for the caller to load. Where it is not, the
    /// request is ignored and nothing is returned.
    pub fn request_advance(&mut self) -> (switch_to: Option<usize>)
        ensures
            final(self)@ == old(self)@.advanced(),
            final(self)@.wf(),
            switch_to == if old(self)@.level_is_populated {
                Some(old(self)@.next_index() as usize)
            } else {
                None
            },
    {
        proof {
            use_type_invariant(&*self);
            lemma_level_stays_in_range(self@);
        }
        if self.level_is_populated {
            let next: usize = if self.current_level + 1 == self.max_levels {
                0
            } else {
                self.current_level + 1
            };
            self.current_level = next;
            self.level_is_populated = false;
            Some(next)
        } else {
            None
        }
    }

    /// Goes back to the first level, which is yet to be populated. Returns
    /// its number, zero, for the caller to load.
    pub fn request_reset(&mut self) -> (switch_to: usize)
        ensures
            final(self)@ == old(self)@.restarted(),
            final(self)@.wf(),
            switch_to == 0,
    {
        proof {
            use_type_invariant(&*self);
        }
        self.current_level = 0;
        self.level_is_populated = false;
        0
    }
}

/// Answers the requests for the next level that came in one tick. Returns
/// the number of the level to load, if the level changed.
pub fn change_level(requests: usize, level_state: &mut LevelState) -> (switch_to: Option<usize>)
    ensures
        final(level_state)@ == old(level_state)@.after_requests(requests as nat),
        final(level_state)@.wf(),
        switch_to == if requests > 0 && old(level_state)@.level_is_populated {
            Some(old(level_state)@.next_index() as usize)
        } else {
            None
        },
{
    let mut switch_to: Option<usize> = None;
    let mut done: usize = 0;
    proof {
        use_type_invariant(&*level_state);
    }
    while done < requests
        invariant
            done <= requests,
            old(level_state)@.wf(),
            level_state@.wf(),
            level_state@ == old(level_state)@.after_requests(done as nat),
            done > 0 ==> !level_state@.level_is_populated,
            switch_to == if done > 0 && old(level_state)@.level_is_populated {
                Some(old(level_state)@.next_index() as usize)
            } else {
                None
            },
        decreases requests - done,
    {
        proof {
            lemma_requests_one_more(old(level_state)@, done as nat);
        }
        let answer = level_state.request_advance();
        if answer.is_some() {
            switch_to = answer;
        }
        done = done + 1;
    }
    switch_to
}

/// Answers the requests for a restart that came in one tick. Returns the
/// number of the level to load, zero, if there was a request.
pub fn reset_level(requests: usize, level_state: &mut LevelState) -> (switch_to: Option<usize>)
    ensures
        final(level_state)@ == if requests > 0 {
            old(level_state)@.restarted()
        } else {
            old(level_state)@
        },
        final(level_state)@.wf(),
        switch_to == if requests > 0 {
            Some(0usize)
        } else {
            None
        },
{
    proof {
        use_type_invariant(&*level_state);
    }
    if requests > 0 {
        Some(level_state.request_reset())
    } else {
        None
    }
}

/// One request more is one more request at the end.
pub proof fn lemma_requests_one_more(level: LevelView, requests: nat)
    ensures
        level.after_requests(requests + 1) == level.after_requests(requests).advanced(),
    decreases requests,
{
    if requests > 0 {
        lemma_requests_one_more(level.advanced(), (requests - 1) as nat);
        assert(level.after_requests(requests) == level.advanced().after_requests(
            (requests - 1) as nat,
        ));
        assert(level.after_requests(requests + 1) == level.advanced().after_requests(requests));
    } else {
        assert(level.after_requests(1) == level.advanced().after_requests(0));
    }
}

/// Of the requests for the next level that come before the level is
/// populated again, only the first counts.
pub proof fn lemma_only_first_request_counts(level: LevelView, requests: nat)
    requires
        requests > 0,
    ensures
        level.after_requests(requests) == level.advanced(),
    decreases requests,
{
    if requests > 1 {
        lemma_only_first_request_counts(level, (requests - 1) as nat);
        lemma_requests_one_more(level, (requests - 1) as nat);
    } else {
        assert(level.after_requests(1) == level.advanced().after_requests(0));
    }
}

/// Noting twice that the level is populated is the same as noting it once.
pub proof fn lemma_mark_populated_is_idempotent(level: LevelView)
    ensures
        level.populated().populated() == level.populated(),
{
}

/// The current level stays one of the levels, whatever is asked for.
pub proof fn lemma_level_stays_in_range(level: LevelView)
    requires
        level.wf(),
    ensures
        level.populated().wf(),
        level.advanced().wf(),
        level.restarted().wf(),
        level.next_index() < level.max_levels,
        level.next_index() == if level.current_level_index + 1 == level.max_levels {
            0
        } else {
            level.current_level_index + 1
        },
{
    if level.current_level_index + 1 == level.max_levels {
        lemma_mod_self_0(level.max_levels as int);
    } else {
        lemma_small_mod((level.current_level_index + 1) as nat, level.max_levels);
    }
}

/// A request for the next level before the level is populated changes
/// nothing.
pub proof fn lemma_advance_waits_for_population(level: LevelView)
    requires
        !level.level_is_populated,
    ensures
        level.advanced() == level,
{
}

/// After a restart, once the level is populated, a request for the next level
/// leads to level one, or to level zero where there is only one level; and
/// that level is yet to be populated.
pub proof fn lemma_restart_then_advance(level: LevelView)
    requires
        level.wf(),
    ensures
        level.restarted().populated().advanced().current_level_index == 1nat % level.max_levels,
        !level.restarted().populated().advanced().level_is_populated,
        level.restarted().populated().advanced().max_levels == level.max_levels,
        level.restarted().advanced() == level.restarted(),
{
}

} // verus!
