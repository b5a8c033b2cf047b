//! Trying candidates in a fixed order until one succeeds.
//!
//! The candidates are numbered from 0. The caller makes each attempt and
//! reports how it went; the trial says which candidate is next and, at the
//! end, which one succeeded first. No candidate behind the first success is
//! ever tried.

use vstd::prelude::*;

verus! {

/// Where a trial stands.
#[derive(Clone, Copy, Debug, PartialEq, Eq, Structural)]
pub enum Trial {
    /// The candidate with this number is to be tried next.
    Try(usize),
    /// The candidate with this number succeeded, and none before it did.
    Accepted(usize),
    /// Every candidate was tried and none succeeded.
    Exhausted,
}

/// The trial over `count` candidates before any attempt.
pub open spec fn started(count: usize) -> Trial {
    if count > 0 {
        Trial::Try(0)
    } else {
        Trial::Exhausted
    }
}

/// The trial after the attempt that `state` asked for has `succeeded` or
/// not. A trial that is over stays as it is.
pub open spec fn advanced(state: Trial, count: usize, succeeded: bool) -> Trial {
    match state {
        Trial::Try(index) => if index >= count {
            Trial::Exhausted
        } else if succeeded {
            Trial::Accepted(index)
        } else if index + 1 < count {
            Trial::Try((index + 1) as usize)
        } else {
            Trial::Exhausted
        },
        _ => state,
    }
}

/// How many attempts a trial in `state` can still ask for.
pub open spec fn attempts_left(state: Trial, count: usize) -> nat {
    match state {
        Trial::Try(index) => if index < count {
            (count - index) as nat
        } else {
            1
        },
        _ => 0,
    }
}

/// Where the trial over `count` candidates ends that starts in `state`,
/// when the attempt on candidate `i` goes as `outcomes[i]` says.
pub open spec fn finished(state: Trial, count: usize, outcomes: Seq<bool>) -> Trial
    decreases attempts_left(state, count),
{
    match state {
        Trial::Try(index) => finished(
            advanced(state, count, index < outcomes.len() && outcomes[index as int]),
            count,
            outcomes,
        ),
        _ => state,
    }
}

/// `index` is the first candidate that succeeds.
pub open spec fn is_first_success(outcomes: Seq<bool>, index: int) -> bool {
    &&& 0 <= index < outcomes.len()
    &&& outcomes[index]
    &&& forall|earlier: int| 0 <= earlier < index ==> !outcomes[earlier]
}

impl Trial {
    /// Starts a trial over `count` candidates.
    pub fn start(count: usize) -> (r: Trial)
        ensures
            r == started(count),
    {
        if count > 0 {
            Trial::Try(0)
        } else {
            Trial::Exhausted
        }
    }

    /// The candidate to try next; `None` once the trial is over.
    pub fn pending(self) -> (r: Option<usize>)
        ensures
            r == match self {
                Trial::Try(index) => Some(index),
                _ => None,
            },
    {
        match self {
            Trial::Try(index) => Some(index),
            _ => None,
        }
    }

    /// The candidate that succeeded; `None` while the trial goes on and
    /// where none did.
    pub fn winner(self) -> (r: Option<usize>)
        ensures
            r == match self {
                Trial::Accepted(index) => Some(index),
                _ => None,
            },
    {
        match self {
            Trial::Accepted(index) => Some(index),
            _ => None,
        }
    }

    /// Takes note of how the pending attempt went, in a trial over `count`
    /// candidates.
    pub fn advance(self, count: usize, succeeded: bool) -> (r: Trial)
        ensures
            r == advanced(self, count, succeeded),
    {
        match self {
            Trial::Try(index) => {
                if index >= count {
                    Trial::Exhausted
                } else if succeeded {
                    Trial::Accepted(index)
                } else if index + 1 < count {
                    Trial::Try(index + 1)
                } else {
                    Trial::Exhausted
                }
            },
            _ => self,
        }
    }
}

/// A trial that was carried through accepts the first candidate that
/// succeeds, and is exhausted where none does.
pub proof fn lemma_trial_finds_first(count: usize, outcomes: Seq<bool>)
    requires
        outcomes.len() == count,
    ensures
        match finished(started(count), count, outcomes) {
            Trial::Accepted(index) => is_first_success(outcomes, index as int),
            Trial::Exhausted => forall|index: int| 0 <= index < outcomes.len() ==> !outcomes[index],
            Trial::Try(_) => false,
        },
{
    if count > 0 {
        lemma_finished_from(count, outcomes, 0);
    }
}

/// The same, for a trial that has come to candidate `from` without a
/// success.
proof fn lemma_finished_from(count: usize, outcomes: Seq<bool>, from: usize)
    requires
        from < count == outcomes.len(),
        forall|earlier: int| 0 <= earlier < from ==> !outcomes[earlier],
    ensures
        match finished(Trial::Try(from), count, outcomes) {
            Trial::Accepted(index) => is_first_success(outcomes, index as int),
            Trial::Exhausted => forall|index: int| 0 <= index < outcomes.len() ==> !outcomes[index],
            Trial::Try(_) => false,
        },
    decreases outcomes.len() - from,
{
    let next = advanced(Trial::Try(from), count, outcomes[from as int]);
    assert(finished(Trial::Try(from), count, outcomes) == finished(next, count, outcomes));
    if !outcomes[from as int] && from + 1 < count {
        lemma_finished_from(count, outcomes, (from + 1) as usize);
    } else {
        assert(finished(next, count, outcomes) == next);
    }
}

} // verus!
