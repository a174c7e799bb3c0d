//! The order of a recording session's steps.
//!
//! The program around the session performs the step that [`Session::stage`]
//! names and reports with [`Session::advance`] whether it succeeded. Setup
//! runs in a fixed order: query the terminal, open the pseudo-terminal,
//! fork, open the transcript, enter raw mode. A failed setup step aborts the
//! session before the terminal's mode is touched; once raw mode is entered,
//! the session always ends by restoring it, also where the switch to raw
//! mode itself failed.
use vstd::prelude::*;

verus! {

/// A step of the session, or its end.
#[derive(PartialEq, Eq, Structural, Clone, Copy, Debug)]
pub enum Stage {
    /// Read the terminal's settings and window size.
    QueryTerminal,
    /// Open a pseudo-terminal pair.
    OpenPty,
    /// Fork the child that runs the shell.
    Fork,
    /// Open the transcript file.
    OpenTranscript,
    /// Put the user's terminal in raw mode.
    EnterRaw,
    /// Run the relay until one side closes.
    Relay,
    /// Put the terminal's original settings back.
    Restore,
    /// The session ended after restoring the terminal.
    Finished,
    /// Setup failed; the terminal was not changed.
    Aborted,
}

/// The stage that follows `s` when its step succeeded (`ok`) or failed.
pub open spec fn next_stage(s: Stage, ok: bool) -> Stage {
    match s {
        Stage::QueryTerminal => if ok {
            Stage::OpenPty
        } else {
            Stage::Aborted
        },
        Stage::OpenPty => if ok {
            Stage::Fork
        } else {
            Stage::Aborted
        },
        Stage::Fork => if ok {
            Stage::OpenTranscript
        } else {
            Stage::Aborted
        },
        Stage::OpenTranscript => if ok {
            Stage::EnterRaw
        } else {
            Stage::Aborted
        },
        Stage::EnterRaw => if ok {
            Stage::Relay
        } else {
            Stage::Restore
        },
        Stage::Relay => Stage::Restore,
        Stage::Restore => Stage::Finished,
        Stage::Finished => Stage::Finished,
        Stage::Aborted => Stage::Aborted,
    }
}

/// The stage reached from the start after the first `n` outcomes.
pub open spec fn stage_after(outcomes: Seq<bool>, n: nat) -> Stage
    decreases n,
{
    if n == 0 {
        Stage::QueryTerminal
    } else {
        next_stage(stage_after(outcomes, (n - 1) as nat), outcomes[n - 1])
    }
}

/// Whether the terminal's mode may have been changed at this stage.
pub open spec fn mode_touched(s: Stage) -> bool {
    s == Stage::EnterRaw || s == Stage::Relay || s == Stage::Restore || s == Stage::Finished
}

/// The state of a session.
#[derive(Debug)]
pub struct Session {
    stage: Stage,
}

impl Session {
    /// The stage that the session is at.
    pub closed spec fn current(&self) -> Stage {
        self.stage
    }

    /// A session at its first step.
    pub fn new() -> (r: Session)
        ensures
            r.current() == Stage::QueryTerminal,
    {
        Session { stage: Stage::QueryTerminal }
    }

    /// The step to perform now.
    pub fn stage(&self) -> (r: Stage)
        ensures
            r == self.current(),
    {
        self.stage
    }

    /// Whether the session has ended, one way or the other.
    pub fn is_over(&self) -> (r: bool)
        ensures
            r == (self.current() == Stage::Finished || self.current() == Stage::Aborted),
    {
        self.stage == Stage::Finished || self.stage == Stage::Aborted
    }

    /// Records whether the current step succeeded and moves to the next.
    pub fn advance(&mut self, ok: bool) -> (r: Stage)
        ensures
            final(self).current() == next_stage(old(self).current(), ok),
            r == final(self).current(),
    {
        let next = match self.stage {
            Stage::QueryTerminal => if ok {
                Stage::OpenPty
            } else {
                Stage::Aborted
            },
            Stage::OpenPty => if ok {
                Stage::Fork
            } else {
                Stage::Aborted
            },
            Stage::Fork => if ok {
                Stage::OpenTranscript
            } else {
                Stage::Aborted
            },
            Stage::OpenTranscript => if ok {
                Stage::EnterRaw
            } else {
                Stage::Aborted
            },
            Stage::EnterRaw => if ok {
                Stage::Relay
            } else {
                Stage::Restore
            },
            Stage::Relay => Stage::Restore,
            Stage::Restore => Stage::Finished,
            Stage::Finished => Stage::Finished,
            Stage::Aborted => Stage::Aborted,
        };
        self.stage = next;
        next
    }
}

/// The terminal's mode is touched only after the transcript was opened: at
/// any point of any run, if the mode may have been changed, then the step
/// that opens the transcript was reached and succeeded earlier.
pub proof fn lemma_raw_only_after_transcript(outcomes: Seq<bool>, n: nat)
    requires
        n <= outcomes.len(),
    ensures
        mode_touched(stage_after(outcomes, n)) ==> exists|j: nat|
            j < n && #[trigger] stage_after(outcomes, j) == Stage::OpenTranscript && outcomes[j as int],
    decreases n,
{
    if n > 0 && mode_touched(stage_after(outcomes, n)) {
        let prev = stage_after(outcomes, (n - 1) as nat);
        if prev == Stage::OpenTranscript {
            assert(stage_after(outcomes, (n - 1) as nat) == Stage::OpenTranscript && outcomes[n - 1]);
        } else {
            lemma_raw_only_after_transcript(outcomes, (n - 1) as nat);
        }
    }
}

/// A failed setup step ends the session at once and for good: the stages
/// that follow are all `Aborted`, so the terminal's mode is never touched.
pub proof fn lemma_failed_setup_aborts(outcomes: Seq<bool>, i: nat, n: nat)
    requires
        i < n <= outcomes.len(),
        !outcomes[i as int],
        !mode_touched(stage_after(outcomes, i)),
    ensures
        stage_after(outcomes, n) == Stage::Aborted,
        !mode_touched(stage_after(outcomes, n)),
    decreases n - i,
{
    if n == i + 1 {
    } else {
        lemma_failed_setup_aborts(outcomes, i, (n - 1) as nat);
    }
}

} // verus!
