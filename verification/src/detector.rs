//! The speech-boundary state machine. Each poll classifies the latest
//! window of audio into a probability of speech; the machine debounces a
//! single below-threshold dip (`PossiblyEnded`) before confirming the end
//! of the utterance (`Ended`), which is terminal and raises the boundary
//! signal exactly once.

use vstd::prelude::*;

verus! {

/// Probabilities are parts-per-million: `PROB_UNIT` stands for `1.0`.
pub const PROB_UNIT: u32 = 1_000_000;

/// Default decision threshold, `0.75` of full confidence.
pub const DEFAULT_THRESHOLD_PPM: u32 = 750_000;

#[derive(Clone, Copy, PartialEq, Eq, Structural, Debug)]
pub enum DetectorState {
    /// No confirmed speech yet.
    Idle,
    /// Inside an utterance.
    Speaking,
    /// One below-threshold observation after speech.
    PossiblyEnded,
    /// Two consecutive below-threshold observations after speech; terminal.
    Ended,
}

/// The transition table, driven by whether the observed probability
/// reached the threshold.
pub open spec fn next_state(s: DetectorState, above: bool) -> DetectorState {
    match s {
        DetectorState::Idle => if above {
            DetectorState::Speaking
        } else {
            DetectorState::Idle
        },
        DetectorState::Speaking => if above {
            DetectorState::Speaking
        } else {
            DetectorState::PossiblyEnded
        },
        DetectorState::PossiblyEnded => if above {
            DetectorState::Speaking
        } else {
            DetectorState::Ended
        },
        DetectorState::Ended => DetectorState::Ended,
    }
}

/// How far the machine has progressed: silence before speech, somewhere
/// inside the utterance (`Speaking` and `PossiblyEnded` swap freely while
/// confidence dips and recovers), or confirmed end. Along any observation
/// sequence this progress never moves backwards.
pub open spec fn progress(s: DetectorState) -> nat {
    match s {
        DetectorState::Idle => 0,
        DetectorState::Speaking => 1,
        DetectorState::PossiblyEnded => 1,
        DetectorState::Ended => 2,
    }
}

/// Whether one observation makes the machine emit the boundary signal:
/// exactly the step that first enters `Ended`.
pub open spec fn step_emits(s: DetectorState, above: bool) -> bool {
    s != DetectorState::Ended && next_state(s, above) == DetectorState::Ended
}

/// The state after a whole sequence of observations.
pub open spec fn state_after(init: DetectorState, obs: Seq<bool>) -> DetectorState
    decreases obs.len(),
{
    if obs.len() == 0 {
        init
    } else {
        next_state(state_after(init, obs.drop_last()), obs.last())
    }
}

/// How many boundary signals a whole observation sequence emits.
pub open spec fn emit_count(init: DetectorState, obs: Seq<bool>) -> nat
    decreases obs.len(),
{
    if obs.len() == 0 {
        0
    } else {
        emit_count(init, obs.drop_last()) + if step_emits(
            state_after(init, obs.drop_last()),
            obs.last(),
        ) {
            1nat
        } else {
            0nat
        }
    }
}

/// One step never moves the machine's progress backwards.
pub proof fn lemma_step_progress_monotone(s: DetectorState, above: bool)
    ensures
        progress(next_state(s, above)) >= progress(s),
{
}

/// `Ended` is absorbing: once reached, every further observation leaves it.
pub proof fn lemma_ended_terminal(obs: Seq<bool>)
    ensures
        state_after(DetectorState::Ended, obs) == DetectorState::Ended,
    decreases obs.len(),
{
    if obs.len() > 0 {
        lemma_ended_terminal(obs.drop_last());
    }
}

/// Whatever probabilities are observed, the sequence of states the machine
/// passes through is monotone in its progress: a prefix of the observations
/// never leaves the machine further along than a longer prefix does. In
/// particular the machine never returns to `Idle` once speech is confirmed
/// and never leaves `Ended`.
pub proof fn lemma_run_monotone(init: DetectorState, obs: Seq<bool>, i: int, j: int)
    requires
        0 <= i <= j <= obs.len(),
    ensures
        progress(state_after(init, obs.take(i))) <= progress(state_after(init, obs.take(j))),
    decreases j - i,
{
    if i < j {
        lemma_run_monotone(init, obs, i, j - 1);
        let shorter = obs.take(j - 1);
        let longer = obs.take(j);
        assert(longer.drop_last() == shorter);
        lemma_step_progress_monotone(state_after(init, shorter), longer.last());
    }
}

/// The boundary signal is emitted exactly once over any run that reaches
/// `Ended`, and never over a run that does not: the emission count is one
/// precisely when the machine, started short of `Ended`, has arrived there.
pub proof fn lemma_signal_exactly_once(init: DetectorState, obs: Seq<bool>)
    ensures
        emit_count(init, obs) == if init != DetectorState::Ended && state_after(init, obs)
            == DetectorState::Ended {
            1nat
        } else {
            0nat
        },
    decreases obs.len(),
{
    if obs.len() > 0 {
        lemma_signal_exactly_once(init, obs.drop_last());
        if init == DetectorState::Ended {
            lemma_ended_terminal(obs.drop_last());
        }
    }
}

/// The signal comes exactly when `Ended` is first reached: the step after
/// any prefix of the observations emits precisely when that step lands in
/// `Ended` and the prefix had not arrived there yet.
pub proof fn lemma_signal_at_first_ended(init: DetectorState, obs: Seq<bool>, i: int)
    requires
        0 <= i < obs.len(),
    ensures
        step_emits(state_after(init, obs.take(i)), obs[i]) <==> (state_after(init, obs.take(i + 1))
            == DetectorState::Ended && state_after(init, obs.take(i)) != DetectorState::Ended),
{
    let longer = obs.take(i + 1);
    assert(longer.drop_last() == obs.take(i));
    assert(longer.last() == obs[i]);
}

/// The exec detector: the current state plus the immutable threshold it
/// compares each observed probability against.
pub struct Detector {
    state: DetectorState,
    threshold_ppm: u32,
}

impl Detector {
    pub closed spec fn state_spec(&self) -> DetectorState {
        self.state
    }

    pub closed spec fn threshold_spec(&self) -> u32 {
        self.threshold_ppm
    }

    /// A detector that has seen nothing yet.
    pub fn new(threshold_ppm: u32) -> (d: Detector)
        requires
            threshold_ppm <= PROB_UNIT,
        ensures
            d.state_spec() == DetectorState::Idle,
            d.threshold_spec() == threshold_ppm,
    {
        Detector { state: DetectorState::Idle, threshold_ppm }
    }

    pub fn state(&self) -> (s: DetectorState)
        ensures
            s == self.state_spec(),
    {
        self.state
    }

    pub fn threshold_ppm(&self) -> (t: u32)
        ensures
            t == self.threshold_spec(),
    {
        self.threshold_ppm
    }

    /// Whether the machine has confirmed the end of the utterance.
    pub fn is_ended(&self) -> (b: bool)
        ensures
            b == (self.state_spec() == DetectorState::Ended),
    {
        self.state == DetectorState::Ended
    }

    /// Advance by one observed probability. Returns whether this very step
    /// confirmed the end of the utterance, which happens at most once over
    /// the detector's lifetime.
    pub fn observe(&mut self, p_ppm: u32) -> (emitted: bool)
        requires
            p_ppm <= PROB_UNIT,
        ensures
            final(self).state_spec() == next_state(
                old(self).state_spec(),
                p_ppm >= old(self).threshold_spec(),
            ),
            final(self).threshold_spec() == old(self).threshold_spec(),
            emitted == step_emits(old(self).state_spec(), p_ppm >= old(self).threshold_spec()),
    {
        let above = p_ppm >= self.threshold_ppm;
        let before = self.state;
        self.state = match self.state {
            DetectorState::Idle => if above {
                DetectorState::Speaking
            } else {
                DetectorState::Idle
            },
            DetectorState::Speaking => if above {
                DetectorState::Speaking
            } else {
                DetectorState::PossiblyEnded
            },
            DetectorState::PossiblyEnded => if above {
                DetectorState::Speaking
            } else {
                DetectorState::Ended
            },
            DetectorState::Ended => DetectorState::Ended,
        };
        before != DetectorState::Ended && self.state == DetectorState::Ended
    }
}

} // verus!
