//! One recording session: the sample buffer, the boundary detector, and
//! the lifecycle around them. The capture side appends frames; the
//! detector side reads a tail window, is handed the classifier's
//! probability for it, advances the state machine and, while still idle,
//! trims the buffer to the configured lookback; once the boundary is
//! confirmed the orchestrator drains the buffer for the sink and the
//! transcription step and the session is finished for good.

use vstd::prelude::*;
use crate::buffer::SampleBuffer;
use crate::buffer::tail_window_spec;
use crate::buffer::trim_spec;
use crate::detector::DEFAULT_THRESHOLD_PPM;
use crate::detector::Detector;
use crate::detector::DetectorState;
use crate::detector::PROB_UNIT;
use crate::detector::next_state;
use crate::detector::step_emits;

verus! {

/// Default pre-speech lookback kept while idle, in seconds of audio.
pub const DEFAULT_LOOKBACK_SECONDS: u32 = 5;

/// Default classifier window: the trailing chunk submitted per poll.
pub const DEFAULT_WINDOW_SIZE: usize = 512;

/// Immutable per-session settings, fixed before capture begins.
pub struct SessionConfig {
    /// Decision threshold in parts-per-million of full confidence.
    pub threshold_ppm: u32,
    /// Seconds of pre-speech history retained while idle.
    pub lookback_seconds: u32,
    /// Number of trailing samples submitted to the classifier per poll.
    pub window_size: usize,
}

impl Default for SessionConfig {
    /// The stock configuration: threshold `0.75`, five seconds of
    /// lookback, a window of `512` samples.
    fn default() -> (c: SessionConfig)
        ensures
            c.threshold_ppm == DEFAULT_THRESHOLD_PPM,
            c.lookback_seconds == DEFAULT_LOOKBACK_SECONDS,
            c.window_size == DEFAULT_WINDOW_SIZE,
    {
        SessionConfig {
            threshold_ppm: DEFAULT_THRESHOLD_PPM,
            lookback_seconds: DEFAULT_LOOKBACK_SECONDS,
            window_size: DEFAULT_WINDOW_SIZE,
        }
    }
}

/// Lifecycle of one session; strictly forward, terminal once `Finished`.
#[derive(Clone, Copy, PartialEq, Eq, Structural, Debug)]
pub enum SessionPhase {
    /// Created, capture not yet negotiated.
    NotStarted,
    /// Frames flow in and the detector is being polled.
    Capturing,
    /// The buffer has been handed over; dispatch to the sink and the
    /// transcription step is in progress.
    Draining,
    /// Dispatch done; the session object is spent.
    Finished,
}

pub struct Session {
    phase: SessionPhase,
    detector: Detector,
    buffer: SampleBuffer,
    config: SessionConfig,
    sample_rate: u32,
    channels: u16,
    output_path: String,
}

impl Session {
    pub closed spec fn phase_spec(&self) -> SessionPhase {
        self.phase
    }

    pub closed spec fn detector_state_spec(&self) -> DetectorState {
        self.detector.state_spec()
    }

    pub closed spec fn buffer_spec(&self) -> Seq<i32> {
        self.buffer@
    }

    pub closed spec fn threshold_spec(&self) -> u32 {
        self.detector.threshold_spec()
    }

    pub closed spec fn lookback_seconds_spec(&self) -> u32 {
        self.config.lookback_seconds
    }

    pub closed spec fn window_size_spec(&self) -> usize {
        self.config.window_size
    }

    pub closed spec fn sample_rate_spec(&self) -> u32 {
        self.sample_rate
    }

    pub closed spec fn channels_spec(&self) -> u16 {
        self.channels
    }

    pub closed spec fn output_path_spec(&self) -> Seq<char> {
        self.output_path@
    }

    /// The trim cap while idle: the lookback in samples.
    pub open spec fn lookback_cap(&self) -> int {
        self.lookback_seconds_spec() as int * self.sample_rate_spec() as int
    }

    /// All the session settings, with the negotiated capture parameters,
    /// as they stand; the lifecycle methods never touch them.
    pub open spec fn settings_unchanged(pre: &Session, post: &Session) -> bool {
        &&& post.threshold_spec() == pre.threshold_spec()
        &&& post.lookback_seconds_spec() == pre.lookback_seconds_spec()
        &&& post.window_size_spec() == pre.window_size_spec()
        &&& post.sample_rate_spec() == pre.sample_rate_spec()
        &&& post.channels_spec() == pre.channels_spec()
        &&& post.output_path_spec() == pre.output_path_spec()
    }

    /// A fresh session: not started, detector idle, buffer empty, capture
    /// parameters at their defaults until negotiation records the real
    /// ones.
    pub fn new(config: SessionConfig) -> (s: Session)
        requires
            config.threshold_ppm <= PROB_UNIT,
        ensures
            s.phase_spec() == SessionPhase::NotStarted,
            s.detector_state_spec() == DetectorState::Idle,
            s.buffer_spec() == Seq::<i32>::empty(),
            s.threshold_spec() == config.threshold_ppm,
            s.lookback_seconds_spec() == config.lookback_seconds,
            s.window_size_spec() == config.window_size,
            s.sample_rate_spec() == 44100,
            s.channels_spec() == 1,
    {
        let detector = Detector::new(config.threshold_ppm);
        Session {
            phase: SessionPhase::NotStarted,
            detector,
            buffer: SampleBuffer::new(),
            config,
            sample_rate: 44100,
            channels: 1,
            output_path: String::new(),
        }
    }

    pub fn phase(&self) -> (p: SessionPhase)
        ensures
            p == self.phase_spec(),
    {
        self.phase
    }

    pub fn detector_state(&self) -> (d: DetectorState)
        ensures
            d == self.detector_state_spec(),
    {
        self.detector.state()
    }

    pub fn buffer_len(&self) -> (n: usize)
        ensures
            n == self.buffer_spec().len(),
    {
        self.buffer.len()
    }

    pub fn sample_rate(&self) -> (r: u32)
        ensures
            r == self.sample_rate_spec(),
    {
        self.sample_rate
    }

    pub fn channels(&self) -> (c: u16)
        ensures
            c == self.channels_spec(),
    {
        self.channels
    }

    pub fn output_path(&self) -> (p: &String)
        ensures
            p@ == self.output_path_spec(),
    {
        &self.output_path
    }

    /// Choose where the sink's output goes.
    pub fn set_path(&mut self, path: String)
        ensures
            final(self).output_path_spec() == path@,
            final(self).phase_spec() == old(self).phase_spec(),
            final(self).detector_state_spec() == old(self).detector_state_spec(),
            final(self).buffer_spec() == old(self).buffer_spec(),
            final(self).threshold_spec() == old(self).threshold_spec(),
            final(self).lookback_seconds_spec() == old(self).lookback_seconds_spec(),
            final(self).window_size_spec() == old(self).window_size_spec(),
            final(self).sample_rate_spec() == old(self).sample_rate_spec(),
            final(self).channels_spec() == old(self).channels_spec(),
    {
        self.output_path = path;
    }

    /// Record the capture parameters the subsystem negotiated and enter
    /// the capturing phase.
    pub fn begin(&mut self, sample_rate: u32, channels: u16)
        requires
            old(self).phase_spec() == SessionPhase::NotStarted,
        ensures
            final(self).phase_spec() == SessionPhase::Capturing,
            final(self).sample_rate_spec() == sample_rate,
            final(self).channels_spec() == channels,
            final(self).detector_state_spec() == old(self).detector_state_spec(),
            final(self).buffer_spec() == old(self).buffer_spec(),
            final(self).threshold_spec() == old(self).threshold_spec(),
            final(self).lookback_seconds_spec() == old(self).lookback_seconds_spec(),
            final(self).window_size_spec() == old(self).window_size_spec(),
            final(self).output_path_spec() == old(self).output_path_spec(),
    {
        self.sample_rate = sample_rate;
        self.channels = channels;
        self.phase = SessionPhase::Capturing;
    }

    /// Append one captured frame at the tail of the buffer. The ingest
    /// side only ever grows the buffer.
    pub fn ingest(&mut self, frames: &Vec<i32>)
        requires
            old(self).phase_spec() == SessionPhase::Capturing,
        ensures
            final(self).buffer_spec() == old(self).buffer_spec() + frames@,
            final(self).phase_spec() == old(self).phase_spec(),
            final(self).detector_state_spec() == old(self).detector_state_spec(),
            Session::settings_unchanged(old(self), final(self)),
    {
        self.buffer.append(frames);
    }

    /// Copy out the trailing classifier window, at most the configured
    /// window size, fewer when the buffer is still shorter.
    pub fn tail_window(&self) -> (w: Vec<i32>)
        ensures
            w@ == tail_window_spec(self.buffer_spec(), self.window_size_spec() as int),
    {
        self.buffer.tail_window(self.config.window_size)
    }

    /// One detector poll with the classifier's probability for the latest
    /// window. Advances the state machine by the transition table; while
    /// still idle on a below-threshold observation, trims the buffer to
    /// the lookback cap, so silence never holds more than the lookback.
    /// Returns whether this very poll confirmed the end of the utterance.
    pub fn poll(&mut self, p_ppm: u32) -> (emitted: bool)
        requires
            old(self).phase_spec() == SessionPhase::Capturing,
            p_ppm <= PROB_UNIT,
        ensures
            final(self).detector_state_spec() == next_state(
                old(self).detector_state_spec(),
                p_ppm >= old(self).threshold_spec(),
            ),
            emitted == step_emits(
                old(self).detector_state_spec(),
                p_ppm >= old(self).threshold_spec(),
            ),
            final(self).buffer_spec() == if old(self).detector_state_spec() == DetectorState::Idle
                && p_ppm < old(self).threshold_spec() {
                trim_spec(old(self).buffer_spec(), old(self).lookback_cap())
            } else {
                old(self).buffer_spec()
            },
            old(self).detector_state_spec() == DetectorState::Idle && p_ppm < old(
                self,
            ).threshold_spec() ==> final(self).buffer_spec().len() <= old(self).lookback_cap(),
            final(self).phase_spec() == old(self).phase_spec(),
            Session::settings_unchanged(old(self), final(self)),
    {
        let idle_silence = self.detector.state() == DetectorState::Idle && p_ppm
            < self.detector.threshold_ppm();
        let emitted = self.detector.observe(p_ppm);
        if idle_silence {
            self.buffer.trim_prefix_to_last(self.config.lookback_seconds, self.sample_rate);
        }
        emitted
    }

    /// Atomically hand the whole captured span over for dispatch. The
    /// buffer is observably empty from here on and the session is
    /// draining: the audio is consumed, so dispatch failures downstream
    /// can be reported but nothing is rolled back.
    pub fn drain_for_dispatch(&mut self) -> (span: Vec<i32>)
        requires
            old(self).phase_spec() == SessionPhase::Capturing,
        ensures
            span@ == old(self).buffer_spec(),
            final(self).buffer_spec() == Seq::<i32>::empty(),
            final(self).phase_spec() == SessionPhase::Draining,
            final(self).detector_state_spec() == old(self).detector_state_spec(),
            Session::settings_unchanged(old(self), final(self)),
    {
        self.phase = SessionPhase::Draining;
        self.buffer.drain()
    }

    /// Dispatch is over, however it went: the session is finished and the
    /// object is spent.
    pub fn complete(&mut self)
        requires
            old(self).phase_spec() == SessionPhase::Draining,
        ensures
            final(self).phase_spec() == SessionPhase::Finished,
            final(self).buffer_spec() == old(self).buffer_spec(),
            final(self).detector_state_spec() == old(self).detector_state_spec(),
            Session::settings_unchanged(old(self), final(self)),
    {
        self.phase = SessionPhase::Finished;
    }

    /// Abort: discard anything buffered and finish the session at once.
    pub fn stop(&mut self)
        ensures
            final(self).buffer_spec() == Seq::<i32>::empty(),
            final(self).phase_spec() == SessionPhase::Finished,
            final(self).detector_state_spec() == old(self).detector_state_spec(),
            Session::settings_unchanged(old(self), final(self)),
    {
        let _discarded = self.buffer.drain();
        self.phase = SessionPhase::Finished;
    }
}

} // verus!
