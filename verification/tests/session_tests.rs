use speech_sampler::detector::DetectorState;
use speech_sampler::session::Session;
use speech_sampler::session::SessionConfig;
use speech_sampler::session::SessionPhase;
use speech_sampler::session::DEFAULT_LOOKBACK_SECONDS;
use speech_sampler::session::DEFAULT_WINDOW_SIZE;
use speech_sampler::transcript::concat_segments;

fn config(threshold_ppm: u32, lookback_seconds: u32, window_size: usize) -> SessionConfig {
    SessionConfig { threshold_ppm, lookback_seconds, window_size }
}

#[test]
fn lifecycle_runs_forward_only() {
    let mut s = Session::new(SessionConfig::default());
    assert_eq!(s.phase(), SessionPhase::NotStarted);
    assert_eq!(s.detector_state(), DetectorState::Idle);
    assert_eq!(s.sample_rate(), 44_100);
    assert_eq!(s.channels(), 1);

    s.begin(16_000, 1);
    assert_eq!(s.phase(), SessionPhase::Capturing);
    assert_eq!(s.sample_rate(), 16_000);

    s.ingest(&vec![1, 2, 3]);
    let span = s.drain_for_dispatch();
    assert_eq!(span, vec![1, 2, 3]);
    assert_eq!(s.phase(), SessionPhase::Draining);
    assert_eq!(s.buffer_len(), 0);

    s.complete();
    assert_eq!(s.phase(), SessionPhase::Finished);
}

#[test]
fn default_configuration_matches_the_stock_settings() {
    let c = SessionConfig::default();
    assert_eq!(c.threshold_ppm, 750_000);
    assert_eq!(c.lookback_seconds, DEFAULT_LOOKBACK_SECONDS);
    assert_eq!(c.window_size, DEFAULT_WINDOW_SIZE);
}

#[test]
fn set_path_is_remembered() {
    let mut s = Session::new(SessionConfig::default());
    s.set_path("out.wav".to_string());
    assert_eq!(s.output_path(), "out.wav");
}

#[test]
fn idle_silence_keeps_buffer_within_lookback() {
    // Probability stays below threshold indefinitely: after every poll the
    // buffer never holds more than lookback_seconds * sample_rate samples.
    let mut s = Session::new(config(750_000, 1, 512));
    s.begin(16_000, 1);
    for _ in 0..5 {
        s.ingest(&vec![0; 16_000]);
        let emitted = s.poll(100_000);
        assert!(!emitted);
        assert_eq!(s.detector_state(), DetectorState::Idle);
        assert!(s.buffer_len() <= 16_000);
    }
    assert_eq!(s.buffer_len(), 16_000);
}

#[test]
fn no_trim_once_speaking() {
    let mut s = Session::new(config(750_000, 1, 512));
    s.begin(16_000, 1);
    s.ingest(&vec![0; 16_000]);
    s.poll(900_000);
    assert_eq!(s.detector_state(), DetectorState::Speaking);
    s.ingest(&vec![0; 16_000]);
    s.poll(100_000); // a dip: PossiblyEnded, but nothing is trimmed
    assert_eq!(s.detector_state(), DetectorState::PossiblyEnded);
    assert_eq!(s.buffer_len(), 32_000);
}

#[test]
fn tail_window_is_empty_after_drain() {
    let mut s = Session::new(config(750_000, 1, 512));
    s.begin(16_000, 1);
    s.ingest(&vec![5; 1000]);
    let _ = s.drain_for_dispatch();
    assert_eq!(s.tail_window(), Vec::<i32>::new());
}

#[test]
fn stop_discards_the_buffer_and_finishes() {
    let mut s = Session::new(SessionConfig::default());
    s.begin(44_100, 2);
    s.ingest(&vec![1, 2, 3, 4]);
    s.stop();
    assert_eq!(s.buffer_len(), 0);
    assert_eq!(s.phase(), SessionPhase::Finished);
}

#[test]
fn end_to_end_synthetic_stream() {
    // 16 kHz mono, one poll per second of audio, threshold 0.75, one
    // second of lookback: two seconds of silence, three seconds of signal
    // above threshold, two seconds of silence.
    let sample_rate: usize = 16_000;
    let mut s = Session::new(config(750_000, 1, 512));
    s.begin(16_000, 1);

    let schedule: Vec<(i32, u32)> = vec![
        (0, 100_000), // silence
        (1, 100_000), // silence
        (2, 900_000), // speech
        (3, 900_000),
        (4, 900_000),
        (5, 100_000), // silence again: one dip tolerated
        (6, 100_000), // second dip: confirmed end
    ];

    let mut boundary_signals = 0usize;
    let mut last_emitted = false;
    for &(second, p) in schedule.iter() {
        s.ingest(&vec![second * 100; sample_rate]);
        let emitted = s.poll(p);
        if emitted {
            boundary_signals += 1;
        }
        last_emitted = emitted;
    }

    // Exactly one boundary signal, on the very last poll.
    assert_eq!(boundary_signals, 1);
    assert!(last_emitted);
    assert_eq!(s.detector_state(), DetectorState::Ended);

    let span = s.drain_for_dispatch();
    // Kept: one second of lookback before the detected onset, the three
    // seconds of speech, and the two trailing seconds up to confirmation:
    // six seconds in all, within one poll interval of the detected speech
    // span plus the configured lookback.
    assert_eq!(span.len(), 6 * sample_rate);
    let detected_span_plus_lookback = 5 * sample_rate + sample_rate;
    assert!(span.len() <= detected_span_plus_lookback + sample_rate);
    assert!(span.len() + sample_rate >= detected_span_plus_lookback);
    // The span starts with the retained lookback second and ends with the
    // final second of trailing silence: nothing after the last idle trim
    // was lost.
    assert_eq!(span[0], 100);
    assert_eq!(span[span.len() - 1], 600);

    s.complete();
    assert_eq!(s.phase(), SessionPhase::Finished);
}

#[test]
fn transcript_concatenates_segments_in_order() {
    let segs = vec![" Hello".to_string(), " again,".to_string(), " world.".to_string()];
    assert_eq!(concat_segments(&segs), " Hello again, world.");
    assert_eq!(concat_segments(&Vec::new()), "");
}
