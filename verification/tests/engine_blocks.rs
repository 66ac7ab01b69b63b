use flashbang::engine::{BlockEvent, Flashbang, DEFAULT_SAMPLE_RATE, NOTE_ON_STATUS};
use flashbang::envelope::{AMP_ONE, ATTACK_NS, DECAY_NS};
use flashbang::oscillator::WAVE_ONE;

#[test]
fn fresh_engine_state() {
    let e = Flashbang::new();
    assert_eq!(e.sample_rate, DEFAULT_SAMPLE_RATE);
    assert!(!e.voice.playing);
    assert_eq!(e.phase, 0);
    assert_eq!(e.params.frequency_mhz, 5_000_000);
    assert_eq!(e.params.brightness, 0);
    assert_eq!((e.params.red, e.params.green, e.params.blue), (255, 255, 255));
}

#[test]
fn sample_rate_configuration() {
    let mut e = Flashbang::new();
    e.set_sample_rate(48_000);
    assert_eq!(e.sample_rate, 48_000);
    assert_eq!(e.time_per_sample(), 1_000_000_000 / 48_000);
    // A rate of 0 Hz is unusable; the default is substituted instead.
    e.set_sample_rate(0);
    assert_eq!(e.sample_rate, DEFAULT_SAMPLE_RATE);
    // A rate above 1 GHz would round a sample's duration down to nothing
    // and freeze the envelope clock; it is clamped so a sample always
    // lasts at least one nanosecond.
    e.set_sample_rate(u32::MAX);
    assert_eq!(e.sample_rate, 1_000_000_000);
    assert_eq!(e.time_per_sample(), 1);
}

#[test]
fn idle_block_is_exact_silence() {
    let mut e = Flashbang::new();
    // Parameter values do not matter while no trigger has occurred.
    e.params.frequency_mhz = 9_000_000;
    let out = e.process(3, 128);
    assert_eq!(out.len(), 3);
    for channel in &out {
        assert_eq!(channel.len(), 128);
        assert!(channel.iter().all(|&s| s == 0));
    }
    assert!(!e.voice.playing);
    assert!(!e.params.playing);
}

#[test]
fn channels_are_bit_identical() {
    let mut e = Flashbang::new();
    e.play();
    let out = e.process(4, 256);
    assert_eq!(out.len(), 4);
    for i in 0..256 {
        for c in 1..4 {
            assert_eq!(out[c][i], out[0][i], "channel {c}, sample {i}");
        }
    }
    // The note actually sounds: some sample is nonzero.
    assert!(out[0].iter().any(|&s| s != 0));
}

#[test]
fn triggered_block_starts_from_zero_and_stays_bounded() {
    let mut e = Flashbang::new();
    e.play();
    let out = e.process(1, 512);
    // Phase and elapsed time are both zero at the trigger, so the first
    // sample is exactly zero: no click.
    assert_eq!(out[0][0], 0);
    assert!(out[0].iter().all(|&s| -WAVE_ONE <= s && s <= WAVE_ONE));
    // The renderer mirrors the voice activity and feeds the envelope level
    // back as brightness.
    assert!(e.params.playing);
    assert!(e.params.brightness <= AMP_ONE);
    assert!(e.voice.playing);
    assert_eq!(e.voice.elapsed_ns, 512 * e.time_per_sample());
}

#[test]
fn brightness_feedback_tracks_envelope() {
    let mut e = Flashbang::new();
    e.play();
    e.process(2, 100);
    // After 100 samples the last published brightness is the envelope
    // level of the 100th sample (elapsed time of 99 steps).
    let dt = e.time_per_sample();
    let expected = flashbang::envelope::env_level_at(99 * dt);
    assert_eq!(e.params.brightness, expected);
}

#[test]
fn note_expires_to_silence_mid_block() {
    let mut e = Flashbang::new();
    e.play();
    // Start just past the end of the envelope: the first rendered sample
    // retires the note at amplitude 0 and the rest of the block is silent.
    e.voice.elapsed_ns = ATTACK_NS + DECAY_NS + 1;
    let out = e.process(2, 32);
    for channel in &out {
        assert!(channel.iter().all(|&s| s == 0));
    }
    assert!(!e.voice.playing);
    assert!(!e.params.playing);
    // Silence persists in later blocks until a retrigger.
    let out2 = e.process(2, 32);
    assert!(out2[0].iter().all(|&s| s == 0));
}

#[test]
fn brightness_not_republished_on_expiring_sample() {
    let mut e = Flashbang::new();
    e.play();
    e.voice.elapsed_ns = ATTACK_NS + DECAY_NS + 5;
    e.params.brightness = 777;
    let out = e.process(1, 1);
    assert_eq!(out[0][0], 0);
    assert!(!e.voice.playing);
    // The feedback publish is skipped on the sample that retires the note.
    assert_eq!(e.params.brightness, 777);
    // The mirror is published after the voice-state update, so it already
    // reads idle on the sample that retires the note.
    assert!(!e.params.playing);
}

#[test]
fn envelope_boundary_sample_still_active() {
    let mut e = Flashbang::new();
    e.play();
    // Exactly at the end of the decay: the amplitude is 0 by formula, but
    // the voice retires only strictly after the end.
    e.voice.elapsed_ns = ATTACK_NS + DECAY_NS;
    e.params.brightness = 777;
    let out = e.process(1, 1);
    assert_eq!(out[0][0], 0);
    assert!(e.voice.playing);
    assert_eq!(e.params.brightness, 0);
}

#[test]
fn rate_change_mid_note_keeps_elapsed_time() {
    let mut e = Flashbang::new();
    e.set_sample_rate(44_100);
    e.play();
    e.process(1, 100);
    let dt1 = e.time_per_sample();
    e.set_sample_rate(22_050);
    e.process(1, 50);
    let dt2 = e.time_per_sample();
    // The envelope clock accumulates real time, not sample counts, so a
    // rate change mid-note does not distort the envelope shape.
    assert_eq!(e.voice.elapsed_ns, 100 * dt1 + 50 * dt2);
}

#[test]
fn note_on_event_triggers_voice() {
    let mut e = Flashbang::new();
    let events = vec![
        BlockEvent::Other,
        BlockEvent::Midi([128, 60, 0]),
        BlockEvent::Midi([NOTE_ON_STATUS, 60, 100]),
    ];
    e.process_events(&events);
    assert!(e.voice.playing);
    assert_eq!(e.voice.elapsed_ns, 0);
}

#[test]
fn other_events_are_ignored() {
    let mut e = Flashbang::new();
    let events = vec![
        BlockEvent::Midi([128, 60, 0]),
        BlockEvent::Midi([176, 1, 64]),
        BlockEvent::Other,
    ];
    e.process_events(&events);
    assert!(!e.voice.playing);
    let out = e.process(2, 16);
    assert!(out[0].iter().all(|&s| s == 0));
}

#[test]
fn last_note_on_wins() {
    let mut e = Flashbang::new();
    // Let a note run for a while.
    e.play();
    e.process(1, 1000);
    assert!(e.voice.elapsed_ns > 0);
    // Two note-ons in one block: each retriggers; the block starts the
    // envelope from zero either way.
    let events = vec![
        BlockEvent::Midi([NOTE_ON_STATUS, 60, 100]),
        BlockEvent::Midi([NOTE_ON_STATUS, 72, 100]),
    ];
    e.process_events(&events);
    assert!(e.voice.playing);
    assert_eq!(e.voice.elapsed_ns, 0);
}

#[test]
fn retrigger_while_active_restarts_envelope() {
    let mut e = Flashbang::new();
    e.play();
    e.process(1, 2000);
    let elapsed_before = e.voice.elapsed_ns;
    assert!(elapsed_before > 0);
    e.play();
    assert_eq!(e.voice.elapsed_ns, 0);
    // The next rendered sample is back at the attack-start amplitude 0.
    let out = e.process(1, 1);
    assert_eq!(out[0][0], 0);
}

#[test]
fn rendered_tone_approximates_enveloped_wave() {
    // Render a quarter second and compare a few samples against a
    // real-valued model of the same parabolic waveform and envelope.
    let mut e = Flashbang::new();
    e.set_sample_rate(44_100);
    e.play();
    let n = 11_025;
    let out = e.process(1, n);
    let dt = 1.0f64 / 44_100.0;
    let dt_ns = (1_000_000_000u64 / 44_100) as f64 / 1e9;
    let f = 5_000.0f64;
    for &i in [1usize, 100, 1000, 5000, 11_024].iter() {
        let t = i as f64 * dt_ns;
        let alpha = if t < 0.2 { t / 0.2 } else { 1.0 - (t - 0.2) / 10.0 };
        let cycle = (i as f64 * f * dt).fract();
        let wave = if cycle < 0.5 {
            4.0 * (2.0 * cycle) * (1.0 - 2.0 * cycle)
        } else {
            let c = 2.0 * cycle - 1.0;
            -4.0 * c * (1.0 - c)
        };
        let expected = alpha * wave;
        let got = out[0][i] as f64 / WAVE_ONE as f64;
        assert!(
            (got - expected).abs() < 2e-3,
            "sample {i}: {got} vs {expected}"
        );
    }
}
