use vstd::prelude::*;
use crate::envelope::{env_level, ATTACK_NS, DECAY_NS, NANOS_PER_SEC};
use crate::oscillator::{next_phase, phase_step, scaled_sample, spec_phase_step, spec_scaled,
    spec_wave, wave_at, PHASE_ONE};
use crate::params::FlashbangParameters;
use crate::voice::Voice;

verus! {

/// The sample rate assumed until the host configures one, and the fallback
/// when it asks for an unusable rate of 0 Hz.
pub const DEFAULT_SAMPLE_RATE: u32 = 44_100;

/// The MIDI status byte of a note-on message, the only event kind that
/// triggers the voice.
pub const NOTE_ON_STATUS: u8 = 144;

/// One inbound event of a processing block: a MIDI message carrying its
/// three data bytes, or an event of any other kind, which the dispatcher
/// ignores.
pub enum BlockEvent {
    Midi([u8; 3]),
    Other,
}

/// The synthesizer engine: the host-configured sample rate, the single
/// voice, the oscillator's phase accumulator, and the parameter surface
/// shared with the control thread.
pub struct Flashbang {
    pub sample_rate: u32,
    pub voice: Voice,
    pub phase: u64,
    pub params: FlashbangParameters,
}

impl Flashbang {
    /// The engine's well-formedness: a usable sample rate (at least 1 Hz,
    /// and low enough that a sample still lasts at least one nanosecond),
    /// a wrapped phase, a bounded voice clock, and in-range parameters.
    pub open spec fn inv(self) -> bool {
        &&& 1 <= self.sample_rate <= NANOS_PER_SEC
        &&& self.voice.inv()
        &&& self.phase < PHASE_ONE
        &&& self.params.inv()
    }

    /// The duration of one sample at the current rate, in nanoseconds.
    pub open spec fn step_dt(self) -> int {
        NANOS_PER_SEC as int / self.sample_rate as int
    }

    /// The engine right after a trigger: the voice restarts, everything
    /// else keeps its value (in particular the oscillator phase, so a
    /// retrigger does not jump the waveform).
    pub open spec fn triggered(self) -> Flashbang {
        Flashbang { voice: Voice { playing: true, elapsed_ns: 0 }, ..self }
    }

    /// The engine after one MIDI message: a note-on triggers the voice,
    /// every other message leaves the engine alone.
    pub open spec fn spec_midi(self, data: [u8; 3]) -> Flashbang {
        if data[0] == NOTE_ON_STATUS {
            self.triggered()
        } else {
            self
        }
    }

    /// The engine after one block event: MIDI messages are interpreted,
    /// events of other kinds are ignored.
    pub open spec fn spec_event(self, ev: BlockEvent) -> Flashbang {
        match ev {
            BlockEvent::Midi(data) => self.spec_midi(data),
            BlockEvent::Other => self,
        }
    }

    /// The engine after dispatching a block's events in order.
    pub open spec fn spec_dispatch(self, events: Seq<BlockEvent>) -> Flashbang
        decreases events.len(),
    {
        if events.len() == 0 {
            self
        } else {
            self.spec_event(events[0]).spec_dispatch(events.drop_first())
        }
    }

    /// One rendered sample and the engine state after it. Per sample, in
    /// order: an idle voice contributes exact silence and changes nothing
    /// but the activity mirror; a sounding voice emits the waveform at the
    /// current phase scaled by the envelope level at the current elapsed
    /// time, advances its clock and the phase accumulator — the latter by
    /// the live frequency parameter — and republishes that level as the
    /// brightness feedback, except on the sample that retires the note.
    /// After the voice-state update, the voice's activity is published to
    /// the parameter surface, so the mirror reads false from the sample
    /// that retires the note onward.
    pub open spec fn spec_step(self) -> (i32, Flashbang) {
        if self.voice.playing {
            let alpha = env_level(self.voice.elapsed_ns as int);
            let expired = self.voice.elapsed_ns > ATTACK_NS + DECAY_NS;
            let out = spec_scaled(spec_wave(self.phase as int), alpha) as i32;
            let voice = self.voice.advanced(self.step_dt() as u64);
            let published = FlashbangParameters { playing: voice.playing, ..self.params };
            let fed_back = if expired {
                published
            } else {
                FlashbangParameters { brightness: alpha as u32, ..published }
            };
            let delta = spec_phase_step(self.params.frequency_mhz, self.sample_rate);
            (
                out,
                Flashbang {
                    sample_rate: self.sample_rate,
                    voice: voice,
                    phase: ((self.phase + delta) % (PHASE_ONE as int)) as u64,
                    params: fed_back,
                },
            )
        } else {
            (
                0,
                Flashbang {
                    params: FlashbangParameters { playing: false, ..self.params },
                    ..self
                },
            )
        }
    }

    /// The mono signal of a block of `n` samples, and the engine state
    /// after rendering them in order.
    pub open spec fn spec_block(self, n: nat) -> (Seq<i32>, Flashbang)
        decreases n,
    {
        if n == 0 {
            (Seq::empty(), self)
        } else {
            let prev = self.spec_block((n - 1) as nat);
            let step = prev.1.spec_step();
            (prev.0.push(step.0), step.1)
        }
    }

    /// A fresh engine: the default sample rate, an idle voice, a zeroed
    /// phase accumulator, and the power-on parameter state.
    pub fn new() -> (e: Flashbang)
        ensures
            e.inv(),
            e.sample_rate == DEFAULT_SAMPLE_RATE,
            !e.voice.playing,
            e.voice.elapsed_ns == 0,
            e.phase == 0,
            e.params.brightness == 0,
            !e.params.playing,
            e.params.frequency_mhz == 5_000_000,
            e.params.red == 255,
            e.params.green == 255,
            e.params.blue == 255,
    {
        Flashbang {
            sample_rate: DEFAULT_SAMPLE_RATE,
            voice: Voice::new(),
            phase: 0,
            params: FlashbangParameters::default(),
        }
    }

    /// The duration of one sample at the current rate, in nanoseconds;
    /// never longer than one second and never zero, since
    /// [`Flashbang::set_sample_rate`] keeps the rate between 1 Hz and
    /// 1 GHz.
    pub fn time_per_sample(&self) -> (dt: u64)
        requires
            1 <= self.sample_rate <= NANOS_PER_SEC,
        ensures
            dt == self.step_dt(),
            1 <= dt <= NANOS_PER_SEC,
    {
        proof {
            vstd::arithmetic::div_mod::lemma_div_nonincreasing(
                NANOS_PER_SEC as int,
                self.sample_rate as int,
            );
            vstd::arithmetic::div_mod::lemma_div_by_self(self.sample_rate as int);
            vstd::arithmetic::div_mod::lemma_div_is_ordered(
                self.sample_rate as int,
                NANOS_PER_SEC as int,
                self.sample_rate as int,
            );
        }
        NANOS_PER_SEC / (self.sample_rate as u64)
    }

    /// Configure the sample rate, between blocks. A rate of 0 Hz would
    /// make a sample's duration undefined, so the default rate is stored
    /// instead; a rate above 1 GHz would make a sample's duration round
    /// to nothing and freeze the envelope clock, so such a rate is
    /// clamped down to 1 GHz.
    pub fn set_sample_rate(&mut self, rate: u32)
        ensures
            final(self).sample_rate == if rate == 0 {
                DEFAULT_SAMPLE_RATE
            } else if rate as u64 > NANOS_PER_SEC {
                NANOS_PER_SEC as u32
            } else {
                rate
            },
            final(self).voice == old(self).voice,
            final(self).phase == old(self).phase,
            final(self).params == old(self).params,
            old(self).inv() ==> final(self).inv(),
    {
        self.sample_rate = if rate == 0 {
            DEFAULT_SAMPLE_RATE
        } else if (rate as u64) > NANOS_PER_SEC {
            NANOS_PER_SEC as u32
        } else {
            rate
        };
    }

    /// Start or restart the note.
    pub fn play(&mut self)
        ensures
            *final(self) == old(self).triggered(),
            old(self).inv() ==> final(self).inv(),
    {
        self.voice.trigger();
    }

    /// Interpret one MIDI message: a note-on status byte triggers the
    /// voice; any other message, malformed ones included, is ignored.
    pub fn process_midi_event(&mut self, data: [u8; 3])
        ensures
            *final(self) == old(self).spec_midi(data),
            old(self).inv() ==> final(self).inv(),
    {
        if data[0] == NOTE_ON_STATUS {
            self.play();
        }
    }

    /// Dispatch a block's inbound events, in order, before its samples are
    /// rendered. Each note-on event retriggers the voice; the last one
    /// wins, since a trigger simply resets the voice's clock.
    pub fn process_events(&mut self, events: &Vec<BlockEvent>)
        ensures
            *final(self) == old(self).spec_dispatch(events@),
            old(self).inv() ==> final(self).inv(),
    {
        let ghost initial = *self;
        let mut i: usize = 0;
        while i < events.len()
            invariant
                i <= events@.len(),
                *self == initial.spec_dispatch(events@.take(i as int)),
                initial.inv() ==> self.inv(),
            decreases events@.len() - i,
        {
            match &events[i] {
                BlockEvent::Midi(data) => {
                    self.process_midi_event(*data);
                },
                BlockEvent::Other => {},
            }
            proof {
                assert(events@.take(i + 1).drop_last() =~= events@.take(i as int));
                lemma_dispatch_snoc(initial, events@.take(i + 1));
            }
            i = i + 1;
        }
        proof {
            assert(events@.take(events@.len() as int) =~= events@);
        }
    }

    /// Render one sample: the returned value is the mono output for this
    /// sample index, and the engine advances exactly one step.
    fn render_sample(&mut self) -> (out: i32)
        requires
            old(self).inv(),
        ensures
            final(self).inv(),
            out == old(self).spec_step().0,
            *final(self) == old(self).spec_step().1,
            -crate::oscillator::WAVE_ONE <= out <= crate::oscillator::WAVE_ONE,
    {
        let dt = self.time_per_sample();
        let freq = self.params.frequency_mhz;
        if self.voice.playing {
            proof {
                crate::envelope::lemma_env_level_bounds(self.voice.elapsed_ns as int);
            }
            let signal = wave_at(self.phase);
            let alpha = self.voice.advance(dt);
            self.params.playing = self.voice.playing;
            if self.voice.playing {
                self.params.brightness = alpha;
            }
            let delta = phase_step(freq, self.sample_rate);
            self.phase = next_phase(self.phase, delta);
            scaled_sample(signal, alpha)
        } else {
            self.params.playing = false;
            0
        }
    }

    /// Render one processing block: `samples` consecutive samples,
    /// broadcast identically to each of `channels` output channels.
    /// Every channel holds the same mono signal, the block's samples in
    /// order; with the voice idle and no trigger dispatched, that signal
    /// is exact silence throughout.
    pub fn process(&mut self, channels: usize, samples: usize) -> (out: Vec<Vec<i32>>)
        requires
            old(self).inv(),
        ensures
            final(self).inv(),
            *final(self) == old(self).spec_block(samples as nat).1,
            out@.len() == channels,
            forall|c: int|
                0 <= c < channels ==> (#[trigger] out@[c])@ == old(self).spec_block(
                    samples as nat,
                ).0,
            forall|c: int| 0 <= c < channels ==> (#[trigger] out@[c])@.len() == samples,
            forall|c: int, i: int|
                0 <= c < channels && 0 <= i < samples
                    ==> -crate::oscillator::WAVE_ONE <= #[trigger] out@[c]@[i]
                    <= crate::oscillator::WAVE_ONE,
    {
        let ghost initial = *self;
        let mut mono: Vec<i32> = Vec::new();
        let mut i: usize = 0;
        while i < samples
            invariant
                i <= samples,
                self.inv(),
                mono@.len() == i,
                mono@ == initial.spec_block(i as nat).0,
                *self == initial.spec_block(i as nat).1,
                forall|k: int|
                    0 <= k < i ==> -crate::oscillator::WAVE_ONE <= #[trigger] mono@[k]
                        <= crate::oscillator::WAVE_ONE,
            decreases samples - i,
        {
            let s = self.render_sample();
            mono.push(s);
            i = i + 1;
        }
        let mut out: Vec<Vec<i32>> = Vec::new();
        let mut c: usize = 0;
        while c < channels
            invariant
                c <= channels,
                mono@ == initial.spec_block(samples as nat).0,
                mono@.len() == samples,
                forall|k: int|
                    0 <= k < samples ==> -crate::oscillator::WAVE_ONE <= #[trigger] mono@[k]
                        <= crate::oscillator::WAVE_ONE,
                out@.len() == c,
                forall|k: int| 0 <= k < c ==> (#[trigger] out@[k])@ == mono@,
            decreases channels - c,
        {
            let mut channel: Vec<i32> = Vec::new();
            let mut j: usize = 0;
            while j < mono.len()
                invariant
                    j <= mono@.len(),
                    channel@.len() == j,
                    forall|k: int| 0 <= k < j ==> channel@[k] == mono@[k],
                decreases mono@.len() - j,
            {
                channel.push(mono[j]);
                j = j + 1;
            }
            proof {
                assert(channel@ =~= mono@);
            }
            out.push(channel);
            c = c + 1;
        }
        out
    }
}

/// Dispatching a sequence of events and then one more is dispatching the
/// sequence and handling the last event from the state so reached.
proof fn lemma_dispatch_snoc(e: Flashbang, events: Seq<BlockEvent>)
    requires
        events.len() > 0,
    ensures
        e.spec_dispatch(events) == e.spec_dispatch(events.drop_last()).spec_event(
            events.last(),
        ),
    decreases events.len(),
{
    assert(e.spec_dispatch(events) == e.spec_event(events[0]).spec_dispatch(
        events.drop_first(),
    ));
    if events.len() == 1 {
        assert(events.drop_first() =~= Seq::<BlockEvent>::empty());
        assert(events.drop_last() =~= Seq::<BlockEvent>::empty());
        assert(events.last() == events[0]);
    } else {
        lemma_dispatch_snoc(e.spec_event(events[0]), events.drop_first());
        assert(events.drop_first().drop_last() =~= events.drop_last().drop_first());
        assert(events.drop_first().last() == events.last());
        assert(events.drop_last().len() > 0);
        assert(events.drop_last()[0] == events[0]);
        assert(e.spec_dispatch(events.drop_last()) == e.spec_event(events[0]).spec_dispatch(
            events.drop_last().drop_first(),
        ));
    }
}

/// Idle silence: a block rendered while no note sounds is exact silence in
/// every sample, whatever the parameter values, and leaves the voice idle.
pub proof fn lemma_idle_block_silent(e: Flashbang, n: nat)
    requires
        !e.voice.playing,
    ensures
        e.spec_block(n).0.len() == n,
        forall|i: int| 0 <= i < n ==> e.spec_block(n).0[i] == 0i32,
        e.spec_block(n).1.voice == e.voice,
    decreases n,
{
    if n > 0 {
        lemma_idle_block_silent(e, (n - 1) as nat);
    }
}

/// Auto-silence: once a note's elapsed time has passed the end of the
/// envelope, every sample of any block rendered from that point on is exact
/// silence — the sample that retires the note is computed at envelope level
/// 0, and the voice is idle from the next sample until retriggered.
pub proof fn lemma_expired_note_renders_silence(e: Flashbang, n: nat)
    requires
        e.voice.playing,
        e.voice.elapsed_ns > ATTACK_NS + DECAY_NS,
    ensures
        e.spec_block(n).0.len() == n,
        forall|i: int| 0 <= i < n ==> e.spec_block(n).0[i] == 0i32,
        n > 0 ==> !e.spec_block(n).1.voice.playing,
    decreases n,
{
    if n == 1 {
        crate::oscillator::lemma_scaled_zero(spec_wave(e.phase as int));
    } else if n > 1 {
        lemma_expired_note_renders_silence(e, (n - 1) as nat);
        crate::oscillator::lemma_scaled_zero(spec_wave(e.spec_block((n - 1) as nat).1.phase as int));
    }
}

/// Retrigger resets: whatever state the engine was in, the first sample
/// rendered after a trigger is computed at the attack-start amplitude, so
/// it is exactly 0 — a note always restarts from silence.
pub proof fn lemma_triggered_first_sample_zero(e: Flashbang)
    ensures
        e.triggered().spec_step().0 == 0,
{
    crate::envelope::lemma_env_level_endpoints();
    crate::oscillator::lemma_scaled_zero(spec_wave(e.phase as int));
}

/// Phase continuity through the renderer: starting a note from phase 0,
/// over any run of samples during which the envelope has not yet run out,
/// the renderer advances the phase accumulator by exactly one oscillator
/// step per sample, so after `n` samples the phase is the closed-form
/// wrapped product of the per-sample increment, and the voice's clock
/// holds exactly `n` sample durations.
pub proof fn lemma_block_phase_continuity(e: Flashbang, n: nat)
    requires
        e.inv(),
        e.voice.playing,
        e.voice.elapsed_ns == 0,
        e.phase == 0,
        n * e.step_dt() <= ATTACK_NS + DECAY_NS,
    ensures
        e.spec_block(n).1.phase == crate::oscillator::phase_after(
            n,
            spec_phase_step(e.params.frequency_mhz, e.sample_rate) as u64,
        ),
        e.spec_block(n).1.voice.playing,
        e.spec_block(n).1.voice.elapsed_ns == n * e.step_dt(),
        e.spec_block(n).1.sample_rate == e.sample_rate,
        e.spec_block(n).1.params.frequency_mhz == e.params.frequency_mhz,
    decreases n,
{
    let dt = e.step_dt();
    let delta = spec_phase_step(e.params.frequency_mhz, e.sample_rate);
    vstd::arithmetic::div_mod::lemma_div_pos_is_pos(NANOS_PER_SEC as int, e.sample_rate as int);
    vstd::arithmetic::div_mod::lemma_div_nonincreasing(NANOS_PER_SEC as int, e.sample_rate as int);
    vstd::arithmetic::div_mod::lemma_div_pos_is_pos(
        e.params.frequency_mhz * PHASE_ONE,
        e.sample_rate * 1000,
    );
    vstd::arithmetic::div_mod::lemma_div_nonincreasing(
        e.params.frequency_mhz * PHASE_ONE,
        e.sample_rate * 1000,
    );
    if n == 0 {
        assert(n * dt == 0) by (nonlinear_arith)
            requires n == 0;
    } else {
        assert((n - 1) * dt + dt == n * dt) by (nonlinear_arith);
        assert(0 <= (n - 1) * dt) by (nonlinear_arith)
            requires n >= 1 && 0 <= dt;
        lemma_block_phase_continuity(e, (n - 1) as nat);
        let mid = e.spec_block((n - 1) as nat).1;
        vstd::arithmetic::div_mod::lemma_mod_division_less_than_divisor(
            mid.phase + delta,
            PHASE_ONE as int,
        );
    }
}

/// A rendered block always holds exactly as many samples as were asked for.
pub proof fn lemma_block_len(e: Flashbang, n: nat)
    ensures
        e.spec_block(n).0.len() == n,
    decreases n,
{
    if n > 0 {
        lemma_block_len(e, (n - 1) as nat);
    }
}

} // verus!
