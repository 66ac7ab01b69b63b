use vstd::prelude::*;
use crate::envelope::{env_level, env_level_at, AMP_ONE, ATTACK_NS, DECAY_NS, NANOS_PER_SEC};

verus! {

/// The one synthesizable note: whether it is sounding, and for how long it
/// has sounded. While `playing` is false the fields keep their last values
/// but have no influence on output until the voice is retriggered.
pub struct Voice {
    pub playing: bool,
    pub elapsed_ns: u64,
}

impl Voice {
    /// `elapsed_ns` never runs away: while a note plays it is at most one
    /// maximal sample step past the end of the envelope, and the sample
    /// that retires the note adds at most one more step before the voice
    /// goes idle and stops advancing.
    pub open spec fn inv(self) -> bool {
        &&& self.elapsed_ns <= ATTACK_NS + DECAY_NS + 2 * NANOS_PER_SEC
        &&& (self.playing ==> self.elapsed_ns <= ATTACK_NS + DECAY_NS + NANOS_PER_SEC)
    }

    /// The amplitude the next call to [`Voice::advance`] returns: the
    /// envelope level at the current elapsed time while sounding, silence
    /// while idle.
    pub open spec fn current_amp(self) -> int {
        if self.playing {
            env_level(self.elapsed_ns as int)
        } else {
            0
        }
    }

    /// The state after one call to [`Voice::advance`] with step `dt`: an
    /// idle voice is untouched; a sounding voice first retires if its
    /// elapsed time has passed the end of the envelope, then accumulates
    /// the step. The retirement test reads the elapsed time *before* the
    /// step, so the sample that crosses the boundary is still computed
    /// from the active-voice branch.
    pub open spec fn advanced(self, dt: u64) -> Voice {
        if self.playing {
            Voice {
                playing: !(self.elapsed_ns > ATTACK_NS + DECAY_NS),
                elapsed_ns: (self.elapsed_ns + dt) as u64,
            }
        } else {
            self
        }
    }

    /// A fresh voice: idle, with no accumulated time.
    pub fn new() -> (v: Voice)
        ensures
            v.inv(),
            !v.playing,
            v.elapsed_ns == 0,
    {
        Voice { playing: false, elapsed_ns: 0 }
    }

    /// Start or restart the note: the voice sounds and its elapsed time is
    /// reset, whatever state it was in.
    pub fn trigger(&mut self)
        ensures
            final(self).inv(),
            final(self).playing,
            final(self).elapsed_ns == 0,
    {
        self.playing = true;
        self.elapsed_ns = 0;
    }

    /// Advance the voice by one sample of `dt` nanoseconds and return the
    /// amplitude for that sample. An idle voice stays untouched and is
    /// silent; a sounding voice yields the envelope level at its current
    /// elapsed time, retires once that time has passed the end of the
    /// envelope, and accumulates the step.
    pub fn advance(&mut self, dt: u64) -> (amp: u32)
        requires
            old(self).inv(),
            dt <= NANOS_PER_SEC,
        ensures
            final(self).inv(),
            *final(self) == old(self).advanced(dt),
            amp == old(self).current_amp(),
            amp <= AMP_ONE,
    {
        if self.playing {
            let amp = env_level_at(self.elapsed_ns);
            if self.elapsed_ns > ATTACK_NS + DECAY_NS {
                self.playing = false;
            }
            self.elapsed_ns = self.elapsed_ns + dt;
            amp
        } else {
            0
        }
    }
}

/// Auto-silence: once a sounding voice's elapsed time passes the end of the
/// envelope, the very next sample is computed at amplitude 0, the voice
/// retires on that sample, and an idle voice then stays idle and silent for
/// every later sample, whatever the step sizes, until retriggered.
pub proof fn lemma_auto_silence(v: Voice, dt: u64, dt2: u64)
    requires
        v.playing,
        v.elapsed_ns > ATTACK_NS + DECAY_NS,
    ensures
        v.current_amp() == 0,
        !v.advanced(dt).playing,
        v.advanced(dt).advanced(dt2) == v.advanced(dt),
        v.advanced(dt).current_amp() == 0,
{
}

/// Retrigger resets: however long a note has sounded, and whether or not it
/// is still sounding, a freshly triggered voice reports the attack-start
/// amplitude — exactly 0 — on the next sample, and begins its envelope anew.
pub proof fn lemma_retrigger_resets()
    ensures
        (Voice { playing: true, elapsed_ns: 0 }).current_amp() == env_level(0),
        env_level(0) == 0,
{
    vstd::arithmetic::div_mod::lemma_div_of0(ATTACK_NS as int);
}

} // verus!
