use vstd::prelude::*;

verus! {

/// Beats in a bar: the counter runs 0, 1, 2, 3 and back to 0.
pub const BEATS_PER_BAR: u8 = 4;

/// Rhythm stability, in thousandths, above which the tempo counts as stable.
pub const STABILITY_THRESHOLD: u32 = 600;

/// Beat strength, in thousandths, that a downbeat must exceed.
pub const DOWNBEAT_STRENGTH: u32 = 700;

/// An onset advances the beat once 80% of the expected beat interval has
/// passed: `elapsed_ms ≥ 0.8 · 60000 / bpm`, with the tempo in thousandths
/// of a beat per minute.
pub open spec fn beat_due(elapsed_ms: nat, tempo_milli_bpm: nat) -> bool {
    elapsed_ms * tempo_milli_bpm >= 48_000_000
}

/// What an onset yields: the beat position after it, and whether it is a
/// downbeat.
#[derive(Debug, Clone, Copy, PartialEq, Eq, Structural)]
pub struct BeatEvent {
    pub beat_position: u8,
    pub downbeat_detected: bool,
}

/// The observable state of a [`BeatTracker`].
pub struct BeatState {
    pub counter: u8,
    pub last_beat_ms: u64,
    pub tempo_stable: bool,
}

impl BeatState {
    pub open spec fn wf(self) -> bool {
        self.counter < BEATS_PER_BAR
    }

    /// The onset at `now_ms` falls on a beat.
    pub open spec fn on_beat(self, now_ms: u64, tempo_milli_bpm: u64) -> bool {
        &&& self.tempo_stable
        &&& now_ms >= self.last_beat_ms
        &&& beat_due((now_ms - self.last_beat_ms) as nat, tempo_milli_bpm as nat)
    }

    /// The state and the event after an onset at `now_ms`.
    pub open spec fn after_onset(self, now_ms: u64, tempo_milli_bpm: u64, strength_milli: u32) -> (
        BeatState,
        BeatEvent,
    ) {
        if self.on_beat(now_ms, tempo_milli_bpm) {
            let c = ((self.counter + 1) % 4) as u8;
            (
                BeatState { counter: c, last_beat_ms: now_ms, ..self },
                BeatEvent {
                    beat_position: c,
                    downbeat_detected: c == 0 && strength_milli > DOWNBEAT_STRENGTH,
                },
            )
        } else {
            (self, BeatEvent { beat_position: self.counter, downbeat_detected: false })
        }
    }
}

/// Counts beats in a four-beat bar once the tempo is stable, and flags
/// strong downbeats.
pub struct BeatTracker {
    beat_counter: u8,
    last_beat_ms: u64,
    tempo_stable: bool,
}

impl View for BeatTracker {
    type V = BeatState;

    closed spec fn view(&self) -> BeatState {
        BeatState {
            counter: self.beat_counter,
            last_beat_ms: self.last_beat_ms,
            tempo_stable: self.tempo_stable,
        }
    }
}

impl BeatTracker {
    pub fn new() -> (r: BeatTracker)
        ensures
            r@ == (BeatState { counter: 0, last_beat_ms: 0, tempo_stable: false }),
            r@.wf(),
    {
        BeatTracker { beat_counter: 0, last_beat_ms: 0, tempo_stable: false }
    }

    /// The beat position now, 0 to 3.
    pub fn beat_position(&self) -> (r: u8)
        ensures
            r == self@.counter,
    {
        self.beat_counter
    }

    pub fn is_tempo_stable(&self) -> (r: bool)
        ensures
            r == self@.tempo_stable,
    {
        self.tempo_stable
    }

    /// Takes note of the rhythm stability (thousandths): above the threshold
    /// the tempo counts as stable from then on.
    pub fn observe_stability(&mut self, stability_milli: u32)
        ensures
            final(self)@ == (BeatState {
                tempo_stable: old(self)@.tempo_stable || stability_milli > STABILITY_THRESHOLD,
                ..old(self)@
            }),
    {
        if stability_milli > STABILITY_THRESHOLD {
            self.tempo_stable = true;
        }
    }

    /// An onset at `now_ms`, with the current tempo (thousandths of a beat
    /// per minute) and beat strength (thousandths).
    pub fn on_onset(&mut self, now_ms: u64, tempo_milli_bpm: u64, strength_milli: u32) -> (r:
        BeatEvent)
        requires
            old(self)@.wf(),
        ensures
            final(self)@.wf(),
            (final(self)@, r) == old(self)@.after_onset(now_ms, tempo_milli_bpm, strength_milli),
    {
        if self.tempo_stable && now_ms >= self.last_beat_ms {
            let elapsed = (now_ms - self.last_beat_ms) as u128;
            proof {
                let (a, b) = (elapsed as int, tempo_milli_bpm as int);
                assert(a * b <= 0xFFFF_FFFF_FFFF_FFFF * 0xFFFF_FFFF_FFFF_FFFF) by (nonlinear_arith)
                    requires
                        0 <= a <= 0xFFFF_FFFF_FFFF_FFFF,
                        0 <= b <= 0xFFFF_FFFF_FFFF_FFFF,
                ;
            }
            if elapsed * (tempo_milli_bpm as u128) >= 48_000_000 {
                self.beat_counter = (self.beat_counter + 1) % BEATS_PER_BAR;
                self.last_beat_ms = now_ms;
                return BeatEvent {
                    beat_position: self.beat_counter,
                    downbeat_detected: self.beat_counter == 0 && strength_milli
                        > DOWNBEAT_STRENGTH,
                };
            }
        }
        BeatEvent { beat_position: self.beat_counter, downbeat_detected: false }
    }

    /// Forgets the bar position and the tempo stability.
    pub fn reset(&mut self)
        ensures
            final(self)@ == (BeatState { counter: 0, last_beat_ms: 0, tempo_stable: false }),
    {
        self.beat_counter = 0;
        self.last_beat_ms = 0;
        self.tempo_stable = false;
    }
}

/// A downbeat comes only on the first beat of a bar, from a strong onset,
/// after the tempo became stable; and four beats in a row bring the counter
/// back to where it was.
pub proof fn lemma_downbeat_conditions(s: BeatState, now: u64, tempo: u64, strength: u32)
    requires
        s.wf(),
    ensures
        ({
            let (t, e) = s.after_onset(now, tempo, strength);
            &&& t.wf()
            &&& e.beat_position == t.counter
            &&& e.downbeat_detected ==> (s.tempo_stable && t.counter == 0 && s.counter == 3
                && strength > DOWNBEAT_STRENGTH)
        }),
{
}

} // verus!
