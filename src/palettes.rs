use vstd::prelude::*;

verus! {

/// Number of palettes in the fixed cycle.
pub const PALETTE_COUNT: usize = 8;

/// The color palettes, in cycle order.
#[derive(Debug, Clone, Copy, PartialEq, Eq, Structural)]
pub enum ColorPalette {
    Rainbow,
    Red,
    Orange,
    Yellow,
    Green,
    Blue,
    Indigo,
    Violet,
}

/// Position of a palette in the cycle.
pub open spec fn palette_index(p: ColorPalette) -> nat {
    match p {
        ColorPalette::Rainbow => 0,
        ColorPalette::Red => 1,
        ColorPalette::Orange => 2,
        ColorPalette::Yellow => 3,
        ColorPalette::Green => 4,
        ColorPalette::Blue => 5,
        ColorPalette::Indigo => 6,
        ColorPalette::Violet => 7,
    }
}

/// The palette at a position of the cycle (taken modulo the cycle length).
pub open spec fn palette_at(i: nat) -> ColorPalette {
    let k = i % 8;
    if k == 0 {
        ColorPalette::Rainbow
    } else if k == 1 {
        ColorPalette::Red
    } else if k == 2 {
        ColorPalette::Orange
    } else if k == 3 {
        ColorPalette::Yellow
    } else if k == 4 {
        ColorPalette::Green
    } else if k == 5 {
        ColorPalette::Blue
    } else if k == 6 {
        ColorPalette::Indigo
    } else {
        ColorPalette::Violet
    }
}

/// The palette that follows `p` in the cycle.
pub open spec fn next_palette(p: ColorPalette) -> ColorPalette {
    palette_at(palette_index(p) + 1)
}

pub open spec fn palette_name(p: ColorPalette) -> Seq<char> {
    match p {
        ColorPalette::Rainbow => "Rainbow"@,
        ColorPalette::Red => "Red"@,
        ColorPalette::Orange => "Orange"@,
        ColorPalette::Yellow => "Yellow"@,
        ColorPalette::Green => "Green"@,
        ColorPalette::Blue => "Blue"@,
        ColorPalette::Indigo => "Indigo"@,
        ColorPalette::Violet => "Violet"@,
    }
}

/// Center hue of a palette, in thousandths of a full turn.
pub open spec fn palette_base_hue(p: ColorPalette) -> u32 {
    match p {
        ColorPalette::Rainbow => 0,
        ColorPalette::Red => 0,
        ColorPalette::Orange => 83,
        ColorPalette::Yellow => 167,
        ColorPalette::Green => 333,
        ColorPalette::Blue => 667,
        ColorPalette::Indigo => 750,
        ColorPalette::Violet => 833,
    }
}

/// Hue spread of a palette, in thousandths of a full turn.
pub open spec fn palette_hue_range(p: ColorPalette) -> u32 {
    match p {
        ColorPalette::Rainbow => 1000,
        ColorPalette::Green => 167,
        ColorPalette::Blue => 167,
        _ => 83,
    }
}

impl ColorPalette {
    /// Every palette, in cycle order.
    pub fn all_palettes() -> (r: [ColorPalette; 8])
        ensures
            forall|i: int| 0 <= i < 8 ==> #[trigger] r@[i] == palette_at(i as nat),
    {
        [
            ColorPalette::Rainbow,
            ColorPalette::Red,
            ColorPalette::Orange,
            ColorPalette::Yellow,
            ColorPalette::Green,
            ColorPalette::Blue,
            ColorPalette::Indigo,
            ColorPalette::Violet,
        ]
    }

    /// Position of this palette in the cycle.
    pub fn as_index(&self) -> (r: usize)
        ensures
            r == palette_index(*self),
            r < PALETTE_COUNT,
    {
        match self {
            ColorPalette::Rainbow => 0,
            ColorPalette::Red => 1,
            ColorPalette::Orange => 2,
            ColorPalette::Yellow => 3,
            ColorPalette::Green => 4,
            ColorPalette::Blue => 5,
            ColorPalette::Indigo => 6,
            ColorPalette::Violet => 7,
        }
    }

    /// The next palette in the cycle, wrapping from the last to the first.
    pub fn next(&self) -> (r: ColorPalette)
        ensures
            r == next_palette(*self),
    {
        let palettes = Self::all_palettes();
        let i = self.as_index();
        palettes[(i + 1) % PALETTE_COUNT]
    }

    pub fn name(&self) -> (r: &'static str)
        ensures
            r@ == palette_name(*self),
    {
        match self {
            ColorPalette::Rainbow => "Rainbow",
            ColorPalette::Red => "Red",
            ColorPalette::Orange => "Orange",
            ColorPalette::Yellow => "Yellow",
            ColorPalette::Green => "Green",
            ColorPalette::Blue => "Blue",
            ColorPalette::Indigo => "Indigo",
            ColorPalette::Violet => "Violet",
        }
    }

    /// Center hue, in thousandths of a full turn.
    pub fn base_hue(&self) -> (r: u32)
        ensures
            r == palette_base_hue(*self),
            r < 1000,
    {
        match self {
            ColorPalette::Rainbow => 0,
            ColorPalette::Red => 0,
            ColorPalette::Orange => 83,
            ColorPalette::Yellow => 167,
            ColorPalette::Green => 333,
            ColorPalette::Blue => 667,
            ColorPalette::Indigo => 750,
            ColorPalette::Violet => 833,
        }
    }

    /// Hue spread, in thousandths of a full turn.
    pub fn hue_range(&self) -> (r: u32)
        ensures
            r == palette_hue_range(*self),
            r <= 1000,
    {
        match self {
            ColorPalette::Rainbow => 1000,
            ColorPalette::Green => 167,
            ColorPalette::Blue => 167,
            _ => 83,
        }
    }
}


/// Shortest allowed interval between two palette switches, in milliseconds.
pub const MIN_SWITCH_COOLDOWN_MS: u64 = 100;

/// Default interval between two palette switches, in milliseconds.
pub const DEFAULT_SWITCH_COOLDOWN_MS: u64 = 2000;

/// Length of the cross-fade that follows a switch, in milliseconds.
pub const TRANSITION_MS: u64 = 1000;

/// The observable state of a [`PaletteManager`].
pub struct PaletteSchedule {
    pub current: ColorPalette,
    pub previous: ColorPalette,
    pub cooldown_ms: u64,
    pub last_switch_ms: u64,
    pub transition_ms: u64,
    pub in_transition: bool,
}

impl PaletteSchedule {
    pub open spec fn wf(self) -> bool {
        &&& self.cooldown_ms >= MIN_SWITCH_COOLDOWN_MS
        &&& self.transition_ms == TRANSITION_MS
    }

    /// A downbeat at `now_ms` switches palettes: the cooldown has fully
    /// elapsed since the last switch.
    pub open spec fn switch_due(self, now_ms: u64, downbeat_detected: bool) -> bool {
        &&& downbeat_detected
        &&& now_ms >= self.last_switch_ms
        &&& now_ms - self.last_switch_ms >= self.cooldown_ms
    }

    /// The state after a switch at `now_ms`.
    pub open spec fn switched(self, now_ms: u64) -> PaletteSchedule {
        PaletteSchedule {
            current: next_palette(self.current),
            previous: self.current,
            last_switch_ms: now_ms,
            in_transition: true,
            ..self
        }
    }

    /// The state after `try_switch_palette(now_ms, downbeat_detected)`.
    pub open spec fn after_try(self, now_ms: u64, downbeat_detected: bool) -> PaletteSchedule {
        if self.switch_due(now_ms, downbeat_detected) {
            self.switched(now_ms)
        } else {
            self
        }
    }

    /// Weight of the new palette at `now_ms`, in thousandths.
    pub open spec fn blend(self, now_ms: u64) -> nat {
        if !self.in_transition {
            1000
        } else if now_ms <= self.last_switch_ms {
            0
        } else if now_ms - self.last_switch_ms >= self.transition_ms {
            1000
        } else {
            smoothstep_milli(
                ((now_ms - self.last_switch_ms) * 1000 / (self.transition_ms as int)) as nat,
            )
        }
    }
}

/// Smoothstep `t²(3 − 2t)` with `t` and the result in thousandths.
pub open spec fn smoothstep_milli(t: nat) -> nat {
    (t * t * (3000 - 2 * t) / 1_000_000) as nat
}

/// Schedules palette changes on downbeats, with a cooldown between switches
/// and a cross-fade after each one.
pub struct PaletteManager {
    current_palette: ColorPalette,
    previous_palette: ColorPalette,
    switch_cooldown_ms: u64,
    last_switch_ms: u64,
    transition_duration_ms: u64,
    in_transition: bool,
}

impl View for PaletteManager {
    type V = PaletteSchedule;

    closed spec fn view(&self) -> PaletteSchedule {
        PaletteSchedule {
            current: self.current_palette,
            previous: self.previous_palette,
            cooldown_ms: self.switch_cooldown_ms,
            last_switch_ms: self.last_switch_ms,
            transition_ms: self.transition_duration_ms,
            in_transition: self.in_transition,
        }
    }
}

proof fn lemma_smoothstep_bounded(t: nat)
    requires
        t <= 1000,
    ensures
        t * t * (3000 - 2 * t) <= 1_000_000_000,
        smoothstep_milli(t) <= 1000,
{
    assert(1_000_000_000 - t * t * (3000 - 2 * t) == (1000 - t) * (1000 - t) * (1000 + 2 * t))
        by (nonlinear_arith);
    assert((1000 - t) * (1000 - t) * (1000 + 2 * t) >= 0) by (nonlinear_arith)
        requires
            t <= 1000,
    ;
}

impl PaletteManager {
    /// Starts on the rainbow palette, with the default cooldown and no
    /// cross-fade running.
    pub fn new() -> (r: PaletteManager)
        ensures
            r@.wf(),
            r@ == (PaletteSchedule {
                current: ColorPalette::Rainbow,
                previous: ColorPalette::Rainbow,
                cooldown_ms: DEFAULT_SWITCH_COOLDOWN_MS,
                last_switch_ms: 0,
                transition_ms: TRANSITION_MS,
                in_transition: false,
            }),
    {
        PaletteManager {
            current_palette: ColorPalette::Rainbow,
            previous_palette: ColorPalette::Rainbow,
            switch_cooldown_ms: DEFAULT_SWITCH_COOLDOWN_MS,
            last_switch_ms: 0,
            transition_duration_ms: TRANSITION_MS,
            in_transition: false,
        }
    }

    pub fn current_palette(&self) -> (r: ColorPalette)
        ensures
            r == self@.current,
    {
        self.current_palette
    }

    pub fn previous_palette(&self) -> (r: ColorPalette)
        ensures
            r == self@.previous,
    {
        self.previous_palette
    }

    /// Advances to the next palette when a downbeat arrives and the cooldown
    /// has elapsed since the last switch; a cross-fade then starts.
    pub fn try_switch_palette(&mut self, current_time_ms: u64, downbeat_detected: bool) -> (r:
        bool)
        requires
            old(self)@.wf(),
        ensures
            final(self)@.wf(),
            r == old(self)@.switch_due(current_time_ms, downbeat_detected),
            final(self)@ == old(self)@.after_try(current_time_ms, downbeat_detected),
    {
        if downbeat_detected && current_time_ms >= self.last_switch_ms && current_time_ms
            - self.last_switch_ms >= self.switch_cooldown_ms {
            self.previous_palette = self.current_palette;
            self.current_palette = self.current_palette.next();
            self.last_switch_ms = current_time_ms;
            self.in_transition = true;
            true
        } else {
            false
        }
    }

    /// Weight of the new palette in the cross-fade, in thousandths: a
    /// smoothstep over the elapsed part of the transition, and 1000 outside
    /// any transition.
    pub fn get_transition_blend(&self, current_time_ms: u64) -> (r: u32)
        requires
            self@.wf(),
        ensures
            r == self@.blend(current_time_ms),
            r <= 1000,
    {
        if !self.in_transition {
            return 1000;
        }
        if current_time_ms <= self.last_switch_ms {
            return 0;
        }
        let elapsed = current_time_ms - self.last_switch_ms;
        if elapsed >= self.transition_duration_ms {
            return 1000;
        }
        let t = elapsed * 1000 / self.transition_duration_ms;
        proof {
            assert(t <= 1000);
            assert(t * t <= 1_000_000) by (nonlinear_arith)
                requires
                    t <= 1000,
            ;
            lemma_smoothstep_bounded(t as nat);
        }
        let r = t * t * (3000 - 2 * t) / 1_000_000;
        r as u32
    }

    /// Ends the cross-fade once its duration has elapsed.
    pub fn update_transition(&mut self, current_time_ms: u64)
        requires
            old(self)@.wf(),
        ensures
            final(self)@ == (PaletteSchedule {
                in_transition: old(self)@.in_transition && !(current_time_ms
                    >= old(self)@.last_switch_ms && current_time_ms - old(self)@.last_switch_ms
                    >= old(self)@.transition_ms),
                ..old(self)@
            }),
            final(self)@.wf(),
    {
        if self.in_transition && current_time_ms >= self.last_switch_ms && current_time_ms
            - self.last_switch_ms >= self.transition_duration_ms {
            self.in_transition = false;
        }
    }

    /// Sets the cooldown between switches, never below the minimum.
    pub fn set_cooldown(&mut self, cooldown_ms: u64)
        requires
            old(self)@.wf(),
        ensures
            final(self)@ == (PaletteSchedule {
                cooldown_ms: if cooldown_ms >= MIN_SWITCH_COOLDOWN_MS {
                    cooldown_ms
                } else {
                    MIN_SWITCH_COOLDOWN_MS
                },
                ..old(self)@
            }),
            final(self)@.wf(),
    {
        self.switch_cooldown_ms = if cooldown_ms >= MIN_SWITCH_COOLDOWN_MS {
            cooldown_ms
        } else {
            MIN_SWITCH_COOLDOWN_MS
        };
    }

    /// Jumps to `palette` at once; the cooldown restarts from `current_time_ms`.
    pub fn force_switch_palette(&mut self, palette: ColorPalette, current_time_ms: u64)
        requires
            old(self)@.wf(),
        ensures
            final(self)@ == (PaletteSchedule {
                current: palette,
                last_switch_ms: current_time_ms,
                ..old(self)@
            }),
            final(self)@.wf(),
    {
        self.current_palette = palette;
        self.last_switch_ms = current_time_ms;
    }
}

/// Two downbeats that both fall before the cooldown has elapsed since the
/// last switch are both refused and leave the schedule as it was; the first
/// downbeat once the cooldown has elapsed switches.
pub proof fn lemma_switch_cooldown(m: PaletteSchedule, t1: u64, t2: u64, t3: u64)
    requires
        m.wf(),
        t1 < m.last_switch_ms + m.cooldown_ms,
        t2 < m.last_switch_ms + m.cooldown_ms,
        t3 >= m.last_switch_ms + m.cooldown_ms,
    ensures
        !m.switch_due(t1, true),
        !m.after_try(t1, true).switch_due(t2, true),
        m.after_try(t1, true).after_try(t2, true) == m,
        m.after_try(t1, true).after_try(t2, true).switch_due(t3, true),
{
}

/// The cross-fade weight always lies in [0, 1000] thousandths.
pub proof fn lemma_blend_bounded(m: PaletteSchedule, now_ms: u64)
    requires
        m.wf(),
    ensures
        m.blend(now_ms) <= 1000,
{
    if m.in_transition && now_ms > m.last_switch_ms && now_ms - m.last_switch_ms
        < m.transition_ms {
        let t = ((now_ms - m.last_switch_ms) * 1000 / (m.transition_ms as int)) as nat;
        assert(t <= 1000);
        lemma_smoothstep_bounded(t);
    }
}

} // verus!
