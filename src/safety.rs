use vstd::prelude::*;
use vstd::string::*;

verus! {

/// A three-component vector; colors hold red, green and blue in thousandths.
#[derive(Debug, Clone, Copy, PartialEq, Eq)]
pub struct Vector3<T> {
    pub x: T,
    pub y: T,
    pub z: T,
}

impl<T> Vector3<T> {
    pub fn new(x: T, y: T, z: T) -> (r: Vector3<T>)
        ensures
            r.x == x,
            r.y == y,
            r.z == z,
    {
        Vector3 { x, y, z }
    }
}

/// Full scale of a color channel or an intensity: 1000 thousandths.
pub const UNIT: u32 = 1000;

/// Full-scale luminance, in ten-millionths: white has luminance 10_000_000.
pub const LUMA_FULL: u64 = 10_000_000;

/// Largest accepted luminance change between two accepted colors (10%).
pub const LUMINANCE_CHANGE_LIMIT: u64 = 1_000_000;

/// Shortest interval between two major changes, in milliseconds (3 Hz).
pub const FLASH_COOLDOWN_MS: u64 = 333;

/// Length of the trailing window in which major changes are counted.
pub const FLASH_WINDOW_MS: u64 = 1000;

/// Number of major changes that fill the trailing window.
pub const MAX_FLASHES_PER_WINDOW: u64 = 3;

/// Intensity above which a change counts as major, in thousandths.
pub const MAJOR_CHANGE_INTENSITY: u32 = 300;

/// Number of major-change timestamps kept.
pub const FLASH_HISTORY_CAPACITY: usize = 16;

/// Each channel lies in [0, 1000] thousandths.
pub open spec fn in_unit(c: Vector3<u32>) -> bool {
    c.x <= UNIT && c.y <= UNIT && c.z <= UNIT
}

/// ITU-R BT.709 luminance of a color in thousandths, in ten-millionths.
pub open spec fn luminance(c: Vector3<u32>) -> nat {
    (2126 * c.x + 7152 * c.y + 722 * c.z) as nat
}

/// `c` scaled by `num / den`, each channel rounded down.
pub open spec fn scale_floor(c: Vector3<u32>, num: nat, den: nat) -> Vector3<u32> {
    Vector3 {
        x: ((c.x as int) * num / (den as int)) as u32,
        y: ((c.y as int) * num / (den as int)) as u32,
        z: ((c.z as int) * num / (den as int)) as u32,
    }
}

/// `c` scaled by `num / den`, each channel rounded up.
pub open spec fn scale_ceil(c: Vector3<u32>, num: nat, den: nat) -> Vector3<u32> {
    Vector3 {
        x: (((c.x as int) * num + den - 1) / (den as int)) as u32,
        y: (((c.y as int) * num + den - 1) / (den as int)) as u32,
        z: (((c.z as int) * num + den - 1) / (den as int)) as u32,
    }
}

/// What the luminance limiter outputs for `c` after an accepted luminance
/// `prev`: `c` itself when its luminance is within the limit of `prev`, else
/// `c` rescaled toward the nearest luminance within the limit (a black color
/// cannot be rescaled and stays black).
pub open spec fn limited_color(prev: nat, c: Vector3<u32>) -> Vector3<u32> {
    let l = luminance(c);
    if l > prev + LUMINANCE_CHANGE_LIMIT {
        scale_floor(c, (prev + LUMINANCE_CHANGE_LIMIT) as nat, l)
    } else if l + LUMINANCE_CHANGE_LIMIT < prev && l > 0 {
        scale_ceil(c, (prev - LUMINANCE_CHANGE_LIMIT) as nat, l)
    } else {
        c
    }
}

pub open spec fn abs_diff(a: nat, b: nat) -> nat {
    if a >= b {
        (a - b) as nat
    } else {
        (b - a) as nat
    }
}

/// BT.709 luminance, in ten-millionths, of a color given in thousandths.
pub fn calculate_luminance(rgb: Vector3<u32>) -> (r: u64)
    ensures
        r == luminance(rgb),
{
    2126 * (rgb.x as u64) + 7152 * (rgb.y as u64) + 722 * (rgb.z as u64)
}

proof fn lemma_luminance_positive(c: Vector3<u32>)
    requires
        luminance(c) > 0,
    ensures
        luminance(c) >= 722,
{
}

/// Rounding each channel down loses less than one thousandth per channel.
proof fn lemma_floor_scaled_luminance(c: Vector3<u32>, t: nat, l: nat)
    requires
        l == luminance(c),
        l > 0,
        in_unit(c),
        t <= l,
    ensures
        luminance(scale_floor(c, t, l)) <= t,
        luminance(scale_floor(c, t, l)) + 10000 > t,
        in_unit(scale_floor(c, t, l)),
{
    let (x, y, z) = (c.x as int, c.y as int, c.z as int);
    let (ti, li) = (t as int, l as int);
    let qx = x * ti / li;
    let qy = y * ti / li;
    let qz = z * ti / li;
    vstd::arithmetic::div_mod::lemma_fundamental_div_mod(x * ti, li);
    vstd::arithmetic::div_mod::lemma_fundamental_div_mod(y * ti, li);
    vstd::arithmetic::div_mod::lemma_fundamental_div_mod(z * ti, li);
    assert(0 <= qx <= x && 0 <= qy <= y && 0 <= qz <= z) by (nonlinear_arith)
        requires
            li * qx <= x * ti,
            li * qy <= y * ti,
            li * qz <= z * ti,
            li * qx + li > x * ti,
            li * qy + li > y * ti,
            li * qz + li > z * ti,
            0 <= x,
            0 <= y,
            0 <= z,
            0 <= ti <= li,
            li > 0,
    ;
    let s = 2126 * qx + 7152 * qy + 722 * qz;
    assert(li * s <= ti * li && li * (s + 10000) > ti * li) by (nonlinear_arith)
        requires
            li * qx <= x * ti,
            li * qy <= y * ti,
            li * qz <= z * ti,
            li * qx + li > x * ti,
            li * qy + li > y * ti,
            li * qz + li > z * ti,
            s == 2126 * qx + 7152 * qy + 722 * qz,
            li == 2126 * x + 7152 * y + 722 * z,
    ;
    assert(s <= ti && s + 10000 > ti) by (nonlinear_arith)
        requires
            li * s <= ti * li,
            li * (s + 10000) > ti * li,
            li > 0,
    ;
}

/// Rounding each channel up gains less than one thousandth per channel.
proof fn lemma_ceil_scaled_luminance(c: Vector3<u32>, t: nat, l: nat)
    requires
        l == luminance(c),
        l > 0,
        in_unit(c),
        t <= LUMA_FULL,
    ensures
        luminance(scale_ceil(c, t, l)) >= t,
        luminance(scale_ceil(c, t, l)) < t + 10000,
        scale_ceil(c, t, l).x <= 14_000_000,
        scale_ceil(c, t, l).y <= 14_000_000,
        scale_ceil(c, t, l).z <= 14_000_000,
{
    lemma_luminance_positive(c);
    let (x, y, z) = (c.x as int, c.y as int, c.z as int);
    let (ti, li) = (t as int, l as int);
    let qx = (x * ti + li - 1) / li;
    let qy = (y * ti + li - 1) / li;
    let qz = (z * ti + li - 1) / li;
    vstd::arithmetic::div_mod::lemma_fundamental_div_mod(x * ti + li - 1, li);
    vstd::arithmetic::div_mod::lemma_fundamental_div_mod(y * ti + li - 1, li);
    vstd::arithmetic::div_mod::lemma_fundamental_div_mod(z * ti + li - 1, li);
    assert(0 <= x * ti <= 10_000_000_000 && 0 <= y * ti <= 10_000_000_000 && 0 <= z * ti
        <= 10_000_000_000) by (nonlinear_arith)
        requires
            0 <= x <= 1000,
            0 <= y <= 1000,
            0 <= z <= 1000,
            0 <= ti <= 10_000_000,
    ;
    assert(li <= 10_000_000);
    assert(0 <= qx <= 14_000_000 && 0 <= qy <= 14_000_000 && 0 <= qz <= 14_000_000)
        by (nonlinear_arith)
        requires
            li * qx <= x * ti + li - 1,
            li * qy <= y * ti + li - 1,
            li * qz <= z * ti + li - 1,
            li * qx + li > x * ti + li - 1,
            li * qy + li > y * ti + li - 1,
            li * qz + li > z * ti + li - 1,
            0 <= x * ti <= 10_000_000_000,
            0 <= y * ti <= 10_000_000_000,
            0 <= z * ti <= 10_000_000_000,
            722 <= li <= 10_000_000,
    ;
    let s = 2126 * qx + 7152 * qy + 722 * qz;
    assert(li * s >= ti * li && li * s < (ti + 10000) * li) by (nonlinear_arith)
        requires
            li * qx <= x * ti + li - 1,
            li * qy <= y * ti + li - 1,
            li * qz <= z * ti + li - 1,
            li * qx + li > x * ti + li - 1,
            li * qy + li > y * ti + li - 1,
            li * qz + li > z * ti + li - 1,
            s == 2126 * qx + 7152 * qy + 722 * qz,
            li == 2126 * x + 7152 * y + 722 * z,
            li > 0,
    ;
    assert(s >= ti && s < ti + 10000) by (nonlinear_arith)
        requires
            li * s >= ti * li,
            li * s < (ti + 10000) * li,
            li > 0,
    ;
}

/// The limiter's output never moves luminance by more than the limit from
/// the previous accepted luminance, unless the input is black.
proof fn lemma_limited_luminance(prev: nat, c: Vector3<u32>)
    requires
        in_unit(c),
        prev <= LUMA_FULL,
    ensures
        luminance(c) > 0 ==> abs_diff(luminance(limited_color(prev, c)), prev)
            <= LUMINANCE_CHANGE_LIMIT,
        luminance(limited_color(prev, c)) <= LUMA_FULL,
{
    let l = luminance(c);
    if l > prev + LUMINANCE_CHANGE_LIMIT {
        lemma_floor_scaled_luminance(c, (prev + LUMINANCE_CHANGE_LIMIT) as nat, l);
    } else if l + LUMINANCE_CHANGE_LIMIT < prev && l > 0 {
        lemma_ceil_scaled_luminance(c, (prev - LUMINANCE_CHANGE_LIMIT) as nat, l);
    }
}

fn scale_channel_floor(a: u32, num: u64, den: u64) -> (r: u32)
    requires
        a <= UNIT,
        num <= den,
        den > 0,
        num <= LUMA_FULL,
    ensures
        r == (a as int) * (num as int) / (den as int),
{
    proof {
        assert((a as int) * (num as int) <= 10_000_000_000) by (nonlinear_arith)
            requires
                a <= 1000,
                num <= 10_000_000,
        ;
        let p = (a as int) * (num as int);
        vstd::arithmetic::div_mod::lemma_fundamental_div_mod(p, den as int);
        assert(p / (den as int) <= a) by (nonlinear_arith)
            requires
                den * (p / (den as int)) <= p,
                p == (a as int) * (num as int),
                num <= den,
                den > 0,
        ;
    }
    ((a as u64) * num / den) as u32
}

fn scale_channel_ceil(a: u32, num: u64, den: u64) -> (r: u64)
    requires
        a <= UNIT,
        den > 0,
        den <= LUMA_FULL,
        num <= LUMA_FULL,
    ensures
        r == ((a as int) * (num as int) + den - 1) / (den as int),
{
    proof {
        assert((a as int) * (num as int) <= 10_000_000_000) by (nonlinear_arith)
            requires
                a <= 1000,
                num <= 10_000_000,
        ;
    }
    ((a as u64) * num + den - 1) / den
}

/// Keeps luminance changes between accepted colors within 10%.
pub struct LuminanceLimiter {
    previous_luminance: u64,
}

impl View for LuminanceLimiter {
    type V = nat;

    /// The luminance of the last accepted color.
    closed spec fn view(&self) -> nat {
        self.previous_luminance as nat
    }
}

impl LuminanceLimiter {
    /// Starts from a medium luminance (one half).
    pub fn new() -> (r: LuminanceLimiter)
        ensures
            r@ == LUMA_FULL / 2,
    {
        LuminanceLimiter { previous_luminance: LUMA_FULL / 2 }
    }

    pub fn calculate_luminance(rgb: Vector3<u32>) -> (r: u64)
        ensures
            r == luminance(rgb),
    {
        calculate_luminance(rgb)
    }

    /// Passes `new_rgb` through when its luminance is within 10% of the
    /// previous accepted one; otherwise rescales it toward the nearest
    /// luminance within that limit, keeping the channels' proportions.
    pub fn limit_luminance_change(&mut self, new_rgb: Vector3<u32>) -> (r: Vector3<u32>)
        requires
            in_unit(new_rgb),
            old(self)@ <= LUMA_FULL,
        ensures
            r == limited_color(old(self)@, new_rgb),
            final(self)@ == luminance(r),
            final(self)@ <= LUMA_FULL,
            luminance(new_rgb) > 0 ==> abs_diff(final(self)@, old(self)@)
                <= LUMINANCE_CHANGE_LIMIT,
    {
        let prev = self.previous_luminance;
        let l = calculate_luminance(new_rgb);
        proof {
            lemma_limited_luminance(prev as nat, new_rgb);
        }
        let out = if l > prev + LUMINANCE_CHANGE_LIMIT {
            let t = prev + LUMINANCE_CHANGE_LIMIT;
            Vector3 {
                x: scale_channel_floor(new_rgb.x, t, l),
                y: scale_channel_floor(new_rgb.y, t, l),
                z: scale_channel_floor(new_rgb.z, t, l),
            }
        } else if l + LUMINANCE_CHANGE_LIMIT < prev && l > 0 {
            let t = prev - LUMINANCE_CHANGE_LIMIT;
            proof {
                lemma_ceil_scaled_luminance(new_rgb, t as nat, l as nat);
            }
            let x = scale_channel_ceil(new_rgb.x, t, l);
            let y = scale_channel_ceil(new_rgb.y, t, l);
            let z = scale_channel_ceil(new_rgb.z, t, l);
            Vector3 { x: x as u32, y: y as u32, z: z as u32 }
        } else {
            new_rgb
        };
        self.previous_luminance = calculate_luminance(out);
        out
    }
}


/// Time from `t` to `now`, or zero when `t` lies in the future.
pub open spec fn elapsed_ms(now: u64, t: u64) -> nat {
    if now >= t {
        (now - t) as nat
    } else {
        0
    }
}

/// The timestamps of `s` that lie inside the trailing window ending at `now`,
/// in their order.
pub open spec fn in_window(s: Seq<u64>, now: u64) -> Seq<u64>
    decreases s.len(),
{
    if s.len() == 0 {
        s
    } else {
        let rest = in_window(s.drop_last(), now);
        if elapsed_ms(now, s.last()) < FLASH_WINDOW_MS {
            rest.push(s.last())
        } else {
            rest
        }
    }
}

/// A cooldown that started at `last` (if any) is still running at `now`.
pub open spec fn cooling(last: Option<u64>, now: u64) -> bool {
    match last {
        Some(t) => elapsed_ms(now, t) < FLASH_COOLDOWN_MS,
        None => false,
    }
}

/// The observable state of a [`FlashTracker`].
pub struct FlashHistory {
    pub last_major: Option<u64>,
    pub last_red: Option<u64>,
    /// Timestamps of the recorded major changes, oldest first.
    pub recent: Seq<u64>,
}

impl FlashHistory {
    pub open spec fn wf(self) -> bool {
        self.recent.len() <= FLASH_HISTORY_CAPACITY
    }

    /// A change of `intensity` at `now` is safe: a minor change always is; a
    /// major one needs the general cooldown to have run out, the red cooldown
    /// too when it is red-dominant, and fewer than three major changes in
    /// the trailing window.
    pub open spec fn allows(self, now: u64, intensity: u32, is_red_dominant: bool) -> bool {
        intensity > MAJOR_CHANGE_INTENSITY ==> {
            &&& !(is_red_dominant && cooling(self.last_red, now))
            &&& !cooling(self.last_major, now)
            &&& in_window(self.recent, now).len() < MAX_FLASHES_PER_WINDOW
        }
    }

    /// The state after recording a change of `intensity` at `now`: changes
    /// that left the window are dropped, and a major change restarts the
    /// cooldowns and joins the window, evicting the oldest entry when full.
    pub open spec fn recorded(self, now: u64, intensity: u32, is_red_dominant: bool) -> FlashHistory {
        let w = in_window(self.recent, now);
        if intensity > MAJOR_CHANGE_INTENSITY {
            let kept = if w.len() >= FLASH_HISTORY_CAPACITY {
                w.drop_first()
            } else {
                w
            };
            FlashHistory {
                last_major: Some(now),
                last_red: if is_red_dominant {
                    Some(now)
                } else {
                    self.last_red
                },
                recent: kept.push(now),
            }
        } else {
            FlashHistory { recent: w, ..self }
        }
    }
}

proof fn lemma_in_window_len(s: Seq<u64>, now: u64)
    ensures
        in_window(s, now).len() <= s.len(),
    decreases s.len(),
{
    if s.len() > 0 {
        lemma_in_window_len(s.drop_last(), now);
    }
}

/// Tracks major visual changes to hold flashes under three per second.
pub struct FlashTracker {
    last_major_change_ms: Option<u64>,
    last_red_flash_ms: Option<u64>,
    recent_changes_ms: Vec<u64>,
}

impl View for FlashTracker {
    type V = FlashHistory;

    closed spec fn view(&self) -> FlashHistory {
        FlashHistory {
            last_major: self.last_major_change_ms,
            last_red: self.last_red_flash_ms,
            recent: self.recent_changes_ms@,
        }
    }
}

fn elapsed_since(now: u64, t: u64) -> (r: u64)
    ensures
        r == elapsed_ms(now, t),
{
    if now >= t {
        now - t
    } else {
        0
    }
}

fn is_cooling(last: Option<u64>, now: u64) -> (r: bool)
    ensures
        r == cooling(last, now),
{
    match last {
        Some(t) => elapsed_since(now, t) < FLASH_COOLDOWN_MS,
        None => false,
    }
}

/// The entries of `s` inside the trailing window ending at `now`.
fn window_of(s: &Vec<u64>, now: u64) -> (r: Vec<u64>)
    ensures
        r@ == in_window(s@, now),
{
    let mut r: Vec<u64> = Vec::new();
    let mut i: usize = 0;
    while i < s.len()
        invariant
            i <= s@.len(),
            r@ == in_window(s@.take(i as int), now),
        decreases s.len() - i,
    {
        proof {
            assert(s@.take(i as int + 1).drop_last() == s@.take(i as int));
        }
        if elapsed_since(now, s[i]) < FLASH_WINDOW_MS {
            r.push(s[i]);
        }
        i = i + 1;
    }
    proof {
        assert(s@.take(s@.len() as int) == s@);
    }
    r
}

impl FlashTracker {
    /// No change recorded yet: the first change is always allowed.
    pub fn new() -> (r: FlashTracker)
        ensures
            r@ == (FlashHistory { last_major: None, last_red: None, recent: Seq::empty() }),
    {
        FlashTracker {
            last_major_change_ms: None,
            last_red_flash_ms: None,
            recent_changes_ms: Vec::new(),
        }
    }

    /// Whether a change of `intensity` (thousandths) at `now_ms` is safe.
    pub fn can_allow_change(&self, now_ms: u64, intensity: u32, is_red_dominant: bool) -> (r:
        bool)
        ensures
            r == self@.allows(now_ms, intensity, is_red_dominant),
    {
        if intensity > MAJOR_CHANGE_INTENSITY {
            if is_red_dominant && is_cooling(self.last_red_flash_ms, now_ms) {
                return false;
            }
            if is_cooling(self.last_major_change_ms, now_ms) {
                return false;
            }
            let recent = window_of(&self.recent_changes_ms, now_ms);
            if recent.len() as u64 >= MAX_FLASHES_PER_WINDOW {
                return false;
            }
        }
        true
    }

    /// Records a change of `intensity` (thousandths) made at `now_ms`.
    pub fn record_change(&mut self, now_ms: u64, intensity: u32, is_red_dominant: bool)
        requires
            old(self)@.wf(),
        ensures
            final(self)@ == old(self)@.recorded(now_ms, intensity, is_red_dominant),
            final(self)@.wf(),
    {
        let mut recent = window_of(&self.recent_changes_ms, now_ms);
        proof {
            lemma_in_window_len(self.recent_changes_ms@, now_ms);
        }
        if intensity > MAJOR_CHANGE_INTENSITY {
            self.last_major_change_ms = Some(now_ms);
            if is_red_dominant {
                self.last_red_flash_ms = Some(now_ms);
            }
            if recent.len() >= FLASH_HISTORY_CAPACITY {
                recent.remove(0);
            }
            recent.push(now_ms);
        }
        self.recent_changes_ms = recent;
    }
}

/// A major change refuses any further major change for the cooldown that
/// follows it; once both cooldowns have run out and fewer than three major
/// changes remain in the trailing window, a change is allowed again.
pub proof fn lemma_flash_rate_limit(
    h: FlashHistory,
    t1: u64,
    i1: u32,
    red1: bool,
    t2: u64,
    i2: u32,
    red2: bool,
)
    requires
        h.wf(),
        i1 > MAJOR_CHANGE_INTENSITY,
        i2 > MAJOR_CHANGE_INTENSITY,
        t1 <= t2,
        t2 < t1 + FLASH_COOLDOWN_MS,
    ensures
        !h.recorded(t1, i1, red1).allows(t2, i2, red2),
{
}

/// Once the cooldowns have run out and the trailing window holds fewer than
/// three major changes, any change is allowed.
pub proof fn lemma_flash_window_release(h: FlashHistory, now: u64, intensity: u32, red: bool)
    requires
        !cooling(h.last_major, now),
        !(red && cooling(h.last_red, now)),
        in_window(h.recent, now).len() < MAX_FLASHES_PER_WINDOW,
    ensures
        h.allows(now, intensity, red),
{
}


/// How strongly visual effects are limited, from the most to the least
/// restrictive.
#[derive(Debug, Clone, Copy, PartialEq, Eq, Structural)]
pub enum SafetyLevel {
    UltraSafe,
    Safe,
    Moderate,
    Standard,
    Disabled,
}

impl Default for SafetyLevel {
    fn default() -> (r: SafetyLevel)
        ensures
            r == SafetyLevel::Safe,
    {
        SafetyLevel::Safe
    }
}

/// Position of a level, from the most restrictive (0) up.
pub open spec fn level_rank(l: SafetyLevel) -> nat {
    match l {
        SafetyLevel::UltraSafe => 0,
        SafetyLevel::Safe => 1,
        SafetyLevel::Moderate => 2,
        SafetyLevel::Standard => 3,
        SafetyLevel::Disabled => 4,
    }
}

/// Scaling of audio-reactive effects, each factor in thousandths.
#[derive(Debug, Clone, Copy, PartialEq, Eq, Structural)]
pub struct SafetyMultipliers {
    pub beat_intensity: u32,
    pub onset_intensity: u32,
    pub color_change_rate: u32,
    pub brightness_range: u32,
    pub pattern_complexity: u32,
}

pub open spec fn multipliers_of(
    beat: u32,
    onset: u32,
    color: u32,
    brightness: u32,
    complexity: u32,
) -> SafetyMultipliers {
    SafetyMultipliers {
        beat_intensity: beat,
        onset_intensity: onset,
        color_change_rate: color,
        brightness_range: brightness,
        pattern_complexity: complexity,
    }
}

/// The bundle of factors that a safety level selects.
pub open spec fn level_multipliers(l: SafetyLevel) -> SafetyMultipliers {
    match l {
        SafetyLevel::UltraSafe => multipliers_of(100, 50, 200, 300, 300),
        SafetyLevel::Safe => multipliers_of(300, 200, 400, 500, 500),
        SafetyLevel::Moderate => multipliers_of(600, 400, 700, 700, 700),
        SafetyLevel::Standard => multipliers_of(800, 600, 900, 900, 900),
        SafetyLevel::Disabled => multipliers_of(1000, 1000, 1000, 1000, 1000),
    }
}

/// The factors in force during an emergency stop.
pub open spec fn emergency_multipliers() -> SafetyMultipliers {
    multipliers_of(0, 0, 0, 100, 0)
}

pub open spec fn multipliers_in_unit(m: SafetyMultipliers) -> bool {
    &&& m.beat_intensity <= UNIT
    &&& m.onset_intensity <= UNIT
    &&& m.color_change_rate <= UNIT
    &&& m.brightness_range <= UNIT
    &&& m.pattern_complexity <= UNIT
}

impl SafetyMultipliers {
    pub fn emergency_stop() -> (r: SafetyMultipliers)
        ensures
            r == emergency_multipliers(),
    {
        SafetyMultipliers {
            beat_intensity: 0,
            onset_intensity: 0,
            color_change_rate: 0,
            brightness_range: 100,
            pattern_complexity: 0,
        }
    }

    pub fn ultra_safe() -> (r: SafetyMultipliers)
        ensures
            r == level_multipliers(SafetyLevel::UltraSafe),
    {
        SafetyMultipliers {
            beat_intensity: 100,
            onset_intensity: 50,
            color_change_rate: 200,
            brightness_range: 300,
            pattern_complexity: 300,
        }
    }

    pub fn safe() -> (r: SafetyMultipliers)
        ensures
            r == level_multipliers(SafetyLevel::Safe),
    {
        SafetyMultipliers {
            beat_intensity: 300,
            onset_intensity: 200,
            color_change_rate: 400,
            brightness_range: 500,
            pattern_complexity: 500,
        }
    }

    pub fn moderate() -> (r: SafetyMultipliers)
        ensures
            r == level_multipliers(SafetyLevel::Moderate),
    {
        SafetyMultipliers {
            beat_intensity: 600,
            onset_intensity: 400,
            color_change_rate: 700,
            brightness_range: 700,
            pattern_complexity: 700,
        }
    }

    pub fn standard() -> (r: SafetyMultipliers)
        ensures
            r == level_multipliers(SafetyLevel::Standard),
    {
        SafetyMultipliers {
            beat_intensity: 800,
            onset_intensity: 600,
            color_change_rate: 900,
            brightness_range: 900,
            pattern_complexity: 900,
        }
    }

    pub fn disabled() -> (r: SafetyMultipliers)
        ensures
            r == level_multipliers(SafetyLevel::Disabled),
    {
        SafetyMultipliers {
            beat_intensity: 1000,
            onset_intensity: 1000,
            color_change_rate: 1000,
            brightness_range: 1000,
            pattern_complexity: 1000,
        }
    }

    /// The bundle that `level` selects.
    pub fn for_level(level: SafetyLevel) -> (r: SafetyMultipliers)
        ensures
            r == level_multipliers(level),
    {
        match level {
            SafetyLevel::UltraSafe => SafetyMultipliers::ultra_safe(),
            SafetyLevel::Safe => SafetyMultipliers::safe(),
            SafetyLevel::Moderate => SafetyMultipliers::moderate(),
            SafetyLevel::Standard => SafetyMultipliers::standard(),
            SafetyLevel::Disabled => SafetyMultipliers::disabled(),
        }
    }
}

/// Every factor lies in [0, 1]; a less restrictive level never lowers a
/// factor; beat and onset factors rise strictly from level to level; the
/// disabled level applies no limit at all.
pub proof fn lemma_multipliers_monotone(a: SafetyLevel, b: SafetyLevel)
    ensures
        multipliers_in_unit(level_multipliers(a)),
        multipliers_in_unit(emergency_multipliers()),
        level_rank(a) <= level_rank(b) ==> {
            let (ma, mb) = (level_multipliers(a), level_multipliers(b));
            &&& ma.beat_intensity <= mb.beat_intensity
            &&& ma.onset_intensity <= mb.onset_intensity
            &&& ma.color_change_rate <= mb.color_change_rate
            &&& ma.brightness_range <= mb.brightness_range
            &&& ma.pattern_complexity <= mb.pattern_complexity
        },
        level_rank(a) < level_rank(b) ==> {
            &&& level_multipliers(a).beat_intensity < level_multipliers(b).beat_intensity
            &&& level_multipliers(a).onset_intensity < level_multipliers(b).onset_intensity
        },
        level_multipliers(SafetyLevel::Disabled) == multipliers_of(1000, 1000, 1000, 1000, 1000),
{
}

/// `c` with every channel scaled by `factor` thousandths, rounded down.
pub open spec fn scaled_color(c: Vector3<u32>, factor: u32) -> Vector3<u32> {
    Vector3 {
        x: ((c.x as int) * (factor as int) / 1000) as u32,
        y: ((c.y as int) * (factor as int) / 1000) as u32,
        z: ((c.z as int) * (factor as int) / 1000) as u32,
    }
}

impl Vector3<u32> {
    /// Every component scaled by `scalar` thousandths, rounded down.
    pub fn mul_scalar(self, scalar: u32) -> (r: Vector3<u32>)
        requires
            (self.x as int) * (scalar as int) / 1000 <= u32::MAX,
            (self.y as int) * (scalar as int) / 1000 <= u32::MAX,
            (self.z as int) * (scalar as int) / 1000 <= u32::MAX,
        ensures
            r == scaled_color(self, scalar),
    {
        Vector3 {
            x: ((self.x as u64) * (scalar as u64) / 1000) as u32,
            y: ((self.y as u64) * (scalar as u64) / 1000) as u32,
            z: ((self.z as u64) * (scalar as u64) / 1000) as u32,
        }
    }
}

proof fn lemma_scaled_in_unit(c: Vector3<u32>, f: u32)
    requires
        in_unit(c),
        f <= UNIT,
    ensures
        in_unit(scaled_color(c, f)),
{
    let (x, y, z, fi) = (c.x as int, c.y as int, c.z as int, f as int);
    assert(x * fi / 1000 <= x && y * fi / 1000 <= y && z * fi / 1000 <= z) by (nonlinear_arith)
        requires
            0 <= x,
            0 <= y,
            0 <= z,
            0 <= fi <= 1000,
    ;
}

/// Red dominates: red exceeds 1.5 times green and 1.5 times blue.
pub open spec fn red_dominant(c: Vector3<u32>) -> bool {
    2 * c.x > 3 * c.y && 2 * c.x > 3 * c.z
}

fn is_red_dominant(c: Vector3<u32>) -> (r: bool)
    ensures
        r == red_dominant(c),
{
    2 * (c.x as u64) > 3 * (c.y as u64) && 2 * (c.x as u64) > 3 * (c.z as u64)
}

/// The dim gray shown during an emergency stop.
pub open spec fn emergency_color() -> Vector3<u32> {
    Vector3 { x: 100, y: 100, z: 100 }
}

pub open spec fn emergency_warning() -> Seq<char> {
    "Emergency stop activated"@
}

/// The observable state of a [`SafetyEngine`].
pub struct SafetyState {
    pub flash: FlashHistory,
    pub luminance: nat,
    pub level: SafetyLevel,
    pub stopped: bool,
    pub warnings: Seq<Seq<char>>,
}

impl SafetyState {
    pub open spec fn wf(self) -> bool {
        self.flash.wf() && self.luminance <= LUMA_FULL
    }

    /// What `filter_color(c)` returns.
    pub open spec fn filtered(self, c: Vector3<u32>) -> Vector3<u32> {
        if self.stopped {
            emergency_color()
        } else {
            limited_color(
                self.luminance,
                scaled_color(c, level_multipliers(self.level).brightness_range),
            )
        }
    }

    /// The state after `filter_color(c)`.
    pub open spec fn after_filter(self, c: Vector3<u32>) -> SafetyState {
        if self.stopped {
            self
        } else {
            SafetyState { luminance: luminance(self.filtered(c)), ..self }
        }
    }

    /// The state after `emergency_stop()`.
    pub open spec fn stopped_now(self) -> SafetyState {
        SafetyState { stopped: true, warnings: self.warnings.push(emergency_warning()), ..self }
    }

    /// The state after `resume()`.
    pub open spec fn resumed(self) -> SafetyState {
        SafetyState { stopped: false, warnings: Seq::empty(), ..self }
    }

    /// The intensity that the flash tracker judges for an effect of
    /// `intensity` at this level.
    pub open spec fn adjusted_intensity(self, intensity: u32) -> u32 {
        ((intensity as int) * (level_multipliers(self.level).brightness_range as int)
            / 1000) as u32
    }

    /// What `can_allow_effect(now, intensity, c)` returns.
    pub open spec fn allows_effect(self, now: u64, intensity: u32, c: Vector3<u32>) -> bool {
        if self.stopped {
            false
        } else if self.level == SafetyLevel::Disabled {
            true
        } else {
            self.flash.allows(now, self.adjusted_intensity(intensity), red_dominant(c))
        }
    }

    /// The state after `record_effect(now, intensity, c)`.
    pub open spec fn after_record(self, now: u64, intensity: u32, c: Vector3<u32>) -> SafetyState {
        if self.level == SafetyLevel::Disabled {
            self
        } else {
            SafetyState { flash: self.flash.recorded(now, intensity, red_dominant(c)), ..self }
        }
    }
}

/// Coordinates flash-rate limiting, luminance limiting, the safety level and
/// the emergency stop.
pub struct SafetyEngine {
    flash_tracker: FlashTracker,
    luminance_limiter: LuminanceLimiter,
    safety_level: SafetyLevel,
    emergency_stop: bool,
    safety_warnings: Vec<String>,
}

impl View for SafetyEngine {
    type V = SafetyState;

    closed spec fn view(&self) -> SafetyState {
        SafetyState {
            flash: self.flash_tracker@,
            luminance: self.luminance_limiter@,
            level: self.safety_level,
            stopped: self.emergency_stop,
            warnings: self.safety_warnings@.map_values(|w: String| w@),
        }
    }
}

impl SafetyEngine {
    /// Normal operation at the default (safe) level, no change recorded.
    pub fn new() -> (r: SafetyEngine)
        ensures
            r@.wf(),
            r@.level == SafetyLevel::Safe,
            !r@.stopped,
            r@.warnings.len() == 0,
            r@.luminance == LUMA_FULL / 2,
            r@.flash == (FlashHistory { last_major: None, last_red: None, recent: Seq::empty() }),
    {
        let r = SafetyEngine {
            flash_tracker: FlashTracker::new(),
            luminance_limiter: LuminanceLimiter::new(),
            safety_level: SafetyLevel::default(),
            emergency_stop: false,
            safety_warnings: Vec::new(),
        };
        assert(r@.warnings =~= Seq::empty());
        r
    }

    pub fn set_safety_level(&mut self, level: SafetyLevel)
        ensures
            final(self)@ == (SafetyState { level, ..old(self)@ }),
    {
        self.safety_level = level;
    }

    pub fn get_safety_level(&self) -> (r: SafetyLevel)
        ensures
            r == self@.level,
    {
        self.safety_level
    }

    /// Enters the emergency stop and records a warning.
    pub fn emergency_stop(&mut self)
        ensures
            final(self)@ == old(self)@.stopped_now(),
    {
        self.emergency_stop = true;
        let w = String::from_str("Emergency stop activated");
        self.safety_warnings.push(w);
        assert(self@.warnings =~= old(self)@.warnings.push(emergency_warning()));
    }

    /// Leaves the emergency stop and clears the accumulated warnings.
    pub fn resume(&mut self)
        ensures
            final(self)@ == old(self)@.resumed(),
    {
        self.emergency_stop = false;
        self.safety_warnings.clear();
        assert(self@.warnings =~= Seq::empty());
    }

    pub fn is_emergency_stopped(&self) -> (r: bool)
        ensures
            r == self@.stopped,
    {
        self.emergency_stop
    }

    /// During an emergency stop, a dim gray; otherwise `color` scaled by the
    /// level's brightness factor, then held within the luminance limit.
    pub fn filter_color(&mut self, color: Vector3<u32>) -> (r: Vector3<u32>)
        requires
            old(self)@.wf(),
            in_unit(color),
        ensures
            r == old(self)@.filtered(color),
            final(self)@ == old(self)@.after_filter(color),
            final(self)@.wf(),
    {
        if self.emergency_stop {
            return Vector3 { x: 100, y: 100, z: 100 };
        }
        let factor = SafetyMultipliers::for_level(self.safety_level).brightness_range;
        proof {
            lemma_scaled_in_unit(color, factor);
        }
        let limited = color.mul_scalar(factor);
        self.luminance_limiter.limit_luminance_change(limited)
    }

    /// Whether an effect of `intensity` (thousandths) in `color` may be shown
    /// at `now_ms`.
    pub fn can_allow_effect(&self, now_ms: u64, intensity: u32, color: Vector3<u32>) -> (r: bool)
        ensures
            r == self@.allows_effect(now_ms, intensity, color),
    {
        if self.emergency_stop {
            return false;
        }
        if self.safety_level == SafetyLevel::Disabled {
            return true;
        }
        let red = is_red_dominant(color);
        let factor = SafetyMultipliers::for_level(self.safety_level).brightness_range;
        proof {
            let (i, f) = (intensity as int, factor as int);
            assert(i * f / 1000 <= i) by (nonlinear_arith)
                requires
                    0 <= i,
                    0 <= f <= 1000,
            ;
        }
        let adjusted = ((intensity as u64) * (factor as u64) / 1000) as u32;
        self.flash_tracker.can_allow_change(now_ms, adjusted, red)
    }

    /// Records an effect shown at `now_ms`; nothing is tracked when the
    /// level is disabled.
    pub fn record_effect(&mut self, now_ms: u64, intensity: u32, color: Vector3<u32>)
        requires
            old(self)@.wf(),
        ensures
            final(self)@ == old(self)@.after_record(now_ms, intensity, color),
            final(self)@.wf(),
    {
        if self.safety_level == SafetyLevel::Disabled {
            return;
        }
        let red = is_red_dominant(color);
        self.flash_tracker.record_change(now_ms, intensity, red);
    }

    /// The factors for audio-reactive effects: the emergency bundle while
    /// stopped, else the level's.
    pub fn get_safety_multipliers(&self) -> (r: SafetyMultipliers)
        ensures
            r == if self@.stopped {
                emergency_multipliers()
            } else {
                level_multipliers(self@.level)
            },
    {
        if self.emergency_stop {
            SafetyMultipliers::emergency_stop()
        } else {
            SafetyMultipliers::for_level(self.safety_level)
        }
    }

    /// A snapshot of the level, the stop flag and the warnings.
    pub fn get_safety_status(&self) -> (r: SafetyStatus)
        ensures
            r.level == self@.level,
            r.emergency_stopped == self@.stopped,
            r.warnings@.map_values(|w: String| w@) == self@.warnings,
    {
        let mut warnings: Vec<String> = Vec::new();
        let mut i: usize = 0;
        while i < self.safety_warnings.len()
            invariant
                i <= self.safety_warnings@.len(),
                warnings@.map_values(|w: String| w@) == self@.warnings.take(i as int),
            decreases self.safety_warnings.len() - i,
        {
            let w = self.safety_warnings[i].as_str();
            let copy = String::from_str(w);
            assert(copy@ == self@.warnings[i as int]);
            let ghost before = warnings@;
            warnings.push(copy);
            proof {
                assert(warnings@ == before.push(copy));
                assert(warnings@.map_values(|w: String| w@) =~= before.map_values(|w: String| w@).push(copy@));
                assert(warnings@.map_values(|w: String| w@) =~= self@.warnings.take(i as int + 1));
            }
            i = i + 1;
        }
        proof {
            assert(self@.warnings.take(i as int) =~= self@.warnings);
        }
        SafetyStatus {
            level: self.safety_level,
            emergency_stopped: self.emergency_stop,
            warnings,
        }
    }
}

/// During an emergency stop every filtered color is dark (luminance below
/// 0.2); after resuming, a color whose scaled luminance stays within the
/// limit is scaled by the level's brightness factor and nothing else.
pub proof fn lemma_emergency_stop_and_resume(s: SafetyState, c: Vector3<u32>)
    requires
        s.wf(),
        in_unit(c),
    ensures
        luminance(s.stopped_now().filtered(c)) < 2_000_000,
        s.stopped_now().resumed().wf(),
        ({
            let r = s.stopped_now().resumed();
            let scaled = scaled_color(c, level_multipliers(r.level).brightness_range);
            abs_diff(luminance(scaled), r.luminance) <= LUMINANCE_CHANGE_LIMIT ==> r.filtered(c)
                == scaled
        }),
{
}

/// The emergency stop is left only through `resume`: filtering, recording
/// effects and changing the level all keep it, and while it holds no effect
/// is allowed.
pub proof fn lemma_emergency_stop_sticky(
    s: SafetyState,
    c: Vector3<u32>,
    now: u64,
    intensity: u32,
    level: SafetyLevel,
)
    requires
        s.stopped,
    ensures
        s.after_filter(c).stopped,
        s.after_record(now, intensity, c).stopped,
        (SafetyState { level, ..s }).stopped,
        !s.allows_effect(now, intensity, c),
        s.stopped_now().stopped,
        !s.resumed().stopped,
{
}

/// Fed two colors in a row, the limiter moves luminance by at most the
/// limit at each step, unless the color is black.
pub proof fn lemma_luminance_steps_bounded(prev: nat, c1: Vector3<u32>, c2: Vector3<u32>)
    requires
        prev <= LUMA_FULL,
        in_unit(c1),
        in_unit(c2),
    ensures
        luminance(c1) > 0 ==> abs_diff(luminance(limited_color(prev, c1)), prev)
            <= LUMINANCE_CHANGE_LIMIT,
        luminance(c2) > 0 ==> abs_diff(
            luminance(limited_color(luminance(limited_color(prev, c1)), c2)),
            luminance(limited_color(prev, c1)),
        ) <= LUMINANCE_CHANGE_LIMIT,
{
    lemma_limited_luminance(prev, c1);
    lemma_limited_luminance(luminance(limited_color(prev, c1)), c2);
}

/// A snapshot of the safety engine for display.
#[derive(Debug)]
pub struct SafetyStatus {
    pub level: SafetyLevel,
    pub emergency_stopped: bool,
    pub warnings: Vec<String>,
}

pub open spec fn level_label(l: SafetyLevel) -> Seq<char> {
    match l {
        SafetyLevel::UltraSafe => "🛡️ Ultra Safe"@,
        SafetyLevel::Safe => "🔒 Safe"@,
        SafetyLevel::Moderate => "⚠️ Moderate"@,
        SafetyLevel::Standard => "🎨 Standard"@,
        SafetyLevel::Disabled => "⚠️ DISABLED"@,
    }
}

pub open spec fn stop_banner() -> Seq<char> {
    "⛔ EMERGENCY STOP ACTIVE"@
}

impl SafetyStatus {
    /// The stop banner while stopped, else the level's label.
    pub fn get_status_message(&self) -> (r: String)
        ensures
            r@ == if self.emergency_stopped {
                stop_banner()
            } else {
                level_label(self.level)
            },
    {
        if self.emergency_stopped {
            return String::from_str("⛔ EMERGENCY STOP ACTIVE");
        }
        let label = match self.level {
            SafetyLevel::UltraSafe => "🛡️ Ultra Safe",
            SafetyLevel::Safe => "🔒 Safe",
            SafetyLevel::Moderate => "⚠️ Moderate",
            SafetyLevel::Standard => "🎨 Standard",
            SafetyLevel::Disabled => "⚠️ DISABLED",
        };
        String::from_str(label)
    }

    /// The user is warned while any warning is pending.
    pub fn should_warn_user(&self) -> (r: bool)
        ensures
            r == (self.warnings@.len() > 0),
    {
        self.warnings.len() > 0
    }
}

} // verus!
