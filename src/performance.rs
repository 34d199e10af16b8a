use vstd::prelude::*;
use crate::quality::{quality_rank, QualityLevel};

verus! {

/// Frames of history kept (one second at 60 frames per second).
pub const HISTORY_FRAMES: usize = 60;

/// Shortest interval between two automatic quality changes, in milliseconds.
pub const ADJUSTMENT_COOLDOWN_MS: u64 = 2000;

/// Consecutive slow frames that lower the quality.
pub const POOR_FRAMES_TO_LOWER: u32 = 5;

/// Consecutive fast frames that raise the quality.
pub const GOOD_FRAMES_TO_RAISE: u32 = 15;

/// Frame time reported when no frame was measured, in microseconds.
pub const DEFAULT_FRAME_TIME_US: u64 = 16_000;

/// Frame rate reported when no frame was measured, in thousandths.
pub const DEFAULT_FPS_MILLI: u64 = 60_000;

/// One measured frame.
#[derive(Debug, Clone, Copy, PartialEq, Eq, Structural)]
pub struct PerformanceMetrics {
    /// Time the frame took, in microseconds.
    pub frame_time_us: u64,
    /// Frame rate at that frame, in thousandths of a frame per second.
    pub fps_milli: u32,
}

/// The observable state of a [`PerformanceManager`].
pub struct PerformanceState {
    pub quality: QualityLevel,
    pub target_frame_us: u64,
    pub history: Seq<PerformanceMetrics>,
    pub last_adjustment_ms: u64,
    pub poor_frames: u32,
    pub good_frames: u32,
}

/// A frame that took over 120% of the target time.
pub open spec fn is_slow(frame_us: u64, target_us: u64) -> bool {
    10 * frame_us > 12 * target_us
}

/// A frame that took under 80% of the target time.
pub open spec fn is_fast(frame_us: u64, target_us: u64) -> bool {
    10 * frame_us < 8 * target_us
}

pub open spec fn fps_sum(h: Seq<PerformanceMetrics>) -> nat
    decreases h.len(),
{
    if h.len() == 0 {
        0
    } else {
        fps_sum(h.drop_last()) + (h.last().fps_milli as nat)
    }
}

pub open spec fn max_frame_time(h: Seq<PerformanceMetrics>) -> nat
    decreases h.len(),
{
    if h.len() == 0 {
        0
    } else {
        let m = max_frame_time(h.drop_last());
        if h.last().frame_time_us > m {
            h.last().frame_time_us as nat
        } else {
            m
        }
    }
}

pub open spec fn saturating_inc(n: u32) -> u32 {
    if n < u32::MAX {
        (n + 1) as u32
    } else {
        n
    }
}

impl PerformanceState {
    pub open spec fn wf(self) -> bool {
        self.history.len() <= HISTORY_FRAMES && self.target_frame_us > 0
    }

    /// The history after adding `m`, oldest frames dropped beyond capacity.
    pub open spec fn pushed(self, m: PerformanceMetrics) -> Seq<PerformanceMetrics> {
        let h = self.history.push(m);
        if h.len() > HISTORY_FRAMES {
            h.drop_first()
        } else {
            h
        }
    }

    /// The state and the "quality changed" answer after a frame `m` measured
    /// at `now_ms`. Outside the cooldown, slow frames in a row lower the
    /// quality, fast frames in a row raise it, any other frame resets both
    /// runs; a change restarts the cooldown and its run.
    pub open spec fn step(self, now_ms: u64, m: PerformanceMetrics) -> (PerformanceState, bool) {
        let s = PerformanceState { history: self.pushed(m), ..self };
        if !(now_ms >= s.last_adjustment_ms && now_ms - s.last_adjustment_ms
            >= ADJUSTMENT_COOLDOWN_MS) {
            (s, false)
        } else if is_slow(m.frame_time_us, s.target_frame_us) {
            let poor = saturating_inc(s.poor_frames);
            if poor >= POOR_FRAMES_TO_LOWER && quality_rank(s.quality) < 4 {
                (
                    PerformanceState {
                        quality: lower_level(s.quality),
                        last_adjustment_ms: now_ms,
                        poor_frames: 0,
                        good_frames: 0,
                        ..s
                    },
                    true,
                )
            } else {
                (PerformanceState { poor_frames: poor, good_frames: 0, ..s }, false)
            }
        } else if is_fast(m.frame_time_us, s.target_frame_us) {
            let good = saturating_inc(s.good_frames);
            if good >= GOOD_FRAMES_TO_RAISE && quality_rank(s.quality) > 0 {
                (
                    PerformanceState {
                        quality: higher_level(s.quality),
                        last_adjustment_ms: now_ms,
                        poor_frames: 0,
                        good_frames: 0,
                        ..s
                    },
                    true,
                )
            } else {
                (PerformanceState { poor_frames: 0, good_frames: good, ..s }, false)
            }
        } else {
            (PerformanceState { poor_frames: 0, good_frames: 0, ..s }, false)
        }
    }
}

pub open spec fn lower_level(q: QualityLevel) -> QualityLevel {
    match q {
        QualityLevel::Ultra => QualityLevel::High,
        QualityLevel::High => QualityLevel::Medium,
        QualityLevel::Medium => QualityLevel::Low,
        _ => QualityLevel::Potato,
    }
}

pub open spec fn higher_level(q: QualityLevel) -> QualityLevel {
    match q {
        QualityLevel::Potato => QualityLevel::Low,
        QualityLevel::Low => QualityLevel::Medium,
        QualityLevel::Medium => QualityLevel::High,
        _ => QualityLevel::Ultra,
    }
}

/// Lowers the rendering quality while frames run slow and raises it while
/// they run fast, no more often than the cooldown allows.
pub struct PerformanceManager {
    current_quality: QualityLevel,
    target_frame_us: u64,
    metrics_history: Vec<PerformanceMetrics>,
    last_adjustment_ms: u64,
    consecutive_poor_frames: u32,
    consecutive_good_frames: u32,
}

impl View for PerformanceManager {
    type V = PerformanceState;

    closed spec fn view(&self) -> PerformanceState {
        PerformanceState {
            quality: self.current_quality,
            target_frame_us: self.target_frame_us,
            history: self.metrics_history@,
            last_adjustment_ms: self.last_adjustment_ms,
            poor_frames: self.consecutive_poor_frames,
            good_frames: self.consecutive_good_frames,
        }
    }
}

impl PerformanceManager {
    /// Starts at high quality, aiming at `target_fps` frames per second; the
    /// cooldown runs from `now_ms`.
    pub fn new(target_fps: u32, now_ms: u64) -> (r: PerformanceManager)
        requires
            0 < target_fps <= 1_000_000,
        ensures
            r@.wf(),
            r@.quality == QualityLevel::High,
            r@.target_frame_us == 1_000_000int / (target_fps as int),
            r@.history.len() == 0,
            r@.last_adjustment_ms == now_ms,
            r@.poor_frames == 0,
            r@.good_frames == 0,
    {
        proof {
            let f = target_fps as int;
            vstd::arithmetic::div_mod::lemma_fundamental_div_mod(1_000_000, f);
            assert(1_000_000int / f >= 1) by (nonlinear_arith)
                requires
                    0 < f <= 1_000_000,
                    f * (1_000_000int / f) + 1_000_000int % f == 1_000_000,
                    0 <= 1_000_000int % f < f,
            ;
        }
        PerformanceManager {
            current_quality: QualityLevel::High,
            target_frame_us: 1_000_000 / (target_fps as u64),
            metrics_history: Vec::new(),
            last_adjustment_ms: now_ms,
            consecutive_poor_frames: 0,
            consecutive_good_frames: 0,
        }
    }

    /// Records frame `metrics` measured at `now_ms` and adjusts the quality;
    /// returns whether it changed.
    pub fn update(&mut self, now_ms: u64, metrics: PerformanceMetrics) -> (r: bool)
        requires
            old(self)@.wf(),
        ensures
            final(self)@.wf(),
            (final(self)@, r) == old(self)@.step(now_ms, metrics),
    {
        self.metrics_history.push(metrics);
        if self.metrics_history.len() > HISTORY_FRAMES {
            self.metrics_history.remove(0);
        }
        proof {
            assert(self.metrics_history@ =~= old(self)@.pushed(metrics));
        }
        if !(now_ms >= self.last_adjustment_ms && now_ms - self.last_adjustment_ms
            >= ADJUSTMENT_COOLDOWN_MS) {
            return false;
        }
        let frame = metrics.frame_time_us as u128;
        let target = self.target_frame_us as u128;
        if 10 * frame > 12 * target {
            self.consecutive_poor_frames = if self.consecutive_poor_frames < u32::MAX {
                self.consecutive_poor_frames + 1
            } else {
                self.consecutive_poor_frames
            };
            self.consecutive_good_frames = 0;
            if self.consecutive_poor_frames >= POOR_FRAMES_TO_LOWER
                && self.current_quality != QualityLevel::Potato {
                self.current_quality = self.current_quality.lower();
                self.last_adjustment_ms = now_ms;
                self.consecutive_poor_frames = 0;
                return true;
            }
            false
        } else if 10 * frame < 8 * target {
            self.consecutive_good_frames = if self.consecutive_good_frames < u32::MAX {
                self.consecutive_good_frames + 1
            } else {
                self.consecutive_good_frames
            };
            self.consecutive_poor_frames = 0;
            if self.consecutive_good_frames >= GOOD_FRAMES_TO_RAISE
                && self.current_quality != QualityLevel::Ultra {
                self.current_quality = self.current_quality.higher();
                self.last_adjustment_ms = now_ms;
                self.consecutive_good_frames = 0;
                return true;
            }
            false
        } else {
            self.consecutive_poor_frames = 0;
            self.consecutive_good_frames = 0;
            false
        }
    }

    pub fn current_quality(&self) -> (r: QualityLevel)
        ensures
            r == self@.quality,
    {
        self.current_quality
    }

    /// Sets the quality by hand; a change restarts the cooldown at `now_ms`
    /// and both runs.
    pub fn set_quality(&mut self, quality: QualityLevel, now_ms: u64)
        requires
            old(self)@.wf(),
        ensures
            final(self)@.wf(),
            final(self)@ == if quality != old(self)@.quality {
                PerformanceState {
                    quality,
                    last_adjustment_ms: now_ms,
                    poor_frames: 0,
                    good_frames: 0,
                    ..old(self)@
                }
            } else {
                old(self)@
            },
    {
        if self.current_quality != quality {
            self.current_quality = quality;
            self.last_adjustment_ms = now_ms;
            self.consecutive_poor_frames = 0;
            self.consecutive_good_frames = 0;
        }
    }

    /// Mean frame rate over the history, in thousandths (60 fps when empty),
    /// rounded down.
    pub fn average_fps(&self) -> (r: u64)
        requires
            self@.wf(),
        ensures
            self@.history.len() == 0 ==> r == DEFAULT_FPS_MILLI,
            self@.history.len() > 0 ==> r == fps_sum(self@.history) / self@.history.len(),
    {
        let n = self.metrics_history.len();
        if n == 0 {
            return DEFAULT_FPS_MILLI;
        }
        let mut sum: u64 = 0;
        let mut i: usize = 0;
        while i < n
            invariant
                n == self@.history.len(),
                n <= HISTORY_FRAMES,
                i <= n,
                sum == fps_sum(self@.history.take(i as int)),
                sum <= i * 0xFFFF_FFFF,
            decreases n - i,
        {
            proof {
                assert(self@.history.take(i as int + 1).drop_last() =~= self@.history.take(
                    i as int,
                ));
            }
            sum = sum + self.metrics_history[i].fps_milli as u64;
            i = i + 1;
        }
        proof {
            assert(self@.history.take(n as int) =~= self@.history);
        }
        sum / (n as u64)
    }

    /// The frame time that 99% of the recent frames stay under, in
    /// microseconds: with at most sixty frames of history this is the slowest
    /// one (16 ms when empty).
    pub fn percentile_99_frame_time(&self) -> (r: u64)
        ensures
            self@.history.len() == 0 ==> r == DEFAULT_FRAME_TIME_US,
            self@.history.len() > 0 ==> r == max_frame_time(self@.history),
    {
        let n = self.metrics_history.len();
        if n == 0 {
            return DEFAULT_FRAME_TIME_US;
        }
        let mut worst: u64 = 0;
        let mut i: usize = 0;
        while i < n
            invariant
                n == self@.history.len(),
                i <= n,
                worst == max_frame_time(self@.history.take(i as int)),
            decreases n - i,
        {
            proof {
                assert(self@.history.take(i as int + 1).drop_last() =~= self@.history.take(
                    i as int,
                ));
            }
            if self.metrics_history[i].frame_time_us > worst {
                worst = self.metrics_history[i].frame_time_us;
            }
            i = i + 1;
        }
        proof {
            assert(self@.history.take(n as int) =~= self@.history);
        }
        worst
    }
}

/// What a GPU's limits allow.
#[derive(Debug, Clone, Copy, PartialEq, Eq, Structural)]
pub struct GpuCapabilities {
    pub max_texture_size: u32,
    pub max_compute_workgroups: u32,
    pub supports_compute_shaders: bool,
    pub recommended_quality: QualityLevel,
}

/// The quality that a largest 2D texture size supports.
pub open spec fn quality_for_texture(size: u32) -> QualityLevel {
    if size >= 8192 {
        QualityLevel::Ultra
    } else if size >= 4096 {
        QualityLevel::High
    } else if size >= 2048 {
        QualityLevel::Medium
    } else if size >= 1024 {
        QualityLevel::Low
    } else {
        QualityLevel::Potato
    }
}

/// Highest shader cost that a quality level runs.
pub open spec fn max_shader_cost(q: QualityLevel) -> u32 {
    match q {
        QualityLevel::Ultra => 10,
        QualityLevel::High => 8,
        QualityLevel::Medium => 6,
        QualityLevel::Low => 4,
        QualityLevel::Potato => 2,
    }
}

impl GpuCapabilities {
    /// Capabilities from the GPU's largest 2D texture size and compute
    /// workgroups per dimension.
    pub fn detect(max_texture_dimension_2d: u32, max_compute_workgroups_per_dimension: u32) -> (r:
        GpuCapabilities)
        ensures
            r.max_texture_size == max_texture_dimension_2d,
            r.max_compute_workgroups == max_compute_workgroups_per_dimension,
            r.supports_compute_shaders == (max_compute_workgroups_per_dimension > 0),
            r.recommended_quality == quality_for_texture(max_texture_dimension_2d),
    {
        let recommended_quality = if max_texture_dimension_2d >= 8192 {
            QualityLevel::Ultra
        } else if max_texture_dimension_2d >= 4096 {
            QualityLevel::High
        } else if max_texture_dimension_2d >= 2048 {
            QualityLevel::Medium
        } else if max_texture_dimension_2d >= 1024 {
            QualityLevel::Low
        } else {
            QualityLevel::Potato
        };
        GpuCapabilities {
            max_texture_size: max_texture_dimension_2d,
            max_compute_workgroups: max_compute_workgroups_per_dimension,
            supports_compute_shaders: max_compute_workgroups_per_dimension > 0,
            recommended_quality,
        }
    }

    /// A shader of `shader_cost` runs at `quality`.
    pub fn supports_shader(&self, shader_cost: u32, quality: QualityLevel) -> (r: bool)
        ensures
            r == (shader_cost <= max_shader_cost(quality)),
    {
        let max_cost: u32 = match quality {
            QualityLevel::Ultra => 10,
            QualityLevel::High => 8,
            QualityLevel::Medium => 6,
            QualityLevel::Low => 4,
            QualityLevel::Potato => 2,
        };
        shader_cost <= max_cost
    }
}

} // verus!
