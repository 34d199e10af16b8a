use vstd::prelude::*;

verus! {

/// Rendering quality, from the richest to the cheapest.
#[derive(Debug, Clone, Copy, PartialEq, Eq, Structural)]
pub enum QualityLevel {
    Ultra,
    High,
    Medium,
    Low,
    Potato,
}

/// Position of a level, from the richest (0) down.
pub open spec fn quality_rank(q: QualityLevel) -> nat {
    match q {
        QualityLevel::Ultra => 0,
        QualityLevel::High => 1,
        QualityLevel::Medium => 2,
        QualityLevel::Low => 3,
        QualityLevel::Potato => 4,
    }
}

pub open spec fn spec_max_iterations(q: QualityLevel) -> u32 {
    match q {
        QualityLevel::Ultra => 128,
        QualityLevel::High => 96,
        QualityLevel::Medium => 64,
        QualityLevel::Low => 32,
        QualityLevel::Potato => 16,
    }
}

pub open spec fn spec_noise_octaves(q: QualityLevel) -> u32 {
    match q {
        QualityLevel::Ultra => 6,
        QualityLevel::High => 5,
        QualityLevel::Medium => 4,
        QualityLevel::Low => 3,
        QualityLevel::Potato => 2,
    }
}

/// Render-resolution factor, in thousandths.
pub open spec fn spec_resolution_scale(q: QualityLevel) -> u32 {
    match q {
        QualityLevel::Ultra => 1000,
        QualityLevel::High => 1000,
        QualityLevel::Medium => 800,
        QualityLevel::Low => 600,
        QualityLevel::Potato => 500,
    }
}

/// Pattern-complexity factor, in thousandths.
pub open spec fn spec_complexity_multiplier(q: QualityLevel) -> u32 {
    match q {
        QualityLevel::Ultra => 1000,
        QualityLevel::High => 900,
        QualityLevel::Medium => 700,
        QualityLevel::Low => 500,
        QualityLevel::Potato => 300,
    }
}

/// Effect-intensity factor, in thousandths.
pub open spec fn spec_effect_intensity(q: QualityLevel) -> u32 {
    match q {
        QualityLevel::Ultra => 1000,
        QualityLevel::High => 950,
        QualityLevel::Medium => 800,
        QualityLevel::Low => 600,
        QualityLevel::Potato => 400,
    }
}

impl QualityLevel {
    pub fn resolution_scale(&self) -> (r: u32)
        ensures
            r == spec_resolution_scale(*self),
    {
        match self {
            QualityLevel::Ultra => 1000,
            QualityLevel::High => 1000,
            QualityLevel::Medium => 800,
            QualityLevel::Low => 600,
            QualityLevel::Potato => 500,
        }
    }

    pub fn complexity_multiplier(&self) -> (r: u32)
        ensures
            r == spec_complexity_multiplier(*self),
    {
        match self {
            QualityLevel::Ultra => 1000,
            QualityLevel::High => 900,
            QualityLevel::Medium => 700,
            QualityLevel::Low => 500,
            QualityLevel::Potato => 300,
        }
    }

    /// Upper bound on shader loop iterations.
    pub fn max_iterations(&self) -> (r: u32)
        ensures
            r == spec_max_iterations(*self),
    {
        match self {
            QualityLevel::Ultra => 128,
            QualityLevel::High => 96,
            QualityLevel::Medium => 64,
            QualityLevel::Low => 32,
            QualityLevel::Potato => 16,
        }
    }

    pub fn effect_intensity(&self) -> (r: u32)
        ensures
            r == spec_effect_intensity(*self),
    {
        match self {
            QualityLevel::Ultra => 1000,
            QualityLevel::High => 950,
            QualityLevel::Medium => 800,
            QualityLevel::Low => 600,
            QualityLevel::Potato => 400,
        }
    }

    /// Advanced effects run at the two richest levels only.
    pub fn enable_advanced_effects(&self) -> (r: bool)
        ensures
            r == (quality_rank(*self) <= 1),
    {
        match self {
            QualityLevel::Ultra | QualityLevel::High => true,
            _ => false,
        }
    }

    /// Particles run at every level but the cheapest.
    pub fn enable_particles(&self) -> (r: bool)
        ensures
            r == (*self != QualityLevel::Potato),
    {
        match self {
            QualityLevel::Potato => false,
            _ => true,
        }
    }

    /// Octaves of procedural noise.
    pub fn noise_octaves(&self) -> (r: u32)
        ensures
            r == spec_noise_octaves(*self),
    {
        match self {
            QualityLevel::Ultra => 6,
            QualityLevel::High => 5,
            QualityLevel::Medium => 4,
            QualityLevel::Low => 3,
            QualityLevel::Potato => 2,
        }
    }

    /// One step cheaper; the cheapest level stays.
    pub fn lower(&self) -> (r: QualityLevel)
        ensures
            quality_rank(r) == if quality_rank(*self) < 4 {
                quality_rank(*self) + 1
            } else {
                4
            },
    {
        match self {
            QualityLevel::Ultra => QualityLevel::High,
            QualityLevel::High => QualityLevel::Medium,
            QualityLevel::Medium => QualityLevel::Low,
            QualityLevel::Low => QualityLevel::Potato,
            QualityLevel::Potato => QualityLevel::Potato,
        }
    }

    /// One step richer; the richest level stays.
    pub fn higher(&self) -> (r: QualityLevel)
        ensures
            quality_rank(r) == if quality_rank(*self) > 0 {
                quality_rank(*self) - 1
            } else {
                0
            },
    {
        match self {
            QualityLevel::Ultra => QualityLevel::Ultra,
            QualityLevel::High => QualityLevel::Ultra,
            QualityLevel::Medium => QualityLevel::High,
            QualityLevel::Low => QualityLevel::Medium,
            QualityLevel::Potato => QualityLevel::Low,
        }
    }
}

/// A cheaper level never asks for more work: iteration, octave and factor
/// budgets fall (or stay) as the level drops.
pub proof fn lemma_quality_budgets_monotone(a: QualityLevel, b: QualityLevel)
    requires
        quality_rank(a) <= quality_rank(b),
    ensures
        spec_max_iterations(b) <= spec_max_iterations(a),
        spec_noise_octaves(b) <= spec_noise_octaves(a),
        spec_resolution_scale(b) <= spec_resolution_scale(a),
        spec_complexity_multiplier(b) <= spec_complexity_multiplier(a),
        spec_effect_intensity(b) <= spec_effect_intensity(a),
{
}

} // verus!
