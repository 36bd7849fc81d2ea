//! The discrete parts of a detailed prediction: factor names and impact
//! labels, the time-of-day label, the best-time advice, the confidence that
//! grows with the number of samples, and the recommendation buckets.

use vstd::prelude::*;
use crate::features::TimeOfDay;

verus! {

/// Confidence, in thousandths, before any sample has been seen.
pub const BASE_CONFIDENCE_PERMILLE: u64 = 500;

/// Most confidence, in thousandths, that samples can add.
pub const MAX_SAMPLE_CONFIDENCE_PERMILLE: u64 = 400;

/// Qualitative recommendation, from the final probability: at least 0.8
/// excellent, 0.6 good, 0.4 moderate, 0.2 poor, else avoid.
#[derive(Clone, Copy, Debug, PartialEq, Eq, Structural)]
pub enum PredictionRecommendation {
    Excellent,
    Good,
    Moderate,
    Poor,
    Avoid,
}

/// The named sub-scores of a detailed prediction.
#[derive(Clone, Copy, Debug, PartialEq, Eq, Structural)]
pub enum Factor {
    Temperature,
    Pressure,
    Wind,
    MoonPhase,
    TimeOfDay,
    Precipitation,
}

/// Which of the three qualitative buckets a sub-score falls in, from best to
/// worst.
#[derive(Clone, Copy, Debug, PartialEq, Eq, Structural)]
pub enum ImpactTier {
    High,
    Medium,
    Low,
}

pub open spec fn factor_name(f: Factor) -> Seq<char> {
    match f {
        Factor::Temperature => "Temperature"@,
        Factor::Pressure => "Pressure"@,
        Factor::Wind => "Wind"@,
        Factor::MoonPhase => "Moon Phase"@,
        Factor::TimeOfDay => "Time of Day"@,
        Factor::Precipitation => "Precipitation"@,
    }
}

/// Label of a bucket for a graded factor. The time of day is labelled by its
/// category instead (see `time_of_day_label`).
pub open spec fn impact_label_of(f: Factor, t: ImpactTier) -> Seq<char> {
    match (f, t) {
        (Factor::Temperature, ImpactTier::High) => "Excellent"@,
        (Factor::Temperature, ImpactTier::Medium) => "Good"@,
        (Factor::Temperature, ImpactTier::Low) => "Poor"@,
        (Factor::Pressure, ImpactTier::High) => "Stable"@,
        (Factor::Pressure, ImpactTier::Medium) => "Moderate"@,
        (Factor::Pressure, ImpactTier::Low) => "Unstable"@,
        (Factor::Wind, ImpactTier::High) => "Light breeze"@,
        (Factor::Wind, ImpactTier::Medium) => "Moderate"@,
        (Factor::Wind, ImpactTier::Low) => "Strong"@,
        (Factor::MoonPhase, ImpactTier::High) => "New/Full Moon"@,
        (Factor::MoonPhase, ImpactTier::Medium) => "Near peak"@,
        (Factor::MoonPhase, ImpactTier::Low) => "Off peak"@,
        (Factor::Precipitation, ImpactTier::High) => "Dry"@,
        (Factor::Precipitation, ImpactTier::Medium) => "Light rain"@,
        (Factor::Precipitation, ImpactTier::Low) => "Heavy rain"@,
        (Factor::TimeOfDay, _) => Seq::empty(),
    }
}

pub open spec fn time_of_day_label_of(t: TimeOfDay) -> Seq<char> {
    match t {
        TimeOfDay::Morning => "Morning (dawn)"@,
        TimeOfDay::Evening => "Evening (dusk)"@,
        TimeOfDay::Day => "Midday"@,
        TimeOfDay::Night => "Night"@,
    }
}

/// Advice on when to fish, from the hour of the snapshot.
pub open spec fn best_time_of(hour: u32) -> Seq<char> {
    if 5 <= hour <= 9 {
        "Now - Morning bite is active"@
    } else if 17 <= hour <= 21 {
        "Now - Evening bite is active"@
    } else if 10 <= hour <= 15 {
        "Best in 1-2 hours"@
    } else {
        "Early morning or late evening recommended"@
    }
}

/// Confidence in thousandths: one half, plus one thousandth per sample up to
/// four tenths.
pub open spec fn confidence_permille_of(n_samples: nat) -> nat {
    if n_samples <= MAX_SAMPLE_CONFIDENCE_PERMILLE {
        (BASE_CONFIDENCE_PERMILLE + n_samples) as nat
    } else {
        (BASE_CONFIDENCE_PERMILLE + MAX_SAMPLE_CONFIDENCE_PERMILLE) as nat
    }
}

pub open spec fn recommendation_label_of(r: PredictionRecommendation) -> Seq<char> {
    match r {
        PredictionRecommendation::Excellent => "Excellent"@,
        PredictionRecommendation::Good => "Good"@,
        PredictionRecommendation::Moderate => "Moderate"@,
        PredictionRecommendation::Poor => "Poor"@,
        PredictionRecommendation::Avoid => "Avoid"@,
    }
}

impl PredictionRecommendation {
    /// Name of the bucket.
    pub fn label(&self) -> (r: &'static str)
        ensures
            r@ == recommendation_label_of(*self),
    {
        match self {
            PredictionRecommendation::Excellent => "Excellent",
            PredictionRecommendation::Good => "Good",
            PredictionRecommendation::Moderate => "Moderate",
            PredictionRecommendation::Poor => "Poor",
            PredictionRecommendation::Avoid => "Avoid",
        }
    }
}

impl Factor {
    /// Display name of the sub-score.
    pub fn name(&self) -> (r: String)
        ensures
            r@ == factor_name(*self),
    {
        match self {
            Factor::Temperature => "Temperature".to_string(),
            Factor::Pressure => "Pressure".to_string(),
            Factor::Wind => "Wind".to_string(),
            Factor::MoonPhase => "Moon Phase".to_string(),
            Factor::TimeOfDay => "Time of Day".to_string(),
            Factor::Precipitation => "Precipitation".to_string(),
        }
    }

    /// Impact label of a bucket of this factor; empty for the time of day,
    /// which is labelled by its category.
    pub fn impact_label(&self, tier: ImpactTier) -> (r: String)
        ensures
            r@ == impact_label_of(*self, tier),
    {
        match (self, tier) {
            (Factor::Temperature, ImpactTier::High) => "Excellent".to_string(),
            (Factor::Temperature, ImpactTier::Medium) => "Good".to_string(),
            (Factor::Temperature, ImpactTier::Low) => "Poor".to_string(),
            (Factor::Pressure, ImpactTier::High) => "Stable".to_string(),
            (Factor::Pressure, ImpactTier::Medium) => "Moderate".to_string(),
            (Factor::Pressure, ImpactTier::Low) => "Unstable".to_string(),
            (Factor::Wind, ImpactTier::High) => "Light breeze".to_string(),
            (Factor::Wind, ImpactTier::Medium) => "Moderate".to_string(),
            (Factor::Wind, ImpactTier::Low) => "Strong".to_string(),
            (Factor::MoonPhase, ImpactTier::High) => "New/Full Moon".to_string(),
            (Factor::MoonPhase, ImpactTier::Medium) => "Near peak".to_string(),
            (Factor::MoonPhase, ImpactTier::Low) => "Off peak".to_string(),
            (Factor::Precipitation, ImpactTier::High) => "Dry".to_string(),
            (Factor::Precipitation, ImpactTier::Medium) => "Light rain".to_string(),
            (Factor::Precipitation, ImpactTier::Low) => "Heavy rain".to_string(),
            (Factor::TimeOfDay, _) => String::new(),
        }
    }
}

/// Label of a time-of-day category in a detailed prediction.
pub fn time_of_day_label(category: TimeOfDay) -> (r: String)
    ensures
        r@ == time_of_day_label_of(category),
{
    match category {
        TimeOfDay::Morning => "Morning (dawn)".to_string(),
        TimeOfDay::Evening => "Evening (dusk)".to_string(),
        TimeOfDay::Day => "Midday".to_string(),
        TimeOfDay::Night => "Night".to_string(),
    }
}

/// Advice on when to fish, from the hour of the snapshot.
pub fn best_time_text(hour: u32) -> (r: String)
    ensures
        r@ == best_time_of(hour),
{
    if 5 <= hour && hour <= 9 {
        "Now - Morning bite is active".to_string()
    } else if 17 <= hour && hour <= 21 {
        "Now - Evening bite is active".to_string()
    } else if 10 <= hour && hour <= 15 {
        "Best in 1-2 hours".to_string()
    } else {
        "Early morning or late evening recommended".to_string()
    }
}

/// Confidence of a detailed prediction, in thousandths, for a model that has
/// seen `n_samples` samples. It saturates at nine tenths.
pub fn confidence_permille(n_samples: usize) -> (r: u64)
    ensures
        r == confidence_permille_of(n_samples as nat),
        BASE_CONFIDENCE_PERMILLE <= r <= BASE_CONFIDENCE_PERMILLE + MAX_SAMPLE_CONFIDENCE_PERMILLE,
{
    if n_samples as u64 <= MAX_SAMPLE_CONFIDENCE_PERMILLE {
        BASE_CONFIDENCE_PERMILLE + n_samples as u64
    } else {
        BASE_CONFIDENCE_PERMILLE + MAX_SAMPLE_CONFIDENCE_PERMILLE
    }
}

/// Confidence never falls as samples accumulate.
pub proof fn lemma_confidence_monotone(a: nat, b: nat)
    requires
        a <= b,
    ensures
        confidence_permille_of(a) <= confidence_permille_of(b),
{
}

} // verus!
