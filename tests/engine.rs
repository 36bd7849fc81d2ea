use fishing_forecast::explain::{
    best_time_text, confidence_permille, time_of_day_label, Factor, ImpactTier,
    PredictionRecommendation,
};
use fishing_forecast::features::{season_day, time_category, TimeOfDay};
use fishing_forecast::forecast::get_best_time;
use fishing_forecast::training::{retrain_due, training_passes, SampleLog, DEFAULT_ITERATIONS};

#[test]
fn time_category_covers_every_hour() {
    for hour in 0..=5u32 {
        assert_eq!(time_category(hour), 0);
    }
    for hour in 6..=11u32 {
        assert_eq!(time_category(hour), 1);
    }
    for hour in 12..=17u32 {
        assert_eq!(time_category(hour), 2);
    }
    for hour in 18..=23u32 {
        assert_eq!(time_category(hour), 3);
    }
    assert_eq!(time_category(8), 1);
    assert_eq!(time_category(u32::MAX), 3);
}

#[test]
fn time_of_day_codes_round_trip() {
    for code in 0..4u32 {
        assert_eq!(TimeOfDay::from_category(code).category(), code);
    }
    assert_eq!(TimeOfDay::from_category(9), TimeOfDay::Night);
    assert_eq!(TimeOfDay::from_hour(19), TimeOfDay::Evening);
    assert_eq!(TimeOfDay::from_hour(12), TimeOfDay::Day);
}

#[test]
fn season_day_keeps_northern_days() {
    assert_eq!(season_day(120, true), 120);
    assert_eq!(season_day(366, true), 366);
}

#[test]
fn season_day_shifts_southern_days() {
    assert_eq!(season_day(120, false), 300);
    assert_eq!(season_day(300, false), 115);
    assert_eq!(season_day(185, false), 0);
    assert_eq!(season_day(u32::MAX, false), ((u32::MAX as u64 + 180) % 365) as u32);
}

#[test]
fn season_day_is_periodic_and_follows_the_hemisphere_shift() {
    for day in [1u32, 45, 120, 200, 300, 366] {
        assert_eq!(season_day(day + 365, true) % 365, season_day(day, true) % 365);
        assert_eq!(season_day(day + 365, false), season_day(day, false));
        assert_eq!(season_day(day, false) % 365, season_day(day + 180, true) % 365);
    }
}

#[test]
fn sample_log_counts_every_added_sample() {
    let mut log: SampleLog<(u32, u32)> = SampleLog::new();
    assert!(log.is_empty());
    log.add_samples(vec![(1, 1), (2, 2), (2, 2)]);
    assert_eq!(log.len(), 3);
    log.add_sample((2, 2));
    assert_eq!(log.len(), 4);
    log.add_samples(Vec::new());
    assert_eq!(log.len(), 4);
    log.add_samples(vec![(5, 5); 120]);
    assert_eq!(log.len(), 124);
    assert_eq!(*log.get(0), (1, 1));
    assert_eq!(*log.get(3), (2, 2));
    assert_eq!(log.as_slice()[1..3], [(2, 2), (2, 2)]);
}

#[test]
fn training_an_empty_log_makes_no_pass() {
    let log: SampleLog<u8> = SampleLog::new();
    assert_eq!(training_passes(log.len(), DEFAULT_ITERATIONS), 0);
    assert_eq!(log.len(), 0);
    assert_eq!(training_passes(1, DEFAULT_ITERATIONS), 100);
    assert_eq!(training_passes(250, 7), 7);
}

#[test]
fn retraining_falls_on_whole_hundreds() {
    assert!(retrain_due(100));
    assert!(retrain_due(300));
    assert!(!retrain_due(1));
    assert!(!retrain_due(99));
    assert!(!retrain_due(101));
}

#[test]
fn confidence_grows_then_saturates() {
    assert_eq!(confidence_permille(0), 500);
    assert_eq!(confidence_permille(250), 750);
    assert_eq!(confidence_permille(400), 900);
    assert_eq!(confidence_permille(401), 900);
    assert_eq!(confidence_permille(usize::MAX), 900);
}

#[test]
fn best_time_text_by_hour() {
    assert_eq!(best_time_text(7), "Now - Morning bite is active");
    assert_eq!(best_time_text(5), "Now - Morning bite is active");
    assert_eq!(best_time_text(21), "Now - Evening bite is active");
    assert_eq!(best_time_text(12), "Best in 1-2 hours");
    assert_eq!(best_time_text(16), "Early morning or late evening recommended");
    assert_eq!(best_time_text(2), "Early morning or late evening recommended");
}

#[test]
fn summary_best_time_by_hour() {
    assert_eq!(get_best_time(6), "Now - Excellent morning bite!");
    assert_eq!(get_best_time(15), "Best time: Early morning or evening");
    assert_eq!(get_best_time(16), "Now - Good evening bite expected");
    assert_eq!(get_best_time(23), "Best time: Dawn or dusk (5-9 or 18-21)");
}

#[test]
fn factor_names_and_impact_labels() {
    assert_eq!(Factor::MoonPhase.name(), "Moon Phase");
    assert_eq!(Factor::TimeOfDay.name(), "Time of Day");
    assert_eq!(Factor::Temperature.impact_label(ImpactTier::High), "Excellent");
    assert_eq!(Factor::Pressure.impact_label(ImpactTier::Low), "Unstable");
    assert_eq!(Factor::Wind.impact_label(ImpactTier::High), "Light breeze");
    assert_eq!(Factor::MoonPhase.impact_label(ImpactTier::Medium), "Near peak");
    assert_eq!(Factor::Precipitation.impact_label(ImpactTier::Low), "Heavy rain");
    assert_eq!(Factor::TimeOfDay.impact_label(ImpactTier::High), "");
}

#[test]
fn time_of_day_labels() {
    assert_eq!(time_of_day_label(TimeOfDay::Morning), "Morning (dawn)");
    assert_eq!(time_of_day_label(TimeOfDay::Evening), "Evening (dusk)");
    assert_eq!(time_of_day_label(TimeOfDay::Day), "Midday");
    assert_eq!(time_of_day_label(TimeOfDay::Night), "Night");
}

#[test]
fn recommendation_labels() {
    assert_eq!(PredictionRecommendation::Excellent.label(), "Excellent");
    assert_eq!(PredictionRecommendation::Avoid.label(), "Avoid");
}
