use aruu::quality::QualityLevel;

#[test]
fn test_quality_level_properties() {
    assert_eq!(QualityLevel::Ultra.resolution_scale(), 1000);
    assert_eq!(QualityLevel::Potato.resolution_scale(), 500);
    assert!(QualityLevel::Ultra.enable_advanced_effects());
    assert!(!QualityLevel::Potato.enable_advanced_effects());
}

#[test]
fn quality_budgets_per_level() {
    assert_eq!(QualityLevel::Ultra.max_iterations(), 128);
    assert_eq!(QualityLevel::Medium.max_iterations(), 64);
    assert_eq!(QualityLevel::Low.noise_octaves(), 3);
    assert_eq!(QualityLevel::High.effect_intensity(), 950);
    assert_eq!(QualityLevel::Low.complexity_multiplier(), 500);
    assert!(QualityLevel::High.enable_advanced_effects());
    assert!(!QualityLevel::Medium.enable_advanced_effects());
    assert!(QualityLevel::Low.enable_particles());
    assert!(!QualityLevel::Potato.enable_particles());
}

#[test]
fn quality_steps_saturate() {
    assert_eq!(QualityLevel::Ultra.lower(), QualityLevel::High);
    assert_eq!(QualityLevel::Potato.lower(), QualityLevel::Potato);
    assert_eq!(QualityLevel::Potato.higher(), QualityLevel::Low);
    assert_eq!(QualityLevel::Ultra.higher(), QualityLevel::Ultra);
}
