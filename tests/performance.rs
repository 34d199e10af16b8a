use aruu::performance::{GpuCapabilities, PerformanceManager, PerformanceMetrics};
use aruu::quality::QualityLevel;

fn frame(frame_time_us: u64, fps_milli: u32) -> PerformanceMetrics {
    PerformanceMetrics { frame_time_us, fps_milli }
}

#[test]
fn test_performance_manager_creation() {
    let manager = PerformanceManager::new(60, 0);
    assert_eq!(manager.current_quality(), QualityLevel::High);
    assert_eq!(manager.average_fps(), 60_000);
}

#[test]
fn test_performance_adjustment() {
    let mut manager = PerformanceManager::new(60, 0);

    // 25 ms frames: 40 fps.
    let poor_metrics = frame(25_000, 40_000);

    assert!(!manager.update(0, poor_metrics));

    // Three seconds later the cooldown has passed.
    for _ in 0..6 {
        manager.update(3000, poor_metrics);
    }

    assert_ne!(manager.current_quality(), QualityLevel::High);
}

#[test]
fn test_gpu_capabilities_detection() {
    let capabilities = GpuCapabilities::detect(4096, 256);
    assert_eq!(capabilities.recommended_quality, QualityLevel::High);
    assert!(capabilities.supports_shader(6, QualityLevel::High));
    assert!(!capabilities.supports_shader(10, QualityLevel::Medium));
}

#[test]
fn five_slow_frames_lower_quality_once() {
    let mut manager = PerformanceManager::new(60, 0);
    for i in 0..4 {
        assert!(!manager.update(3000 + i, frame(25_000, 40_000)));
    }
    assert!(manager.update(3004, frame(25_000, 40_000)));
    assert_eq!(manager.current_quality(), QualityLevel::Medium);
    // Cooldown restarted: no further change right away.
    for i in 0..10 {
        assert!(!manager.update(3005 + i, frame(25_000, 40_000)));
    }
    assert_eq!(manager.current_quality(), QualityLevel::Medium);
}

#[test]
fn fifteen_fast_frames_raise_quality() {
    let mut manager = PerformanceManager::new(60, 0);
    for i in 0..14 {
        assert!(!manager.update(5000 + i, frame(10_000, 100_000)));
    }
    // An ordinary frame resets the run.
    assert!(!manager.update(5014, frame(16_000, 60_000)));
    for i in 0..14 {
        assert!(!manager.update(5015 + i, frame(10_000, 100_000)));
    }
    assert!(manager.update(5029, frame(10_000, 100_000)));
    assert_eq!(manager.current_quality(), QualityLevel::Ultra);
}

#[test]
fn history_statistics() {
    let mut manager = PerformanceManager::new(60, 0);
    assert_eq!(manager.percentile_99_frame_time(), 16_000);
    manager.update(0, frame(16_000, 60_000));
    manager.update(0, frame(20_000, 50_000));
    manager.update(0, frame(10_000, 100_000));
    assert_eq!(manager.average_fps(), 70_000);
    assert_eq!(manager.percentile_99_frame_time(), 20_000);
    for _ in 0..60 {
        manager.update(0, frame(12_000, 80_000));
    }
    assert_eq!(manager.average_fps(), 80_000);
    assert_eq!(manager.percentile_99_frame_time(), 12_000);
}

#[test]
fn manual_quality_restarts_cooldown() {
    let mut manager = PerformanceManager::new(60, 0);
    manager.set_quality(QualityLevel::Low, 10_000);
    assert_eq!(manager.current_quality(), QualityLevel::Low);
    for i in 0..5 {
        assert!(!manager.update(11_000 + i, frame(25_000, 40_000)));
    }
    assert_eq!(manager.current_quality(), QualityLevel::Low);
    assert_eq!(GpuCapabilities::detect(512, 0).recommended_quality, QualityLevel::Potato);
    assert!(!GpuCapabilities::detect(512, 0).supports_compute_shaders);
}
