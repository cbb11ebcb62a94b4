use kiibohd_atsam4s::sensor::{
    reduce, CellPhase, SamplePolicy, SensorConfig, SensorEngine, SensorError, TriggerEvent,
};

fn config() -> SensorConfig {
    SensorConfig {
        activation: 50,
        deactivation: 20,
        idle_limit: 3,
        min_reading: 0,
        max_reading: 4095,
        settle_tolerance: 2,
        settle_count: 1,
    }
}

fn press(cell: usize) -> Option<TriggerEvent> {
    Some(TriggerEvent { switch_index: cell, pressed: true })
}

fn release(cell: usize) -> Option<TriggerEvent> {
    Some(TriggerEvent { switch_index: cell, pressed: false })
}

#[test]
fn thresholds_with_hysteresis() {
    let mut engine = SensorEngine::new(4, config()).unwrap();
    // the first reading establishes the baseline
    assert_eq!(engine.update(1, 1000), Ok(None));
    let cell = engine.cell(1).unwrap();
    assert_eq!(cell.phase, CellPhase::Idle);
    assert_eq!(cell.baseline, 1000);
    // below the activation distance nothing happens
    assert_eq!(engine.update(1, 1045), Ok(None));
    assert_eq!(engine.update(1, 1049), Ok(None));
    assert_eq!(engine.cell(1).unwrap().phase, CellPhase::Idle);
    // 55 from the baseline: active
    assert_eq!(engine.update(1, 1055), Ok(press(1)));
    assert_eq!(engine.cell(1).unwrap().phase, CellPhase::Active);
    // 35 from the baseline lies between the thresholds: still active
    assert_eq!(engine.update(1, 1035), Ok(None));
    assert_eq!(engine.cell(1).unwrap().phase, CellPhase::Active);
    // 15 from the baseline: idle
    assert_eq!(engine.update(1, 1015), Ok(release(1)));
    assert_eq!(engine.cell(1).unwrap().phase, CellPhase::Idle);
    assert_eq!(engine.cell(1).unwrap().last_raw, 1015);
}

#[test]
fn activation_distance_is_the_threshold() {
    let mut engine = SensorEngine::new(1, config()).unwrap();
    assert_eq!(engine.calibrate(0, 1000), Ok(()));
    assert_eq!(engine.update(0, 1049), Ok(None));
    assert_eq!(engine.update(0, 1060), Ok(press(0)));
    let mut exact = SensorEngine::new(1, config()).unwrap();
    exact.calibrate(0, 1000).unwrap();
    assert_eq!(exact.update(0, 1050), Ok(press(0)));
    assert_eq!(exact.update(0, 1021), Ok(None));
    assert_eq!(exact.update(0, 1020), Ok(release(0)));
}

#[test]
fn hovering_between_thresholds_never_oscillates() {
    let mut engine = SensorEngine::new(2, config()).unwrap();
    engine.calibrate(0, 500).unwrap();
    engine.calibrate(1, 500).unwrap();
    assert_eq!(engine.update(1, 560), Ok(press(1)));
    for reading in [521u16, 549, 530, 545, 525, 549, 521] {
        assert_eq!(engine.update(0, reading), Ok(None));
        assert_eq!(engine.update(1, reading), Ok(None));
    }
    assert_eq!(engine.cell(0).unwrap().phase, CellPhase::Idle);
    assert_eq!(engine.cell(1).unwrap().phase, CellPhase::Active);
}

#[test]
fn idle_timeout_releases_exactly_once() {
    let mut engine = SensorEngine::new(3, config()).unwrap();
    engine.calibrate(2, 100).unwrap();
    assert_eq!(engine.update(2, 200), Ok(press(2)));
    // the cycle of the reading itself does not count
    assert!(engine.tick().is_empty());
    assert!(engine.tick().is_empty());
    assert!(engine.tick().is_empty());
    assert_eq!(engine.cell(2).unwrap().phase, CellPhase::Active);
    assert_eq!(engine.tick(), vec![TriggerEvent { switch_index: 2, pressed: false }]);
    assert_eq!(engine.cell(2).unwrap().phase, CellPhase::Idle);
    for _ in 0..10 {
        assert!(engine.tick().is_empty());
    }
}

#[test]
fn fresh_readings_hold_the_timeout_off() {
    let mut engine = SensorEngine::new(1, config()).unwrap();
    engine.calibrate(0, 100).unwrap();
    assert_eq!(engine.update(0, 200), Ok(press(0)));
    for _ in 0..10 {
        assert!(engine.tick().is_empty());
        assert!(engine.tick().is_empty());
        assert_eq!(engine.update(0, 200), Ok(None));
    }
    assert_eq!(engine.cell(0).unwrap().phase, CellPhase::Active);
}

#[test]
fn readings_outside_the_range_are_clamped() {
    let mut narrow = config();
    narrow.min_reading = 100;
    narrow.max_reading = 1023;
    let mut engine = SensorEngine::new(1, narrow).unwrap();
    assert_eq!(engine.clamp(5000), 1023);
    assert_eq!(engine.clamp(3), 100);
    assert_eq!(engine.clamp(512), 512);
    engine.calibrate(0, 1000).unwrap();
    // 5000 counts as 1023, which is 23 from the baseline
    assert_eq!(engine.update(0, 5000), Ok(None));
    assert_eq!(engine.cell(0).unwrap().last_raw, 1023);
}

#[test]
fn baseline_settles_before_calibration() {
    let mut slow = config();
    slow.settle_count = 3;
    let mut engine = SensorEngine::new(1, slow).unwrap();
    assert_eq!(engine.update(0, 700), Ok(None));
    assert_eq!(engine.update(0, 701), Ok(None));
    assert_eq!(engine.cell(0).unwrap().phase, CellPhase::Uncalibrated);
    // a jump starts the settling over
    assert_eq!(engine.update(0, 800), Ok(None));
    assert_eq!(engine.update(0, 801), Ok(None));
    assert_eq!(engine.cell(0).unwrap().phase, CellPhase::Uncalibrated);
    assert_eq!(engine.update(0, 799), Ok(None));
    let cell = engine.cell(0).unwrap();
    assert_eq!(cell.phase, CellPhase::Idle);
    assert_eq!(cell.baseline, 800);
    assert_eq!(engine.update(0, 860), Ok(press(0)));
}

#[test]
fn unusable_configurations_are_refused() {
    let mut c = config();
    c.deactivation = 50;
    assert!(matches!(SensorEngine::new(1, c), Err(SensorError::InvalidThresholds)));
    let mut c = config();
    c.min_reading = 10;
    c.max_reading = 9;
    assert!(matches!(SensorEngine::new(1, c), Err(SensorError::InvalidRange)));
    let mut c = config();
    c.idle_limit = 0;
    assert!(matches!(SensorEngine::new(1, c), Err(SensorError::InvalidLimit)));
    let mut c = config();
    c.settle_count = 0;
    assert!(matches!(SensorEngine::new(1, c), Err(SensorError::InvalidLimit)));
}

#[test]
fn unknown_cells_are_refused() {
    let mut engine = SensorEngine::new(2, config()).unwrap();
    assert_eq!(engine.len(), 2);
    assert_eq!(engine.update(2, 100), Err(SensorError::InvalidSensor(2)));
    assert_eq!(engine.calibrate(7, 100), Err(SensorError::InvalidSensor(7)));
    assert_eq!(engine.cell(2), None);
}

#[test]
fn policies_reduce_samples() {
    assert_eq!(reduce(&vec![400, 420], SamplePolicy::Average), Some(410));
    assert_eq!(reduce(&vec![1, 2], SamplePolicy::Average), Some(1));
    assert_eq!(reduce(&vec![65535, 65535, 65535], SamplePolicy::Average), Some(65535));
    assert_eq!(reduce(&vec![7, 9, 8], SamplePolicy::Last), Some(8));
    assert_eq!(reduce(&vec![], SamplePolicy::Average), None);
    assert_eq!(reduce(&vec![], SamplePolicy::Last), None);
}

#[test]
fn the_range_follows_the_mode() {
    let mut engine = SensorEngine::new(1, config()).unwrap();
    engine.calibrate(0, 1000).unwrap();
    assert_eq!(engine.set_range(0, 1023), Ok(()));
    assert_eq!(engine.clamp(2000), 1023);
    assert_eq!(engine.set_range(10, 9), Err(SensorError::InvalidRange));
    assert_eq!(engine.clamp(2000), 1023);
    assert_eq!(engine.cell(0).unwrap().baseline, 1000);
    assert_eq!(engine.set_range(0, 4095), Ok(()));
    assert_eq!(engine.update(0, 2000), Ok(press(0)));
}
