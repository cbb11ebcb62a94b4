use kiibohd_atsam4s::demux::{MatrixShape, Resolution, SampleAccumulator};
use kiibohd_atsam4s::diagnostics::ManufacturingBuffer;
use kiibohd_atsam4s::hall_effect::{
    adc_12mhz, adc_20mhz, adc_30mhz, adc_irq, adc_sequence, hidio_send_irq, init,
    release_idle_cells, set_analysis_mode, AdcClock, AdcTiming, Gain, SensorMode,
};
use kiibohd_atsam4s::sensor::{SamplePolicy, SensorConfig, SensorError, TriggerEvent};

fn raw(channel: u16, magnitude: u16) -> u16 {
    (channel << 12) | (magnitude & 0x0FFF)
}

fn config() -> SensorConfig {
    SensorConfig {
        activation: 50,
        deactivation: 20,
        idle_limit: 2,
        min_reading: 0,
        max_reading: 4095,
        settle_tolerance: 2,
        settle_count: 1,
    }
}

fn shape() -> MatrixShape {
    MatrixShape { columns: 3, rows: 6, samples_per_cell: 2 }
}

/// One strobe's buffer: two samples for each row, interleaved with the
/// disconnected channel, in the order of the channel sequence.
fn strobe_buffer(levels: [u16; 6]) -> Vec<u16> {
    let channels = [0u16, 1, 2, 3, 8, 9];
    let mut buf = Vec::new();
    for _ in 0..2 {
        for (row, channel) in channels.iter().enumerate() {
            buf.push(raw(*channel, levels[row]));
            buf.push(raw(11, 0x0ABC));
        }
    }
    buf
}

#[test]
fn settings_follow_the_mode() {
    let test = set_analysis_mode(SensorMode::Test, AdcClock::Mhz12, 6);
    assert_eq!(test.gain, Gain::Gain2x);
    assert_eq!(test.period_us, 833);
    assert!(test.offset);
    assert!(test.autocalibration);
    assert_eq!(test.timing, adc_12mhz());
    let low = set_analysis_mode(SensorMode::LowLatency, AdcClock::Mhz20, 6);
    assert_eq!(low.gain, Gain::Gain4x);
    assert_eq!(low.period_us, 166);
    assert_eq!(low.timing, adc_20mhz());
    let normal = set_analysis_mode(SensorMode::Normal, AdcClock::Mhz30, 6);
    assert_eq!(normal.gain, Gain::Gain4x);
    assert_eq!(normal.period_us, 333);
    assert_eq!(normal.timing, adc_30mhz());
    assert_eq!(set_analysis_mode(SensorMode::LowLatency, AdcClock::Mhz12, 5000).period_us, 0);
}

#[test]
fn timing_follows_the_clock() {
    assert_eq!(
        adc_12mhz(),
        AdcTiming { prescaler: 1, startup_cycles: 512, tracking_cycles: 2, transfer: 7, settling_cycles: 17 }
    );
    assert_eq!(
        adc_20mhz(),
        AdcTiming { prescaler: 2, startup_cycles: 512, tracking_cycles: 11, transfer: 7, settling_cycles: 17 }
    );
    assert_eq!(
        adc_30mhz(),
        AdcTiming { prescaler: 1, startup_cycles: 512, tracking_cycles: 16, transfer: 7, settling_cycles: 17 }
    );
    assert_eq!(adc_sequence(), vec![0, 11, 1, 11, 2, 11, 3, 11, 8, 11, 9, 11]);
}

#[test]
fn init_strobes_the_first_column() {
    let matrix =
        init(shape(), Resolution::Bits12, config(), SensorMode::Normal, AdcClock::Mhz12).unwrap();
    assert_eq!(matrix.strobe.strobe(), 0);
    assert_eq!(matrix.engine.len(), 18);
    assert_eq!(matrix.settings.period_us, 333);
    assert_eq!(matrix.sequence.len(), 12);
    let mut bad = config();
    bad.activation = 20;
    assert!(matches!(
        init(shape(), Resolution::Bits12, bad, SensorMode::Normal, AdcClock::Mhz12),
        Err(SensorError::InvalidThresholds)
    ));
}

#[test]
fn unfinished_transfer_is_skipped() {
    let mut m =
        init(shape(), Resolution::Bits12, config(), SensorMode::Normal, AdcClock::Mhz12).unwrap();
    let mut manu = ManufacturingBuffer::new(6).unwrap();
    let remap = vec![1u8; 18];
    let out = adc_irq(
        false,
        &strobe_buffer([100; 6]),
        Some(SensorMode::Test),
        AdcClock::Mhz12,
        SamplePolicy::Average,
        &mut m.strobe,
        &mut m.accumulator,
        &mut m.engine,
        &mut manu,
        &remap,
    );
    assert!(!out.processed);
    assert_eq!(out.strobe, 0);
    assert_eq!(out.next_strobe, 0);
    assert!(!out.cycle_complete);
    assert!(out.events.is_empty());
    assert!(out.settings.is_none());
    assert_eq!(m.strobe.strobe(), 0);
    assert_eq!(m.accumulator.pending_count(0), 0);
    assert_eq!(manu.flush(), vec![0, 0]);
}

#[test]
fn a_press_travels_from_samples_to_events() {
    let mut m =
        init(shape(), Resolution::Bits12, config(), SensorMode::Normal, AdcClock::Mhz12).unwrap();
    let mut manu = ManufacturingBuffer::new(6).unwrap();
    // row-major cells; the cell of row 2 under strobe 0 has no switch
    let mut remap = vec![0u8; 18];
    for (cell, entry) in remap.iter_mut().enumerate() {
        *entry = (cell as u8) + 1;
    }
    remap[2 * 3] = 0;

    let mut cycle = |levels: [u16; 6], expect_strobe: usize| {
        let out = adc_irq(
            true,
            &strobe_buffer(levels),
            None,
            AdcClock::Mhz12,
            SamplePolicy::Average,
            &mut m.strobe,
            &mut m.accumulator,
            &mut m.engine,
            &mut manu,
            &remap,
        );
        assert!(out.processed);
        assert_eq!(out.strobe, expect_strobe);
        assert_eq!(out.next_strobe, (expect_strobe + 1) % 3);
        assert_eq!(out.cycle_complete, expect_strobe == 2);
        out.events
    };

    // first cycle: baselines
    assert!(cycle([1000; 6], 0).is_empty());
    assert!(cycle([1000; 6], 1).is_empty());
    assert!(cycle([1000; 6], 2).is_empty());
    // second cycle: rows 1 and 2 of strobe 0 go down
    let events = cycle([1000, 1060, 1070, 1000, 1049, 1000], 0);
    assert_eq!(events, vec![TriggerEvent { switch_index: 4, pressed: true }]);
    assert!(cycle([1000; 6], 1).is_empty());
    assert!(cycle([1000, 1000, 1000, 1000, 1000, 1051], 2)
        .eq(&vec![TriggerEvent { switch_index: 18, pressed: true }]));
    // third cycle: row 1 hovers, then lets go
    assert!(cycle([1000, 1030, 1070, 1000, 1000, 1000], 0).is_empty());
    assert!(cycle([1000; 6], 1).is_empty());
    assert!(cycle([1000, 1000, 1000, 1000, 1000, 1000], 2)
        .eq(&vec![TriggerEvent { switch_index: 18, pressed: false }]));
    let events = cycle([1000, 1010, 1070, 1000, 1000, 1000], 0);
    assert_eq!(events, vec![TriggerEvent { switch_index: 4, pressed: false }]);
}

#[test]
fn mode_change_gives_new_settings() {
    let mut m =
        init(shape(), Resolution::Bits12, config(), SensorMode::Normal, AdcClock::Mhz12).unwrap();
    let mut manu = ManufacturingBuffer::new(6).unwrap();
    let out = adc_irq(
        true,
        &strobe_buffer([100; 6]),
        Some(SensorMode::Test),
        AdcClock::Mhz20,
        SamplePolicy::Last,
        &mut m.strobe,
        &mut m.accumulator,
        &mut m.engine,
        &mut manu,
        &vec![],
    );
    assert_eq!(out.settings, Some(set_analysis_mode(SensorMode::Test, AdcClock::Mhz20, 6)));
    assert!(out.events.is_empty());
}

#[test]
fn level_check_collects_each_strobe() {
    let mut m =
        init(shape(), Resolution::Bits12, config(), SensorMode::Normal, AdcClock::Mhz12).unwrap();
    let mut manu = ManufacturingBuffer::new(6).unwrap();
    let remap = vec![1u8; 18];
    let mut run = |levels: [u16; 6], m: &mut kiibohd_atsam4s::hall_effect::HallMatrix,
                   manu: &mut ManufacturingBuffer| {
        adc_irq(
            true,
            &strobe_buffer(levels),
            None,
            AdcClock::Mhz12,
            SamplePolicy::Average,
            &mut m.strobe,
            &mut m.accumulator,
            &mut m.engine,
            manu,
            &remap,
        );
    };
    run([0x101, 0x102, 0x103, 0x104, 0x105, 0x106], &mut m, &mut manu);
    // a buffer whose rows 4 and 5 never arrive
    let mut short = Vec::new();
    for channel in [0u16, 1, 2, 3] {
        short.push(raw(channel, 0x222));
        short.push(raw(channel, 0x224));
    }
    adc_irq(
        true,
        &short,
        None,
        AdcClock::Mhz12,
        SamplePolicy::Average,
        &mut m.strobe,
        &mut m.accumulator,
        &mut m.engine,
        &mut manu,
        &remap,
    );
    assert!(!manu.is_ready());
    assert_eq!(hidio_send_irq(true, &mut manu), None);
    let report = manu.flush();
    assert_eq!(report.len(), 2 + 2 * (2 + 6 * 2));
    assert_eq!(
        report,
        vec![
            0, 2, // not ready, strobe 2 comes next
            0, 6, 0x01, 0x01, 0x02, 0x01, 0x03, 0x01, 0x04, 0x01, 0x05, 0x01, 0x06, 0x01,
            1, 6, 0x23, 0x02, 0x23, 0x02, 0x23, 0x02, 0x23, 0x02, 0xFF, 0xFF, 0xFF, 0xFF,
        ]
    );
}

#[test]
fn full_buffer_is_sent_when_the_level_check_is_on() {
    let mut manu = ManufacturingBuffer::new(6).unwrap();
    let mut strobe = 0u8;
    let mut segments = 0;
    while !manu.is_ready() {
        assert!(manu.begin_strobe(strobe));
        assert!(manu.collect(strobe, 0, 0x0123));
        strobe = (strobe + 1) % 18;
        manu.finish_strobe(strobe);
        segments += 1;
        assert!(segments <= 18);
    }
    // 2 + 17 * 14 = 240: one more segment would reach the capacity of 252
    assert_eq!(segments, 17);
    assert!(!manu.begin_strobe(strobe));
    assert!(!manu.collect(strobe, 0, 1));
    let report = hidio_send_irq(true, &mut manu).unwrap();
    assert_eq!(report.len(), 2 + 17 * 14);
    assert_eq!(report[0], 1);
    assert_eq!(report[1], 17);
    assert_eq!(&report[2..6], &[0, 6, 0x23, 0x01]);
    assert!(!manu.is_ready());
    assert_eq!(manu.flush(), vec![0, 0]);

    // with the level check off the data is dropped, and collection starts over
    while !manu.is_ready() {
        let s = 0;
        manu.begin_strobe(s);
        manu.finish_strobe(s);
    }
    assert_eq!(hidio_send_irq(false, &mut manu), None);
    assert!(!manu.is_ready());
    assert_eq!(manu.try_flush(), None);
}

#[test]
fn collection_follows_the_cursor() {
    let mut manu = ManufacturingBuffer::new(2).unwrap();
    assert_eq!(manu.row_count(), 2);
    // strobe 3 is not the one to collect
    assert!(!manu.begin_strobe(3));
    assert!(manu.begin_strobe(0));
    manu.finish_strobe(1);
    assert!(!manu.begin_strobe(0));
    assert!(!manu.collect(0, 0, 5));
    assert!(manu.begin_strobe(1));
    assert!(manu.collect(1, 1, 0x0ABC));
    assert_eq!(manu.flush(), vec![0, 1, 0, 2, 0xFF, 0xFF, 0xFF, 0xFF, 1, 2, 0xFF, 0xFF, 0xBC, 0x0A]);
    assert!(ManufacturingBuffer::new(0).is_none());
    assert!(ManufacturingBuffer::new(125).is_none());
    let mut wide = ManufacturingBuffer::new(124).unwrap();
    assert!(wide.begin_strobe(0));
    assert!(wide.collect(0, 123, 0x0777));
    wide.finish_strobe(1);
    assert!(wide.is_ready());
    let report = wide.try_flush().unwrap();
    assert_eq!(report.len(), 252);
    assert_eq!(&report[0..4], &[1, 1, 0, 124]);
    assert_eq!(&report[250..252], &[0x77, 0x07]);
}

#[test]
fn unmapped_samples_touch_nothing() {
    let mut acc = SampleAccumulator::new(shape(), Resolution::Bits12);
    let first = acc.record(1, &vec![raw(2, 77)]);
    assert!(first.is_empty());
    let junk: Vec<u16> = [4u16, 5, 6, 7, 10, 11, 12, 13, 14, 15]
        .iter()
        .map(|c| raw(*c, 123))
        .collect();
    for _ in 0..5 {
        assert!(acc.record(1, &junk).is_empty());
    }
    for cell in 0..18 {
        assert_eq!(acc.pending_count(cell), if cell == 2 * 3 + 1 { 1 } else { 0 });
    }
    let done = acc.record(1, &vec![raw(2, 79)]);
    assert_eq!(done.len(), 1);
    assert_eq!(done[0].samples, vec![77, 79]);
}

#[test]
fn rows_beyond_the_matrix_are_dropped() {
    let small = MatrixShape { columns: 2, rows: 2, samples_per_cell: 1 };
    let mut acc = SampleAccumulator::new(small, Resolution::Bits10);
    assert_eq!(acc.shape_rows(), 2);
    let done = acc.record(1, &vec![raw(0, 400), raw(9, 500), raw(1, 800), raw(3, 900)]);
    assert_eq!(done.len(), 2);
    assert_eq!(done[0].cell_index, 1);
    assert_eq!(done[0].samples, vec![100]);
    assert_eq!(done[1].cell_index, 3);
    assert_eq!(done[1].samples, vec![200]);
}

#[test]
fn idle_cells_are_released_under_their_switch() {
    let mut m =
        init(shape(), Resolution::Bits12, config(), SensorMode::Normal, AdcClock::Mhz12).unwrap();
    let mut remap = vec![0u8; 18];
    remap[4] = 40;
    m.engine.calibrate(4, 1000).unwrap();
    m.engine.calibrate(5, 1000).unwrap();
    m.engine.update(4, 1100).unwrap();
    m.engine.update(5, 1100).unwrap();
    assert!(release_idle_cells(&mut m.engine, &remap).is_empty());
    assert!(release_idle_cells(&mut m.engine, &remap).is_empty());
    // both cells time out; only cell 4 has a switch
    assert_eq!(
        release_idle_cells(&mut m.engine, &remap),
        vec![TriggerEvent { switch_index: 40, pressed: false }]
    );
    assert!(release_idle_cells(&mut m.engine, &remap).is_empty());
}
