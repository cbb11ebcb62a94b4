use kiibohd_atsam4s::hidio::{
    Control, DeviceInfo, HidioInterface, LedControl, LedTestSequence, ManufacturingCommand,
    ManufacturingConfig, PixelSettingCommand,
};
use kiibohd_atsam4s::issi_spi::{
    init, led_frame_process, led_frame_process_is31fl3743b_dma_task,
    led_frame_process_manufacturing_tests_task, led_test_task, spi_irq, FrameOutcome, LedPipeline,
    LedTest, LedTestKind, Transaction,
};

fn no_tests() -> ManufacturingConfig {
    ManufacturingConfig {
        led_test_sequence: false,
        led_short_test: false,
        led_open_test: false,
        shake_test_led_cycle: false,
        hall_pass_fail_test: false,
        hall_level_check: false,
    }
}

fn control(control: Control) -> LedControl {
    LedControl { control, soft_reset: false, hard_reset: false, next_frame: false }
}

#[test]
fn init_starts_with_a_reset() {
    let mut tx = vec![0u32; 512];
    let rx = vec![0u32; 68];
    let (mut pipeline, first) = init(255, true, &mut tx);
    assert_eq!(first, Transaction { rx_len: 0, tx_len: 36 });
    assert!(pipeline.is_in_flight());
    assert_eq!(pipeline.pending(), 1);
    assert_eq!(spi_irq(&mut pipeline, &rx, &mut tx), None);
    assert!(!pipeline.is_in_flight());
    assert_eq!(pipeline.pending(), 0);
    let (_, dark) = init(255, false, &mut tx);
    assert_eq!(dark.tx_len, 30);
}

#[test]
fn idle_frames_queue_nothing() {
    let mut tx = vec![0u32; 512];
    let mut pipeline = LedPipeline::new(255, true);
    let mut config = no_tests();
    let mut test = LedTest::Disabled;
    let mut led_control = control(Control::EnablePause);
    let buffer = vec![0u8; 396];
    for _ in 0..2 {
        let (regular, spawn) =
            led_frame_process_manufacturing_tests_task(&mut config, &mut pipeline, &mut test);
        assert!(regular);
        assert!(!spawn);
        let started = led_frame_process_is31fl3743b_dma_task(
            &mut led_control,
            &buffer,
            &mut pipeline,
            &mut tx,
            regular,
        );
        assert_eq!(started, None);
        assert_eq!(pipeline.pending(), 0);
        assert!(!pipeline.is_in_flight());
    }
}

#[test]
fn next_frame_queues_one_pwm_update() {
    let mut tx = vec![0u32; 512];
    let rx = vec![0u32; 68];
    let mut pipeline = LedPipeline::new(255, true);
    let mut led_control = control(Control::EnablePause);
    led_control.next_frame = true;
    let mut buffer = vec![0u8; 396];
    buffer[0] = 7;
    buffer[198] = 9;
    let started =
        led_frame_process_is31fl3743b_dma_task(&mut led_control, &buffer, &mut pipeline, &mut tx, true);
    assert_eq!(started, Some(Transaction { rx_len: 0, tx_len: 400 }));
    assert!(!led_control.next_frame);
    assert_eq!(tx[2] & 0xFF, 7);
    assert_eq!(tx[202] & 0xFF, 9);
    let again =
        led_frame_process_is31fl3743b_dma_task(&mut led_control, &buffer, &mut pipeline, &mut tx, true);
    assert_eq!(again, None);
    assert_eq!(pipeline.pending(), 1);
    assert_eq!(spi_irq(&mut pipeline, &rx, &mut tx), None);
    assert!(!pipeline.is_in_flight());
}

#[test]
fn short_test_runs_through_its_states() {
    let mut tx = vec![0u32; 512];
    let rx = vec![0x55u32; 68];
    let mut pipeline = LedPipeline::new(255, true);
    let mut config = no_tests();
    config.led_short_test = true;
    config.led_open_test = true;
    let mut test = LedTest::Disabled;
    let mut led_control = control(Control::Disable);
    let buffer = vec![0u8; 396];

    let step = led_frame_process_manufacturing_tests_task(&mut config, &mut pipeline, &mut test);
    assert_eq!(step, (false, true));
    assert_eq!(test, LedTest::ShortQuery);
    assert!(!config.led_short_test);
    assert!(config.led_open_test);
    assert_eq!(pipeline.pending(), 3);
    let started =
        led_frame_process_is31fl3743b_dma_task(&mut led_control, &buffer, &mut pipeline, &mut tx, false);
    assert_eq!(started, Some(Transaction { rx_len: 0, tx_len: 400 }));

    // a request while the test runs is ignored
    let step = led_frame_process_manufacturing_tests_task(&mut config, &mut pipeline, &mut test);
    assert_eq!(step, (false, false));
    assert_eq!(test, LedTest::ShortQuery);
    assert!(config.led_open_test);

    let out = led_test_task(&mut pipeline, &mut test);
    assert!(out.reschedule);
    assert!(out.report.is_none());
    assert_eq!(test, LedTest::ShortReady);
    assert_eq!(pipeline.pending(), 4);

    // results are not there before the read has completed
    let out = led_test_task(&mut pipeline, &mut test);
    assert!(out.reschedule);
    assert!(out.report.is_none());
    assert_eq!(test, LedTest::ShortReady);

    assert_eq!(spi_irq(&mut pipeline, &rx, &mut tx), Some(Transaction { rx_len: 0, tx_len: 400 }));
    assert_eq!(spi_irq(&mut pipeline, &rx, &mut tx), Some(Transaction { rx_len: 0, tx_len: 24 }));
    assert_eq!(spi_irq(&mut pipeline, &rx, &mut tx), Some(Transaction { rx_len: 66, tx_len: 66 }));
    assert_eq!(spi_irq(&mut pipeline, &rx, &mut tx), None);
    assert!(!pipeline.is_in_flight());

    let out = led_test_task(&mut pipeline, &mut test);
    assert!(!out.reschedule);
    let report = out.report.unwrap();
    assert_eq!(report.kind, LedTestKind::Short);
    assert_eq!(report.data.len(), 68);
    assert_eq!(&report.data[0..2], &[0, 32]);
    assert_eq!(&report.data[34..36], &[1, 32]);
    assert_eq!(report.data[2], 0x55);
    assert_eq!(test, LedTest::Reset);

    let step = led_frame_process_manufacturing_tests_task(&mut config, &mut pipeline, &mut test);
    assert_eq!(step, (false, false));
    assert_eq!(test, LedTest::Disabled);
    assert_eq!(pipeline.pending(), 1);

    let started =
        led_frame_process_is31fl3743b_dma_task(&mut led_control, &buffer, &mut pipeline, &mut tx, false);
    assert_eq!(started, Some(Transaction { rx_len: 0, tx_len: 36 }));

    // the open test that was requested meanwhile begins once no test runs
    let step = led_frame_process_manufacturing_tests_task(&mut config, &mut pipeline, &mut test);
    assert_eq!(step, (false, true));
    assert_eq!(test, LedTest::OpenQuery);
    assert!(!config.led_open_test);
    assert_eq!(pipeline.pending(), 4);

    // the queue is full: the read waits for room
    let out = led_test_task(&mut pipeline, &mut test);
    assert!(out.reschedule);
    assert_eq!(test, LedTest::OpenQuery);
    assert_eq!(spi_irq(&mut pipeline, &rx, &mut tx), Some(Transaction { rx_len: 0, tx_len: 400 }));
    let out = led_test_task(&mut pipeline, &mut test);
    assert!(out.reschedule);
    assert_eq!(test, LedTest::OpenReady);
    assert_eq!(spi_irq(&mut pipeline, &rx, &mut tx), Some(Transaction { rx_len: 0, tx_len: 400 }));
    assert_eq!(spi_irq(&mut pipeline, &rx, &mut tx), Some(Transaction { rx_len: 0, tx_len: 24 }));
    assert_eq!(spi_irq(&mut pipeline, &rx, &mut tx), Some(Transaction { rx_len: 66, tx_len: 66 }));
    assert_eq!(spi_irq(&mut pipeline, &rx, &mut tx), None);
    let out = led_test_task(&mut pipeline, &mut test);
    assert!(!out.reschedule);
    assert_eq!(out.report.unwrap().kind, LedTestKind::Open);
    assert_eq!(test, LedTest::Reset);
}

#[test]
fn a_requested_reset_reloads_the_controllers() {
    let mut tx = vec![0u32; 512];
    let rx = vec![0u32; 68];
    let mut pipeline = LedPipeline::new(255, true);
    let mut led_control = control(Control::EnableStart);
    led_control.soft_reset = true;
    led_control.hard_reset = true;
    led_control.next_frame = true;
    let buffer = vec![3u8; 396];
    let started =
        led_frame_process_is31fl3743b_dma_task(&mut led_control, &buffer, &mut pipeline, &mut tx, true);
    assert_eq!(started, Some(Transaction { rx_len: 0, tx_len: 36 }));
    assert!(!led_control.soft_reset);
    assert!(!led_control.hard_reset);
    // the reset took the place of the frame
    assert!(led_control.next_frame);
    assert_eq!(pipeline.pending(), 3);
    assert_eq!(spi_irq(&mut pipeline, &rx, &mut tx), Some(Transaction { rx_len: 0, tx_len: 400 }));
    assert_eq!(spi_irq(&mut pipeline, &rx, &mut tx), Some(Transaction { rx_len: 0, tx_len: 400 }));
    // the pages were not loaded: the intensity update sends zeroes
    assert_eq!(tx[2] & 0xFF, 0);
    assert_eq!(spi_irq(&mut pipeline, &rx, &mut tx), None);
    assert_eq!(spi_irq(&mut pipeline, &rx, &mut tx), None);
    assert_eq!(pipeline.pending(), 0);
}

#[test]
fn frames_are_skipped_while_the_queue_is_full() {
    let mut tx = vec![0u32; 512];
    let rx = vec![0u32; 68];
    let mut pipeline = LedPipeline::new(255, true);
    let mut led_control = control(Control::EnableStart);
    let buffer = vec![1u8; 396];
    let first =
        led_frame_process_is31fl3743b_dma_task(&mut led_control, &buffer, &mut pipeline, &mut tx, true);
    assert_eq!(first, Some(Transaction { rx_len: 0, tx_len: 400 }));
    for expected in [2usize, 3, 4, 4, 4] {
        let next = led_frame_process_is31fl3743b_dma_task(
            &mut led_control,
            &buffer,
            &mut pipeline,
            &mut tx,
            true,
        );
        // a transfer is in flight: nothing else is started
        assert_eq!(next, None);
        assert_eq!(pipeline.pending(), expected);
    }
    // a requested reset waits for room as well, and is not forgotten
    led_control.soft_reset = true;
    let next =
        led_frame_process_is31fl3743b_dma_task(&mut led_control, &buffer, &mut pipeline, &mut tx, true);
    assert_eq!(next, None);
    assert!(led_control.soft_reset);
    assert_eq!(pipeline.pending(), 4);
    for _ in 0..3 {
        assert!(spi_irq(&mut pipeline, &rx, &mut tx).is_some());
    }
    assert_eq!(pipeline.pending(), 1);
    let next =
        led_frame_process_is31fl3743b_dma_task(&mut led_control, &buffer, &mut pipeline, &mut tx, true);
    assert_eq!(next, None);
    assert!(!led_control.soft_reset);
    assert_eq!(pipeline.pending(), 4);
}

#[test]
fn nothing_is_shown_without_the_host_in_control() {
    let mut tx = vec![0u32; 512];
    let mut pipeline = LedPipeline::new(255, true);
    let mut led_control = control(Control::Disable);
    led_control.next_frame = true;
    led_control.soft_reset = true;
    let buffer = vec![1u8; 396];
    let out =
        led_frame_process_is31fl3743b_dma_task(&mut led_control, &buffer, &mut pipeline, &mut tx, true);
    assert_eq!(out, None);
    assert_eq!(pipeline.pending(), 0);
    assert!(led_control.next_frame && led_control.soft_reset);
    // a frame buffer of the wrong size is never copied
    let mut led_control = control(Control::EnableStart);
    let out = led_frame_process_is31fl3743b_dma_task(
        &mut led_control,
        &vec![1u8; 395],
        &mut pipeline,
        &mut tx,
        true,
    );
    assert_eq!(out, None);
    assert_eq!(pipeline.pending(), 0);
    // nor is a frame processed when the manufacturing step has said no
    let out =
        led_frame_process_is31fl3743b_dma_task(&mut led_control, &buffer, &mut pipeline, &mut tx, false);
    assert_eq!(out, None);
    assert_eq!(pipeline.pending(), 0);
    assert!(!pipeline.is_in_flight());
}

#[test]
fn frame_timer_ticks_of_an_idle_keyboard() {
    let device = DeviceInfo {
        name: String::from("k"),
        vendor: String::from("v"),
        firmware_name: String::from("f"),
        firmware_version: String::from("0"),
    };
    let mut intf = HidioInterface::new(false, 396, device, None, None);
    let mut tx = vec![0u32; 512];
    let rx = vec![0u32; 68];
    let mut pipeline = LedPipeline::new(255, true);
    let mut test = LedTest::Disabled;
    let idle = FrameOutcome { spawn_led_test: false, started: None };
    // the host is not in control
    for _ in 0..2 {
        assert_eq!(led_frame_process(&mut intf, &mut pipeline, &mut test, &mut tx), idle);
        assert_eq!(pipeline.pending(), 0);
        assert!(!pipeline.is_in_flight());
    }
    // the host is in control and has not asked for a frame
    intf.h0021_pixelsetting_cmd(PixelSettingCommand::Control(Control::EnablePause)).unwrap();
    for _ in 0..2 {
        assert_eq!(led_frame_process(&mut intf, &mut pipeline, &mut test, &mut tx), idle);
        assert_eq!(pipeline.pending(), 0);
        assert!(!pipeline.is_in_flight());
    }
    // one frame for one request
    intf.h0021_pixelsetting_cmd(PixelSettingCommand::NextFrame).unwrap();
    assert_eq!(
        led_frame_process(&mut intf, &mut pipeline, &mut test, &mut tx),
        FrameOutcome { spawn_led_test: false, started: Some(Transaction { rx_len: 0, tx_len: 400 }) }
    );
    assert_eq!(spi_irq(&mut pipeline, &rx, &mut tx), None);
    assert_eq!(led_frame_process(&mut intf, &mut pipeline, &mut test, &mut tx), idle);
    // a test request starts the test and holds the frames back
    intf.h0021_pixelsetting_cmd(PixelSettingCommand::NextFrame).unwrap();
    intf.h0050_manufacturing_cmd(ManufacturingCommand::LedTestSequence(
        LedTestSequence::ActivateLedOpenCircuitTest,
    ))
    .unwrap();
    let out = led_frame_process(&mut intf, &mut pipeline, &mut test, &mut tx);
    assert!(out.spawn_led_test);
    assert_eq!(out.started, Some(Transaction { rx_len: 0, tx_len: 400 }));
    assert_eq!(test, LedTest::OpenQuery);
    assert!(intf.led_control.next_frame);
    assert_eq!(pipeline.pending(), 3);
}

#[test]
fn a_spurious_completion_changes_nothing() {
    let mut tx = vec![0u32; 512];
    let rx = vec![0u32; 68];
    let mut pipeline = LedPipeline::new(0, false);
    assert_eq!(spi_irq(&mut pipeline, &rx, &mut tx), None);
    assert_eq!(pipeline.pending(), 0);
    assert!(!pipeline.is_in_flight());
    assert_eq!(pipeline.compose_next_transaction(&mut tx), None);
    let mut test = LedTest::Disabled;
    let out = led_test_task(&mut pipeline, &mut test);
    assert!(!out.reschedule);
    assert!(out.report.is_none());
    assert_eq!(test, LedTest::Disabled);
    let mut test = LedTest::Reset;
    let out = led_test_task(&mut pipeline, &mut test);
    assert!(!out.reschedule);
    assert_eq!(test, LedTest::Reset);
}

#[test]
fn levels_are_sent_as_scaling_and_intensity() {
    let mut tx = vec![0u32; 512];
    let rx = vec![0u32; 68];
    let (mut pipeline, first) = init(255, true, &mut tx);
    assert_eq!(first.tx_len, 36);
    assert!(pipeline.set_levels(255, 100));
    assert_eq!(pipeline.pending(), 3);
    assert_eq!(spi_irq(&mut pipeline, &rx, &mut tx), Some(Transaction { rx_len: 0, tx_len: 400 }));
    // the scaling page of the first controller, then that of the second
    assert_eq!(tx[0] & 0xFF, 0x51);
    assert_eq!(tx[2] & 0xFF, 100);
    assert_eq!(tx[399] & 0xFF, 100);
    assert_eq!(spi_irq(&mut pipeline, &rx, &mut tx), Some(Transaction { rx_len: 0, tx_len: 400 }));
    assert_eq!(tx[0] & 0xFF, 0x50);
    assert_eq!(tx[2] & 0xFF, 255);
    assert_eq!(tx[399] & 0xFF, 255);
    assert_eq!(spi_irq(&mut pipeline, &rx, &mut tx), None);
    // no room for two: nothing is queued and nothing changes
    assert!(pipeline.request_pwm());
    assert!(pipeline.request_pwm());
    assert!(pipeline.request_pwm());
    assert!(!pipeline.set_levels(1, 2));
    assert_eq!(pipeline.pending(), 3);
    assert_eq!(pipeline.compose_next_transaction(&mut tx), Some(Transaction { rx_len: 0, tx_len: 400 }));
    assert_eq!(tx[2] & 0xFF, 255);
}
