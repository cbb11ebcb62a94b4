use kiibohd_atsam4s::indicator::{rtt, IndicatorLeds, LedMask};
use kiibohd_atsam4s::issi_spi::LedPipeline;
use kiibohd_atsam4s::keyscanning::{key_trigger, tc0_irq, KeyEvent};
use kiibohd_atsam4s::macro_process::{
    macro_process_task, route_capability, CapabilityKind, MacroError, Route,
};
use kiibohd_atsam4s::sensor::TriggerEvent;
use kiibohd_atsam4s::signature::{check_user_signature, SignatureCheck};
use kiibohd_atsam4s::tasks::{
    ceiling, follow_ups, may_preempt, priority, running_priority, task_uses, tasks, Resource, Task,
};
use kiibohd_atsam4s::usb::{usb_process_task, UsbAction, UsbDeviceState, UsbState};

#[test]
fn usb_power_events() {
    let mut state = UsbDeviceState::Default;
    let out = usb_process_task(UsbDeviceState::Configured, true, true, &mut state);
    assert_eq!(out.event, None);
    assert_eq!(out.action, UsbAction::Commit);
    assert_eq!(state, UsbDeviceState::Configured);
    let out = usb_process_task(UsbDeviceState::Suspend, true, true, &mut state);
    assert_eq!(out.event, Some(UsbState::Suspend));
    assert_eq!(out.action, UsbAction::RemoteWakeup);
    let out = usb_process_task(UsbDeviceState::Suspend, true, false, &mut state);
    assert_eq!(out.event, None);
    assert_eq!(out.action, UsbAction::Idle);
    let out = usb_process_task(UsbDeviceState::Addressed, true, true, &mut state);
    assert_eq!(out.event, Some(UsbState::Resume));
    assert_eq!(out.action, UsbAction::Idle);
    let out = usb_process_task(UsbDeviceState::Configured, false, true, &mut state);
    assert_eq!(out.event, None);
    assert_eq!(out.action, UsbAction::Idle);
    assert_eq!(state, UsbDeviceState::Configured);
}

#[test]
fn capabilities_are_routed() {
    assert_eq!(route_capability(CapabilityKind::NoOp), Some(Route::Ignore));
    assert_eq!(route_capability(CapabilityKind::HidProtocol), Some(Route::Ignore));
    assert_eq!(route_capability(CapabilityKind::HidKeyboard), Some(Route::Keyboard));
    assert_eq!(route_capability(CapabilityKind::HidKeyboardState), Some(Route::Keyboard));
    assert_eq!(route_capability(CapabilityKind::HidConsumerControl), Some(Route::Control));
    assert_eq!(route_capability(CapabilityKind::HidSystemControl), Some(Route::Control));
    assert_eq!(route_capability(CapabilityKind::LayerClear), None);
    assert_eq!(route_capability(CapabilityKind::McuFlashMode), None);

    let caps = vec![
        CapabilityKind::HidKeyboard,
        CapabilityKind::NoOp,
        CapabilityKind::HidSystemControl,
        CapabilityKind::HidKeyboardState,
    ];
    assert_eq!(
        macro_process_task(&caps, 2, 1),
        Ok(vec![Route::Keyboard, Route::Ignore, Route::Control, Route::Keyboard])
    );
    assert_eq!(macro_process_task(&caps, 1, 1), Err(MacroError::KeyboardQueueFull));
    assert_eq!(macro_process_task(&caps, 2, 0), Err(MacroError::ControlQueueFull));
    assert_eq!(macro_process_task(&caps, 0, 0), Err(MacroError::KeyboardQueueFull));
    assert_eq!(macro_process_task(&vec![], 0, 0), Ok(vec![]));
    let bad = vec![
        CapabilityKind::HidKeyboard,
        CapabilityKind::LayerRotate,
        CapabilityKind::HidioOpenUrl,
    ];
    assert_eq!(macro_process_task(&bad, 0, 0), Err(MacroError::Unsupported(1)));
}

#[test]
fn indicator_leds() {
    let mut leds = IndicatorLeds::<2>::new();
    assert!(!leds.get(0));
    assert!(!leds.get(1));
    leds.set(1, true);
    assert!(!leds.get(0));
    assert!(leds.get(1));
    assert!(!leds.toggle(0));
    assert!(leds.get(0));
    assert!(leds.toggle(0));
    assert!(!leds.get(0));
    let fresh: IndicatorLeds<3> = Default::default();
    assert!(!fresh.get(2));
}

#[test]
fn user_signature() {
    assert_eq!(
        check_user_signature(0xFFFF_FFFF, 0x0123),
        SignatureCheck { valid: true, write: Some(0xFFFF_0123) }
    );
    assert_eq!(
        check_user_signature(0xFFFF_0123, 0x0123),
        SignatureCheck { valid: true, write: None }
    );
    assert_eq!(
        check_user_signature(0xABCD_0123, 0x0123),
        SignatureCheck { valid: true, write: None }
    );
    assert_eq!(
        check_user_signature(0xFFFF_0124, 0x0123),
        SignatureCheck { valid: false, write: None }
    );
    assert_eq!(
        check_user_signature(0xFFFF_FFFF, 0xFFFF),
        SignatureCheck { valid: true, write: Some(0xFFFF_FFFF) }
    );
}

#[test]
fn priorities_and_ceilings() {
    assert_eq!(tasks().len(), 10);
    assert_eq!(priority(Task::ScanTimer), 15);
    assert_eq!(priority(Task::Acquisition), 14);
    assert_eq!(priority(Task::Liveness), 1);
    assert!(priority(Task::MacroProcess) < priority(Task::Acquisition));
    assert!(priority(Task::UsbProcess) < priority(Task::MacroProcess));
    assert!(task_uses(Task::Acquisition, Resource::Matrix));
    assert!(!task_uses(Task::FrameTimer, Resource::Matrix));
    assert_eq!(ceiling(Resource::Matrix), 14);
    assert_eq!(ceiling(Resource::Acquisition), 15);
    assert_eq!(ceiling(Resource::HostInterface), 14);
    assert_eq!(ceiling(Resource::LedDriver), 12);
    assert_eq!(ceiling(Resource::LedTest), 8);
    assert_eq!(ceiling(Resource::LedLockMask), 8);
    assert_eq!(ceiling(Resource::UsbHid), 14);
    assert_eq!(ceiling(Resource::ManufacturingData), 14);

    assert_eq!(running_priority(Task::LedFrame, &vec![]), 8);
    assert_eq!(running_priority(Task::LedFrame, &vec![Resource::LedDriver]), 12);
    assert_eq!(
        running_priority(Task::LedFrame, &vec![Resource::LedDriver, Resource::HostInterface]),
        14
    );
    // the transport interrupt waits while the frame task holds the driver
    assert!(may_preempt(Task::Transport, Task::LedFrame, &vec![]));
    assert!(!may_preempt(Task::Transport, Task::LedFrame, &vec![Resource::LedDriver]));
    // the scan timer is held up by nothing that it does not share
    assert!(may_preempt(Task::ScanTimer, Task::MacroProcess, &vec![Resource::Matrix]));
    assert!(!may_preempt(Task::ScanTimer, Task::Acquisition, &vec![Resource::Acquisition]));
    assert!(!may_preempt(Task::Liveness, Task::LedTest, &vec![]));
    assert!(!may_preempt(Task::Acquisition, Task::UsbDevice, &vec![]));
}

#[test]
fn digital_scan_reports_changes() {
    assert_eq!(key_trigger(KeyEvent::On { cycles_since_state_change: 0 }), Some(true));
    assert_eq!(key_trigger(KeyEvent::On { cycles_since_state_change: 5 }), None);
    assert_eq!(key_trigger(KeyEvent::Off { idle: false, cycles_since_state_change: 0 }), Some(false));
    assert_eq!(key_trigger(KeyEvent::Off { idle: true, cycles_since_state_change: 9 }), None);

    let (mut strobe, period) = kiibohd_atsam4s::keyscanning::init(2, 40);
    assert_eq!(period, 40_000);
    assert_eq!(strobe.strobe(), 0);
    // column-major cells: column * rows + row
    let remap = vec![1u8, 2, 0, 4, 5, 6];
    let reading = vec![
        KeyEvent::On { cycles_since_state_change: 0 },
        KeyEvent::Off { idle: false, cycles_since_state_change: 3 },
        KeyEvent::Off { idle: false, cycles_since_state_change: 0 },
    ];
    let idle = tc0_irq(false, Some(&reading), &mut strobe, &remap);
    assert!(idle.events.is_empty());
    assert!(!idle.process_macros);
    assert_eq!(strobe.strobe(), 0);

    let out = tc0_irq(true, Some(&reading), &mut strobe, &remap);
    // row 2 of column 0 has no switch
    assert_eq!(out.events, vec![TriggerEvent { switch_index: 1, pressed: true }]);
    assert!(!out.process_macros);
    assert_eq!(strobe.strobe(), 1);

    let out = tc0_irq(true, Some(&reading), &mut strobe, &remap);
    assert_eq!(
        out.events,
        vec![
            TriggerEvent { switch_index: 4, pressed: true },
            TriggerEvent { switch_index: 6, pressed: false },
        ]
    );
    assert!(out.process_macros);
    assert_eq!(strobe.strobe(), 0);

    let out = tc0_irq(true, None, &mut strobe, &remap);
    assert!(out.events.is_empty());
    assert_eq!(strobe.strobe(), 1);
}

#[test]
fn liveness_blinks_the_activity_led() {
    let mut leds = IndicatorLeds::<2>::new();
    let mut pipeline = LedPipeline::new(255, true);
    let out = rtt(&mut leds, &mut pipeline);
    assert_eq!(out.mask, LedMask { red: 0, green: 50, blue: 0 });
    assert!(out.queued);
    assert!(leds.get(0));
    assert!(!leds.get(1));
    let out = rtt(&mut leds, &mut pipeline);
    assert_eq!(out.mask, LedMask { red: 0, green: 0, blue: 0 });
    assert!(out.queued);
    assert!(!leds.get(0));
    assert_eq!(pipeline.pending(), 2);
    assert!(pipeline.request_pwm());
    assert!(pipeline.request_pwm());
    // the queue is full: the state still changes, the update waits
    let out = rtt(&mut leds, &mut pipeline);
    assert!(!out.queued);
    assert!(leds.get(0));
    assert_eq!(pipeline.pending(), 4);
    assert!(!pipeline.request_pwm());
    assert!(!pipeline.is_in_flight());
}

#[test]
fn tasks_schedule_their_followers() {
    assert_eq!(follow_ups(Task::Acquisition, true), vec![Task::MacroProcess]);
    assert_eq!(follow_ups(Task::Acquisition, false), vec![]);
    assert_eq!(follow_ups(Task::FrameTimer, false), vec![Task::LedFrame]);
    assert_eq!(follow_ups(Task::FrameTimer, true), vec![Task::LedFrame]);
    assert_eq!(follow_ups(Task::LedFrame, true), vec![Task::LedTest]);
    assert_eq!(follow_ups(Task::LedFrame, false), vec![]);
    assert_eq!(follow_ups(Task::LedTest, true), vec![Task::LedTest, Task::LedFrame]);
    assert_eq!(follow_ups(Task::LedTest, false), vec![]);
    assert_eq!(follow_ups(Task::MacroProcess, false), vec![Task::UsbProcess]);
    assert_eq!(follow_ups(Task::ScanTimer, true), vec![]);
    assert_eq!(follow_ups(Task::Liveness, true), vec![]);
    for task in tasks() {
        for flag in [false, true] {
            for next in follow_ups(task, flag) {
                assert!(priority(next) < priority(Task::Acquisition));
            }
        }
    }
}
