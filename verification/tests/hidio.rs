use kiibohd_atsam4s::hidio::{
    Ack, Control, DeviceInfo, HallEffectSensorTest, HidioInterface, LedTestSequence,
    ManufacturingCommand, Nak, PixelSettingCommand, ResetKind,
};

fn device() -> DeviceInfo {
    DeviceInfo {
        name: String::from("Keystone"),
        vendor: String::from("Input Club"),
        firmware_name: String::from("kiibohd-firmware"),
        firmware_version: String::from("1.2.3"),
    }
}

fn interface(hall_effect: bool) -> HidioInterface {
    HidioInterface::new(
        hall_effect,
        396,
        device(),
        Some(String::from("ATSAM4S8C")),
        Some(String::from("1234abcd")),
    )
}

#[test]
fn device_information() {
    let intf = interface(true);
    assert_eq!(intf.h0001_device_name(), Some("Keystone"));
    assert_eq!(intf.h0001_device_vendor(), Some("Input Club"));
    assert_eq!(intf.h0001_firmware_name(), Some("kiibohd-firmware"));
    assert_eq!(intf.h0001_firmware_version(), Some("1.2.3"));
    assert_eq!(intf.h0001_device_mcu(), Some("ATSAM4S8C"));
    assert_eq!(intf.h0001_device_serial_number(), Some("1234abcd"));
    let bare = HidioInterface::new(false, 4, device(), None, None);
    assert_eq!(bare.h0001_device_mcu(), None);
    assert_eq!(bare.h0001_device_serial_number(), None);
    assert_eq!(bare.led_buffer, vec![0, 0, 0, 0]);
    assert_eq!(bare.led_control.control, Control::Disable);
    assert!(!bare.manufacturing_config.led_short_test);
}

#[test]
fn pixel_settings() {
    let mut intf = interface(false);
    assert_eq!(
        intf.h0021_pixelsetting_cmd(PixelSettingCommand::Control(Control::EnablePause)),
        Ok(Ack {})
    );
    assert_eq!(intf.led_control.control, Control::EnablePause);
    assert_eq!(intf.h0021_pixelsetting_cmd(PixelSettingCommand::NextFrame), Ok(Ack {}));
    assert!(intf.led_control.next_frame);
    assert_eq!(
        intf.h0021_pixelsetting_cmd(PixelSettingCommand::Reset(ResetKind::SoftReset)),
        Ok(Ack {})
    );
    assert!(intf.led_control.soft_reset);
    assert!(!intf.led_control.hard_reset);
    assert_eq!(
        intf.h0021_pixelsetting_cmd(PixelSettingCommand::Reset(ResetKind::HardReset)),
        Ok(Ack {})
    );
    assert!(intf.led_control.hard_reset);
    intf.led_buffer[5] = 9;
    assert_eq!(intf.h0021_pixelsetting_cmd(PixelSettingCommand::Clear), Ok(Ack {}));
    assert_eq!(intf.led_buffer, vec![0u8; 396]);
    let before = intf.led_control;
    assert_eq!(intf.h0021_pixelsetting_cmd(PixelSettingCommand::Unsupported), Err(Nak {}));
    assert_eq!(intf.led_control, before);
}

#[test]
fn direct_set_writes_pixels() {
    let mut intf = interface(false);
    // refused while the host does not control the LEDs
    assert_eq!(intf.h0026_directset_cmd(0, &vec![1, 2, 3]), Err(Nak {}));
    assert_eq!(intf.led_buffer, vec![0u8; 396]);
    intf.h0021_pixelsetting_cmd(PixelSettingCommand::Control(Control::EnableStart)).unwrap();
    assert_eq!(intf.h0026_directset_cmd(0, &vec![1, 2, 3]), Ok(Ack {}));
    assert_eq!(&intf.led_buffer[0..4], &[1, 2, 3, 0]);
    assert_eq!(intf.h0026_directset_cmd(394, &vec![8, 9]), Ok(Ack {}));
    assert_eq!(&intf.led_buffer[393..396], &[0, 8, 9]);
    let before = intf.led_buffer.clone();
    assert_eq!(intf.h0026_directset_cmd(395, &vec![8, 9]), Err(Nak {}));
    assert_eq!(intf.h0026_directset_cmd(397, &vec![]), Err(Nak {}));
    assert_eq!(intf.h0026_directset_cmd(0, &vec![0u8; 397]), Err(Nak {}));
    assert_eq!(intf.led_buffer, before);
    assert_eq!(intf.h0026_directset_cmd(396, &vec![]), Ok(Ack {}));
    assert_eq!(intf.h0026_directset_cmd(0, &vec![7u8; 396]), Ok(Ack {}));
    assert_eq!(intf.led_buffer, vec![7u8; 396]);
}

#[test]
fn manufacturing_commands_of_a_hall_effect_keyboard() {
    let mut intf = interface(true);
    let led = |t| ManufacturingCommand::LedTestSequence(t);
    assert_eq!(intf.h0050_manufacturing_cmd(led(LedTestSequence::Enable)), Ok(Ack {}));
    assert_eq!(intf.h0050_manufacturing_cmd(led(LedTestSequence::ActivateLedShortTest)), Ok(Ack {}));
    assert_eq!(
        intf.h0050_manufacturing_cmd(led(LedTestSequence::ActivateLedOpenCircuitTest)),
        Ok(Ack {})
    );
    let c = intf.manufacturing_config;
    assert!(c.led_test_sequence && c.led_short_test && c.led_open_test);
    let hall = |t| ManufacturingCommand::HallEffectSensorTest(t);
    assert_eq!(intf.h0050_manufacturing_cmd(hall(HallEffectSensorTest::LevelCheckToggle)), Ok(Ack {}));
    assert_eq!(
        intf.h0050_manufacturing_cmd(hall(HallEffectSensorTest::PassFailTestToggle)),
        Ok(Ack {})
    );
    let c = intf.manufacturing_config;
    assert!(c.hall_level_check && c.hall_pass_fail_test);
    assert_eq!(intf.h0050_manufacturing_cmd(led(LedTestSequence::Disable)), Ok(Ack {}));
    let c = intf.manufacturing_config;
    assert!(!c.led_test_sequence && !c.led_short_test && !c.led_open_test);
    assert!(c.hall_level_check && c.hall_pass_fail_test);
    assert_eq!(intf.h0050_manufacturing_cmd(hall(HallEffectSensorTest::DisableAll)), Ok(Ack {}));
    let c = intf.manufacturing_config;
    assert!(!c.hall_level_check && !c.hall_pass_fail_test);
    // no shake test on this keyboard
    assert_eq!(
        intf.h0050_manufacturing_cmd(ManufacturingCommand::LedCycleKeypressTest(true)),
        Err(Nak {})
    );
    assert!(!intf.manufacturing_config.shake_test_led_cycle);
    assert_eq!(intf.h0050_manufacturing_cmd(ManufacturingCommand::Unsupported), Err(Nak {}));
}

#[test]
fn manufacturing_commands_of_a_switch_keyboard() {
    let mut intf = interface(false);
    assert_eq!(
        intf.h0050_manufacturing_cmd(ManufacturingCommand::LedCycleKeypressTest(true)),
        Ok(Ack {})
    );
    assert!(intf.manufacturing_config.shake_test_led_cycle);
    assert_eq!(
        intf.h0050_manufacturing_cmd(ManufacturingCommand::LedCycleKeypressTest(false)),
        Ok(Ack {})
    );
    assert!(!intf.manufacturing_config.shake_test_led_cycle);
    let before = intf.manufacturing_config;
    assert_eq!(
        intf.h0050_manufacturing_cmd(ManufacturingCommand::HallEffectSensorTest(
            HallEffectSensorTest::LevelCheckToggle
        )),
        Err(Nak {})
    );
    assert_eq!(intf.manufacturing_config, before);
}
