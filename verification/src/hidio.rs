//! Host commands for LED control and manufacturing tests, and the device
//! state that they set.
//!
//! Every command is answered: a command that the keyboard supports and
//! that carries arguments it can act on is acknowledged and takes effect;
//! any other command is refused and changes nothing.
use vstd::prelude::*;

verus! {

/// Who drives the LED frames.
#[derive(Clone, Copy, Debug, PartialEq, Eq, Structural)]
pub enum Control {
    /// The host does not control the LEDs.
    Disable,
    /// The host controls the LEDs; a frame is shown when the host asks for
    /// the next frame.
    EnablePause,
    /// The host controls the LEDs; frames are shown continuously.
    EnableStart,
}

/// The two ways to reset the LED controllers.
#[derive(Clone, Copy, Debug, PartialEq, Eq, Structural)]
pub enum ResetKind {
    /// Reload the controller registers.
    SoftReset,
    /// Reset the controllers through their hardware.
    HardReset,
}

/// A pixel-setting command.
#[derive(Clone, Copy, Debug, PartialEq, Eq, Structural)]
pub enum PixelSettingCommand {
    /// Select who drives the LED frames.
    Control(Control),
    /// Reset the LED controllers at the next frame.
    Reset(ResetKind),
    /// Set every channel of the frame buffer to zero.
    Clear,
    /// Show the next frame.
    NextFrame,
    /// A command of the protocol that this keyboard does not support.
    Unsupported,
}

/// Argument of an LED test sequence command.
#[derive(Clone, Copy, Debug, PartialEq, Eq, Structural)]
pub enum LedTestSequence {
    /// Stop all LED tests.
    Disable,
    /// Cycle the LEDs through all colours.
    Enable,
    /// Run the short-circuit test once.
    ActivateLedShortTest,
    /// Run the open-circuit test once.
    ActivateLedOpenCircuitTest,
}

/// Argument of a hall-effect sensor test command.
#[derive(Clone, Copy, Debug, PartialEq, Eq, Structural)]
pub enum HallEffectSensorTest {
    /// Stop all sensor tests.
    DisableAll,
    /// Start the pass/fail test.
    PassFailTestToggle,
    /// Start the level check.
    LevelCheckToggle,
}

/// A manufacturing command.
#[derive(Clone, Copy, Debug, PartialEq, Eq, Structural)]
pub enum ManufacturingCommand {
    /// LED tests.
    LedTestSequence(LedTestSequence),
    /// Switch the shake test on or off: it cycles the colour of a switch's
    /// LED on each press and release.
    LedCycleKeypressTest(bool),
    /// Sensor tests.
    HallEffectSensorTest(HallEffectSensorTest),
    /// A command of the protocol that this keyboard does not support.
    Unsupported,
}

/// Positive answer to a command.
#[derive(Clone, Copy, Debug, PartialEq, Eq, Structural)]
pub struct Ack {}

/// Negative answer to a command.
#[derive(Clone, Copy, Debug, PartialEq, Eq, Structural)]
pub struct Nak {}

/// The manufacturing tests that have been requested.
#[derive(Clone, Copy, Debug, PartialEq, Eq, Structural)]
pub struct ManufacturingConfig {
    /// Cycle the LEDs through all colours to find dead LEDs.
    pub led_test_sequence: bool,
    /// Run the LED short-circuit test.
    pub led_short_test: bool,
    /// Run the LED open-circuit test.
    pub led_open_test: bool,
    /// Shake test.
    pub shake_test_led_cycle: bool,
    /// Pass/fail test of the default level of the hall-effect sensors.
    pub hall_pass_fail_test: bool,
    /// Level check of the hall-effect sensors.
    pub hall_level_check: bool,
}

/// What the host has asked of the LED frames.
#[derive(Clone, Copy, Debug, PartialEq, Eq, Structural)]
pub struct LedControl {
    /// Who drives the LED frames.
    pub control: Control,
    /// Reload the controller registers at the next frame.
    pub soft_reset: bool,
    /// Reset the controllers at the next frame.
    pub hard_reset: bool,
    /// Show the next frame; only looked at under `Control::EnablePause`.
    pub next_frame: bool,
}

/// A configuration in which no test is requested.
pub open spec fn no_tests() -> ManufacturingConfig {
    ManufacturingConfig {
        led_test_sequence: false,
        led_short_test: false,
        led_open_test: false,
        shake_test_led_cycle: false,
        hall_pass_fail_test: false,
        hall_level_check: false,
    }
}

/// A control state in which the host asks for nothing.
pub open spec fn no_control() -> LedControl {
    LedControl {
        control: Control::Disable,
        soft_reset: false,
        hard_reset: false,
        next_frame: false,
    }
}

/// What a manufacturing command makes of the requested tests; none where
/// the command is refused. A keyboard with hall-effect sensors takes the
/// sensor tests and not the shake test, any other keyboard the reverse.
pub open spec fn manufacturing_effect(
    config: ManufacturingConfig,
    hall_effect: bool,
    command: ManufacturingCommand,
) -> Option<ManufacturingConfig> {
    match command {
        ManufacturingCommand::LedTestSequence(LedTestSequence::Disable) => Some(
            ManufacturingConfig {
                led_test_sequence: false,
                led_short_test: false,
                led_open_test: false,
                ..config
            },
        ),
        ManufacturingCommand::LedTestSequence(LedTestSequence::Enable) => Some(
            ManufacturingConfig { led_test_sequence: true, ..config },
        ),
        ManufacturingCommand::LedTestSequence(LedTestSequence::ActivateLedShortTest) => Some(
            ManufacturingConfig { led_short_test: true, ..config },
        ),
        ManufacturingCommand::LedTestSequence(LedTestSequence::ActivateLedOpenCircuitTest) => Some(
            ManufacturingConfig { led_open_test: true, ..config },
        ),
        ManufacturingCommand::LedCycleKeypressTest(on) => if hall_effect {
            None
        } else {
            Some(ManufacturingConfig { shake_test_led_cycle: on, ..config })
        },
        ManufacturingCommand::HallEffectSensorTest(test) => if hall_effect {
            Some(
                match test {
                    HallEffectSensorTest::DisableAll => ManufacturingConfig {
                        hall_pass_fail_test: false,
                        hall_level_check: false,
                        ..config
                    },
                    HallEffectSensorTest::PassFailTestToggle => ManufacturingConfig {
                        hall_pass_fail_test: true,
                        ..config
                    },
                    HallEffectSensorTest::LevelCheckToggle => ManufacturingConfig {
                        hall_level_check: true,
                        ..config
                    },
                },
            )
        } else {
            None
        },
        ManufacturingCommand::Unsupported => None,
    }
}

/// What a pixel-setting command makes of the control state; none where
/// the command is refused. `Clear` leaves the control state as it is and
/// acts on the frame buffer.
pub open spec fn pixel_setting_effect(control: LedControl, command: PixelSettingCommand) -> Option<
    LedControl,
> {
    match command {
        PixelSettingCommand::Control(mode) => Some(LedControl { control: mode, ..control }),
        PixelSettingCommand::Reset(ResetKind::SoftReset) => Some(
            LedControl { soft_reset: true, ..control },
        ),
        PixelSettingCommand::Reset(ResetKind::HardReset) => Some(
            LedControl { hard_reset: true, ..control },
        ),
        PixelSettingCommand::Clear => Some(control),
        PixelSettingCommand::NextFrame => Some(LedControl { next_frame: true, ..control }),
        PixelSettingCommand::Unsupported => None,
    }
}

/// Whether pixels that begin at `start` fit a frame buffer of `len` channels.
pub open spec fn pixels_fit(len: nat, start: nat, count: nat) -> bool {
    start + count <= len
}

/// A frame buffer with `data` written from channel `start` on.
pub open spec fn with_pixels(buffer: Seq<u8>, start: nat, data: Seq<u8>) -> Seq<u8> {
    Seq::new(
        buffer.len(),
        |i: int|
            if start <= i < start + data.len() {
                data[i - start]
            } else {
                buffer[i]
            },
    )
}

/// What the device tells the host about itself.
pub struct DeviceInfo {
    /// Name of the device.
    pub name: String,
    /// Vendor of the device.
    pub vendor: String,
    /// Name of the firmware.
    pub firmware_name: String,
    /// Version of the firmware.
    pub firmware_version: String,
}

/// The side of the keyboard that the host talks to.
pub struct HidioInterface {
    /// What the device tells the host about itself.
    pub device: DeviceInfo,
    /// One intensity per LED channel of every controller.
    pub led_buffer: Vec<u8>,
    /// What the host has asked of the LED frames.
    pub led_control: LedControl,
    /// The manufacturing tests that have been requested.
    pub manufacturing_config: ManufacturingConfig,
    /// Whether the keyboard has hall-effect sensors.
    pub hall_effect: bool,
    /// Name of the microcontroller, if it is known.
    pub mcu: Option<String>,
    /// Serial number of the device, if it has one.
    pub serial: Option<String>,
}

impl HidioInterface {
    /// Whether the keyboard has hall-effect sensors.
    pub open spec fn has_hall_effect(&self) -> bool {
        self.hall_effect
    }

    /// Name of the microcontroller, if it is known.
    pub open spec fn mcu_name(&self) -> Option<Seq<char>> {
        match self.mcu {
            Some(s) => Some(s@),
            None => None,
        }
    }

    /// Serial number of the device, if it has one.
    pub open spec fn serial_number(&self) -> Option<Seq<char>> {
        match self.serial {
            Some(s) => Some(s@),
            None => None,
        }
    }

    /// An interface with no test requested, the host not in control of the
    /// LEDs, and a frame buffer of `channels` channels that are all zero.
    pub fn new(
        hall_effect: bool,
        channels: usize,
        device: DeviceInfo,
        mcu: Option<String>,
        serial: Option<String>,
    ) -> (made: Self)
        ensures
            made.device == device,
            made.has_hall_effect() == hall_effect,
            made.manufacturing_config == no_tests(),
            made.led_control == no_control(),
            made.led_buffer@ == Seq::new(channels as nat, |i: int| 0u8),
            made.mcu_name() == (match mcu {
                Some(s) => Some(s@),
                None => None,
            }),
            made.serial_number() == (match serial {
                Some(s) => Some(s@),
                None => None,
            }),
    {
        let manufacturing_config = ManufacturingConfig {
            led_test_sequence: false,
            led_short_test: false,
            led_open_test: false,
            shake_test_led_cycle: false,
            hall_pass_fail_test: false,
            hall_level_check: false,
        };
        let led_control = LedControl {
            control: Control::Disable,
            soft_reset: false,
            hard_reset: false,
            next_frame: false,
        };
        let led_buffer = zeroed(channels);
        HidioInterface {
            device,
            led_buffer,
            led_control,
            manufacturing_config,
            hall_effect,
            mcu,
            serial,
        }
    }

    /// Name of the device.
    pub fn h0001_device_name(&self) -> (name: Option<&str>)
        ensures
            name is Some,
            name->0@ == self.device.name@,
    {
        Some(self.device.name.as_str())
    }

    /// Vendor of the device.
    pub fn h0001_device_vendor(&self) -> (vendor: Option<&str>)
        ensures
            vendor is Some,
            vendor->0@ == self.device.vendor@,
    {
        Some(self.device.vendor.as_str())
    }

    /// Name of the firmware.
    pub fn h0001_firmware_name(&self) -> (name: Option<&str>)
        ensures
            name is Some,
            name->0@ == self.device.firmware_name@,
    {
        Some(self.device.firmware_name.as_str())
    }

    /// Version of the firmware.
    pub fn h0001_firmware_version(&self) -> (version: Option<&str>)
        ensures
            version is Some,
            version->0@ == self.device.firmware_version@,
    {
        Some(self.device.firmware_version.as_str())
    }

    /// Name of the microcontroller.
    pub fn h0001_device_mcu(&self) -> (name: Option<&str>)
        ensures
            name is Some <==> self.mcu_name() is Some,
            name is Some ==> name->0@ == self.mcu_name()->0,
    {
        match &self.mcu {
            Some(mcu) => Some(mcu.as_str()),
            None => None,
        }
    }

    /// Serial number of the device.
    pub fn h0001_device_serial_number(&self) -> (serial: Option<&str>)
        ensures
            serial is Some <==> self.serial_number() is Some,
            serial is Some ==> serial->0@ == self.serial_number()->0,
    {
        match &self.serial {
            Some(serial) => Some(serial.as_str()),
            None => None,
        }
    }

    /// Handles a pixel-setting command.
    pub fn h0021_pixelsetting_cmd(&mut self, command: PixelSettingCommand) -> (answer: Result<
        Ack,
        Nak,
    >)
        ensures
            final(self).has_hall_effect() == old(self).has_hall_effect(),
            final(self).device == old(self).device,
            final(self).mcu_name() == old(self).mcu_name(),
            final(self).serial_number() == old(self).serial_number(),
            final(self).manufacturing_config == old(self).manufacturing_config,
            answer is Ok <==> pixel_setting_effect(old(self).led_control, command) is Some,
            answer is Ok ==> final(self).led_control == pixel_setting_effect(
                old(self).led_control,
                command,
            )->0,
            answer is Err ==> final(self).led_control == old(self).led_control,
            final(self).led_buffer@ == (if command == PixelSettingCommand::Clear {
                Seq::new(old(self).led_buffer@.len(), |i: int| 0u8)
            } else {
                old(self).led_buffer@
            }),
    {
        match command {
            PixelSettingCommand::Control(mode) => {
                self.led_control.control = mode;
            },
            PixelSettingCommand::Reset(ResetKind::SoftReset) => {
                self.led_control.soft_reset = true;
            },
            PixelSettingCommand::Reset(ResetKind::HardReset) => {
                self.led_control.hard_reset = true;
            },
            PixelSettingCommand::Clear => {
                let channels: usize = self.led_buffer.len();
                self.led_buffer = zeroed(channels);
            },
            PixelSettingCommand::NextFrame => {
                self.led_control.next_frame = true;
            },
            PixelSettingCommand::Unsupported => {
                return Err(Nak {  });
            },
        }
        Ok(Ack {  })
    }

    /// Handles a direct-set command: writes `data` to the frame buffer from
    /// channel `start_address` on. The command is refused, and nothing is
    /// written, while the host does not control the LEDs and when the data
    /// would reach beyond the frame buffer.
    pub fn h0026_directset_cmd(&mut self, start_address: u16, data: &Vec<u8>) -> (answer: Result<
        Ack,
        Nak,
    >)
        ensures
            final(self).has_hall_effect() == old(self).has_hall_effect(),
            final(self).device == old(self).device,
            final(self).mcu_name() == old(self).mcu_name(),
            final(self).serial_number() == old(self).serial_number(),
            final(self).manufacturing_config == old(self).manufacturing_config,
            final(self).led_control == old(self).led_control,
            answer is Ok <==> old(self).led_control.control != Control::Disable && pixels_fit(
                old(self).led_buffer@.len(),
                start_address as nat,
                data@.len(),
            ),
            answer is Ok ==> final(self).led_buffer@ == with_pixels(
                old(self).led_buffer@,
                start_address as nat,
                data@,
            ),
            answer is Err ==> final(self).led_buffer@ == old(self).led_buffer@,
    {
        if self.led_control.control == Control::Disable {
            return Err(Nak {  });
        }
        let start: usize = start_address as usize;
        let len: usize = self.led_buffer.len();
        if start > len || data.len() > len - start {
            return Err(Nak {  });
        }
        let ghost before = self.led_buffer@;
        let mut i: usize = 0;
        while i < data.len()
            invariant
                i <= data.len(),
                start + data.len() <= len,
                self.led_buffer@.len() == len,
                before.len() == len,
                self.led_control == old(self).led_control,
                self.manufacturing_config == old(self).manufacturing_config,
                self.has_hall_effect() == old(self).has_hall_effect(),
                self.device == old(self).device,
                self.mcu_name() == old(self).mcu_name(),
                self.serial_number() == old(self).serial_number(),
                self.led_buffer@ == with_pixels(before, start as nat, data@.take(i as int)),
            decreases data.len() - i,
        {
            self.led_buffer.set(start + i, data[i]);
            proof {
                assert(self.led_buffer@ =~= with_pixels(
                    before,
                    start as nat,
                    data@.take(i + 1),
                ));
            }
            i = i + 1;
        }
        proof {
            assert(data@.take(data@.len() as int) =~= data@);
        }
        Ok(Ack {  })
    }

    /// Handles a manufacturing command.
    pub fn h0050_manufacturing_cmd(&mut self, command: ManufacturingCommand) -> (answer: Result<
        Ack,
        Nak,
    >)
        ensures
            final(self).has_hall_effect() == old(self).has_hall_effect(),
            final(self).device == old(self).device,
            final(self).mcu_name() == old(self).mcu_name(),
            final(self).serial_number() == old(self).serial_number(),
            final(self).led_control == old(self).led_control,
            final(self).led_buffer@ == old(self).led_buffer@,
            answer is Ok <==> manufacturing_effect(
                old(self).manufacturing_config,
                old(self).has_hall_effect(),
                command,
            ) is Some,
            answer is Ok ==> final(self).manufacturing_config == manufacturing_effect(
                old(self).manufacturing_config,
                old(self).has_hall_effect(),
                command,
            )->0,
            answer is Err ==> final(self).manufacturing_config == old(self).manufacturing_config,
    {
        match command {
            ManufacturingCommand::LedTestSequence(test) => {
                match test {
                    LedTestSequence::Disable => {
                        self.manufacturing_config.led_test_sequence = false;
                        self.manufacturing_config.led_short_test = false;
                        self.manufacturing_config.led_open_test = false;
                    },
                    LedTestSequence::Enable => {
                        self.manufacturing_config.led_test_sequence = true;
                    },
                    LedTestSequence::ActivateLedShortTest => {
                        self.manufacturing_config.led_short_test = true;
                    },
                    LedTestSequence::ActivateLedOpenCircuitTest => {
                        self.manufacturing_config.led_open_test = true;
                    },
                }
                Ok(Ack {  })
            },
            ManufacturingCommand::LedCycleKeypressTest(on) => {
                if self.hall_effect {
                    Err(Nak {  })
                } else {
                    self.manufacturing_config.shake_test_led_cycle = on;
                    Ok(Ack {  })
                }
            },
            ManufacturingCommand::HallEffectSensorTest(test) => {
                if self.hall_effect {
                    match test {
                        HallEffectSensorTest::DisableAll => {
                            self.manufacturing_config.hall_pass_fail_test = false;
                            self.manufacturing_config.hall_level_check = false;
                        },
                        HallEffectSensorTest::PassFailTestToggle => {
                            self.manufacturing_config.hall_pass_fail_test = true;
                        },
                        HallEffectSensorTest::LevelCheckToggle => {
                            self.manufacturing_config.hall_level_check = true;
                        },
                    }
                    Ok(Ack {  })
                } else {
                    Err(Nak {  })
                }
            },
            ManufacturingCommand::Unsupported => Err(Nak {  }),
        }
    }
}

/// A vector of `len` zero bytes.
pub fn zeroed(len: usize) -> (bytes: Vec<u8>)
    ensures
        bytes@ == Seq::new(len as nat, |i: int| 0u8),
{
    let mut bytes: Vec<u8> = Vec::new();
    let mut i: usize = 0;
    while i < len
        invariant
            i <= len,
            bytes@ == Seq::new(i as nat, |k: int| 0u8),
        decreases len - i,
    {
        bytes.push(0);
        proof {
            assert(bytes@ =~= Seq::new((i + 1) as nat, |k: int| 0u8));
        }
        i = i + 1;
    }
    bytes
}

} // verus!
