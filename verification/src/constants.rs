//! Sizes and limits shared by the parts of the controller.
use vstd::prelude::*;

verus! {

/// Number of samples per key and strobe.
pub const ADC_SAMPLES: usize = 2;

/// Number of LED channels of one controller.
pub const ISSI_DRIVER_CHANNELS: usize = 198;

/// Number of LED controllers.
pub const ISSI_DRIVER_CHIPS: usize = 2;

/// Size of the controller's queue of pending functions. The queue holds
/// one function less than its size.
pub const ISSI_DRIVER_QUEUE_SIZE: usize = 5;

/// Number of functions that the controller's queue can hold.
pub const ISSI_DRIVER_QUEUE_ROOM: usize = 4;

/// Number of words of the transmit buffer of the LED transport.
pub const SPI_TX_BUF_SIZE: usize = 512;

/// Number of words of the receive buffer of the LED transport.
pub const SPI_RX_BUF_SIZE: usize = 68;

/// Number of words that the longest transfer to the LED controllers sends.
pub const ISSI_TX_WORDS: usize = 400;

/// Number of words that the longest transfer from the LED controllers
/// receives.
pub const ISSI_RX_WORDS: usize = 66;

/// Number of result bytes that a controller reports for a circuit test.
pub const ISSI_DETECT_LEN: usize = 32;

/// Time in microseconds that a circuit test needs to settle before its
/// results are requested.
pub const LED_TEST_SETTLE_US: u32 = 2000;

/// Number of controller events that the control queue holds.
pub const CTRL_QUEUE_SIZE: usize = 5;

/// Number of keyboard events that the keyboard queue holds.
pub const KBD_QUEUE_SIZE: usize = 25;

/// Number of lock LED events that the LED queue holds.
pub const KBD_LED_QUEUE_SIZE: usize = 3;

/// Number of mouse events that the mouse queue holds.
pub const MOUSE_QUEUE_SIZE: usize = 10;

/// Debounce time of a digital switch in microseconds.
pub const DEBOUNCE_US: u32 = 5000;

/// Time in milliseconds after which an untouched digital switch is idle.
pub const IDLE_MS: u32 = 600_000;

} // verus!
