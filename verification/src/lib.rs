//! Real-time core of a keyboard controller: strobe scheduling, sample
//! acquisition, per-cell sensor state, LED output and manufacturing
//! diagnostics.
pub mod constants;
pub mod strobe;
pub mod demux;
pub mod sensor;
pub mod diagnostics;
pub mod hall_effect;
pub mod hidio;
pub mod issi_spi;
pub mod keyscanning;
pub mod usb;
pub mod macro_process;
pub mod indicator;
pub mod signature;
pub mod tasks;

pub use crate::indicator::IndicatorLeds;
pub use crate::issi_spi::LedTest;
pub use crate::usb::UsbState;
