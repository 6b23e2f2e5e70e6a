//! Hardware-independent core of a continuously sampling ADC driver.
//!
//! The converter and the DMA stream are owned by firmware glue; this crate
//! holds the channel table, the lifecycle and the sample buffer model, and
//! decides what the glue has to program into the hardware.

pub mod adc;
