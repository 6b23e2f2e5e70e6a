//! Description of one analog input: its converter channel and conversion speed.

use vstd::prelude::*;

verus! {

/// Sampling time spent on one conversion, in converter clock cycles.
#[derive(Clone, Copy, Debug, PartialEq, Eq, Structural)]
pub enum ConversionSpeed {
    Speed1Cycles5,
    Speed2Cycles5,
    Speed8Cycles5,
    Speed16Cycles5,
    Speed32Cycles5,
    Speed64Cycles5,
    Speed387Cycles5,
    Speed810Cycles5,
}

impl Default for ConversionSpeed {
    /// The mid-range setting of 8.5 cycles.
    fn default() -> (speed: Self)
        ensures
            speed == ConversionSpeed::Speed8Cycles5,
    {
        ConversionSpeed::Speed8Cycles5
    }
}

/// Binds an input to its converter channel. Immutable once made.
#[derive(Clone, Copy, Debug)]
pub struct ChannelConfig {
    channel: u8,
    speed: ConversionSpeed,
}

impl ChannelConfig {
    /// The converter channel this input is wired to.
    pub closed spec fn id(&self) -> u8 {
        self.channel
    }

    /// The conversion speed used for this input.
    pub closed spec fn conversion_speed(&self) -> ConversionSpeed {
        self.speed
    }

    /// A configuration for the input wired to converter channel `channel`,
    /// sampled at the default conversion speed.
    pub fn new(channel: u8) -> (config: Self)
        ensures
            config.id() == channel,
            config.conversion_speed() == ConversionSpeed::Speed8Cycles5,
    {
        ChannelConfig { channel, speed: ConversionSpeed::Speed8Cycles5 }
    }

    /// The converter channel identifier.
    pub fn channel(&self) -> (id: u8)
        ensures
            id == self.id(),
    {
        self.channel
    }

    /// The conversion speed setting.
    pub fn speed(&self) -> (speed: ConversionSpeed)
        ensures
            speed == self.conversion_speed(),
    {
        self.speed
    }
}

} // verus!
