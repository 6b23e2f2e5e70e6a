//! The driver as a mathematical value, and its transitions.

use vstd::prelude::*;

use super::AdcError;
use super::ChannelConfig;
use super::ADC_MAX_CHANNELS;

verus! {

/// What a driver is, seen from outside.
pub struct AdcModel {
    /// The registered channels, in registration order. Channel `i` of this
    /// list is sampled into slot `i`.
    pub configs: Seq<ChannelConfig>,
    /// The sample buffer: `ADC_MAX_CHANNELS` slots, whatever is registered.
    pub samples: Seq<u16>,
    /// Whether the acquisition has been started.
    pub running: bool,
}

impl AdcModel {
    /// A freshly constructed driver: nothing registered, every slot zero.
    pub open spec fn initial() -> AdcModel {
        AdcModel {
            configs: Seq::empty(),
            samples: Seq::new(ADC_MAX_CHANNELS as nat, |i: int| 0u16),
            running: false,
        }
    }

    /// The bounds that every driver keeps.
    pub open spec fn wf(self) -> bool {
        &&& self.configs.len() <= ADC_MAX_CHANNELS
        &&& self.samples.len() == ADC_MAX_CHANNELS
    }

    /// Number of registered channels.
    pub open spec fn num_channels(self) -> nat {
        self.configs.len()
    }

    /// The registered channel identifiers, in registration order.
    pub open spec fn channels(self) -> Seq<u8> {
        Seq::new(self.configs.len(), |i: int| self.configs[i].id())
    }

    /// Whether one more channel is accepted, and if not, why.
    pub open spec fn register_outcome(self) -> Result<(), AdcError> {
        if self.running {
            Err(AdcError::AlreadyStarted)
        } else if self.configs.len() >= ADC_MAX_CHANNELS {
            Err(AdcError::CapacityExceeded)
        } else {
            Ok(())
        }
    }

    /// The driver after an attempt to register `config`: the channel takes
    /// the next free slot, or nothing changes.
    pub open spec fn register(self, config: ChannelConfig) -> AdcModel {
        if self.register_outcome() is Ok {
            AdcModel { configs: self.configs.push(config), ..self }
        } else {
            self
        }
    }

    /// The driver after attempts to register each of `configs`, in order.
    pub open spec fn register_all(self, configs: Seq<ChannelConfig>) -> AdcModel
        decreases configs.len(),
    {
        if configs.len() == 0 {
            self
        } else {
            self.register_all(configs.drop_last()).register(configs.last())
        }
    }

    /// Whether the acquisition can be started, and if not, why.
    pub open spec fn start_outcome(self) -> Result<(), AdcError> {
        if self.running {
            Err(AdcError::AlreadyStarted)
        } else if self.configs.len() == 0 {
            Err(AdcError::NoChannels)
        } else {
            Ok(())
        }
    }

    /// The driver after an attempt to start.
    pub open spec fn start(self) -> AdcModel {
        if self.start_outcome() is Ok {
            AdcModel { running: true, ..self }
        } else {
            self
        }
    }

    /// Whether the DMA engine can have written `slot`, and if not, why. It
    /// writes only while running, and only the slots of registered channels.
    pub open spec fn write_outcome(self, slot: int) -> Result<(), AdcError> {
        if !self.running {
            Err(AdcError::NotStarted)
        } else if !(0 <= slot < self.configs.len()) {
            Err(AdcError::ChannelOutOfRange)
        } else {
            Ok(())
        }
    }

    /// The driver after a DMA write of `sample` into `slot`.
    pub open spec fn write(self, slot: int, sample: u16) -> AdcModel {
        if self.write_outcome(slot) is Ok {
            AdcModel { samples: self.samples.update(slot, sample), ..self }
        } else {
            self
        }
    }

    /// The latest sample of the channel registered at `index`.
    pub open spec fn read(self, index: int) -> Result<u16, AdcError> {
        if 0 <= index < self.configs.len() {
            Ok(self.samples[index])
        } else {
            Err(AdcError::ChannelOutOfRange)
        }
    }
}

} // verus!
