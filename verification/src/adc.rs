//! The acquisition driver: channel registration, start-up and sample readout.
//!
//! [`Adc`] is the part of the driver that takes decisions. It keeps the table
//! of registered channels, the lifecycle and a model of the sample buffer that
//! the DMA engine fills. The firmware glue owns the converter and the DMA
//! stream: it programs what [`Adc::start`] hands out and reports every
//! completed DMA write through [`Adc::dma_write`].

use vstd::prelude::*;

mod channel_config;
mod laws;
mod model;

pub use channel_config::ChannelConfig;
pub use channel_config::ConversionSpeed;
pub use laws::lemma_capacity_is_enforced;
pub use laws::lemma_channels_register_start_and_read;
pub use laws::lemma_register_all_appends;
pub use laws::lemma_slots_follow_registration_order;
pub use laws::lemma_start_is_one_shot;
pub use laws::lemma_transitions_keep_bounds;
pub use laws::lemma_unwritten_slots_read_zero;
pub use laws::lemma_write_is_read_back;
pub use model::AdcModel;

verus! {

/// Number of sample slots, and the most channels one driver can sample.
pub const ADC_MAX_CHANNELS: usize = 16;

/// Width of one sample in bits: the converter runs at its full resolution.
pub const ADC_RESOLUTION_BITS: u8 = 16;

/// Why the driver refused an operation.
#[derive(Clone, Copy, Debug, PartialEq, Eq, Structural)]
pub enum AdcError {
    /// All `ADC_MAX_CHANNELS` slots are taken.
    CapacityExceeded,
    /// The index names no registered channel.
    ChannelOutOfRange,
    /// The acquisition is running: the channel table is frozen and the
    /// converter has been handed to the transfer.
    AlreadyStarted,
    /// There is nothing to sample: no channel has been registered.
    NoChannels,
    /// No transfer is running, so the DMA engine cannot have written.
    NotStarted,
    /// Stopping an acquisition is not supported.
    StopUnsupported,
}

/// Arbitration priority of a DMA stream.
#[derive(Clone, Copy, Debug, PartialEq, Eq, Structural)]
pub enum Priority {
    Low,
    Medium,
    High,
    VeryHigh,
}

/// Which way a DMA transfer moves data.
#[derive(Clone, Copy, Debug, PartialEq, Eq, Structural)]
pub enum Direction {
    PeripheralToMemory,
    MemoryToPeripheral,
    MemoryToMemory,
}

/// What the DMA stream is programmed with for the acquisition.
#[derive(Clone, Copy, Debug, PartialEq, Eq, Structural)]
pub struct TransferConfig {
    pub direction: Direction,
    pub priority: Priority,
    /// Wrap to the start of the buffer when its end is reached.
    pub circular_buffer: bool,
    /// Advance the destination address after every sample.
    pub memory_increment: bool,
}

/// The settings of a continuous acquisition: from the converter to memory,
/// low priority, circular, destination auto-increment.
pub open spec fn acquisition_config() -> TransferConfig {
    TransferConfig {
        direction: Direction::PeripheralToMemory,
        priority: Priority::Low,
        circular_buffer: true,
        memory_increment: true,
    }
}

/// What the firmware glue has to set up when the acquisition starts: a
/// peripheral-to-memory transfer into the first `len()` buffer slots, and a
/// continuous conversion of `channels()`, in that order.
#[derive(Clone, Copy, Debug)]
pub struct TransferPlan {
    channels: [u8; ADC_MAX_CHANNELS],
    num_channels: usize,
    config: TransferConfig,
}

impl TransferPlan {
    #[verifier::type_invariant]
    spec fn inv(&self) -> bool {
        self.num_channels <= ADC_MAX_CHANNELS
    }

    /// The channel identifiers to convert, in conversion order.
    pub closed spec fn sequence(&self) -> Seq<u8> {
        self.channels@.take(self.num_channels as int)
    }

    /// The DMA stream settings.
    pub closed spec fn settings(&self) -> TransferConfig {
        self.config
    }

    /// Length of the ring the DMA engine writes: one slot per channel.
    pub fn len(&self) -> (n: usize)
        ensures
            n == self.sequence().len(),
            n <= ADC_MAX_CHANNELS,
    {
        proof {
            use_type_invariant(self);
        }
        self.num_channels
    }

    /// The channel identifiers to program into the converter's sequencer.
    pub fn channels(&self) -> (ids: &[u8])
        ensures
            ids@ == self.sequence(),
    {
        proof {
            use_type_invariant(self);
        }
        vstd::slice::slice_subrange(self.channels.as_slice(), 0, self.num_channels)
    }

    /// The DMA stream settings.
    pub fn config(&self) -> (config: TransferConfig)
        ensures
            config == self.settings(),
    {
        self.config
    }
}

/// The acquisition driver.
#[derive(Debug)]
pub struct Adc {
    channels: [u8; ADC_MAX_CHANNELS],
    channel_configs: [Option<ChannelConfig>; ADC_MAX_CHANNELS],
    dma_buffer: [u16; ADC_MAX_CHANNELS],
    num_channels: usize,
    running: bool,
}

impl View for Adc {
    type V = AdcModel;

    closed spec fn view(&self) -> AdcModel {
        AdcModel {
            configs: Seq::new(
                self.num_channels as nat,
                |i: int| self.channel_configs@[i]->Some_0,
            ),
            samples: self.dma_buffer@,
            running: self.running,
        }
    }
}

impl Adc {
    /// The tables are filled exactly in `[0, num_channels)`, the channel list
    /// mirrors the configuration table, and every other entry is empty.
    #[verifier::type_invariant]
    spec fn inv(&self) -> bool {
        &&& self.num_channels <= ADC_MAX_CHANNELS
        &&& forall|i: int|
            0 <= i < self.num_channels ==> {
                &&& (#[trigger] self.channel_configs@[i]) is Some
                &&& self.channels@[i] == self.channel_configs@[i]->Some_0.id()
            }
        &&& forall|i: int|
            self.num_channels <= i < ADC_MAX_CHANNELS ==> {
                &&& (#[trigger] self.channel_configs@[i]) is None
                &&& self.channels@[i] == 0
            }
    }

    /// A driver with no channel registered, not running, and every sample
    /// slot cleared.
    pub fn new() -> (adc: Self)
        ensures
            adc@ == AdcModel::initial(),
            adc@.wf(),
    {
        let adc = Adc {
            channels: [0u8; ADC_MAX_CHANNELS],
            channel_configs: [None; ADC_MAX_CHANNELS],
            dma_buffer: [0u16; ADC_MAX_CHANNELS],
            num_channels: 0,
            running: false,
        };
        assert(adc@.samples =~= AdcModel::initial().samples);
        assert(adc@.configs =~= AdcModel::initial().configs);
        adc
    }

    /// Registers one more channel. Its samples land in the next free slot:
    /// the i-th registered channel is read back as index `i`.
    ///
    /// Refused, with nothing changed, once the acquisition runs or when all
    /// slots are taken.
    pub fn init_single(&mut self, config: ChannelConfig) -> (outcome: Result<(), AdcError>)
        ensures
            outcome == old(self)@.register_outcome(),
            final(self)@ == old(self)@.register(config),
            final(self)@.wf(),
    {
        proof {
            use_type_invariant(&*self);
        }
        if self.running {
            return Err(AdcError::AlreadyStarted);
        }
        if self.num_channels >= ADC_MAX_CHANNELS {
            return Err(AdcError::CapacityExceeded);
        }
        let slot: usize = self.num_channels;
        let mut channels = self.channels;
        let mut channel_configs = self.channel_configs;
        channels[slot] = config.channel();
        channel_configs[slot] = Some(config);
        let ghost before = self@;
        *self = Adc {
            channels,
            channel_configs,
            dma_buffer: self.dma_buffer,
            num_channels: slot + 1,
            running: false,
        };
        assert(self@.configs =~= before.configs.push(config));
        Ok(())
    }

    /// Starts the acquisition and says what to program: the DMA transfer
    /// covers exactly the registered channels, which are converted
    /// continuously in registration order.
    ///
    /// Refused, with nothing changed, when the acquisition already runs or
    /// no channel is registered.
    pub fn start(&mut self) -> (outcome: Result<TransferPlan, AdcError>)
        ensures
            final(self)@ == old(self)@.start(),
            final(self)@.wf(),
            match outcome {
                Ok(plan) => {
                    &&& old(self)@.start_outcome() is Ok
                    &&& plan.sequence() == old(self)@.channels()
                    &&& plan.settings() == acquisition_config()
                },
                Err(e) => old(self)@.start_outcome() == Err::<(), AdcError>(e),
            },
    {
        proof {
            use_type_invariant(&*self);
        }
        if self.running {
            return Err(AdcError::AlreadyStarted);
        }
        if self.num_channels == 0 {
            return Err(AdcError::NoChannels);
        }
        let plan = TransferPlan {
            channels: self.channels,
            num_channels: self.num_channels,
            config: self.config(),
        };
        self.running = true;
        assert(plan.sequence() =~= old(self)@.channels());
        Ok(plan)
    }

    fn config(&self) -> (config: TransferConfig)
        ensures
            config == acquisition_config(),
    {
        TransferConfig {
            direction: Direction::PeripheralToMemory,
            priority: Priority::Low,
            circular_buffer: true,
            memory_increment: true,
        }
    }

    /// Stopping is not supported: a running acquisition stays running.
    pub fn stop() -> (outcome: Result<(), AdcError>)
        ensures
            outcome == Err::<(), AdcError>(AdcError::StopUnsupported),
    {
        Err(AdcError::StopUnsupported)
    }

    /// Records that the DMA engine has written `sample` into `slot`.
    ///
    /// Refused, with nothing changed, while no acquisition runs or when
    /// `slot` lies outside the ring of registered channels.
    pub fn dma_write(&mut self, slot: usize, sample: u16) -> (outcome: Result<(), AdcError>)
        ensures
            outcome == old(self)@.write_outcome(slot as int),
            final(self)@ == old(self)@.write(slot as int, sample),
            final(self)@.wf(),
    {
        proof {
            use_type_invariant(&*self);
        }
        if !self.running {
            return Err(AdcError::NotStarted);
        }
        if slot >= self.num_channels {
            return Err(AdcError::ChannelOutOfRange);
        }
        self.dma_buffer[slot] = sample;
        Ok(())
    }

    /// The latest sample of the channel registered at index `channel`, or
    /// `ChannelOutOfRange` when no channel is registered there. Before the
    /// first DMA write of a slot this is the cleared value, zero.
    pub fn get(&mut self, channel: u8) -> (sample: Result<u16, AdcError>)
        ensures
            *final(self) == *old(self),
            final(self)@.wf(),
            sample == old(self)@.read(channel as int),
    {
        proof {
            use_type_invariant(&*self);
        }
        let index: usize = channel as usize;
        if index < self.num_channels {
            Ok(self.dma_buffer[index])
        } else {
            Err(AdcError::ChannelOutOfRange)
        }
    }
}

} // verus!
