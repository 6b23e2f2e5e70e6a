use libdaisy::adc::{
    Adc, AdcError, ChannelConfig, Direction, Priority, TransferConfig, ADC_MAX_CHANNELS,
    ADC_RESOLUTION_BITS,
};

fn started(ids: &[u8]) -> Adc {
    let mut adc = Adc::new();
    for &id in ids {
        assert_eq!(adc.init_single(ChannelConfig::new(id)), Ok(()));
    }
    assert!(adc.start().is_ok());
    adc
}

fn as_float(sample: u16) -> f32 {
    sample as f32 / 65536.0
}

#[test]
fn constants_describe_the_buffer() {
    assert_eq!(ADC_MAX_CHANNELS, 16);
    assert_eq!(ADC_RESOLUTION_BITS, 16);
    assert_eq!(1u32 << ADC_RESOLUTION_BITS, 65536);
}

#[test]
fn fresh_driver_has_no_readable_channel() {
    let mut adc = Adc::new();
    for index in 0..=u8::MAX {
        assert_eq!(adc.get(index), Err(AdcError::ChannelOutOfRange));
    }
}

#[test]
fn any_count_up_to_capacity_registers_starts_and_reads() {
    for n in 1..=ADC_MAX_CHANNELS {
        let mut adc = Adc::new();
        for id in 0..n {
            assert_eq!(adc.init_single(ChannelConfig::new(id as u8)), Ok(()));
        }
        let plan = adc.start().expect("start after registering");
        assert_eq!(plan.len(), n);
        for index in 0..n {
            assert!(adc.get(index as u8).is_ok());
        }
        assert_eq!(adc.get(n as u8), Err(AdcError::ChannelOutOfRange));
    }
}

#[test]
fn one_channel_too_many_is_rejected() {
    let mut adc = Adc::new();
    for id in 0..ADC_MAX_CHANNELS {
        assert_eq!(adc.init_single(ChannelConfig::new(id as u8)), Ok(()));
    }
    assert_eq!(adc.init_single(ChannelConfig::new(19)), Err(AdcError::CapacityExceeded));
    assert_eq!(adc.init_single(ChannelConfig::new(3)), Err(AdcError::CapacityExceeded));
    let plan = adc.start().expect("a full table still starts");
    assert_eq!(plan.len(), ADC_MAX_CHANNELS);
    let expected: Vec<u8> = (0..ADC_MAX_CHANNELS as u8).collect();
    assert_eq!(plan.channels(), expected.as_slice());
    assert_eq!(adc.get(16), Err(AdcError::ChannelOutOfRange));
}

#[test]
fn slots_read_zero_until_written() {
    let mut adc = Adc::new();
    for id in [4u8, 9, 12] {
        assert_eq!(adc.init_single(ChannelConfig::new(id)), Ok(()));
        assert_eq!(adc.get(0), Ok(0));
    }
    for index in 0..3 {
        assert_eq!(adc.get(index), Ok(0));
    }
    assert!(adc.start().is_ok());
    for index in 0..3 {
        assert_eq!(adc.get(index), Ok(0));
    }
}

#[test]
fn every_slot_of_a_full_table_reads_zero() {
    let ids: Vec<u8> = (0..ADC_MAX_CHANNELS as u8).collect();
    let mut adc = started(&ids);
    for index in 0..ADC_MAX_CHANNELS {
        assert_eq!(adc.get(index as u8), Ok(0));
    }
}

#[test]
fn slots_follow_registration_order_not_identifiers() {
    let mut adc = Adc::new();
    assert_eq!(adc.init_single(ChannelConfig::new(15)), Ok(()));
    assert_eq!(adc.init_single(ChannelConfig::new(2)), Ok(()));
    let plan = adc.start().expect("start");
    assert_eq!(plan.channels(), [15u8, 2].as_slice());
    assert_eq!(adc.dma_write(0, 1111), Ok(()));
    assert_eq!(adc.dma_write(1, 2222), Ok(()));
    assert_eq!(adc.get(0), Ok(1111));
    assert_eq!(adc.get(1), Ok(2222));

    let mut swapped = Adc::new();
    assert_eq!(swapped.init_single(ChannelConfig::new(2)), Ok(()));
    assert_eq!(swapped.init_single(ChannelConfig::new(15)), Ok(()));
    let plan = swapped.start().expect("start");
    assert_eq!(plan.channels(), [2u8, 15].as_slice());
}

#[test]
fn the_same_identifier_may_take_two_slots() {
    let mut adc = Adc::new();
    assert_eq!(adc.init_single(ChannelConfig::new(5)), Ok(()));
    assert_eq!(adc.init_single(ChannelConfig::new(5)), Ok(()));
    let plan = adc.start().expect("start");
    assert_eq!(plan.channels(), [5u8, 5].as_slice());
    assert_eq!(adc.dma_write(1, 77), Ok(()));
    assert_eq!(adc.get(0), Ok(0));
    assert_eq!(adc.get(1), Ok(77));
}

#[test]
fn start_plan_is_low_priority_circular_incrementing() {
    let mut adc = Adc::new();
    assert_eq!(adc.init_single(ChannelConfig::new(10)), Ok(()));
    let plan = adc.start().expect("start");
    assert_eq!(
        plan.config(),
        TransferConfig {
            direction: Direction::PeripheralToMemory,
            priority: Priority::Low,
            circular_buffer: true,
            memory_increment: true,
        }
    );
    assert_eq!(plan.len(), 1);
    assert_eq!(plan.channels(), [10u8].as_slice());
}

#[test]
fn start_without_channels_is_refused() {
    let mut adc = Adc::new();
    assert_eq!(adc.start().err(), Some(AdcError::NoChannels));
    assert_eq!(adc.init_single(ChannelConfig::new(1)), Ok(()));
    assert!(adc.start().is_ok());
}

#[test]
fn second_start_is_refused() {
    let mut adc = started(&[4, 9]);
    assert_eq!(adc.dma_write(1, 321), Ok(()));
    assert_eq!(adc.start().err(), Some(AdcError::AlreadyStarted));
    assert_eq!(adc.start().err(), Some(AdcError::AlreadyStarted));
    assert_eq!(adc.get(0), Ok(0));
    assert_eq!(adc.get(1), Ok(321));
    assert_eq!(adc.get(2), Err(AdcError::ChannelOutOfRange));
}

#[test]
fn registering_after_start_is_refused() {
    let mut adc = started(&[4]);
    assert_eq!(adc.init_single(ChannelConfig::new(9)), Err(AdcError::AlreadyStarted));
    assert_eq!(adc.get(1), Err(AdcError::ChannelOutOfRange));
    assert_eq!(adc.dma_write(1, 5), Err(AdcError::ChannelOutOfRange));
}

#[test]
fn registering_on_a_full_running_driver_reports_the_start() {
    let ids: Vec<u8> = (0..ADC_MAX_CHANNELS as u8).collect();
    let mut adc = started(&ids);
    assert_eq!(adc.init_single(ChannelConfig::new(0)), Err(AdcError::AlreadyStarted));
}

#[test]
fn stop_is_not_supported() {
    assert_eq!(Adc::stop(), Err(AdcError::StopUnsupported));
    let mut adc = started(&[4]);
    assert_eq!(adc.dma_write(0, 9), Ok(()));
    assert_eq!(Adc::stop(), Err(AdcError::StopUnsupported));
    assert_eq!(adc.dma_write(0, 10), Ok(()));
    assert_eq!(adc.get(0), Ok(10));
}

#[test]
fn get_beyond_the_registered_channels_is_an_error() {
    let mut adc = started(&[4, 9, 12]);
    assert_eq!(adc.get(3), Err(AdcError::ChannelOutOfRange));
    assert_eq!(adc.get(15), Err(AdcError::ChannelOutOfRange));
    assert_eq!(adc.get(16), Err(AdcError::ChannelOutOfRange));
    assert_eq!(adc.get(255), Err(AdcError::ChannelOutOfRange));
}

#[test]
fn get_takes_a_slot_index_not_an_identifier() {
    let mut adc = started(&[12]);
    assert_eq!(adc.dma_write(0, 4242), Ok(()));
    assert_eq!(adc.get(0), Ok(4242));
    assert_eq!(adc.get(12), Err(AdcError::ChannelOutOfRange));
}

#[test]
fn dma_write_before_start_is_refused() {
    let mut adc = Adc::new();
    assert_eq!(adc.dma_write(0, 1), Err(AdcError::NotStarted));
    assert_eq!(adc.init_single(ChannelConfig::new(4)), Ok(()));
    assert_eq!(adc.dma_write(0, 1), Err(AdcError::NotStarted));
    assert_eq!(adc.dma_write(99, 1), Err(AdcError::NotStarted));
    assert_eq!(adc.get(0), Ok(0));
}

#[test]
fn dma_write_outside_the_ring_is_refused() {
    let mut adc = started(&[4, 9]);
    assert_eq!(adc.dma_write(2, 1), Err(AdcError::ChannelOutOfRange));
    assert_eq!(adc.dma_write(ADC_MAX_CHANNELS, 1), Err(AdcError::ChannelOutOfRange));
    assert_eq!(adc.dma_write(usize::MAX, 1), Err(AdcError::ChannelOutOfRange));
    assert_eq!(adc.get(0), Ok(0));
    assert_eq!(adc.get(1), Ok(0));
}

#[test]
fn a_slot_holds_its_latest_write() {
    let mut adc = started(&[4, 9, 12]);
    assert_eq!(adc.dma_write(1, 10), Ok(()));
    assert_eq!(adc.dma_write(1, 20), Ok(()));
    assert_eq!(adc.dma_write(1, 30), Ok(()));
    assert_eq!(adc.get(0), Ok(0));
    assert_eq!(adc.get(1), Ok(30));
    assert_eq!(adc.get(2), Ok(0));
}

#[test]
fn get_does_not_change_the_driver() {
    let mut adc = started(&[4, 9]);
    assert_eq!(adc.dma_write(0, 500), Ok(()));
    for _ in 0..3 {
        assert_eq!(adc.get(0), Ok(500));
        assert_eq!(adc.get(1), Ok(0));
        assert_eq!(adc.get(2), Err(AdcError::ChannelOutOfRange));
    }
    assert_eq!(adc.start().err(), Some(AdcError::AlreadyStarted));
}

#[test]
fn three_channels_end_to_end() {
    let mut adc = Adc::new();
    for id in [4u8, 9, 12] {
        assert_eq!(adc.init_single(ChannelConfig::new(id)), Ok(()));
    }
    let plan = adc.start().expect("start");
    assert_eq!(plan.len(), 3);
    assert_eq!(plan.channels(), [4u8, 9, 12].as_slice());

    for (slot, sample) in [100u16, 20000, 65535].into_iter().enumerate() {
        assert_eq!(adc.dma_write(slot, sample), Ok(()));
    }
    assert_eq!(adc.get(0), Ok(100));
    assert_eq!(adc.get(1), Ok(20000));
    assert_eq!(adc.get(2), Ok(65535));

    let top = as_float(adc.get(2).expect("slot 2"));
    assert!((top - 0.999985).abs() < 1e-6);
    assert!(top < 1.0);
}

#[test]
fn sample_range_maps_onto_the_unit_interval() {
    let mut adc = started(&[4]);
    assert_eq!(adc.get(0).map(as_float), Ok(0.0));
    assert_eq!(adc.dma_write(0, 32768), Ok(()));
    assert_eq!(adc.get(0).map(as_float), Ok(0.5));
    assert_eq!(adc.dma_write(0, u16::MAX), Ok(()));
    assert_eq!(adc.get(0).map(as_float), Ok(65535.0 / 65536.0));
}
