//! What holds of every driver, whatever is registered and written.

use vstd::prelude::*;

use super::AdcError;
use super::AdcModel;
use super::ChannelConfig;
use super::ADC_MAX_CHANNELS;

verus! {

/// Every transition keeps the driver within its bounds: at most
/// `ADC_MAX_CHANNELS` channels, and a buffer of `ADC_MAX_CHANNELS` slots.
pub proof fn lemma_transitions_keep_bounds(
    m: AdcModel,
    config: ChannelConfig,
    slot: int,
    sample: u16,
)
    requires
        m.wf(),
    ensures
        AdcModel::initial().wf(),
        m.register(config).wf(),
        m.start().wf(),
        m.write(slot, sample).wf(),
{
}

/// While the acquisition has not started and the channels fit, registering
/// them one after another appends them to the table, in order, and changes
/// nothing else.
pub proof fn lemma_register_all_appends(m: AdcModel, configs: Seq<ChannelConfig>)
    requires
        !m.running,
        m.configs.len() + configs.len() <= ADC_MAX_CHANNELS,
    ensures
        m.register_all(configs).configs == m.configs + configs,
        m.register_all(configs).samples == m.samples,
        !m.register_all(configs).running,
    decreases configs.len(),
{
    if configs.len() == 0 {
        assert(m.configs + configs =~= m.configs);
    } else {
        let front = configs.drop_last();
        lemma_register_all_appends(m, front);
        let before = m.register_all(front);
        assert(before.register_outcome() is Ok);
        assert((m.configs + front).push(configs.last()) =~= m.configs + configs);
    }
}

/// Any one to `ADC_MAX_CHANNELS` channels can be registered on a fresh
/// driver, each registration is accepted, the acquisition then starts, and
/// afterwards exactly the indices below the channel count can be read.
pub proof fn lemma_channels_register_start_and_read(configs: Seq<ChannelConfig>)
    requires
        1 <= configs.len() <= ADC_MAX_CHANNELS,
    ensures
        forall|k: int|
            0 <= k < configs.len() ==> (#[trigger] AdcModel::initial().register_all(
                configs.take(k),
            )).register_outcome() is Ok,
        AdcModel::initial().register_all(configs).num_channels() == configs.len(),
        AdcModel::initial().register_all(configs).start_outcome() is Ok,
        AdcModel::initial().register_all(configs).start().running,
        forall|i: int|
            0 <= i < configs.len() <==> (#[trigger] AdcModel::initial().register_all(
                configs,
            ).start().read(i)) is Ok,
{
    let fresh = AdcModel::initial();
    assert forall|k: int| 0 <= k < configs.len() implies (#[trigger] fresh.register_all(
        configs.take(k),
    )).register_outcome() is Ok by {
        lemma_register_all_appends(fresh, configs.take(k));
    }
    lemma_register_all_appends(fresh, configs);
}

/// A full driver refuses one more channel with `CapacityExceeded`, and the
/// refused registration changes nothing: after `ADC_MAX_CHANNELS`
/// registrations the table holds exactly those, whatever is offered next.
pub proof fn lemma_capacity_is_enforced(configs: Seq<ChannelConfig>, extra: ChannelConfig)
    requires
        configs.len() == ADC_MAX_CHANNELS,
    ensures
        AdcModel::initial().register_all(configs).register_outcome() == Err::<(), AdcError>(
            AdcError::CapacityExceeded,
        ),
        AdcModel::initial().register_all(configs.push(extra)) == AdcModel::initial().register_all(
            configs,
        ),
        AdcModel::initial().register_all(configs.push(extra)).configs == configs,
{
    let fresh = AdcModel::initial();
    lemma_register_all_appends(fresh, configs);
    assert(fresh.configs + configs =~= configs);
    assert(configs.push(extra).drop_last() =~= configs);
}

/// Until the DMA engine has written, every slot holds zero: on a fresh
/// driver all `ADC_MAX_CHANNELS` slots do, and every registered channel reads
/// as zero, before the start and after it.
pub proof fn lemma_unwritten_slots_read_zero(configs: Seq<ChannelConfig>, index: int)
    requires
        configs.len() <= ADC_MAX_CHANNELS,
        0 <= index < configs.len(),
    ensures
        forall|slot: int|
            0 <= slot < ADC_MAX_CHANNELS ==> #[trigger] AdcModel::initial().samples[slot] == 0,
        AdcModel::initial().register_all(configs).read(index) == Ok::<u16, AdcError>(0),
        AdcModel::initial().register_all(configs).start().read(index) == Ok::<u16, AdcError>(0),
{
    lemma_register_all_appends(AdcModel::initial(), configs);
}

/// Slots are given out in registration order, whatever the channel
/// identifiers are: the channel registered i-th is converted i-th and
/// owns slot `i`.
pub proof fn lemma_slots_follow_registration_order(configs: Seq<ChannelConfig>, index: int)
    requires
        configs.len() <= ADC_MAX_CHANNELS,
        0 <= index < configs.len(),
    ensures
        AdcModel::initial().register_all(configs).channels().len() == configs.len(),
        AdcModel::initial().register_all(configs).channels()[index] == configs[index].id(),
        AdcModel::initial().register_all(configs).start().channels()[index]
            == configs[index].id(),
{
    let fresh = AdcModel::initial();
    lemma_register_all_appends(fresh, configs);
    assert(fresh.configs + configs =~= configs);
}

/// A slot holds the latest DMA write made to it: a write is read back at
/// its own index, and every other index reads what it read before.
pub proof fn lemma_write_is_read_back(m: AdcModel, slot: int, sample: u16, index: int)
    requires
        m.wf(),
        m.write_outcome(slot) is Ok,
    ensures
        m.write(slot, sample).read(slot) == Ok::<u16, AdcError>(sample),
        index != slot ==> m.write(slot, sample).read(index) == m.read(index),
{
}

/// Starting happens once. After a start that was accepted, a second start
/// and any registration are refused with `AlreadyStarted` and change nothing.
pub proof fn lemma_start_is_one_shot(m: AdcModel, config: ChannelConfig)
    requires
        m.start_outcome() is Ok,
    ensures
        m.start().start_outcome() == Err::<(), AdcError>(AdcError::AlreadyStarted),
        m.start().start() == m.start(),
        m.start().register_outcome() == Err::<(), AdcError>(AdcError::AlreadyStarted),
        m.start().register(config) == m.start(),
{
}

} // verus!
