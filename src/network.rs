use vstd::prelude::*;

verus! {

/// Per-network configuration: the network identifier and the parameters that
/// map a wall-clock instant (seconds since the Unix epoch) to a slot.
#[derive(Debug, Clone, Copy, PartialEq, Eq, Structural)]
pub struct NetworkParams {
    pub network_id: u64,
    /// The instant of slot zero, in seconds since the Unix epoch.
    pub genesis_time: u64,
    /// The length of one slot, in seconds.
    pub slot_length: u64,
}

/// The slot that holds `instant`, when `instant` is not earlier than genesis.
pub open spec fn slot_of(instant: int, genesis: int, slot_length: int) -> Option<int> {
    if instant < genesis || slot_length <= 0 {
        None
    } else {
        Some((instant - genesis) / slot_length)
    }
}

impl NetworkParams {
    pub open spec fn wf(self) -> bool {
        self.slot_length > 0
    }

    /// Mainnet: network id 1, one-second slots counted so that the Shelley era
    /// starts at slot 4492800.
    pub fn mainnet() -> (r: NetworkParams)
        ensures
            r.wf(),
            r.network_id == 1,
            r.genesis_time == 1591566291,
            r.slot_length == 1,
    {
        NetworkParams { network_id: 1, genesis_time: 1591566291, slot_length: 1 }
    }

    /// The pre-production test network: network id 0, one-second slots.
    pub fn preprod() -> (r: NetworkParams)
        ensures
            r.wf(),
            r.network_id == 0,
            r.genesis_time == 1655683200,
            r.slot_length == 1,
    {
        NetworkParams { network_id: 0, genesis_time: 1655683200, slot_length: 1 }
    }

    /// The preview test network: network id 0, one-second slots.
    pub fn preview() -> (r: NetworkParams)
        ensures
            r.wf(),
            r.network_id == 0,
            r.genesis_time == 1666656000,
            r.slot_length == 1,
    {
        NetworkParams { network_id: 0, genesis_time: 1666656000, slot_length: 1 }
    }

    /// The slot of `instant` (seconds since the Unix epoch): the whole number of
    /// slots elapsed since genesis, or `None` before genesis.
    pub fn timestamp_to_slot(&self, instant: u64) -> (r: Option<u64>)
        ensures
            r matches Some(s) ==> slot_of(instant as int, self.genesis_time as int, self.slot_length as int) == Some(s as int),
            r is None ==> slot_of(instant as int, self.genesis_time as int, self.slot_length as int) is None,
    {
        if instant < self.genesis_time || self.slot_length == 0 {
            None
        } else {
            Some((instant - self.genesis_time) / self.slot_length)
        }
    }
}

} // verus!
