//! One switch for many hands: the switch behind a lock, so that a reader and
//! a writer on different threads never see it half changed.
//!
//! Every call takes the lock once, for as long as it looks at the switch or
//! changes it, and gives it back before it returns. The datagrams of a burst
//! are handed out after that: nobody waits for the lock while they are sent.
//! Waiting for the lock is busy waiting; calls are short and far between.

use crate::switch::{burst_of, response_of, DelaySwitch};
use crate::wol::{datagram_models, name_view, Datagram, PacketModel};
use std::sync::Arc;
use vstd::prelude::*;
use vstd::rwlock::{RwLock, RwLockPredicate};

verus! {

/// What the lock holds at all times: a switch for this one packet.
pub struct ForPacket {
    pub packet: PacketModel,
}

impl RwLockPredicate<DelaySwitch> for ForPacket {
    open spec fn inv(self, switch: DelaySwitch) -> bool {
        switch@.packet == self.packet
    }
}

/// A handle on a switch that is shared. Clones are handles on the same switch.
pub struct SharedSwitch {
    cell: Arc<RwLock<DelaySwitch, ForPacket>>,
}

/// `Arc::clone` makes another pointer to the same allocation: what the new
/// pointer points to is what the old one points to.
#[verifier::external_body]
fn another_handle(cell: &Arc<RwLock<DelaySwitch, ForPacket>>) -> (other: Arc<
    RwLock<DelaySwitch, ForPacket>,
>)
    ensures
        other == *cell,
{
    Arc::clone(cell)
}

impl Clone for SharedSwitch {
    fn clone(&self) -> (other: SharedSwitch)
        ensures
            other == *self,
    {
        SharedSwitch { cell: another_handle(&self.cell) }
    }
}

impl SharedSwitch {
    /// The packet that every activation of the shared switch sends, whoever
    /// else may be using the switch.
    pub closed spec fn packet(&self) -> PacketModel {
        self.cell.pred().packet
    }

    /// A shared switch, off, that wakes `mac_address` through `interface`.
    pub fn new(mac_address: &[u8; 6], interface: Option<String>) -> (shared: SharedSwitch)
        ensures
            shared.packet() == (PacketModel {
                hardware_address: mac_address@,
                interface: name_view(interface),
            }),
    {
        let switch = DelaySwitch::new(mac_address, interface);
        let lock = RwLock::new(switch, Ghost(ForPacket { packet: switch@.packet }));
        SharedSwitch { cell: Arc::new(lock) }
    }

    /// Whether the switch reads "on" now. Others may set or clear the switch
    /// at any time, so nothing is promised of the answer but that it was
    /// true of the switch while the lock was held.
    pub fn get(&self) -> bool {
        let (switch, permit) = self.cell.acquire_write();
        let on = switch.get();
        permit.release_write(switch);
        on
    }

    /// Sets the switch now and hands back the burst of datagrams to send.
    pub fn set(&self) -> (burst: Vec<Datagram>)
        ensures
            datagram_models(burst@) == burst_of(self.packet()),
    {
        let (mut switch, permit) = self.cell.acquire_write();
        let burst = switch.set();
        permit.release_write(switch);
        burst
    }

    /// Clears the switch. Nothing is sent.
    pub fn clear(&self) {
        let (mut switch, permit) = self.cell.acquire_write();
        switch.clear();
        permit.release_write(switch);
    }

    /// Writes `value` to the switch now: `true` sets it, `false` clears it.
    /// Hands back the datagrams to send, none for `false`.
    pub fn update(&self, value: bool) -> (burst: Vec<Datagram>)
        ensures
            datagram_models(burst@) == response_of(self.packet(), value),
    {
        let (mut switch, permit) = self.cell.acquire_write();
        let burst = switch.update(value);
        permit.release_write(switch);
        burst
    }
}

} // verus!
