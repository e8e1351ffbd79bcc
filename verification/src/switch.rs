//! The switch that wakes: set, it sends a burst of magic packets and reads
//! "on" for ten seconds; cleared, it reads "off" at once.
//!
//! Nothing runs in the background. Whether the switch is on is worked out
//! from the clock each time somebody asks.

use crate::wol::{
    datagram_models, magic_payload, name_view, Datagram, DatagramModel, MagicPacket,
    PacketModel, BROADCAST_ADDRESS, WAKE_PORT,
};
use std::time::{Duration, Instant};
use vstd::prelude::*;

verus! {

/// How long after being set the switch still reads "on", in nanoseconds.
pub const DECAY_NANOS: u128 = 10_000_000_000;

/// How many datagrams one activation sends.
pub const BURST: usize = 3;

/// Time gone by from `since` to `now`, both in nanoseconds on one monotonic
/// clock. A `now` that lies before `since` counts as no time at all.
pub open spec fn elapsed(since: nat, now: nat) -> nat {
    if now >= since {
        (now - since) as nat
    } else {
        0
    }
}

/// The datagrams that one activation of a switch for `packet` sends: the same
/// one, `BURST` times, from the interface the packet was built for.
pub open spec fn burst_of(packet: PacketModel) -> Seq<DatagramModel> {
    Seq::new(BURST as nat, |i: int| packet.datagram(packet.interface))
}

/// The datagrams that writing `value` to a switch for `packet` sends: a burst
/// for `true`, none for `false`.
pub open spec fn response_of(packet: PacketModel, value: bool) -> Seq<DatagramModel> {
    if value {
        burst_of(packet)
    } else {
        Seq::empty()
    }
}

/// What a [`DelaySwitch`] stands for.
pub struct SwitchModel {
    /// When the switch was last set, unless it was cleared since or never set.
    pub last: Option<nat>,
    /// The packet that every activation sends.
    pub packet: PacketModel,
}

impl SwitchModel {
    /// Whether the switch reads "on" at `now`: it was set, not cleared since,
    /// and less than the decay time has gone by.
    pub open spec fn on(self, now: nat) -> bool {
        match self.last {
            Some(since) => elapsed(since, now) < DECAY_NANOS,
            None => false,
        }
    }

    /// The switch after it was set at `now`.
    pub open spec fn activated(self, now: nat) -> SwitchModel {
        SwitchModel { last: Some(now), packet: self.packet }
    }

    /// The switch after it was cleared.
    pub open spec fn deactivated(self) -> SwitchModel {
        SwitchModel { last: None, packet: self.packet }
    }

    /// The datagrams that one activation sends.
    pub open spec fn burst(self) -> Seq<DatagramModel> {
        burst_of(self.packet)
    }

    /// The switch after `value` was written to it at `now`: set by `true`,
    /// cleared by `false`.
    pub open spec fn updated(self, value: bool, now: nat) -> SwitchModel {
        if value {
            self.activated(now)
        } else {
            self.deactivated()
        }
    }

    /// The datagrams that writing `value` sends.
    pub open spec fn response(self, value: bool) -> Seq<DatagramModel> {
        response_of(self.packet, value)
    }
}

/// One activation sends exactly three datagrams. Each is a broadcast to the
/// limited broadcast address on the wake port, leaves from the interface the
/// packet was built for, and carries the payload of the packet's address.
pub proof fn lemma_burst_is_three_wake_datagrams(packet: PacketModel)
    ensures
        burst_of(packet).len() == BURST,
        forall|i: int|
            0 <= i < BURST ==> {
                let datagram = #[trigger] burst_of(packet)[i];
                &&& datagram.broadcast
                &&& datagram.destination_address == BROADCAST_ADDRESS@
                &&& datagram.destination_port == WAKE_PORT
                &&& datagram.interface == packet.interface
                &&& datagram.payload == magic_payload(packet.hardware_address)
            },
{
}

/// A switch reads "on" at the moment it is set, and at every moment less
/// than ten seconds later.
pub proof fn lemma_set_reads_on(switch: SwitchModel, at: nat, now: nat)
    requires
        at <= now < at + DECAY_NANOS,
    ensures
        switch.activated(at).on(at),
        switch.activated(at).on(now),
{
}

/// Ten seconds after a switch was set, and at every later moment, it reads
/// "off", if nobody touched it in between.
pub proof fn lemma_set_decays(switch: SwitchModel, at: nat, now: nat)
    requires
        now >= at + DECAY_NANOS,
    ensures
        !switch.activated(at).on(now),
{
}

/// A cleared switch reads "off" at every moment, however lately it was set.
pub proof fn lemma_clear_reads_off(switch: SwitchModel, at: nat, now: nat)
    ensures
        !switch.deactivated().on(now),
        !switch.activated(at).deactivated().on(now),
{
}

/// Setting a switch again starts the ten seconds afresh: what counts is the
/// last time it was set, so it reads "on" right then, whenever it was set
/// before.
pub proof fn lemma_set_again_restarts(switch: SwitchModel, first: nat, second: nat, now: nat)
    requires
        second <= now < second + DECAY_NANOS,
    ensures
        switch.activated(first).activated(second) == switch.activated(second),
        switch.activated(first).activated(second).on(second),
        switch.activated(first).activated(second).on(now),
{
}

/// A switch that reads "on" has its last setting on record; one with nothing
/// on record reads "off".
pub proof fn lemma_on_is_on_record(switch: SwitchModel, now: nat)
    ensures
        switch.on(now) ==> switch.last is Some,
        switch.last is None ==> !switch.on(now),
{
}

/// A clock that runs backwards does not switch anything off: before the
/// moment it was set, a switch reads "on".
pub proof fn lemma_early_reading_is_on(switch: SwitchModel, at: nat, now: nat)
    requires
        now <= at,
    ensures
        switch.activated(at).on(now),
{
}

/// `std::time::Instant`, a reading of the monotonic clock. It is carried
/// along as it is: nothing is known of what is inside.
#[verifier::external_type_specification]
#[verifier::external_body]
pub struct ExInstant(Instant);

/// `Instant::now` reads the monotonic clock. Nothing is claimed of the reading.
pub assume_specification[ Instant::now ]() -> (now: Instant);

/// `Instant::elapsed` measures the time since the instant was taken. Nothing
/// is claimed of the measurement.
pub assume_specification[ Instant::elapsed ](since: &Instant) -> (gone: Duration);

/// `Duration::as_nanos` gives a duration as a whole number of nanoseconds.
/// Nothing is claimed of the number.
pub assume_specification[ Duration::as_nanos ](duration: &Duration) -> (nanos: u128);

/// A switch that remembers for a while that it was set.
#[derive(Debug)]
pub struct DelaySwitch {
    origin: Instant,
    last: Option<u128>,
    packet: MagicPacket,
}

impl View for DelaySwitch {
    type V = SwitchModel;

    closed spec fn view(&self) -> SwitchModel {
        SwitchModel {
            last: match self.last {
                Some(since) => Some(since as nat),
                None => None,
            },
            packet: self.packet@,
        }
    }
}

impl DelaySwitch {
    /// A switch, off, that wakes `mac_address` through `interface`. Its clock
    /// starts now.
    pub fn new(mac_address: &[u8; 6], interface: Option<String>) -> (switch: DelaySwitch)
        ensures
            switch@ == (SwitchModel {
                last: None,
                packet: PacketModel {
                    hardware_address: mac_address@,
                    interface: name_view(interface),
                },
            }),
    {
        DelaySwitch {
            origin: Instant::now(),
            last: None,
            packet: MagicPacket::new(mac_address, interface),
        }
    }

    /// Whether the switch reads "on" when its clock shows `now` nanoseconds.
    pub fn get_at(&self, now: u128) -> (on: bool)
        ensures
            on == self@.on(now as nat),
    {
        match self.last {
            Some(since) => {
                let gone: u128 = if now >= since {
                    now - since
                } else {
                    0
                };
                gone < DECAY_NANOS
            },
            None => false,
        }
    }

    /// Sets the switch when its clock shows `now` nanoseconds, and hands back
    /// the burst of datagrams to send. The time is on record whatever becomes
    /// of the datagrams.
    pub fn set_at(&mut self, now: u128) -> (burst: Vec<Datagram>)
        ensures
            final(self)@ == old(self)@.activated(now as nat),
            datagram_models(burst@) == old(self)@.burst(),
    {
        self.last = Some(now);
        let mut burst: Vec<Datagram> = Vec::new();
        while burst.len() < BURST
            invariant
                burst@.len() <= BURST,
                self.packet == old(self).packet,
                forall|i: int|
                    0 <= i < burst@.len() ==> (#[trigger] burst@[i])@ == self.packet@.datagram(
                        self.packet@.interface,
                    ),
            decreases BURST - burst@.len(),
        {
            burst.push(self.packet.send());
        }
        assert(datagram_models(burst@) =~= old(self)@.burst());
        burst
    }

    /// Clears the switch: from now on it reads "off". Nothing is sent.
    pub fn clear(&mut self)
        ensures
            final(self)@ == old(self)@.deactivated(),
    {
        self.last = None;
    }

    /// Writes `value` to the switch when its clock shows `now` nanoseconds:
    /// `true` sets it, `false` clears it. Hands back the datagrams to send,
    /// none for `false`. The write always goes through: what becomes of the
    /// datagrams is not the writer's business.
    pub fn update_at(&mut self, value: bool, now: u128) -> (burst: Vec<Datagram>)
        ensures
            final(self)@ == old(self)@.updated(value, now as nat),
            datagram_models(burst@) == old(self)@.response(value),
    {
        if value {
            self.set_at(now)
        } else {
            self.clear();
            let burst: Vec<Datagram> = Vec::new();
            assert(datagram_models(burst@) =~= old(self)@.response(value));
            burst
        }
    }

    /// The reading of the switch's clock: nanoseconds since the switch was made.
    fn clock(&self) -> u128 {
        self.origin.elapsed().as_nanos()
    }

    /// Whether the switch reads "on" now, by its own clock.
    pub fn get(&self) -> (on: bool)
        ensures
            exists|now: nat| on == self@.on(now),
    {
        let now: u128 = self.clock();
        let on = self.get_at(now);
        assert(on == self@.on(now as nat));
        on
    }

    /// Sets the switch now, by its own clock, and hands back the burst of
    /// datagrams to send.
    pub fn set(&mut self) -> (burst: Vec<Datagram>)
        ensures
            exists|now: nat| final(self)@ == old(self)@.activated(now),
            datagram_models(burst@) == old(self)@.burst(),
    {
        let now: u128 = self.clock();
        let burst = self.set_at(now);
        assert(self@ == old(self)@.activated(now as nat));
        burst
    }

    /// Writes `value` to the switch now, by its own clock, and hands back the
    /// datagrams to send.
    pub fn update(&mut self, value: bool) -> (burst: Vec<Datagram>)
        ensures
            exists|now: nat| final(self)@ == old(self)@.updated(value, now),
            datagram_models(burst@) == old(self)@.response(value),
    {
        if value {
            let burst = self.set();
            assert(exists|now: nat| self@ == old(self)@.updated(value, now)) by {
                let at = choose|now: nat| self@ == old(self)@.activated(now);
                assert(self@ == old(self)@.updated(value, at));
            }
            burst
        } else {
            self.clear();
            let burst: Vec<Datagram> = Vec::new();
            assert(self@ == old(self)@.updated(value, 0));
            assert(datagram_models(burst@) =~= old(self)@.response(value));
            burst
        }
    }
}

} // verus!
