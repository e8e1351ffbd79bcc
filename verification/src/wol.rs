//! The magic packet: its byte layout and the datagram that carries it.

use vstd::prelude::*;

verus! {

/// Bytes in a hardware address.
pub const MAC_LEN: usize = 6;

/// Bytes in the synchronization stream that opens the payload.
pub const SYNC_LEN: usize = 6;

/// How often the hardware address follows the synchronization stream.
pub const REPETITIONS: usize = 16;

/// Bytes in the whole payload.
pub const PAYLOAD_LEN: usize = 102;

/// The byte the synchronization stream is made of.
pub const SYNC_BYTE: u8 = 0xFF;

/// The UDP port that Wake-on-LAN listeners watch.
pub const WAKE_PORT: u16 = 9;

/// The local port to bind to when any free port will do.
pub const EPHEMERAL_PORT: u16 = 0;

/// The wildcard local address, `0.0.0.0`.
pub const ANY_ADDRESS: [u8; 4] = [0, 0, 0, 0];

/// The limited broadcast address, `255.255.255.255`.
pub const BROADCAST_ADDRESS: [u8; 4] = [255, 255, 255, 255];

/// `block` written `count` times in a row.
pub open spec fn repeated(block: Seq<u8>, count: nat) -> Seq<u8>
    decreases count,
{
    if count == 0 {
        Seq::empty()
    } else {
        repeated(block, (count - 1) as nat) + block
    }
}

/// The synchronization stream: six bytes of `0xFF`.
pub open spec fn sync_stream() -> Seq<u8> {
    Seq::new(SYNC_LEN as nat, |i: int| SYNC_BYTE)
}

/// The payload that wakes the machine with hardware address `mac`: the
/// synchronization stream, then `mac` sixteen times.
pub open spec fn magic_payload(mac: Seq<u8>) -> Seq<u8> {
    sync_stream() + repeated(mac, REPETITIONS as nat)
}

/// The copy of the hardware address at place `index` in `payload`, the first
/// copy being at place 0.
pub open spec fn repetition(payload: Seq<u8>, index: int) -> Seq<u8> {
    payload.subrange(SYNC_LEN + index * MAC_LEN, SYNC_LEN + (index + 1) * MAC_LEN)
}

/// `repeated(block, count)` has `count` times the length of `block`, and its
/// byte at `k` is the byte of `block` at `k` modulo that length.
pub proof fn lemma_repeated(block: Seq<u8>, count: nat)
    requires
        block.len() > 0,
    ensures
        repeated(block, count).len() == count * block.len(),
        forall|k: int|
            0 <= k < count * block.len() ==> #[trigger] repeated(block, count)[k] == block[k
                % (block.len() as int)],
    decreases count,
{
    let n = block.len() as int;
    if count == 0 {
        assert(count * block.len() == 0) by (nonlinear_arith)
            requires
                count == 0,
        ;
    } else {
        let prev = (count - 1) as nat;
        lemma_repeated(block, prev);
        assert(count * block.len() == prev * block.len() + block.len()) by (nonlinear_arith)
            requires
                prev + 1 == count,
        ;
        assert forall|k: int| 0 <= k < count * block.len() implies #[trigger] repeated(
            block,
            count,
        )[k] == block[k % n] by {
            if k >= prev * block.len() {
                let j = k - prev * block.len();
                assert(k % n == j) by (nonlinear_arith)
                    requires
                        k == prev * n + j,
                        0 <= j < n,
                ;
            }
        }
    }
}

/// For every hardware address the payload is 102 bytes long: first six bytes
/// of `0xFF`, then the address, sixteen times over.
pub proof fn lemma_payload_layout(mac: Seq<u8>)
    requires
        mac.len() == MAC_LEN,
    ensures
        magic_payload(mac).len() == PAYLOAD_LEN,
        forall|k: int| 0 <= k < SYNC_LEN ==> magic_payload(mac)[k] == SYNC_BYTE,
        forall|k: int|
            SYNC_LEN <= k < PAYLOAD_LEN ==> magic_payload(mac)[k] == mac[(k - SYNC_LEN) % (
            MAC_LEN as int)],
        magic_payload(mac).subrange(0, SYNC_LEN as int) == sync_stream(),
        magic_payload(mac).subrange(SYNC_LEN as int, PAYLOAD_LEN as int) == repeated(
            mac,
            REPETITIONS as nat,
        ),
        forall|index: int|
            0 <= index < REPETITIONS ==> #[trigger] repetition(magic_payload(mac), index) == mac,
{
    let payload = magic_payload(mac);
    lemma_repeated(mac, REPETITIONS as nat);
    assert forall|k: int| SYNC_LEN <= k < PAYLOAD_LEN implies payload[k] == mac[(k - SYNC_LEN) % (
    MAC_LEN as int)] by {
        assert(payload[k] == repeated(mac, REPETITIONS as nat)[k - SYNC_LEN]);
    }
    assert(payload.subrange(0, SYNC_LEN as int) =~= sync_stream());
    assert(payload.subrange(SYNC_LEN as int, PAYLOAD_LEN as int) =~= repeated(
        mac,
        REPETITIONS as nat,
    ));
    assert forall|index: int| 0 <= index < REPETITIONS implies #[trigger] repetition(
        payload,
        index,
    ) == mac by {
        let copy = repetition(payload, index);
        assert(copy.len() == 6);
        assert forall|j: int| 0 <= j < 6 implies copy[j] == mac[j] by {
            assert(copy[j] == payload[6 + index * 6 + j]);
            assert((index * 6 + j) % 6 == j) by (nonlinear_arith)
                requires
                    0 <= j < 6,
                    0 <= index,
            ;
        }
        assert(copy =~= mac);
    }
}

/// What a [`MagicPacket`] stands for: the machine it wakes and the network
/// interface its datagrams leave from.
pub struct PacketModel {
    /// The six bytes of the target's hardware address.
    pub hardware_address: Seq<u8>,
    /// The interface the datagram is bound to; `None` leaves the choice to routing.
    pub interface: Option<Seq<char>>,
}

impl PacketModel {
    /// The 102 bytes that go on the wire.
    pub open spec fn payload(self) -> Seq<u8> {
        magic_payload(self.hardware_address)
    }

    /// The datagram that carries the payload when it is sent from `interface`:
    /// from the wildcard address and any free port, with broadcasting allowed,
    /// to the limited broadcast address on the wake port.
    pub open spec fn datagram(self, interface: Option<Seq<char>>) -> DatagramModel {
        DatagramModel {
            source_address: ANY_ADDRESS@,
            source_port: EPHEMERAL_PORT,
            broadcast: true,
            interface,
            destination_address: BROADCAST_ADDRESS@,
            destination_port: WAKE_PORT,
            payload: self.payload(),
        }
    }
}

/// What a [`Datagram`] stands for, field by field.
pub struct DatagramModel {
    /// The four bytes of the IPv4 address the socket is bound to.
    pub source_address: Seq<u8>,
    /// The port the socket is bound to.
    pub source_port: u16,
    /// Whether the socket is allowed to broadcast.
    pub broadcast: bool,
    /// The only interface the datagram may leave from, if one is named.
    pub interface: Option<Seq<char>>,
    /// The four bytes of the IPv4 address the datagram goes to.
    pub destination_address: Seq<u8>,
    /// The port the datagram goes to.
    pub destination_port: u16,
    /// The bytes the datagram carries.
    pub payload: Seq<u8>,
}

/// One UDP datagram, described for whoever owns the socket: where to bind,
/// which socket options to set, where to send, and what.
#[derive(Debug)]
pub struct Datagram {
    /// The IPv4 address to bind the socket to.
    pub source_address: [u8; 4],
    /// The port to bind the socket to; 0 asks for any free one.
    pub source_port: u16,
    /// Whether the socket must be allowed to broadcast.
    pub broadcast: bool,
    /// The only network interface the datagram may leave from, if one is named.
    pub interface: Option<String>,
    /// The IPv4 address to send to.
    pub destination_address: [u8; 4],
    /// The port to send to.
    pub destination_port: u16,
    /// The bytes to send.
    pub payload: [u8; 102],
}

impl View for Datagram {
    type V = DatagramModel;

    open spec fn view(&self) -> DatagramModel {
        DatagramModel {
            source_address: self.source_address@,
            source_port: self.source_port,
            broadcast: self.broadcast,
            interface: name_view(self.interface),
            destination_address: self.destination_address@,
            destination_port: self.destination_port,
            payload: self.payload@,
        }
    }
}

/// The models of a sequence of datagrams, in order.
pub open spec fn datagram_models(datagrams: Seq<Datagram>) -> Seq<DatagramModel> {
    Seq::new(datagrams.len(), |i: int| datagrams[i]@)
}

/// A Wake-on-LAN packet for one machine, built once and sent as often as needed.
#[derive(Debug)]
pub struct MagicPacket {
    magic_bytes: [u8; 102],
    interface: Option<String>,
}

/// The view of an optional interface name.
pub open spec fn name_view(name: Option<String>) -> Option<Seq<char>> {
    match name {
        Some(s) => Some(s@),
        None => None,
    }
}

/// The view of an optional borrowed interface name.
pub open spec fn str_view(name: Option<&str>) -> Option<Seq<char>> {
    match name {
        Some(s) => Some(s@),
        None => None,
    }
}

impl View for MagicPacket {
    type V = PacketModel;

    closed spec fn view(&self) -> PacketModel {
        PacketModel {
            hardware_address: self.magic_bytes@.subrange(SYNC_LEN as int, SYNC_LEN + MAC_LEN),
            interface: name_view(self.interface),
        }
    }
}

/// A copy of an optional interface name.
fn copy_name(name: &Option<String>) -> (copy: Option<String>)
    ensures
        name_view(copy) == name_view(*name),
{
    match name {
        Some(s) => Some(s.clone()),
        None => None,
    }
}

impl Clone for MagicPacket {
    fn clone(&self) -> (copy: MagicPacket)
        ensures
            copy@ == self@,
    {
        proof {
            use_type_invariant(self);
        }
        MagicPacket { magic_bytes: self.magic_bytes, interface: copy_name(&self.interface) }
    }
}

impl MagicPacket {
    /// The stored bytes always are the payload of the stored address.
    #[verifier::type_invariant]
    spec fn well_formed(self) -> bool {
        self.magic_bytes@ == self@.payload()
    }

    /// Builds the packet that wakes `mac_address`, to be sent from `interface`.
    pub fn new(mac_address: &[u8; 6], interface: Option<String>) -> (packet: MagicPacket)
        ensures
            packet@.hardware_address == mac_address@,
            packet@.interface == name_view(interface),
    {
        let mut magic_bytes = [SYNC_BYTE;102];
        let mut i: usize = SYNC_LEN;
        while i < PAYLOAD_LEN
            invariant
                SYNC_LEN <= i <= PAYLOAD_LEN,
                forall|k: int| 0 <= k < SYNC_LEN ==> magic_bytes@[k] == SYNC_BYTE,
                forall|k: int|
                    SYNC_LEN <= k < i ==> magic_bytes@[k] == mac_address@[(k - SYNC_LEN) % (
                    MAC_LEN as int)],
            decreases PAYLOAD_LEN - i,
        {
            magic_bytes[i] = mac_address[(i - SYNC_LEN) % MAC_LEN];
            i += 1;
        }
        proof {
            lemma_payload_layout(mac_address@);
            assert(magic_bytes@ =~= magic_payload(mac_address@));
            assert(magic_bytes@.subrange(SYNC_LEN as int, SYNC_LEN + MAC_LEN) =~= mac_address@);
        }
        MagicPacket { magic_bytes, interface }
    }

    /// Describes one transmission of the packet from the interface it was
    /// built for. Nothing is put on the wire here: the caller hands the
    /// datagram to its socket.
    pub fn send(&self) -> (datagram: Datagram)
        ensures
            datagram@ == self@.datagram(self@.interface),
    {
        match &self.interface {
            Some(name) => self.send_from(Some(name.as_str())),
            None => self.send_from(None),
        }
    }

    /// Describes one transmission of the packet from `interface`, whatever
    /// interface the packet was built for.
    pub fn send_from(&self, interface: Option<&str>) -> (datagram: Datagram)
        ensures
            datagram@ == self@.datagram(str_view(interface)),
    {
        proof {
            use_type_invariant(self);
        }
        let interface = match interface {
            Some(name) => Some(name.to_owned()),
            None => None,
        };
        Datagram {
            source_address: ANY_ADDRESS,
            source_port: EPHEMERAL_PORT,
            broadcast: true,
            interface,
            destination_address: BROADCAST_ADDRESS,
            destination_port: WAKE_PORT,
            payload: self.magic_bytes,
        }
    }

    /// The payload as it goes on the wire.
    pub fn magic_bytes(&self) -> (bytes: &[u8; 102])
        ensures
            bytes@ == self@.payload(),
    {
        proof {
            use_type_invariant(self);
        }
        &self.magic_bytes
    }
}

} // verus!
