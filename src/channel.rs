//! The channel and packet data model: channel ends, heights, packets,
//! handler results, events and the channel and packet messages.
use vstd::prelude::*;
use crate::ident::{ChannelId, ClientId, ConnectionId, PortId};
use crate::version::Version;

verus! {

/// The ordering of a channel.
#[derive(Debug, Clone, Copy, PartialEq, Eq, Structural)]
pub enum Order {
    Unordered,
    Ordered,
}

/// The state of a channel end.
#[derive(Debug, Clone, Copy, PartialEq, Eq, Structural)]
pub enum State {
    Uninitialized,
    Init,
    TryOpen,
    Open,
    Closed,
}

/// The place of a state in the handshake: a channel end only ever moves to a
/// state of a higher rank.
pub open spec fn state_rank(s: State) -> int {
    match s {
        State::Uninitialized => 0,
        State::Init => 1,
        State::TryOpen => 1,
        State::Open => 2,
        State::Closed => 3,
    }
}

/// A height of a chain: a revision and a block within it. The zero height
/// stands for "no timeout".
#[derive(Debug, Clone, Copy, PartialEq, Eq, Structural)]
pub struct Height {
    pub revision_number: u64,
    pub revision_height: u64,
}

pub open spec fn height_le(a: Height, b: Height) -> bool {
    a.revision_number < b.revision_number || (a.revision_number == b.revision_number
        && a.revision_height <= b.revision_height)
}

pub open spec fn height_is_zero(h: Height) -> bool {
    h.revision_number == 0 && h.revision_height == 0
}

impl Height {
    pub fn new(revision_number: u64, revision_height: u64) -> (r: Self)
        ensures
            r.revision_number == revision_number,
            r.revision_height == revision_height,
    {
        Height { revision_number, revision_height }
    }

    /// The height that stands for "no timeout".
    pub fn zero() -> (r: Self)
        ensures
            height_is_zero(r),
    {
        Height { revision_number: 0, revision_height: 0 }
    }

    pub fn is_zero(&self) -> (r: bool)
        ensures
            r == height_is_zero(*self),
    {
        self.revision_number == 0 && self.revision_height == 0
    }

    /// Lexicographic order.
    pub fn le(&self, o: &Height) -> (r: bool)
        ensures
            r == height_le(*self, *o),
    {
        self.revision_number < o.revision_number || (self.revision_number == o.revision_number
            && self.revision_height <= o.revision_height)
    }
}

/// The views of a list of connection identifiers.
pub open spec fn hops_view(hops: Seq<ConnectionId>) -> Seq<Seq<char>> {
    hops.map_values(|c: ConnectionId| c@)
}

pub fn clone_hops(hops: &Vec<ConnectionId>) -> (r: Vec<ConnectionId>)
    ensures
        hops_view(r@) == hops_view(hops@),
{
    let mut r: Vec<ConnectionId> = Vec::new();
    let mut i: usize = 0;
    while i < hops.len()
        invariant
            i <= hops.len(),
            r@.len() == i,
            forall|j: int| 0 <= j < i ==> r@[j]@ == hops@[j]@,
        decreases hops.len() - i,
    {
        r.push(hops[i].duplicate());
        i = i + 1;
    }
    assert(hops_view(r@) =~= hops_view(hops@));
    r
}

/// The remote end of a channel: its port and, once known, its channel.
#[derive(Debug)]
pub struct Counterparty {
    pub port_id: PortId,
    pub channel_id: Option<ChannelId>,
}

pub open spec fn opt_channel_view(c: Option<ChannelId>) -> Option<Seq<char>> {
    match c {
        Some(id) => Some(id@),
        None => None,
    }
}

impl Counterparty {
    pub fn new(port_id: PortId, channel_id: Option<ChannelId>) -> (r: Self)
        ensures
            r.port_id@ == port_id@,
            opt_channel_view(r.channel_id) == opt_channel_view(channel_id),
    {
        Counterparty { port_id, channel_id }
    }

    pub fn duplicate(&self) -> (r: Self)
        ensures
            r.port_id@ == self.port_id@,
            opt_channel_view(r.channel_id) == opt_channel_view(self.channel_id),
    {
        let channel_id = match &self.channel_id {
            Some(c) => Some(c.duplicate()),
            None => None,
        };
        Counterparty { port_id: self.port_id.duplicate(), channel_id }
    }
}

/// One end of a channel as this chain stores it.
#[derive(Debug)]
pub struct ChannelEnd {
    pub state: State,
    pub ordering: Order,
    pub remote: Counterparty,
    pub connection_hops: Vec<ConnectionId>,
    pub version: Version,
}

impl ChannelEnd {
    /// Two channel ends that agree on every field, strings compared by their
    /// characters.
    pub open spec fn same_as(&self, o: &ChannelEnd) -> bool {
        &&& self.state == o.state
        &&& self.ordering == o.ordering
        &&& self.remote.port_id@ == o.remote.port_id@
        &&& opt_channel_view(self.remote.channel_id) == opt_channel_view(o.remote.channel_id)
        &&& hops_view(self.connection_hops@) == hops_view(o.connection_hops@)
        &&& self.version@ == o.version@
    }

    /// Agrees with `o` on every field but the state, which is `state`.
    pub open spec fn moved_from(&self, o: &ChannelEnd, state: State) -> bool {
        &&& self.state == state
        &&& self.ordering == o.ordering
        &&& self.remote.port_id@ == o.remote.port_id@
        &&& opt_channel_view(self.remote.channel_id) == opt_channel_view(o.remote.channel_id)
        &&& hops_view(self.connection_hops@) == hops_view(o.connection_hops@)
        &&& self.version@ == o.version@
    }

    pub fn new(
        state: State,
        ordering: Order,
        remote: Counterparty,
        connection_hops: Vec<ConnectionId>,
        version: Version,
    ) -> (r: Self)
        ensures
            r == (ChannelEnd { state, ordering, remote, connection_hops, version }),
    {
        ChannelEnd { state, ordering, remote, connection_hops, version }
    }

    pub fn duplicate(&self) -> (r: Self)
        ensures
            r.same_as(self),
    {
        ChannelEnd {
            state: self.state,
            ordering: self.ordering,
            remote: self.remote.duplicate(),
            connection_hops: clone_hops(&self.connection_hops),
            version: self.version.duplicate(),
        }
    }

    pub fn counterparty(&self) -> (r: &Counterparty)
        ensures
            *r == self.remote,
    {
        &self.remote
    }
}

/// A packet sent over a channel.
#[derive(Debug)]
pub struct Packet {
    pub sequence: u64,
    pub source_port: PortId,
    pub source_channel: ChannelId,
    pub destination_port: PortId,
    pub destination_channel: ChannelId,
    pub data: Vec<u8>,
    pub timeout_height: Height,
    pub timeout_timestamp: u64,
}

impl Packet {
    pub fn duplicate(&self) -> (r: Self)
        ensures
            r.sequence == self.sequence,
            r.source_port@ == self.source_port@,
            r.source_channel@ == self.source_channel@,
            r.destination_port@ == self.destination_port@,
            r.destination_channel@ == self.destination_channel@,
            r.data@ == self.data@,
            r.timeout_height == self.timeout_height,
            r.timeout_timestamp == self.timeout_timestamp,
    {
        let data = self.data.clone();
        assert(data@ =~= self.data@);
        Packet {
            sequence: self.sequence,
            source_port: self.source_port.duplicate(),
            source_channel: self.source_channel.duplicate(),
            destination_port: self.destination_port.duplicate(),
            destination_channel: self.destination_channel.duplicate(),
            data,
            timeout_height: self.timeout_height,
            timeout_timestamp: self.timeout_timestamp,
        }
    }
}

/// Two packets that agree on every field, strings and data compared by
/// their views.
pub open spec fn same_packet(a: &Packet, b: &Packet) -> bool {
    &&& a.sequence == b.sequence
    &&& a.source_port@ == b.source_port@
    &&& a.source_channel@ == b.source_channel@
    &&& a.destination_port@ == b.destination_port@
    &&& a.destination_channel@ == b.destination_channel@
    &&& a.data@ == b.data@
    &&& a.timeout_height == b.timeout_height
    &&& a.timeout_timestamp == b.timeout_timestamp
}

/// Whether a packet has a timeout of either kind.
pub open spec fn packet_has_timeout(p: &Packet) -> bool {
    !height_is_zero(p.timeout_height) || p.timeout_timestamp != 0
}

/// Whether a timeout height or time has passed at the given height and time
/// of the receiving chain; zero stands for no timeout.
pub open spec fn timeout_passed(timeout_height: Height, timeout_timestamp: u64, height: Height, timestamp: u64) -> bool {
    (!height_is_zero(timeout_height) && height_le(timeout_height, height)) || (timeout_timestamp
        != 0 && timeout_timestamp <= timestamp)
}

/// Whether a packet has timed out at the given height and time of the
/// receiving chain.
pub open spec fn packet_timed_out(p: &Packet, height: Height, timestamp: u64) -> bool {
    timeout_passed(p.timeout_height, p.timeout_timestamp, height, timestamp)
}

pub fn timed_out(p: &Packet, height: &Height, timestamp: u64) -> (r: bool)
    ensures
        r == packet_timed_out(p, *height, timestamp),
{
    (!p.timeout_height.is_zero() && p.timeout_height.le(height)) || (p.timeout_timestamp != 0
        && p.timeout_timestamp <= timestamp)
}

/// Whether a channel identifier state was minted by the handler or reused.
#[derive(Debug, Clone, Copy, PartialEq, Eq, Structural)]
pub enum ChannelIdState {
    /// The handler allocated a new channel identifier (open init, open try).
    Generated,
    /// The handler reused a previously allocated channel identifier.
    Reused,
}

/// What a channel handshake handler hands to the router.
#[derive(Debug)]
pub struct ChannelResult {
    pub port_id: PortId,
    pub channel_id: ChannelId,
    pub channel_id_state: ChannelIdState,
    pub channel_end: ChannelEnd,
}

/// An attribute of an application event.
#[derive(Debug)]
pub struct EventAttribute {
    pub key: String,
    pub value: String,
}

/// An event emitted by a bound application module.
#[derive(Debug)]
pub struct ModuleEvent {
    pub kind: String,
    pub attributes: Vec<EventAttribute>,
}

/// Events and log lines that a module callback adds to the core's output.
#[derive(Debug)]
pub struct ModuleExtras {
    pub events: Vec<ModuleEvent>,
    pub log: Vec<String>,
}

impl ModuleExtras {
    pub fn empty() -> (r: Self)
        ensures
            r.events@.len() == 0,
            r.log@.len() == 0,
    {
        ModuleExtras { events: Vec::new(), log: Vec::new() }
    }
}

/// The identifiers a channel handshake event carries.
#[derive(Debug)]
pub struct ChannelEventAttributes {
    pub port_id: PortId,
    pub channel_id: ChannelId,
    pub counterparty_port_id: PortId,
    pub counterparty_channel_id: Option<ChannelId>,
    pub connection_id: ConnectionId,
    pub version: Option<Version>,
}

/// A structured event of the core.
#[derive(Debug)]
pub enum IbcEvent {
    CreateClient(ClientId),
    UpdateClient(ClientId, Height),
    UpgradeClient(ClientId, Height),
    ClientMisbehaviour(ClientId),
    OpenInitConnection(ConnectionId),
    OpenTryConnection(ConnectionId),
    OpenAckConnection(ConnectionId),
    OpenConfirmConnection(ConnectionId),
    OpenInitChannel(ChannelEventAttributes),
    OpenTryChannel(ChannelEventAttributes),
    OpenAckChannel(ChannelEventAttributes),
    OpenConfirmChannel(ChannelEventAttributes),
    CloseInitChannel(ChannelEventAttributes),
    CloseConfirmChannel(ChannelEventAttributes),
    SendPacket(Packet),
    ReceivePacket(Packet),
    WriteAcknowledgement(Packet, Vec<u8>),
    AcknowledgePacket(Packet),
    TimeoutPacket(Packet),
    TimeoutOnClosePacket(Packet),
    AppModule(ModuleEvent),
}

/// The log lines and events that handling one message produced.
#[derive(Debug)]
pub struct HandlerOutput {
    pub log: Vec<String>,
    pub events: Vec<IbcEvent>,
}

impl HandlerOutput {
    pub fn new() -> (r: Self)
        ensures
            r.log@.len() == 0,
            r.events@.len() == 0,
    {
        HandlerOutput { log: Vec::new(), events: Vec::new() }
    }

    /// Appends another output's log and events after this one's.
    pub fn merge(&mut self, other: HandlerOutput)
        ensures
            final(self).log@ == old(self).log@ + other.log@,
            final(self).events@ == old(self).events@ + other.events@,
    {
        let mut o = other;
        self.log.append(&mut o.log);
        self.events.append(&mut o.events);
    }

    pub fn emit(&mut self, e: IbcEvent)
        ensures
            final(self).log@ == old(self).log@,
            final(self).events@ == old(self).events@.push(e),
    {
        self.events.push(e);
    }

    pub fn log_line(&mut self, s: &str)
        ensures
            final(self).log@.len() == old(self).log@.len() + 1,
            final(self).log@.drop_last() == old(self).log@,
            final(self).log@.last()@ == s@,
            final(self).events@ == old(self).events@,
    {
        self.log.push(String::from_str(s));
        assert(self.log@.drop_last() =~= old(self).log@);
    }
}

} // verus!
