//! The host store and the router's tables, with the light clients and
//! connections that channels are built on.
use vstd::prelude::*;
use crate::bank::BankKeeper;
use crate::channel::{height_is_zero, height_le, ChannelEnd, Height};
use crate::error::Error;
use crate::ident::{ChannelId, ClientId, ConnectionId, ModuleId, PortId};
use crate::table::{no_name, KeyView, StoreKey, Table};
use crate::transfer::TransferModule;

verus! {

/// The key of a channel-level entry.
pub open spec fn chan_key(port: Seq<char>, channel: Seq<char>) -> KeyView {
    (port, channel, 0u64)
}

/// The key of a packet-level entry.
pub open spec fn packet_key(port: Seq<char>, channel: Seq<char>, seq: u64) -> KeyView {
    (port, channel, seq)
}

/// The key of an entry named by one identifier.
pub open spec fn id_key(id: Seq<char>) -> KeyView {
    (id, Seq::<char>::empty(), 0u64)
}

pub fn channel_store_key(port: &PortId, channel: &ChannelId) -> (r: StoreKey)
    ensures
        r@ == chan_key(port@, channel@),
{
    StoreKey::new(port.as_str(), channel.as_str(), 0)
}

pub fn packet_store_key(port: &PortId, channel: &ChannelId, seq: u64) -> (r: StoreKey)
    ensures
        r@ == packet_key(port@, channel@, seq),
{
    StoreKey::new(port.as_str(), channel.as_str(), seq)
}

pub fn id_store_key(id: &String) -> (r: StoreKey)
    ensures
        r@ == id_key(id@),
{
    StoreKey::new(id.as_str(), no_name(), 0)
}

/// What a light client of the counterparty chain knows: the newest height
/// it was updated to, that height's time, and whether misbehaviour of the
/// counterparty froze it.
#[derive(Debug, Clone, Copy, PartialEq, Eq, Structural)]
pub struct ClientState {
    pub latest_height: Height,
    pub latest_timestamp: u64,
    pub frozen: bool,
}

#[derive(Debug, Clone, Copy, PartialEq, Eq, Structural)]
pub enum ConnectionState {
    Init,
    TryOpen,
    Open,
}

/// One end of a connection between two chains.
#[derive(Debug)]
pub struct ConnectionEnd {
    pub state: ConnectionState,
    pub client_id: ClientId,
    pub counterparty_client_id: ClientId,
    pub counterparty_connection_id: Option<ConnectionId>,
}

/// A module registered with the router.
pub struct Route {
    pub module_id: ModuleId,
    pub module: TransferModule,
}

/// The host's store: light clients, connections, channels and packet state,
/// the port bindings and the router.
pub struct IbcContext {
    pub clients: Table<ClientState>,
    pub connections: Table<ConnectionEnd>,
    pub channels: Table<ChannelEnd>,
    pub next_sequence_send: Table<u64>,
    pub next_sequence_recv: Table<u64>,
    pub next_sequence_ack: Table<u64>,
    pub packet_commitments: Table<Vec<u8>>,
    pub packet_receipts: Table<bool>,
    pub packet_acknowledgements: Table<Vec<u8>>,
    pub port_bindings: Table<ModuleId>,
    pub router: Vec<Route>,
    pub client_counter: u64,
    pub connection_counter: u64,
    pub channel_counter: u64,
    pub host_height: Height,
    pub host_timestamp: u64,
}

/// Whether a proof from the counterparty at `proof_height` verifies against
/// a light client: the client is not frozen and has been updated to that
/// height or beyond. The proof itself is checked by the light client, which
/// this library does not hold.
pub open spec fn proof_verifies(client: Option<ClientState>, proof_height: Height) -> bool {
    match client {
        Some(c) => !c.frozen && !height_is_zero(proof_height) && height_le(proof_height, c.latest_height),
        None => false,
    }
}

impl IbcContext {
    pub open spec fn wf(&self) -> bool {
        &&& self.clients.wf()
        &&& self.connections.wf()
        &&& self.channels.wf()
        &&& self.next_sequence_send.wf()
        &&& self.next_sequence_recv.wf()
        &&& self.next_sequence_ack.wf()
        &&& self.packet_commitments.wf()
        &&& self.packet_receipts.wf()
        &&& self.packet_acknowledgements.wf()
        &&& self.port_bindings.wf()
        &&& forall|i: int| 0 <= i < self.router@.len() ==> (#[trigger] self.router@[i]).module.bank_wf()
    }

    /// Whether route `i` is the first registered under `id`.
    pub open spec fn first_route(&self, id: Seq<char>, i: int) -> bool {
        &&& 0 <= i < self.router@.len()
        &&& self.router@[i].module_id@ == id
        &&& forall|j: int| 0 <= j < i ==> (#[trigger] self.router@[j]).module_id@ != id
    }

    /// The index of the first route registered under `id`.
    pub open spec fn route_index(&self, id: Seq<char>) -> Option<int> {
        if exists|i: int| self.first_route(id, i) {
            Some(choose|i: int| self.first_route(id, i))
        } else {
            None
        }
    }

    /// The light client a connection is built on.
    pub open spec fn client_of(&self, conn: &ConnectionEnd) -> Option<ClientState> {
        if self.clients@.contains_key(id_key(conn.client_id@)) {
            Some(self.clients@[id_key(conn.client_id@)])
        } else {
            None
        }
    }

    /// An empty store at the given host height and time.
    pub fn new(host_height: Height, host_timestamp: u64) -> (r: Self)
        ensures
            r.wf(),
            r.channels@ == Map::<KeyView, ChannelEnd>::empty(),
            r.router@.len() == 0,
            r.host_height == host_height,
            r.host_timestamp == host_timestamp,
    {
        IbcContext {
            clients: Table::new(),
            connections: Table::new(),
            channels: Table::new(),
            next_sequence_send: Table::new(),
            next_sequence_recv: Table::new(),
            next_sequence_ack: Table::new(),
            packet_commitments: Table::new(),
            packet_receipts: Table::new(),
            packet_acknowledgements: Table::new(),
            port_bindings: Table::new(),
            router: Vec::new(),
            client_counter: 0,
            connection_counter: 0,
            channel_counter: 0,
            host_height,
            host_timestamp,
        }
    }

    /// Registers a module with the router.
    pub fn add_route(&mut self, module_id: ModuleId, module: TransferModule)
        requires
            old(self).wf(),
            module.bank_wf(),
        ensures
            final(self).wf(),
            final(self).router@ == old(self).router@.push(Route { module_id, module }),
    {
        self.router.push(Route { module_id, module });
    }

    /// Binds a port to a module.
    pub fn scope_port_to_module(&mut self, port_id: &PortId, module_id: ModuleId)
        requires
            old(self).wf(),
        ensures
            final(self).wf(),
            final(self).port_bindings@ == old(self).port_bindings@.insert(
                id_key(port_id@),
                module_id,
            ),
    {
        self.port_bindings.insert(StoreKey::new(port_id.as_str(), no_name(), 0), module_id);
    }

    /// The index of the route registered under `id`, if any.
    pub fn find_route(&self, module_id: &ModuleId) -> (r: Option<usize>)
        ensures
            match r {
                Some(i) => self.first_route(module_id@, i as int) && self.route_index(module_id@) == Some(i as int),
                None => self.route_index(module_id@) is None,
            },
    {
        let mut i: usize = 0;
        while i < self.router.len()
            invariant
                i <= self.router@.len(),
                forall|j: int| 0 <= j < i ==> (#[trigger] self.router@[j]).module_id@ != module_id@,
            decreases self.router@.len() - i,
        {
            if self.router[i].module_id.same(module_id) {
                proof {
                    assert(self.first_route(module_id@, i as int));
                    let j = choose|j: int| self.first_route(module_id@, j);
                    if j < i {
                    } else if j > i {
                        assert(self.router@[i as int].module_id@ != module_id@);
                    }
                }
                return Some(i);
            }
            i = i + 1;
        }
        None
    }

    pub fn has_route(&self, module_id: &ModuleId) -> (r: bool)
        ensures
            r == (self.route_index(module_id@) is Some),
    {
        match self.find_route(module_id) {
            Some(i) => true,
            None => false,
        }
    }

    /// The module bound to a port.
    pub fn lookup_module_by_port(&self, port_id: &PortId) -> (r: Result<ModuleId, Error>)
        requires
            self.wf(),
        ensures
            match r {
                Ok(m) => self.port_bindings@.contains_key(id_key(port_id@)) && m@
                    == self.port_bindings@[id_key(port_id@)]@,
                Err(e) => e == Error::UnknownPort && !self.port_bindings@.contains_key(
                    id_key(port_id@),
                ),
            },
    {
        match self.port_bindings.get(&StoreKey::new(port_id.as_str(), no_name(), 0)) {
            Some(m) => Ok(m.duplicate()),
            None => Err(Error::UnknownPort),
        }
    }

    pub fn channel_end(&self, port_id: &PortId, channel_id: &ChannelId) -> (r: Option<&ChannelEnd>)
        requires
            self.wf(),
        ensures
            match r {
                Some(c) => self.channels@.contains_key(chan_key(port_id@, channel_id@))
                    && self.channels@[chan_key(port_id@, channel_id@)] == *c,
                None => !self.channels@.contains_key(chan_key(port_id@, channel_id@)),
            },
    {
        self.channels.get(&channel_store_key(port_id, channel_id))
    }

    pub fn connection_end(&self, connection_id: &ConnectionId) -> (r: Option<&ConnectionEnd>)
        requires
            self.wf(),
        ensures
            match r {
                Some(c) => self.connections@.contains_key(id_key(connection_id@))
                    && self.connections@[id_key(connection_id@)] == *c,
                None => !self.connections@.contains_key(id_key(connection_id@)),
            },
    {
        self.connections.get(&id_store_key(&connection_id.0))
    }

    pub fn client_state(&self, client_id: &ClientId) -> (r: Option<ClientState>)
        requires
            self.wf(),
        ensures
            match r {
                Some(c) => self.clients@.contains_key(id_key(client_id@)) && self.clients@[id_key(
                    client_id@,
                )] == c,
                None => !self.clients@.contains_key(id_key(client_id@)),
            },
    {
        match self.clients.get(&id_store_key(&client_id.0)) {
            Some(c) => Some(*c),
            None => None,
        }
    }

    /// Verifies a proof of the counterparty's state at `proof_height` with
    /// the light client of `conn`.
    pub fn verify_proof(&self, conn: &ConnectionEnd, proof_height: &Height) -> (r: bool)
        requires
            self.wf(),
        ensures
            r == proof_verifies(self.client_of(conn), *proof_height),
    {
        match self.client_state(&conn.client_id) {
            Some(c) => !c.frozen && !proof_height.is_zero() && proof_height.le(&c.latest_height),
            None => false,
        }
    }

    /// The sequence stored in `table` for a channel, if any.
    pub fn sequence_of(table: &Table<u64>, port_id: &PortId, channel_id: &ChannelId) -> (r: Option<u64>)
        requires
            table.wf(),
        ensures
            match r {
                Some(s) => table@.contains_key(chan_key(port_id@, channel_id@)) && table@[chan_key(port_id@, channel_id@)] == s,
                None => !table@.contains_key(chan_key(port_id@, channel_id@)),
            },
    {
        match table.get(&channel_store_key(port_id, channel_id)) {
            Some(s) => Some(*s),
            None => None,
        }
    }
}

} // verus!
