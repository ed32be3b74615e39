//! The router: it sends each message to its handler, lets the module bound to
//! the message's port refine the result, and writes the outcome to the store.
use vstd::prelude::*;
use crate::bank::BankKeeper;
use crate::chan_handlers::{channel_result_matches, channel_check, channel_dispatch, lemma_result_advances, stored_channel};
use crate::channel::{
    opt_channel_view, ModuleEvent, state_rank, ChannelEnd, ChannelEventAttributes, ChannelResult,
    Counterparty, HandlerOutput, IbcEvent, ModuleExtras, Order, State,
};
use crate::clients::{
    client_check, client_dispatch, connection_check, connection_dispatch, store_client_result,
    store_connection_result, ClientMsg, ConnectionMsg,
};
use crate::context::{chan_key, id_key, packet_key, IbcContext, Route};
use crate::error::{Error, TransferError};
use crate::ident::{ChannelId, ConnectionId, ModuleId};
use crate::keeper::{store_channel_result, store_packet_result};
use crate::msgs::{ChannelMsg, PacketMsg};
use crate::packet_handlers::{
    packet_check, packet_dispatch, write_acknowledgement, PacketResult, RecvPacketResult,
};
use crate::table::KeyView;
use crate::transfer::{
    on_chan_close_confirm, on_chan_close_init, on_chan_open_ack, on_chan_open_confirm,
    on_chan_open_init, on_chan_open_try, open_init_outcome, open_try_outcome, TransferModule,
};
use crate::transfer_relay::{
    hook_events, ack_hook_outcome, apply_recv_write, on_acknowledgement_packet, on_recv_packet,
    on_timeout_packet, recv_hook_outcome, timeout_hook_outcome, OnRecvPacketAck,
};
use crate::version::{transfer_version_view, Version};

verus! {

/// A message as the router receives it, decoded.
pub enum Ics26Envelope {
    Ics2Msg(ClientMsg),
    Ics3Msg(ConnectionMsg),
    Ics4ChannelMsg(ChannelMsg),
    Ics4PacketMsg(PacketMsg),
}

/// What processing a message produced: its events and log lines.
#[derive(Debug)]
pub struct MsgReceipt {
    pub events: Vec<IbcEvent>,
    pub log: Vec<String>,
}

/// The route of the module bound to a port, or why there is none.
pub open spec fn bound_route(ctx: &IbcContext, port: Seq<char>) -> Result<int, Error> {
    if !ctx.port_bindings@.contains_key(id_key(port)) {
        Err(Error::UnknownPort)
    } else {
        match ctx.route_index(ctx.port_bindings@[id_key(port)]@) {
            None => Err(Error::RouteNotFound),
            Some(i) => Ok(i),
        }
    }
}

/// The module that handles a message on `port`: the port must be bound to a
/// module the router knows.
pub fn module_for_port(ctx: &IbcContext, port_id: &crate::ident::PortId) -> (r: Result<ModuleId, Error>)
    requires
        ctx.wf(),
    ensures
        match bound_route(ctx, port_id@) {
            Ok(_) => r is Ok && r->Ok_0@ == ctx.port_bindings@[id_key(port_id@)]@,
            Err(e) => r == Err::<ModuleId, Error>(e),
        },
{
    let module_id = ctx.lookup_module_by_port(port_id)?;
    if ctx.has_route(&module_id) {
        Ok(module_id)
    } else {
        Err(Error::RouteNotFound)
    }
}

/// The module that handles a channel handshake message.
pub fn channel_validate(ctx: &IbcContext, msg: &ChannelMsg) -> (r: Result<ModuleId, Error>)
    requires
        ctx.wf(),
    ensures
        match bound_route(ctx, msg.port()) {
            Ok(_) => r is Ok && r->Ok_0@ == ctx.port_bindings@[id_key(msg.port())]@,
            Err(e) => r == Err::<ModuleId, Error>(e),
        },
{
    module_for_port(ctx, msg.port_id())
}

/// The module that handles a packet message: the one bound to the
/// destination port of a received packet, to the source port otherwise.
pub fn get_module_for_packet_msg(ctx: &IbcContext, msg: &PacketMsg) -> (r: Result<ModuleId, Error>)
    requires
        ctx.wf(),
    ensures
        match bound_route(ctx, msg.module_port()) {
            Ok(_) => r is Ok && r->Ok_0@ == ctx.port_bindings@[id_key(msg.module_port())]@,
            Err(e) => r == Err::<ModuleId, Error>(e),
        },
{
    match msg {
        PacketMsg::RecvPacket(m) => module_for_port(ctx, &m.packet.destination_port),
        PacketMsg::AckPacket(m) => module_for_port(ctx, &m.packet.source_port),
        PacketMsg::TimeoutPacket(m) => module_for_port(ctx, &m.packet.source_port),
        PacketMsg::TimeoutOnClosePacket(m) => module_for_port(ctx, &m.packet.source_port),
    }
}

/// What the bound module answers to a handshake message: the version it
/// chooses (on open init and open try), nothing, or its refusal.
pub open spec fn callback_outcome(m: &TransferModule, msg: &ChannelMsg) -> Result<Option<Seq<char>>, TransferError> {
    match msg {
        ChannelMsg::ChannelOpenInit(mm) => match open_init_outcome(mm.channel.ordering, mm.port_id@, m.port_id@, mm.channel.version@) {
            Ok(v) => Ok(Some(v)),
            Err(e) => Err(e),
        },
        ChannelMsg::ChannelOpenTry(mm) => match open_try_outcome(mm.channel.ordering, mm.counterparty_version@) {
            Ok(v) => Ok(Some(v)),
            Err(e) => Err(e),
        },
        ChannelMsg::ChannelOpenAck(mm) => if mm.counterparty_version@ == transfer_version_view() {
            Ok(None)
        } else {
            Err(TransferError::InvalidCounterpartyVersion)
        },
        ChannelMsg::ChannelOpenConfirm(_) => Ok(None),
        ChannelMsg::ChannelCloseInit(_) => Err(TransferError::CantCloseChannel),
        ChannelMsg::ChannelCloseConfirm(_) => Ok(None),
    }
}

/// Everything in the store but the router is unchanged, and the router's
/// modules are the same.
pub open spec fn store_same(o: &IbcContext, n: &IbcContext) -> bool {
    &&& n.clients == o.clients
    &&& n.connections == o.connections
    &&& n.channels == o.channels
    &&& n.next_sequence_send == o.next_sequence_send
    &&& n.next_sequence_recv == o.next_sequence_recv
    &&& n.next_sequence_ack == o.next_sequence_ack
    &&& n.packet_commitments == o.packet_commitments
    &&& n.packet_receipts == o.packet_receipts
    &&& n.packet_acknowledgements == o.packet_acknowledgements
    &&& n.port_bindings == o.port_bindings
    &&& n.client_counter == o.client_counter
    &&& n.connection_counter == o.connection_counter
    &&& n.channel_counter == o.channel_counter
    &&& n.host_height == o.host_height
    &&& n.host_timestamp == o.host_timestamp
}

/// Two channel results that differ at most in the channel end's version.
pub open spec fn same_but_version(a: &ChannelResult, b: &ChannelResult) -> bool {
    &&& a.port_id == b.port_id
    &&& a.channel_id == b.channel_id
    &&& a.channel_id_state == b.channel_id_state
    &&& a.channel_end.state == b.channel_end.state
    &&& a.channel_end.ordering == b.channel_end.ordering
    &&& a.channel_end.remote == b.channel_end.remote
    &&& a.channel_end.connection_hops == b.channel_end.connection_hops
}

/// Takes route `i` out of the router, to hand its module a mutable view.
pub(crate) fn take_route(ctx: &mut IbcContext, i: usize) -> (r: Route)
    requires
        old(ctx).wf(),
        i < old(ctx).router@.len(),
    ensures
        r == old(ctx).router@[i as int],
        final(ctx).router@ == old(ctx).router@.remove(i as int),
        store_same(old(ctx), final(ctx)),
        final(ctx).wf(),
{
    ctx.router.remove(i)
}

/// Puts a route back at index `i`.
pub(crate) fn put_route(ctx: &mut IbcContext, i: usize, route: Route)
    requires
        old(ctx).wf(),
        i <= old(ctx).router@.len(),
        route.module.bank_wf(),
    ensures
        final(ctx).router@ == old(ctx).router@.insert(i as int, route),
        store_same(old(ctx), final(ctx)),
        final(ctx).wf(),
{
    ctx.router.insert(i, route);
}

/// Runs the bound module's handshake hook. On open init and open try the
/// module's chosen version replaces the one in `result`.
pub fn channel_callback(
    ctx: &mut IbcContext,
    module_id: &ModuleId,
    msg: &ChannelMsg,
    result: &mut ChannelResult,
) -> (r: Result<ModuleExtras, Error>)
    requires
        old(ctx).wf(),
    ensures
        final(ctx).wf(),
        store_same(old(ctx), final(ctx)),
        final(ctx).router@ == old(ctx).router@,
        same_but_version(old(result), final(result)),
        r is Err ==> *final(result) == *old(result),
        match old(ctx).route_index(module_id@) {
            None => r == Err::<ModuleExtras, Error>(Error::RouteNotFound),
            Some(i) => match callback_outcome(&old(ctx).router@[i].module, msg) {
                Err(e) => r == Err::<ModuleExtras, Error>(Error::AppModule(e)),
                Ok(v) => r is Ok && r->Ok_0.events@.len() == 0 && r->Ok_0.log@.len() == 0
                    && final(result).channel_end.version@ == match v {
                        Some(w) => w,
                        None => old(result).channel_end.version@,
                    },
            },
        },
{
    let i = match ctx.find_route(module_id) {
        Some(i) => i,
        None => return Err(Error::RouteNotFound),
    };
    let mut route = take_route(ctx, i);
    let ghost m0 = route.module;
    let r = match msg {
        ChannelMsg::ChannelOpenInit(m) => {
            match on_chan_open_init(&mut route.module, m.channel.ordering, m.channel.connection_hops.as_slice(), &m.port_id, &result.channel_id, &m.channel.remote, &m.channel.version) {
                Ok((extras, version)) => {
                    result.channel_end.version = version;
                    Ok(extras)
                },
                Err(e) => Err(Error::AppModule(e)),
            }
        },
        ChannelMsg::ChannelOpenTry(m) => {
            match on_chan_open_try(&mut route.module, m.channel.ordering, m.channel.connection_hops.as_slice(), &m.port_id, &result.channel_id, &m.channel.remote, &m.counterparty_version) {
                Ok((extras, version)) => {
                    result.channel_end.version = version;
                    Ok(extras)
                },
                Err(e) => Err(Error::AppModule(e)),
            }
        },
        ChannelMsg::ChannelOpenAck(m) => match on_chan_open_ack(&mut route.module, &m.port_id, &result.channel_id, &m.counterparty_version) {
            Ok(extras) => Ok(extras),
            Err(e) => Err(Error::AppModule(e)),
        },
        ChannelMsg::ChannelOpenConfirm(m) => match on_chan_open_confirm(&mut route.module, &m.port_id, &result.channel_id) {
            Ok(extras) => Ok(extras),
            Err(e) => Err(Error::AppModule(e)),
        },
        ChannelMsg::ChannelCloseInit(m) => match on_chan_close_init(&mut route.module, &m.port_id, &result.channel_id) {
            Ok(extras) => Ok(extras),
            Err(e) => Err(Error::AppModule(e)),
        },
        ChannelMsg::ChannelCloseConfirm(m) => match on_chan_close_confirm(&mut route.module, &m.port_id, &result.channel_id) {
            Ok(extras) => Ok(extras),
            Err(e) => Err(Error::AppModule(e)),
        },
    };
    assert(route.module == m0);
    put_route(ctx, i, route);
    assert(ctx.router@ =~= old(ctx).router@);
    r
}

/// Whether an event is the one a handshake message emits, with the given
/// identifiers and version.
pub open spec fn channel_event_matches(
    e: IbcEvent,
    msg: &ChannelMsg,
    channel_id: Seq<char>,
    counterparty: &Counterparty,
    connection_id: Seq<char>,
    version: Seq<char>,
) -> bool {
    let attrs_ok = |a: ChannelEventAttributes, with_version: bool|
        a.port_id@ == msg.port() && a.channel_id@ == channel_id && a.counterparty_port_id@
            == counterparty.port_id@ && opt_channel_view(a.counterparty_channel_id)
            == opt_channel_view(counterparty.channel_id) && a.connection_id@ == connection_id
            && if with_version {
            a.version is Some && a.version->0@ == version
        } else {
            a.version is None
        };
    match (msg, e) {
        (ChannelMsg::ChannelOpenInit(_), IbcEvent::OpenInitChannel(a)) => attrs_ok(a, true),
        (ChannelMsg::ChannelOpenTry(_), IbcEvent::OpenTryChannel(a)) => attrs_ok(a, true),
        (ChannelMsg::ChannelOpenAck(_), IbcEvent::OpenAckChannel(a)) => attrs_ok(a, false),
        (ChannelMsg::ChannelOpenConfirm(_), IbcEvent::OpenConfirmChannel(a)) => attrs_ok(a, false),
        (ChannelMsg::ChannelCloseInit(_), IbcEvent::CloseInitChannel(a)) => attrs_ok(a, false),
        (ChannelMsg::ChannelCloseConfirm(_), IbcEvent::CloseConfirmChannel(a)) => attrs_ok(a, false),
        _ => false,
    }
}

/// The event of a handshake message. Every message but open init concerns a
/// channel whose counterparty channel is known.
pub fn channel_events(
    msg: &ChannelMsg,
    channel_id: ChannelId,
    counterparty: Counterparty,
    connection_id: ConnectionId,
    version: &Version,
) -> (r: Vec<IbcEvent>)
    requires
        msg is ChannelOpenInit || counterparty.channel_id is Some,
    ensures
        r@.len() == 1,
        channel_event_matches(r@[0], msg, channel_id@, &counterparty, connection_id@, version@),
{
    let with_version = match msg {
        ChannelMsg::ChannelOpenInit(_) | ChannelMsg::ChannelOpenTry(_) => Some(version.duplicate()),
        _ => None,
    };
    let attrs = ChannelEventAttributes {
        port_id: msg.port_id().duplicate(),
        channel_id,
        counterparty_port_id: counterparty.port_id,
        counterparty_channel_id: counterparty.channel_id,
        connection_id,
        version: with_version,
    };
    let event = match msg {
        ChannelMsg::ChannelOpenInit(_) => IbcEvent::OpenInitChannel(attrs),
        ChannelMsg::ChannelOpenTry(_) => IbcEvent::OpenTryChannel(attrs),
        ChannelMsg::ChannelOpenAck(_) => IbcEvent::OpenAckChannel(attrs),
        ChannelMsg::ChannelOpenConfirm(_) => IbcEvent::OpenConfirmChannel(attrs),
        ChannelMsg::ChannelCloseInit(_) => IbcEvent::CloseInitChannel(attrs),
        ChannelMsg::ChannelCloseConfirm(_) => IbcEvent::CloseConfirmChannel(attrs),
    };
    let mut v: Vec<IbcEvent> = Vec::new();
    v.push(event);
    v
}

/// What a module callback may change: the acknowledgements and the modules'
/// ledgers. The router keeps its routes, in order.
pub open spec fn callback_frame(o: &IbcContext, n: &IbcContext) -> bool {
    &&& n.clients == o.clients
    &&& n.connections == o.connections
    &&& n.channels@ == o.channels@
    &&& n.next_sequence_send@ == o.next_sequence_send@
    &&& n.next_sequence_recv@ == o.next_sequence_recv@
    &&& n.next_sequence_ack@ == o.next_sequence_ack@
    &&& n.packet_commitments@ == o.packet_commitments@
    &&& n.packet_receipts@ == o.packet_receipts@
    &&& n.port_bindings == o.port_bindings
    &&& n.client_counter == o.client_counter
    &&& n.connection_counter == o.connection_counter
    &&& n.channel_counter == o.channel_counter
    &&& n.host_height == o.host_height
    &&& n.host_timestamp == o.host_timestamp
    &&& n.router@.len() == o.router@.len()
    &&& forall|i: int| 0 <= i < o.router@.len() ==> (#[trigger] n.router@[i]).module_id == o.router@[i].module_id
}

/// Whether an event records the acknowledgement `ack` of packet `p`.
pub open spec fn write_ack_event_is(e: IbcEvent, p: &crate::channel::Packet, ack: Seq<u8>) -> bool {
    match e {
        IbcEvent::WriteAcknowledgement(q, a) => crate::channel::same_packet(&q, p) && a@ == ack,
        _ => false,
    }
}

/// `c1` is `c0` with the log line and the event of a recorded
/// acknowledgement appended.
pub open spec fn write_ack_appended(c0: HandlerOutput, c1: HandlerOutput, p: &crate::channel::Packet, ack: Seq<u8>) -> bool {
    &&& c1.log@.len() == c0.log@.len() + 1
    &&& c1.log@.drop_last() == c0.log@
    &&& c1.log@.last()@ == "success: write acknowledgement"@
    &&& c1.events@.len() == c0.events@.len() + 1
    &&& c1.events@.drop_last() == c0.events@
    &&& write_ack_event_is(c1.events@.last(), p, ack)
}

/// Checks and records the acknowledgement of a received packet.
pub fn process_write_ack(
    ctx: &mut IbcContext,
    packet: &crate::channel::Packet,
    acknowledgement: &Vec<u8>,
    core_output: &mut HandlerOutput,
) -> (r: Result<(), Error>)
    requires
        old(ctx).wf(),
    ensures
        final(ctx).wf(),
        callback_frame(old(ctx), final(ctx)),
        final(ctx).router == old(ctx).router,
        ack_recorded(old(ctx), final(ctx), packet, acknowledgement@, r),
        r is Err ==> *final(core_output) == *old(core_output),
        r is Ok ==> write_ack_appended(*old(core_output), *final(core_output), packet, acknowledgement@),
{
    let (out, res) = write_acknowledgement(ctx, packet.duplicate(), acknowledgement.clone())?;
    let ghost rv = res;
    store_packet_result(ctx, res);
    core_output.merge(out);
    proof {
        match rv {
            PacketResult::WriteAck { port_id, channel_id, sequence, ack_commitment } => {
                assert(ack_commitment@ == crate::hashing::sha256_of(acknowledgement@));
            },
            _ => {},
        }
        assert(core_output.log@.drop_last() =~= old(core_output).log@);
        assert(core_output.events@.drop_last() =~= old(core_output).events@);
    }
    Ok(())
}

/// A refusal of the module as an error of the message.
pub open spec fn lift(r: Result<(), TransferError>) -> Result<(), Error> {
    match r {
        Ok(()) => Ok(()),
        Err(e) => Err(Error::AppModule(e)),
    }
}

/// What the module's packet hook does to the module, for each kind of packet
/// message, and the acknowledgement it answers a received packet with.
pub open spec fn packet_hook_outcome(m0: &TransferModule, m1: &TransferModule, msg: &PacketMsg, r: Result<(), TransferError>, ack: Option<Seq<u8>>) -> bool {
    match msg {
        PacketMsg::RecvPacket(m) => ack is Some && recv_hook_outcome(m0, m1, &m.packet, r, ack->0),
        PacketMsg::AckPacket(m) => ack is None && ack_hook_outcome(m0, m1, &m.packet, m.acknowledgement@, r),
        PacketMsg::TimeoutPacket(m) => ack is None && timeout_hook_outcome(m0, m1, &m.packet, r),
        PacketMsg::TimeoutOnClosePacket(m) => ack is None && timeout_hook_outcome(m0, m1, &m.packet, r),
    }
}

/// The kind of a packet message, as the module's event rules see it.
pub open spec fn msg_kind(msg: &PacketMsg) -> int {
    match msg {
        PacketMsg::RecvPacket(_) => 0,
        PacketMsg::AckPacket(_) => 1,
        _ => 2,
    }
}

/// The acknowledgement a message carries, if it is an acknowledgement.
pub open spec fn carried_ack(msg: &PacketMsg) -> Seq<u8> {
    match msg {
        PacketMsg::AckPacket(m) => m.acknowledgement@,
        _ => Seq::empty(),
    }
}

/// The events added to `b` after the first `a.len()`.
pub open spec fn added<T>(a: Seq<T>, b: Seq<T>) -> Seq<T> {
    b.subrange(a.len() as int, b.len() as int)
}

pub open spec fn opt_bytes_view(b: Option<Vec<u8>>) -> Option<Seq<u8>> {
    match b {
        Some(v) => Some(v@),
        None => None,
    }
}

fn run_packet_hook(
    module: &mut TransferModule,
    msg: &PacketMsg,
    module_output: &mut ModuleExtras,
) -> (r: (Result<(), TransferError>, Option<Vec<u8>>))
    requires
        old(module).bank_wf(),
    ensures
        final(module).bank_wf(),
        packet_hook_outcome(old(module), final(module), msg, r.0, opt_bytes_view(r.1)),
        final(module_output).log@ == old(module_output).log@,
        final(module_output).events@.len() >= old(module_output).events@.len(),
        final(module_output).events@.subrange(0, old(module_output).events@.len() as int) == old(module_output).events@,
        hook_events(added(old(module_output).events@, final(module_output).events@), old(module), msg_kind(msg), &msg.packet(), carried_ack(msg), r.0),
{
    match msg {
        PacketMsg::RecvPacket(m) => {
            let ack = on_recv_packet(module, module_output, &m.packet, &m.signer);
            match ack {
                OnRecvPacketAck::Nil(w) => (apply_recv_write(module, &w), None),
                OnRecvPacketAck::Successful(a, w) => (apply_recv_write(module, &w), Some(a)),
                OnRecvPacketAck::Failed(a) => (Ok(()), Some(a)),
            }
        },
        PacketMsg::AckPacket(m) => (on_acknowledgement_packet(module, module_output, &m.packet, &m.acknowledgement, &m.signer), None),
        PacketMsg::TimeoutPacket(m) => (on_timeout_packet(module, module_output, &m.packet, &m.signer), None),
        PacketMsg::TimeoutOnClosePacket(m) => (on_timeout_packet(module, module_output, &m.packet, &m.signer), None),
    }
}

/// The acknowledgement table after recording `ack` for a received packet,
/// and the outcome of recording it.
pub open spec fn ack_recorded(o: &IbcContext, n: &IbcContext, p: &crate::channel::Packet, ack: Seq<u8>, r: Result<(), Error>) -> bool {
    match crate::packet_handlers::write_ack_check(o, p) {
        Some(e) => r == Err::<(), Error>(e) && n.packet_acknowledgements@ == o.packet_acknowledgements@,
        None => r is Ok && exists|c: Vec<u8>|
            c@ == crate::hashing::sha256_of(ack) && n.packet_acknowledgements@
                == o.packet_acknowledgements@.insert(
                packet_key(p.destination_port@, p.destination_channel@, p.sequence),
                c,
            ),
    }
}

/// The outcome of a packet callback through route `i`: what the module's
/// hook did to the module, the events `mev` it emitted, and for an accepted
/// received packet the acknowledgement recorded, whose log line and event
/// take the core output from `c0` to `c1`.
pub open spec fn callback_result(
    o: &IbcContext,
    n: &IbcContext,
    i: int,
    msg: &PacketMsg,
    r: Result<(), Error>,
    mev: Seq<ModuleEvent>,
    c0: HandlerOutput,
    c1: HandlerOutput,
) -> bool {
    &&& n.router@ == o.router@.update(i, Route { module_id: o.router@[i].module_id, module: n.router@[i].module })
    &&& exists|rt: Result<(), TransferError>, ack: Option<Seq<u8>>| #[trigger] callback_parts(o, n, i, msg, r, mev, c0, c1, rt, ack)
}

/// The parts of `callback_result` given the module's own result `rt` and
/// acknowledgement `ack`.
pub open spec fn callback_parts(
    o: &IbcContext,
    n: &IbcContext,
    i: int,
    msg: &PacketMsg,
    r: Result<(), Error>,
    mev: Seq<ModuleEvent>,
    c0: HandlerOutput,
    c1: HandlerOutput,
    rt: Result<(), TransferError>,
    ack: Option<Seq<u8>>,
) -> bool {
    let m0 = o.router@[i].module;
    let m1 = n.router@[i].module;
    &&& packet_hook_outcome(&m0, &m1, msg, rt, ack)
    &&& hook_events(mev, &m0, msg_kind(msg), &msg.packet(), carried_ack(msg), rt)
    &&& match msg {
        PacketMsg::RecvPacket(m) => if rt is Err {
            r == lift(rt) && n.packet_acknowledgements@ == o.packet_acknowledgements@ && c1 == c0
        } else {
            &&& ack_recorded(o, n, &m.packet, ack->0, r)
            &&& r is Err ==> c1 == c0
            &&& r is Ok ==> write_ack_appended(c0, c1, &m.packet, ack->0)
        },
        _ => r == lift(rt) && n.packet_acknowledgements@ == o.packet_acknowledgements@ && c1 == c0,
    }
}

/// What the store may do after a callback without changing its outcome:
/// keep the router and the acknowledgements.
pub proof fn lemma_callback_frame(o: &IbcContext, n1: &IbcContext, n2: &IbcContext, i: int, msg: &PacketMsg, r: Result<(), Error>)
    requires
        packet_callback_outcome(o, n1, i, msg, r),
        n2.router == n1.router,
        n2.packet_acknowledgements@ == n1.packet_acknowledgements@,
    ensures
        packet_callback_outcome(o, n2, i, msg, r),
{
    let (mev, c0, c1) = choose|mev: Seq<ModuleEvent>, c0: HandlerOutput, c1: HandlerOutput| callback_result(o, n1, i, msg, r, mev, c0, c1);
    let (rt, ack) = choose|rt: Result<(), TransferError>, ack: Option<Seq<u8>>| callback_parts(o, n1, i, msg, r, mev, c0, c1, rt, ack);
    assert(callback_parts(o, n2, i, msg, r, mev, c0, c1, rt, ack));
    assert(callback_result(o, n2, i, msg, r, mev, c0, c1));
}

/// The outcome of a packet callback through route `i`, whatever it emitted.
pub open spec fn packet_callback_outcome(o: &IbcContext, n: &IbcContext, i: int, msg: &PacketMsg, r: Result<(), Error>) -> bool {
    exists|mev: Seq<ModuleEvent>, c0: HandlerOutput, c1: HandlerOutput| #[trigger] callback_result(o, n, i, msg, r, mev, c0, c1)
}

/// Runs the bound module's packet hook, applies the module's write, and
/// records the acknowledgement of a received packet.
fn do_packet_callback(
    ctx: &mut IbcContext,
    module_id: &ModuleId,
    msg: &PacketMsg,
    module_output: &mut ModuleExtras,
    core_output: &mut HandlerOutput,
) -> (r: Result<(), Error>)
    requires
        old(ctx).wf(),
    ensures
        final(ctx).wf(),
        callback_frame(old(ctx), final(ctx)),
        final(module_output).log@ == old(module_output).log@,
        final(module_output).events@.len() >= old(module_output).events@.len(),
        final(module_output).events@.subrange(0, old(module_output).events@.len() as int) == old(module_output).events@,
        match old(ctx).route_index(module_id@) {
            None => r == Err::<(), Error>(Error::RouteNotFound) && *final(ctx) == *old(ctx)
                && *final(module_output) == *old(module_output) && *final(core_output) == *old(core_output),
            Some(i) => callback_result(
                old(ctx),
                final(ctx),
                i,
                msg,
                r,
                added(old(module_output).events@, final(module_output).events@),
                *old(core_output),
                *final(core_output),
            ),
        },
{
    let i = match ctx.find_route(module_id) {
        Some(i) => i,
        None => return Err(Error::RouteNotFound),
    };
    let mut route = take_route(ctx, i);
    let ghost r0 = route;
    let (rt, ack) = run_packet_hook(&mut route.module, msg, module_output);
    let ghost m1 = route.module;
    put_route(ctx, i, route);
    assert(ctx.router@ =~= old(ctx).router@.update(i as int, Route { module_id: r0.module_id, module: m1 }));
    assert(packet_hook_outcome(&r0.module, &m1, msg, rt, opt_bytes_view(ack)));
    assert forall|j: int| 0 <= j < old(ctx).router@.len() implies (#[trigger] ctx.router@[j]).module_id == old(ctx).router@[j].module_id by {
        if j != i {
        }
    }
    let ghost mid = *ctx;
    let ghost mev = added(old(module_output).events@, module_output.events@);
    let ghost ackv = opt_bytes_view(ack);
    let r = match rt {
        Err(e) => Err(Error::AppModule(e)),
        Ok(()) => match ack {
            Some(a) => match msg {
                PacketMsg::RecvPacket(m) => {
                    let r = process_write_ack(ctx, &m.packet, &a, core_output);
                    assert(ctx.router@ == mid.router@);
                    r
                },
                _ => Ok(()),
            },
            None => Ok(()),
        },
    };
    assert(callback_parts(old(ctx), ctx, i as int, msg, r, mev, *old(core_output), *core_output, rt, ackv));
    r
}

/// The module's events as core events.
pub open spec fn wrap(mev: Seq<ModuleEvent>) -> Seq<IbcEvent> {
    mev.map_values(|e: ModuleEvent| IbcEvent::AppModule(e))
}

/// The module's events and log as core output.
fn extras_output(extras: ModuleExtras) -> (r: HandlerOutput)
    ensures
        r.log@ == extras.log@,
        r.events@ == wrap(extras.events@),
{
    let mut events = extras.events;
    let ghost all = events@;
    let mut out = HandlerOutput { log: extras.log, events: Vec::new() };
    while events.len() > 0
        invariant
            out.log@ == extras.log@,
            out.events@.len() + events@.len() == all.len(),
            events@ == all.subrange(out.events@.len() as int, all.len() as int),
            out.events@ == wrap(all.subrange(0, out.events@.len() as int)),
        decreases events@.len(),
    {
        let ghost k = out.events@.len();
        let e = events.remove(0);
        out.events.push(IbcEvent::AppModule(e));
        assert(events@ =~= all.subrange(k as int + 1, all.len() as int));
        assert(out.events@ =~= wrap(all.subrange(0, k as int + 1)));
    }
    assert(all.subrange(0, all.len() as int) =~= all);
    out
}

/// Runs the packet hook of the module `module_id` and appends to `output`
/// the module's events and log, then the output of recording an
/// acknowledgement, also when the callback fails.
pub fn packet_callback(
    ctx: &mut IbcContext,
    module_id: &ModuleId,
    msg: &PacketMsg,
    output: &mut HandlerOutput,
) -> (r: Result<(), Error>)
    requires
        old(ctx).wf(),
    ensures
        final(ctx).wf(),
        callback_frame(old(ctx), final(ctx)),
        match old(ctx).route_index(module_id@) {
            None => r == Err::<(), Error>(Error::RouteNotFound) && *final(ctx) == *old(ctx)
                && final(output).log@ == old(output).log@ && final(output).events@ == old(output).events@,
            Some(i) => exists|mev: Seq<ModuleEvent>, c0: HandlerOutput, c1: HandlerOutput| {
                &&& #[trigger] callback_result(old(ctx), final(ctx), i, msg, r, mev, c0, c1)
                &&& c0.log@.len() == 0
                &&& c0.events@.len() == 0
                &&& final(output).log@ == old(output).log@ + c1.log@
                &&& final(output).events@ == old(output).events@ + wrap(mev) + c1.events@
            },
        },
{
    let mut module_output = ModuleExtras::empty();
    let mut core_output = HandlerOutput::new();
    let ghost c0 = core_output;
    let result = do_packet_callback(ctx, module_id, msg, &mut module_output, &mut core_output);
    let ghost mev = module_output.events@;
    let ghost c1 = core_output;
    proof {
        assert(added(Seq::<ModuleEvent>::empty(), mev) =~= mev);
    }
    output.merge(extras_output(module_output));
    output.merge(core_output);
    proof {
        assert(old(output).log@ + Seq::<String>::empty() =~= old(output).log@);
        assert(wrap(Seq::<ModuleEvent>::empty()) =~= Seq::<IbcEvent>::empty());
        assert(old(output).events@ + Seq::<IbcEvent>::empty() =~= old(output).events@);
        match old(ctx).route_index(module_id@) {
            Some(i) => {
                assert(callback_result(old(ctx), ctx, i, msg, result, mev, c0, c1));
            },
            None => {},
        }
    }
    result
}

/// Every channel keeps its state or moves to a state of a higher rank, and
/// no channel disappears: the states a channel goes through follow the
/// handshake, and a closed channel stays closed.
pub open spec fn channel_progress(before: Map<KeyView, ChannelEnd>, after: Map<KeyView, ChannelEnd>) -> bool {
    forall|k: KeyView|
        #[trigger] before.contains_key(k) ==> after.contains_key(k) && (after[k].state == before[k].state
            || state_rank(after[k].state) > state_rank(before[k].state))
}

/// No commitment is added: a commitment is only ever stored by sending.
pub open spec fn commitments_shrink(o: &IbcContext, n: &IbcContext) -> bool {
    forall|k: KeyView| #[trigger] n.packet_commitments@.contains_key(k) ==> o.packet_commitments@.contains_key(k)
}

/// The next sequence to receive of an existing channel never decreases.
pub open spec fn recv_seqs_monotone(o: &IbcContext, n: &IbcContext) -> bool {
    forall|k: KeyView|
        o.channels@.contains_key(k) && #[trigger] o.next_sequence_recv@.contains_key(k)
            ==> n.next_sequence_recv@.contains_key(k) && o.next_sequence_recv@[k] <= n.next_sequence_recv@[k]
}

/// The channel a handshake message writes: a new one for open init and open
/// try, the named one otherwise.
pub open spec fn handshake_channel_id(ctx: &IbcContext, m: &ChannelMsg) -> Seq<char> {
    match m {
        ChannelMsg::ChannelOpenInit(_) => crate::chan_handlers::next_channel_id(ctx),
        ChannelMsg::ChannelOpenTry(_) => crate::chan_handlers::next_channel_id(ctx),
        ChannelMsg::ChannelOpenAck(mm) => mm.channel_id@,
        ChannelMsg::ChannelOpenConfirm(mm) => mm.channel_id@,
        ChannelMsg::ChannelCloseInit(mm) => mm.channel_id@,
        ChannelMsg::ChannelCloseConfirm(mm) => mm.channel_id@,
    }
}

/// The state a handshake message moves its channel to.
pub open spec fn handshake_target(m: &ChannelMsg) -> State {
    match m {
        ChannelMsg::ChannelOpenInit(_) => State::Init,
        ChannelMsg::ChannelOpenTry(_) => State::TryOpen,
        ChannelMsg::ChannelOpenAck(_) => State::Open,
        ChannelMsg::ChannelOpenConfirm(_) => State::Open,
        ChannelMsg::ChannelCloseInit(_) => State::Closed,
        ChannelMsg::ChannelCloseConfirm(_) => State::Closed,
    }
}

/// The store after an accepted handshake message: only its channel changed,
/// to the message's target state, with the module's version where it chose
/// one.
pub open spec fn channel_written(o: &IbcContext, n: &IbcContext, m: &ChannelMsg, version: Option<Seq<char>>) -> bool {
    let k = chan_key(m.port(), handshake_channel_id(o, m));
    &&& n.channels@.contains_key(k)
    &&& n.channels@ == o.channels@.insert(k, n.channels@[k])
    &&& n.channels@[k].state == handshake_target(m)
    &&& version is Some ==> n.channels@[k].version@ == version->0
}

/// A channel end that is `b` with the module's version `v`, where it chose
/// one.
pub open spec fn end_with_version(a: ChannelEnd, b: ChannelEnd, v: Option<Seq<char>>) -> bool {
    &&& a.state == b.state
    &&& a.ordering == b.ordering
    &&& a.remote.port_id@ == b.remote.port_id@
    &&& opt_channel_view(a.remote.channel_id) == opt_channel_view(b.remote.channel_id)
    &&& crate::channel::hops_view(a.connection_hops@) == crate::channel::hops_view(b.connection_hops@)
    &&& a.version@ == match v {
        Some(w) => w,
        None => b.version@,
    }
}

/// The stored end of an accepted handshake message is the handler's result
/// with the module's version.
pub open spec fn channel_stored(o: &IbcContext, n: &IbcContext, m: &ChannelMsg, v: Option<Seq<char>>) -> bool {
    let k = chan_key(m.port(), handshake_channel_id(o, m));
    exists|res: ChannelResult| #[trigger] channel_result_matches(o, m, res) && end_with_version(n.channels@[k], res.channel_end, v)
}

/// The output of an accepted handshake message: the handler's log line and
/// the message's event carrying the stored end's identifiers and version;
/// the transfer module adds neither events nor log lines.
pub open spec fn channel_reported(o: &IbcContext, n: &IbcContext, m: &ChannelMsg, out: HandlerOutput) -> bool {
    let id = handshake_channel_id(o, m);
    let end = n.channels@[chan_key(m.port(), id)];
    &&& out.log@.len() == 1
    &&& out.log@[0]@ == crate::chan_handlers::channel_log_line(m)
    &&& out.events@.len() == 1
    &&& channel_event_matches(out.events@[0], m, id, &end.remote, end.connection_hops@[0]@, end.version@)
}

/// The client an accepted client message stores.
pub open spec fn client_stored(o: &IbcContext, n: &IbcContext, m: &ClientMsg) -> bool {
    match m {
        ClientMsg::CreateClient(c) => n.clients@ == o.clients@.insert(
            id_key(crate::clients::next_client_id(o)),
            crate::context::ClientState { latest_height: c.height, latest_timestamp: c.timestamp, frozen: false },
        ) && n.client_counter == o.client_counter + 1,
        ClientMsg::UpdateClient(c) => n.clients@ == o.clients@.insert(
            id_key(c.client_id@),
            crate::context::ClientState { latest_height: c.height, latest_timestamp: c.timestamp, frozen: false },
        ),
        ClientMsg::UpgradeClient(c) => n.clients@ == o.clients@.insert(
            id_key(c.client_id@),
            crate::context::ClientState { latest_height: c.height, latest_timestamp: c.timestamp, frozen: false },
        ),
        ClientMsg::SubmitMisbehaviour(c) => n.clients@ == o.clients@.insert(
            id_key(c.client_id@),
            crate::context::ClientState { frozen: true, ..o.clients@[id_key(c.client_id@)] },
        ),
    }
}

/// The connection end an accepted connection message stores.
pub open spec fn connection_stored(o: &IbcContext, n: &IbcContext, m: &ConnectionMsg) -> bool {
    exists|res: crate::clients::ConnectionResult|
        #[trigger] crate::clients::connection_result_matches(o, m, &res) && n.connections@
            == o.connections@.insert(id_key(res.connection_id@), res.connection_end)
}

/// Whether a received packet was received before on its unordered channel.
pub open spec fn is_replay(ctx: &IbcContext, m: &PacketMsg) -> bool {
    match m {
        PacketMsg::RecvPacket(mm) => {
            let p = mm.packet;
            &&& ctx.channels@.contains_key(chan_key(p.destination_port@, p.destination_channel@))
            &&& ctx.channels@[chan_key(p.destination_port@, p.destination_channel@)].ordering == Order::Unordered
            &&& ctx.packet_receipts@.contains_key(packet_key(p.destination_port@, p.destination_channel@, p.sequence))
        },
        _ => false,
    }
}

/// The packet state after an accepted packet message.
pub open spec fn packet_effect(o: &IbcContext, n: &IbcContext, m: &PacketMsg) -> bool {
    match m {
        PacketMsg::RecvPacket(mm) => {
            let p = mm.packet;
            let ck = chan_key(p.destination_port@, p.destination_channel@);
            let pk = packet_key(p.destination_port@, p.destination_channel@, p.sequence);
            if o.channels@[ck].ordering == Order::Ordered {
                &&& o.next_sequence_recv@.contains_key(ck)
                &&& o.next_sequence_recv@[ck] == p.sequence
                &&& n.next_sequence_recv@ == o.next_sequence_recv@.insert(ck, (p.sequence + 1) as u64)
                &&& n.packet_receipts@ == o.packet_receipts@
                &&& n.packet_commitments@ == o.packet_commitments@
                &&& n.channels@ == o.channels@
            } else if o.packet_receipts@.contains_key(pk) {
                *n == *o
            } else {
                &&& n.packet_receipts@ == o.packet_receipts@.insert(pk, true)
                &&& n.next_sequence_recv@ == o.next_sequence_recv@
                &&& n.packet_commitments@ == o.packet_commitments@
                &&& n.channels@ == o.channels@
            }
        },
        PacketMsg::AckPacket(mm) => {
            let p = mm.packet;
            let pk = packet_key(p.source_port@, p.source_channel@, p.sequence);
            &&& o.packet_commitments@.contains_key(pk)
            &&& n.packet_commitments@ == o.packet_commitments@.remove(pk)
            &&& n.packet_receipts@ == o.packet_receipts@
            &&& n.next_sequence_recv@ == o.next_sequence_recv@
            &&& n.channels@ == o.channels@
        },
        PacketMsg::TimeoutPacket(mm) => timeout_effect(o, n, &mm.packet),
        PacketMsg::TimeoutOnClosePacket(mm) => timeout_effect(o, n, &mm.packet),
    }
}

/// The packet state after an accepted timeout: the commitment is gone and an
/// ordered channel is closed.
pub open spec fn timeout_effect(o: &IbcContext, n: &IbcContext, p: &crate::channel::Packet) -> bool {
    let ck = chan_key(p.source_port@, p.source_channel@);
    let pk = packet_key(p.source_port@, p.source_channel@, p.sequence);
    &&& o.packet_commitments@.contains_key(pk)
    &&& n.packet_commitments@ == o.packet_commitments@.remove(pk)
    &&& n.packet_receipts@ == o.packet_receipts@
    &&& n.next_sequence_recv@ == o.next_sequence_recv@
    &&& if o.channels@[ck].ordering == Order::Ordered {
        &&& n.channels@ == o.channels@.insert(ck, n.channels@[ck])
        &&& n.channels@[ck].state == State::Closed
    } else {
        n.channels@ == o.channels@
    }
}

/// The outcome of a message without its output.
pub open spec fn unit_result(r: Result<HandlerOutput, Error>) -> Result<(), Error> {
    match r {
        Ok(_) => Ok(()),
        Err(e) => Err(e),
    }
}

/// The outcome of processing a message, by kind: which check refuses it,
/// or what it writes and emits.
pub open spec fn dispatch_outcome(o: &IbcContext, n: &IbcContext, msg: &Ics26Envelope, r: Result<HandlerOutput, Error>) -> bool {
    match msg {
        Ics26Envelope::Ics2Msg(m) => match client_check(o, m) {
            Some(e) => r == Err::<HandlerOutput, Error>(e),
            None => r is Ok && n.channels@ == o.channels@ && client_stored(o, n, m),
        },
        Ics26Envelope::Ics3Msg(m) => match connection_check(o, m) {
            Some(e) => r == Err::<HandlerOutput, Error>(e),
            None => r is Ok && n.channels@ == o.channels@ && connection_stored(o, n, m),
        },
        Ics26Envelope::Ics4ChannelMsg(m) => match bound_route(o, m.port()) {
            Err(e) => r == Err::<HandlerOutput, Error>(e),
            Ok(i) => match channel_check(o, m) {
                Some(e) => r == Err::<HandlerOutput, Error>(e),
                None => match callback_outcome(&o.router@[i].module, m) {
                    Err(e) => r == Err::<HandlerOutput, Error>(Error::AppModule(e)),
                    Ok(v) => r is Ok && channel_written(o, n, m, v) && channel_stored(o, n, m, v)
                        && channel_reported(o, n, m, r->Ok_0),
                },
            },
        },
        Ics26Envelope::Ics4PacketMsg(m) => match bound_route(o, m.module_port()) {
            Err(e) => r == Err::<HandlerOutput, Error>(e),
            Ok(_) => match packet_check(o, m) {
                Some(e) => r == Err::<HandlerOutput, Error>(e),
                None => (r is Ok ==> packet_effect(o, n, m))
                    && (is_replay(o, m) ==> r is Ok && r->Ok_0.events@.len() == 0)
                    && (!is_replay(o, m) ==> packet_callback_outcome(
                        o,
                        n,
                        bound_route(o, m.module_port())->Ok_0,
                        m,
                        unit_result(r),
                    )),
            },
        },
    }
}

/// Processes one message: runs its handler, lets the bound module refine or
/// refuse the result, and writes the outcome. On an error the host rolls
/// back whatever was written.
pub fn dispatch(ctx: &mut IbcContext, msg: Ics26Envelope) -> (r: Result<HandlerOutput, Error>)
    requires
        old(ctx).wf(),
    ensures
        final(ctx).wf(),
        channel_progress(old(ctx).channels@, final(ctx).channels@),
        recv_seqs_monotone(old(ctx), final(ctx)),
        commitments_shrink(old(ctx), final(ctx)),
        r is Err ==> final(ctx).channels@ == old(ctx).channels@,
        dispatch_outcome(old(ctx), final(ctx), &msg, r),
{
    match msg {
        Ics26Envelope::Ics2Msg(m) => {
            let (out, res) = client_dispatch(ctx, &m)?;
            store_client_result(ctx, res);
            Ok(out)
        },
        Ics26Envelope::Ics3Msg(m) => {
            let (out, res) = connection_dispatch(ctx, &m)?;
            let ghost rv = res;
            store_connection_result(ctx, res);
            assert(crate::clients::connection_result_matches(old(ctx), &m, &rv));
            Ok(out)
        },
        Ics26Envelope::Ics4ChannelMsg(m) => {
            let module_id = channel_validate(ctx, &m)?;
            let (log, mut result) = channel_dispatch(ctx, &m)?;
            let ghost res0 = result;
            proof {
                lemma_result_advances(old(ctx), &m, res0);
                crate::chan_handlers::lemma_result_hops(old(ctx), &m, res0);
            }
            let extras = channel_callback(ctx, &module_id, &m, &mut result)?;
            let events = channel_events(
                &m,
                result.channel_id.duplicate(),
                result.channel_end.remote.duplicate(),
                result.channel_end.connection_hops[0].duplicate(),
                &result.channel_end.version,
            );
            let ghost res1 = result;
            store_channel_result(ctx, result);
            proof {
                let k = chan_key(res1.port_id@, res1.channel_id@);
                assert(channel_result_matches(old(ctx), &m, res0));
                assert(ctx.channels@ =~= old(ctx).channels@.insert(k, ctx.channels@[k]));
                assert forall|kk: KeyView| #[trigger] old(ctx).channels@.contains_key(kk) implies ctx.channels@.contains_key(kk)
                    && (ctx.channels@[kk].state == old(ctx).channels@[kk].state
                    || state_rank(ctx.channels@[kk].state) > state_rank(old(ctx).channels@[kk].state)) by {
                    if kk == k {
                        assert(stored_channel(old(ctx), res1.port_id@, res1.channel_id@) == Some(old(ctx).channels@[kk]));
                    }
                }
            }
            let mut out = HandlerOutput { log, events };
            out.merge(extras_output(extras));
            proof {
                assert(wrap(Seq::<crate::channel::ModuleEvent>::empty()) =~= Seq::<IbcEvent>::empty());
                assert(out.events@ =~= events@);
                assert(out.log@ =~= log@);
            }
            Ok(out)
        },
        Ics26Envelope::Ics4PacketMsg(m) => {
            let module_id = get_module_for_packet_msg(ctx, &m)?;
            let (mut out, res) = packet_dispatch(ctx, &m)?;
            match res {
                PacketResult::Recv(RecvPacketResult::NoOp) => {
                    return Ok(out);
                },
                _ => {},
            }
            let cb = packet_callback(ctx, &module_id, &m, &mut out);
            let ghost i = bound_route(old(ctx), m.module_port())->Ok_0;
            proof {
                let (mev, c0, c1) = choose|mev: Seq<ModuleEvent>, c0: HandlerOutput, c1: HandlerOutput|
                    callback_result(old(ctx), ctx, i, &m, cb, mev, c0, c1);
                assert(packet_callback_outcome(old(ctx), ctx, i, &m, cb));
            }
            match cb {
                Err(e) => {
                    assert(unit_result(Err::<HandlerOutput, Error>(e)) == cb);
                    return Err(e);
                },
                Ok(()) => {},
            }
            assert(cb == Ok::<(), Error>(())) by {
                assert(cb->Ok_0 == ());
            }
            let ghost rv = res;
            let ghost mid = *ctx;
            assert(packet_callback_outcome(old(ctx), &mid, i, &m, cb));
            store_packet_result(ctx, res);
            proof {
                lemma_callback_frame(old(ctx), &mid, ctx, i, &m, cb);
                assert(unit_result(Ok::<HandlerOutput, Error>(out)) == cb);
                match rv {
                    PacketResult::Timeout { port_id, channel_id, sequence, channel_end } => {
                        match channel_end {
                            Some(e) => {
                                let k = chan_key(port_id@, channel_id@);
                                assert(ctx.channels@ =~= old(ctx).channels@.insert(k, e));
                            },
                            None => {},
                        }
                    },
                    _ => {},
                }
            }
            Ok(out)
        },
    }
}

/// Processes one decoded message and returns its events and log.
pub fn deliver(ctx: &mut IbcContext, msg: Ics26Envelope) -> (r: Result<MsgReceipt, Error>)
    requires
        old(ctx).wf(),
    ensures
        final(ctx).wf(),
        channel_progress(old(ctx).channels@, final(ctx).channels@),
        recv_seqs_monotone(old(ctx), final(ctx)),
        commitments_shrink(old(ctx), final(ctx)),
        r is Err ==> final(ctx).channels@ == old(ctx).channels@,
        dispatch_outcome(
            old(ctx),
            final(ctx),
            &msg,
            match r {
                Ok(receipt) => Ok(HandlerOutput { log: receipt.log, events: receipt.events }),
                Err(e) => Err(e),
            },
        ),
{
    let ghost m = msg;
    let out = dispatch(ctx, msg)?;
    Ok(MsgReceipt { events: out.events, log: out.log })
}

} // verus!
