//! Writing handler results into the host store.
use vstd::prelude::*;
use crate::channel::{ChannelIdState, ChannelResult};
use crate::context::{chan_key, channel_store_key, packet_key, packet_store_key, IbcContext};
use crate::packet_handlers::{PacketResult, RecvPacketResult};

verus! {

/// The light clients, connections, port bindings, router, counters and host
/// clock are unchanged.
pub open spec fn host_same(o: &IbcContext, n: &IbcContext) -> bool {
    &&& n.clients == o.clients
    &&& n.connections == o.connections
    &&& n.port_bindings == o.port_bindings
    &&& n.router == o.router
    &&& n.client_counter == o.client_counter
    &&& n.connection_counter == o.connection_counter
    &&& n.host_height == o.host_height
    &&& n.host_timestamp == o.host_timestamp
}

/// The packet tables are unchanged.
pub open spec fn packet_tables_same(o: &IbcContext, n: &IbcContext) -> bool {
    &&& n.next_sequence_send@ == o.next_sequence_send@
    &&& n.next_sequence_recv@ == o.next_sequence_recv@
    &&& n.next_sequence_ack@ == o.next_sequence_ack@
    &&& n.packet_commitments@ == o.packet_commitments@
    &&& n.packet_receipts@ == o.packet_receipts@
    &&& n.packet_acknowledgements@ == o.packet_acknowledgements@
}

/// The store after a channel result is written: the channel end is stored,
/// and a generated channel gets its sequences, all at one.
pub open spec fn channel_result_applied(o: &IbcContext, n: &IbcContext, res: &ChannelResult) -> bool {
    let k = chan_key(res.port_id@, res.channel_id@);
    &&& host_same(o, n)
    &&& n.channels@ == o.channels@.insert(k, res.channel_end)
    &&& n.packet_commitments@ == o.packet_commitments@
    &&& n.packet_receipts@ == o.packet_receipts@
    &&& n.packet_acknowledgements@ == o.packet_acknowledgements@
    &&& if res.channel_id_state == ChannelIdState::Generated {
        &&& n.channel_counter == o.channel_counter + 1
        &&& n.next_sequence_send@ == o.next_sequence_send@.insert(k, 1)
        &&& n.next_sequence_recv@ == o.next_sequence_recv@.insert(k, 1)
        &&& n.next_sequence_ack@ == o.next_sequence_ack@.insert(k, 1)
    } else {
        &&& n.channel_counter == o.channel_counter
        &&& n.next_sequence_send@ == o.next_sequence_send@
        &&& n.next_sequence_recv@ == o.next_sequence_recv@
        &&& n.next_sequence_ack@ == o.next_sequence_ack@
    }
}

/// Writes a channel handshake result.
pub fn store_channel_result(ctx: &mut IbcContext, res: ChannelResult)
    requires
        old(ctx).wf(),
        res.channel_id_state == ChannelIdState::Generated ==> old(ctx).channel_counter < u64::MAX,
    ensures
        final(ctx).wf(),
        channel_result_applied(old(ctx), final(ctx), &res),
{
    let key = channel_store_key(&res.port_id, &res.channel_id);
    if res.channel_id_state == ChannelIdState::Generated {
        ctx.next_sequence_send.insert(channel_store_key(&res.port_id, &res.channel_id), 1);
        ctx.next_sequence_recv.insert(channel_store_key(&res.port_id, &res.channel_id), 1);
        ctx.next_sequence_ack.insert(channel_store_key(&res.port_id, &res.channel_id), 1);
        ctx.channel_counter = ctx.channel_counter + 1;
    }
    ctx.channels.insert(key, res.channel_end);
}

/// The store after a packet result is written.
pub open spec fn packet_result_applied(o: &IbcContext, n: &IbcContext, res: &PacketResult) -> bool {
    &&& host_same(o, n)
    &&& n.channel_counter == o.channel_counter
    &&& match res {
        PacketResult::Send { port_id, channel_id, sequence, next_sequence_send, commitment } => {
            &&& n.next_sequence_send@ == o.next_sequence_send@.insert(chan_key(port_id@, channel_id@), *next_sequence_send)
            &&& n.packet_commitments@ == o.packet_commitments@.insert(packet_key(port_id@, channel_id@, *sequence), *commitment)
            &&& n.channels@ == o.channels@
            &&& n.next_sequence_recv@ == o.next_sequence_recv@
            &&& n.next_sequence_ack@ == o.next_sequence_ack@
            &&& n.packet_receipts@ == o.packet_receipts@
            &&& n.packet_acknowledgements@ == o.packet_acknowledgements@
        },
        PacketResult::Recv(RecvPacketResult::NoOp) => {
            &&& n.channels@ == o.channels@
            &&& packet_tables_same(o, n)
        },
        PacketResult::Recv(RecvPacketResult::Unordered { port_id, channel_id, sequence }) => {
            &&& n.packet_receipts@ == o.packet_receipts@.insert(packet_key(port_id@, channel_id@, *sequence), true)
            &&& n.channels@ == o.channels@
            &&& n.next_sequence_send@ == o.next_sequence_send@
            &&& n.next_sequence_recv@ == o.next_sequence_recv@
            &&& n.next_sequence_ack@ == o.next_sequence_ack@
            &&& n.packet_commitments@ == o.packet_commitments@
            &&& n.packet_acknowledgements@ == o.packet_acknowledgements@
        },
        PacketResult::Recv(RecvPacketResult::Ordered { port_id, channel_id, next_sequence_recv }) => {
            &&& n.next_sequence_recv@ == o.next_sequence_recv@.insert(chan_key(port_id@, channel_id@), *next_sequence_recv)
            &&& n.channels@ == o.channels@
            &&& n.next_sequence_send@ == o.next_sequence_send@
            &&& n.next_sequence_ack@ == o.next_sequence_ack@
            &&& n.packet_commitments@ == o.packet_commitments@
            &&& n.packet_receipts@ == o.packet_receipts@
            &&& n.packet_acknowledgements@ == o.packet_acknowledgements@
        },
        PacketResult::WriteAck { port_id, channel_id, sequence, ack_commitment } => {
            &&& n.packet_acknowledgements@ == o.packet_acknowledgements@.insert(packet_key(port_id@, channel_id@, *sequence), *ack_commitment)
            &&& n.channels@ == o.channels@
            &&& n.next_sequence_send@ == o.next_sequence_send@
            &&& n.next_sequence_recv@ == o.next_sequence_recv@
            &&& n.next_sequence_ack@ == o.next_sequence_ack@
            &&& n.packet_commitments@ == o.packet_commitments@
            &&& n.packet_receipts@ == o.packet_receipts@
        },
        PacketResult::Ack { port_id, channel_id, sequence, next_sequence_ack } => {
            &&& n.packet_commitments@ == o.packet_commitments@.remove(packet_key(port_id@, channel_id@, *sequence))
            &&& n.next_sequence_ack@ == match next_sequence_ack {
                Some(s) => o.next_sequence_ack@.insert(chan_key(port_id@, channel_id@), *s),
                None => o.next_sequence_ack@,
            }
            &&& n.channels@ == o.channels@
            &&& n.next_sequence_send@ == o.next_sequence_send@
            &&& n.next_sequence_recv@ == o.next_sequence_recv@
            &&& n.packet_receipts@ == o.packet_receipts@
            &&& n.packet_acknowledgements@ == o.packet_acknowledgements@
        },
        PacketResult::Timeout { port_id, channel_id, sequence, channel_end } => {
            &&& n.packet_commitments@ == o.packet_commitments@.remove(packet_key(port_id@, channel_id@, *sequence))
            &&& n.channels@ == match channel_end {
                Some(e) => o.channels@.insert(chan_key(port_id@, channel_id@), *e),
                None => o.channels@,
            }
            &&& n.next_sequence_send@ == o.next_sequence_send@
            &&& n.next_sequence_recv@ == o.next_sequence_recv@
            &&& n.next_sequence_ack@ == o.next_sequence_ack@
            &&& n.packet_receipts@ == o.packet_receipts@
            &&& n.packet_acknowledgements@ == o.packet_acknowledgements@
        },
    }
}

/// Writes a packet result.
pub fn store_packet_result(ctx: &mut IbcContext, res: PacketResult)
    requires
        old(ctx).wf(),
    ensures
        final(ctx).wf(),
        packet_result_applied(old(ctx), final(ctx), &res),
{
    match res {
        PacketResult::Send { port_id, channel_id, sequence, next_sequence_send, commitment } => {
            ctx.next_sequence_send.insert(channel_store_key(&port_id, &channel_id), next_sequence_send);
            ctx.packet_commitments.insert(packet_store_key(&port_id, &channel_id, sequence), commitment);
        },
        PacketResult::Recv(RecvPacketResult::NoOp) => {},
        PacketResult::Recv(RecvPacketResult::Unordered { port_id, channel_id, sequence }) => {
            ctx.packet_receipts.insert(packet_store_key(&port_id, &channel_id, sequence), true);
        },
        PacketResult::Recv(RecvPacketResult::Ordered { port_id, channel_id, next_sequence_recv }) => {
            ctx.next_sequence_recv.insert(channel_store_key(&port_id, &channel_id), next_sequence_recv);
        },
        PacketResult::WriteAck { port_id, channel_id, sequence, ack_commitment } => {
            ctx.packet_acknowledgements.insert(packet_store_key(&port_id, &channel_id, sequence), ack_commitment);
        },
        PacketResult::Ack { port_id, channel_id, sequence, next_sequence_ack } => {
            ctx.packet_commitments.remove(&packet_store_key(&port_id, &channel_id, sequence));
            match next_sequence_ack {
                Some(s) => ctx.next_sequence_ack.insert(channel_store_key(&port_id, &channel_id), s),
                None => {},
            }
        },
        PacketResult::Timeout { port_id, channel_id, sequence, channel_end } => {
            ctx.packet_commitments.remove(&packet_store_key(&port_id, &channel_id, sequence));
            match channel_end {
                Some(e) => ctx.channels.insert(channel_store_key(&port_id, &channel_id), e),
                None => {},
            }
        },
    }
}

} // verus!
