//! Sending tokens: escrow or burn on this chain, then send a packet that
//! carries the transfer.
use vstd::prelude::*;
use crate::amount::amount_string;
use crate::bank::{BankKeeper, Coin};
use crate::chan_handlers::{conn_check, hop_connection, stored_channel};
use crate::channel::{timeout_passed, HandlerOutput, Height, Packet, State};
use crate::context::{chan_key, packet_key, IbcContext};
use crate::error::{Error, TransferError};
use crate::ident::{ChannelId, PortId};
use crate::keeper::store_packet_result;
use crate::packet_handlers::send_packet;
use crate::routing::{bound_route, module_for_port, put_route, take_route};
use crate::transfer::{escrow_account_of, Ics20Reader, TransferModule};
use crate::transfer_relay::{
    burn, burn_ok, coins_burned, coins_moved, encode_packet_data, is_native, move_coins,
    send_ok, starts_with, trace_prefix_string, PacketData,
};

verus! {

/// A request to send tokens over a channel.
pub struct MsgTransfer {
    pub source_port: PortId,
    pub source_channel: ChannelId,
    pub token: Coin,
    pub sender: String,
    pub receiver: String,
    pub timeout_height: Height,
    pub timeout_timestamp: u64,
}

/// What sending did to the sender's module: a native token moved from the
/// sender into the channel's escrow, a voucher was burned.
pub open spec fn transfer_debited(m0: &TransferModule, m1: &TransferModule, msg: &MsgTransfer) -> bool {
    if is_native(msg.source_port@, msg.source_channel@, msg.token.denom@) {
        coins_moved(m0, m1, msg.sender@, escrow_account_of(msg.source_port@, msg.source_channel@), msg.token.denom@, msg.token.amount as nat)
    } else {
        coins_burned(m0, m1, msg.sender@, msg.token.denom@, msg.token.amount as nat)
    }
}

/// The first failed check of a transfer before any coin moves: the port's
/// module must exist and allow sending, and the channel must be open over an
/// open connection, know its counterparty and the next sequence, and the
/// timeout must not have passed on the counterparty as its client knows it.
pub open spec fn transfer_check(ctx: &IbcContext, msg: &MsgTransfer) -> Option<Error> {
    match bound_route(ctx, msg.source_port@) {
        Err(e) => Some(e),
        Ok(i) => if !ctx.router@[i].module.send_enabled {
            Some(Error::AppModule(TransferError::SendDisabled))
        } else {
            match stored_channel(ctx, msg.source_port@, msg.source_channel@) {
                None => Some(Error::ChannelNotFound),
                Some(end) => {
                    let ck = chan_key(msg.source_port@, msg.source_channel@);
                    let client = ctx.client_of(&hop_connection(ctx, end.connection_hops@));
                    if end.remote.channel_id is None {
                        Some(Error::InvalidCounterparty)
                    } else if !ctx.next_sequence_send@.contains_key(ck) {
                        Some(Error::MissingNextSequence)
                    } else if end.state != State::Open {
                        Some(Error::InvalidChannelState)
                    } else if conn_check(ctx, end.connection_hops@, false) is Some {
                        conn_check(ctx, end.connection_hops@, false)
                    } else if client is None {
                        Some(Error::ClientNotFound)
                    } else if timeout_passed(msg.timeout_height, msg.timeout_timestamp, client->0.latest_height, client->0.latest_timestamp) {
                        Some(Error::PacketTimedOut)
                    } else if ctx.next_sequence_send@[ck] == u64::MAX {
                        Some(Error::CounterOverflow)
                    } else {
                        None
                    }
                },
            }
        },
    }
}

/// Whether the sender's module can debit the token: the sender holds it, and
/// for a native token the escrow's balance does not overflow.
pub open spec fn debit_ok(m: &TransferModule, msg: &MsgTransfer) -> bool {
    if is_native(msg.source_port@, msg.source_channel@, msg.token.denom@) {
        send_ok(m, msg.sender@, escrow_account_of(msg.source_port@, msg.source_channel@), msg.token.denom@, msg.token.amount as nat)
    } else {
        burn_ok(m, msg.sender@, msg.token.denom@, msg.token.amount as nat)
    }
}

/// Sends `msg.token` from `msg.sender` to `msg.receiver` on the other end
/// of the channel. Packets without any timeout are accepted.
pub fn send_transfer(ctx: &mut IbcContext, msg: &MsgTransfer) -> (r: Result<HandlerOutput, Error>)
    requires
        old(ctx).wf(),
    ensures
        final(ctx).wf(),
        final(ctx).channels@ == old(ctx).channels@,
        match transfer_check(old(ctx), msg) {
            Some(e) => r == Err::<HandlerOutput, Error>(e),
            None => (r is Ok <==> debit_ok(&old(ctx).router@[bound_route(old(ctx), msg.source_port@)->Ok_0].module, msg))
                && (r is Err ==> r->Err_0 is AppModule),
        },
        r is Ok ==> ({
            let i = bound_route(old(ctx), msg.source_port@)->Ok_0;
            let ck = chan_key(msg.source_port@, msg.source_channel@);
            let seq = old(ctx).next_sequence_send@[ck];
            &&& bound_route(old(ctx), msg.source_port@) is Ok
            &&& old(ctx).router@[i].module.send_enabled
            &&& old(ctx).next_sequence_send@.contains_key(ck)
            &&& final(ctx).next_sequence_send@ == old(ctx).next_sequence_send@.insert(ck, (seq + 1) as u64)
            &&& final(ctx).packet_commitments@.contains_key(packet_key(msg.source_port@, msg.source_channel@, seq))
            &&& final(ctx).packet_commitments@ == old(ctx).packet_commitments@.insert(
                packet_key(msg.source_port@, msg.source_channel@, seq),
                final(ctx).packet_commitments@[packet_key(msg.source_port@, msg.source_channel@, seq)],
            )
            &&& transfer_debited(&old(ctx).router@[i].module, &final(ctx).router@[i].module, msg)
        }),
{
    let module_id = module_for_port(ctx, &msg.source_port)?;
    let i = match ctx.find_route(&module_id) {
        Some(i) => i,
        None => return Err(Error::RouteNotFound),
    };
    if !ctx.router[i].module.is_send_enabled() {
        return Err(Error::AppModule(TransferError::SendDisabled));
    }
    let end = match ctx.channel_end(&msg.source_port, &msg.source_channel) {
        Some(c) => c,
        None => return Err(Error::ChannelNotFound),
    };
    let destination_channel = match &end.remote.channel_id {
        Some(c) => c.duplicate(),
        None => return Err(Error::InvalidCounterparty),
    };
    let destination_port = end.remote.port_id.duplicate();
    let sequence = match IbcContext::sequence_of(&ctx.next_sequence_send, &msg.source_port, &msg.source_channel) {
        Some(s) => s,
        None => return Err(Error::MissingNextSequence),
    };
    let data = PacketData {
        denom: msg.token.denom.clone(),
        amount: amount_string(msg.token.amount),
        sender: msg.sender.clone(),
        receiver: msg.receiver.clone(),
    };
    let packet = Packet {
        sequence,
        source_port: msg.source_port.duplicate(),
        source_channel: msg.source_channel.duplicate(),
        destination_port,
        destination_channel,
        data: encode_packet_data(&data),
        timeout_height: msg.timeout_height,
        timeout_timestamp: msg.timeout_timestamp,
    };
    let (out, res) = send_packet(ctx, packet, true)?;
    let mut route = take_route(ctx, i);
    let src = trace_prefix_string(&msg.source_port, &msg.source_channel);
    let moved = if !starts_with(msg.token.denom.as_str(), src.as_str()) {
        let escrow = route.module.get_channel_escrow_address(&msg.source_port, &msg.source_channel);
        move_coins(&mut route.module, &msg.sender, &escrow, &msg.token)
    } else {
        burn(&mut route.module, &msg.sender, &msg.token)
    };
    let ghost m1 = route.module;
    put_route(ctx, i, route);
    assert(ctx.router@[i as int].module == m1);
    match moved {
        Ok(()) => {},
        Err(e) => return Err(Error::AppModule(e)),
    }
    store_packet_result(ctx, res);
    proof {
        assert(ctx.router@ == old(ctx).router@.update(i as int, ctx.router@[i as int]));
    }
    Ok(out)
}

} // verus!
