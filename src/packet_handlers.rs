//! The packet lifecycle handlers: each checks a packet message against the
//! store and computes what to write, without writing anything.
use vstd::prelude::*;
use crate::chan_handlers::{check_connection, conn_check, hop_connection, hop_proof_ok, stored_channel};
use crate::channel::{
    opt_channel_view, packet_has_timeout, packet_timed_out, timed_out, ChannelEnd, HandlerOutput,
    IbcEvent, Order, Packet, State,
};
use crate::context::{chan_key, packet_key, packet_store_key, IbcContext};
use crate::error::Error;
use crate::hashing::{sha256, sha256_of};
use crate::ident::{ChannelId, PortId};
use crate::msgs::{MsgAcknowledgement, MsgRecvPacket, PacketMsg};
use crate::table::Table;

verus! {

/// The last `n` bytes of the big-endian notation of `x`.
pub open spec fn be_bytes(x: nat, n: nat) -> Seq<u8>
    decreases n,
{
    if n == 0 {
        Seq::empty()
    } else {
        be_bytes(x / 256, (n - 1) as nat).push((x % 256) as u8)
    }
}

fn push_be(out: &mut Vec<u8>, x: u64, n: u64)
    ensures
        final(out)@ == old(out)@ + be_bytes(x as nat, n as nat),
    decreases n,
{
    if n > 0 {
        push_be(out, x / 256, n - 1);
        out.push((x % 256) as u8);
        assert(final(out)@ =~= old(out)@ + be_bytes(x as nat, n as nat));
    } else {
        assert(out@ =~= old(out)@ + be_bytes(x as nat, n as nat));
    }
}

/// The bytes hashed into a packet commitment: the timeout timestamp, the
/// timeout height's revision and block, eight bytes each, big-endian, then
/// the digest of the data.
pub open spec fn commitment_preimage(p: &Packet) -> Seq<u8> {
    be_bytes(p.timeout_timestamp as nat, 8) + be_bytes(p.timeout_height.revision_number as nat, 8)
        + be_bytes(p.timeout_height.revision_height as nat, 8) + sha256_of(p.data@)
}

/// The commitment the sender stores for a packet.
pub open spec fn packet_commitment(p: &Packet) -> Seq<u8> {
    sha256_of(commitment_preimage(p))
}

pub fn compute_packet_commitment(p: &Packet) -> (r: Vec<u8>)
    ensures
        r@ == packet_commitment(p),
{
    let mut pre: Vec<u8> = Vec::new();
    push_be(&mut pre, p.timeout_timestamp, 8);
    push_be(&mut pre, p.timeout_height.revision_number, 8);
    push_be(&mut pre, p.timeout_height.revision_height, 8);
    let data_digest = sha256(p.data.as_slice());
    pre.extend_from_slice(data_digest.as_slice());
    assert(pre@ =~= commitment_preimage(p));
    sha256(pre.as_slice())
}

/// What the receiver of a packet writes.
#[derive(Debug)]
pub enum RecvPacketResult {
    /// The packet was received before: nothing to write, no callback.
    NoOp,
    /// Store a receipt for the packet.
    Unordered { port_id: PortId, channel_id: ChannelId, sequence: u64 },
    /// Advance the next sequence to receive.
    Ordered { port_id: PortId, channel_id: ChannelId, next_sequence_recv: u64 },
}

/// What a packet handler asks the router to write.
#[derive(Debug)]
pub enum PacketResult {
    Send {
        port_id: PortId,
        channel_id: ChannelId,
        sequence: u64,
        next_sequence_send: u64,
        commitment: Vec<u8>,
    },
    Recv(RecvPacketResult),
    WriteAck { port_id: PortId, channel_id: ChannelId, sequence: u64, ack_commitment: Vec<u8> },
    Ack { port_id: PortId, channel_id: ChannelId, sequence: u64, next_sequence_ack: Option<u64> },
    Timeout {
        port_id: PortId,
        channel_id: ChannelId,
        sequence: u64,
        channel_end: Option<ChannelEnd>,
    },
}

/// The sequence stored for a channel in a sequence table.
pub open spec fn seq_at(t: Map<(Seq<char>, Seq<char>, u64), u64>, port: Seq<char>, channel: Seq<char>) -> Option<u64> {
    if t.contains_key(chan_key(port, channel)) {
        Some(t[chan_key(port, channel)])
    } else {
        None
    }
}

/// Whether a channel end's counterparty is the given port and channel.
pub open spec fn counterparty_is(end: ChannelEnd, port: Seq<char>, channel: Seq<char>) -> bool {
    end.remote.port_id@ == port && opt_channel_view(end.remote.channel_id) == Some(channel)
}

fn check_counterparty(end: &ChannelEnd, port: &PortId, channel: &ChannelId) -> (r: bool)
    ensures
        r == counterparty_is(*end, port@, channel@),
{
    match &end.remote.channel_id {
        Some(c) => end.remote.port_id.same(port) && c.same(channel),
        None => false,
    }
}

/// The first failed check of an ordered channel's expected sequence.
pub open spec fn next_seq_check(expected: Option<u64>, seq: u64) -> Option<Error> {
    match expected {
        None => Some(Error::MissingNextSequence),
        Some(n) => if seq != n {
            Some(Error::InvalidPacketSequence)
        } else if n == u64::MAX {
            Some(Error::CounterOverflow)
        } else {
            None
        },
    }
}

fn check_next_seq(t: &Table<u64>, port: &PortId, channel: &ChannelId, seq: u64) -> (r: Result<u64, Error>)
    requires
        t.wf(),
    ensures
        match r {
            Ok(n) => next_seq_check(seq_at(t@, port@, channel@), seq) is None && n == seq + 1,
            Err(e) => next_seq_check(seq_at(t@, port@, channel@), seq) == Some(e),
        },
{
    match IbcContext::sequence_of(t, port, channel) {
        None => Err(Error::MissingNextSequence),
        Some(n) => {
            if seq != n {
                Err(Error::InvalidPacketSequence)
            } else if n == u64::MAX {
                Err(Error::CounterOverflow)
            } else {
                Ok(n + 1)
            }
        },
    }
}

/// The first failed check of a received packet.
pub open spec fn recv_check(ctx: &IbcContext, m: &MsgRecvPacket) -> Option<Error> {
    let p = m.packet;
    match stored_channel(ctx, p.destination_port@, p.destination_channel@) {
        None => Some(Error::ChannelNotFound),
        Some(end) => if end.state != State::Open {
            Some(Error::InvalidChannelState)
        } else if !counterparty_is(end, p.source_port@, p.source_channel@) {
            Some(Error::InvalidCounterparty)
        } else if conn_check(ctx, end.connection_hops@, false) is Some {
            conn_check(ctx, end.connection_hops@, false)
        } else if packet_timed_out(&p, ctx.host_height, ctx.host_timestamp) {
            Some(Error::PacketTimedOut)
        } else if !hop_proof_ok(ctx, end.connection_hops@, m.proof_height) {
            Some(Error::ProofVerificationFailed)
        } else if p.sequence == 0 {
            Some(Error::ZeroPacketSequence)
        } else if end.ordering == Order::Ordered {
            next_seq_check(
                seq_at(ctx.next_sequence_recv@, p.destination_port@, p.destination_channel@),
                p.sequence,
            )
        } else {
            None
        },
    }
}

/// The result of an accepted received packet: on an ordered channel the
/// next sequence advances; on an unordered one a receipt is stored, unless
/// there is one already, and then nothing happens.
pub open spec fn recv_result_matches(ctx: &IbcContext, m: &MsgRecvPacket, res: RecvPacketResult) -> bool {
    let p = m.packet;
    let end = ctx.channels@[chan_key(p.destination_port@, p.destination_channel@)];
    if end.ordering == Order::Ordered {
        match res {
            RecvPacketResult::Ordered { port_id, channel_id, next_sequence_recv } => port_id@
                == p.destination_port@ && channel_id@ == p.destination_channel@
                && next_sequence_recv == p.sequence + 1,
            _ => false,
        }
    } else if ctx.packet_receipts@.contains_key(
        packet_key(p.destination_port@, p.destination_channel@, p.sequence),
    ) {
        res is NoOp
    } else {
        match res {
            RecvPacketResult::Unordered { port_id, channel_id, sequence } => port_id@
                == p.destination_port@ && channel_id@ == p.destination_channel@ && sequence
                == p.sequence,
            _ => false,
        }
    }
}

/// Checks that the commitment stored for a packet is the packet's.
pub open spec fn commitment_check(ctx: &IbcContext, p: &Packet) -> Option<Error> {
    let k = packet_key(p.source_port@, p.source_channel@, p.sequence);
    if !ctx.packet_commitments@.contains_key(k) {
        Some(Error::PacketCommitmentNotFound)
    } else if ctx.packet_commitments@[k]@ != packet_commitment(p) {
        Some(Error::IncorrectPacketCommitment)
    } else {
        None
    }
}

fn check_commitment(ctx: &IbcContext, p: &Packet) -> (r: Result<(), Error>)
    requires
        ctx.wf(),
    ensures
        match r {
            Ok(_) => commitment_check(ctx, p) is None,
            Err(e) => commitment_check(ctx, p) == Some(e),
        },
{
    let key = packet_store_key(&p.source_port, &p.source_channel, p.sequence);
    match ctx.packet_commitments.get(&key) {
        None => Err(Error::PacketCommitmentNotFound),
        Some(c) => {
            let expected = compute_packet_commitment(p);
            if c.len() != expected.len() {
                return Err(Error::IncorrectPacketCommitment);
            }
            let mut i: usize = 0;
            while i < c.len()
                invariant
                    i <= c@.len(),
                    c@.len() == expected@.len(),
                    forall|j: int| 0 <= j < i ==> c@[j] == expected@[j],
                    expected@ == packet_commitment(p),
                    ctx.packet_commitments@.contains_key(key@),
                    *c == ctx.packet_commitments@[key@],
                    key@ == packet_key(p.source_port@, p.source_channel@, p.sequence),
                decreases c@.len() - i,
            {
                if c[i] != expected[i] {
                    assert(c@[i as int] != expected@[i as int]);
                    assert(c@ != expected@);
                    return Err(Error::IncorrectPacketCommitment);
                }
                i = i + 1;
            }
            assert(c@ =~= expected@);
            Ok(())
        },
    }
}

/// The first failed check of an acknowledged packet.
pub open spec fn ack_check(ctx: &IbcContext, m: &MsgAcknowledgement) -> Option<Error> {
    let p = m.packet;
    match stored_channel(ctx, p.source_port@, p.source_channel@) {
        None => Some(Error::ChannelNotFound),
        Some(end) => if !(end.state == State::Open || end.state == State::Closed) {
            Some(Error::InvalidChannelState)
        } else if !counterparty_is(end, p.destination_port@, p.destination_channel@) {
            Some(Error::InvalidCounterparty)
        } else if conn_check(ctx, end.connection_hops@, false) is Some {
            conn_check(ctx, end.connection_hops@, false)
        } else if commitment_check(ctx, &p) is Some {
            commitment_check(ctx, &p)
        } else if !hop_proof_ok(ctx, end.connection_hops@, m.proof_height) {
            Some(Error::ProofVerificationFailed)
        } else if end.ordering == Order::Ordered {
            next_seq_check(seq_at(ctx.next_sequence_ack@, p.source_port@, p.source_channel@), p.sequence)
        } else {
            None
        },
    }
}

/// The result of an accepted acknowledgement: the commitment is cleared, and
/// on an ordered channel the next sequence to acknowledge advances.
pub open spec fn ack_result_matches(ctx: &IbcContext, m: &MsgAcknowledgement, res: PacketResult) -> bool {
    let p = m.packet;
    let end = ctx.channels@[chan_key(p.source_port@, p.source_channel@)];
    match res {
        PacketResult::Ack { port_id, channel_id, sequence, next_sequence_ack } => {
            &&& port_id@ == p.source_port@
            &&& channel_id@ == p.source_channel@
            &&& sequence == p.sequence
            &&& next_sequence_ack == if end.ordering == Order::Ordered {
                Some((p.sequence + 1) as u64)
            } else {
                None
            }
        },
        _ => false,
    }
}

/// The first failed check of a timed-out packet; `on_close` for a timeout
/// because the counterparty closed the channel.
pub open spec fn timeout_check(ctx: &IbcContext, p: &Packet, next_sequence_recv: u64, proof_height: crate::channel::Height, on_close: bool) -> Option<Error> {
    if !packet_has_timeout(p) {
        Some(Error::PacketHasNoTimeout)
    } else {
        match stored_channel(ctx, p.source_port@, p.source_channel@) {
            None => Some(Error::ChannelNotFound),
            Some(end) => if !on_close && end.state != State::Open {
                Some(Error::InvalidChannelState)
            } else if !counterparty_is(end, p.destination_port@, p.destination_channel@) {
                Some(Error::InvalidCounterparty)
            } else if conn_check(ctx, end.connection_hops@, false) is Some {
                conn_check(ctx, end.connection_hops@, false)
            } else if commitment_check(ctx, p) is Some {
                commitment_check(ctx, p)
            } else if !hop_proof_ok(ctx, end.connection_hops@, proof_height) {
                Some(Error::ProofVerificationFailed)
            } else if !on_close && !packet_timed_out(
                p,
                proof_height,
                ctx.client_of(&hop_connection(ctx, end.connection_hops@))->0.latest_timestamp,
            ) {
                Some(Error::PacketNotTimedOut)
            } else if end.ordering == Order::Ordered && !(next_sequence_recv < p.sequence) {
                Some(Error::InvalidPacketSequence)
            } else {
                None
            },
        }
    }
}

/// The result of an accepted timeout: the commitment is cleared, and an
/// ordered channel is closed.
pub open spec fn timeout_result_matches(ctx: &IbcContext, p: &Packet, res: PacketResult) -> bool {
    let end = ctx.channels@[chan_key(p.source_port@, p.source_channel@)];
    match res {
        PacketResult::Timeout { port_id, channel_id, sequence, channel_end } => {
            &&& port_id@ == p.source_port@
            &&& channel_id@ == p.source_channel@
            &&& sequence == p.sequence
            &&& if end.ordering == Order::Ordered {
                channel_end is Some && channel_end->0.moved_from(&end, State::Closed)
            } else {
                channel_end is None
            }
        },
        _ => false,
    }
}

/// The first failed check of a packet message.
pub open spec fn packet_check(ctx: &IbcContext, msg: &PacketMsg) -> Option<Error> {
    match msg {
        PacketMsg::RecvPacket(m) => recv_check(ctx, m),
        PacketMsg::AckPacket(m) => ack_check(ctx, m),
        PacketMsg::TimeoutPacket(m) => timeout_check(ctx, &m.packet, m.next_sequence_recv, m.proof_height, false),
        PacketMsg::TimeoutOnClosePacket(m) => timeout_check(ctx, &m.packet, m.next_sequence_recv, m.proof_height, true),
    }
}

/// The result of an accepted packet message.
pub open spec fn packet_result_matches(ctx: &IbcContext, msg: &PacketMsg, res: PacketResult) -> bool {
    match msg {
        PacketMsg::RecvPacket(m) => match res {
            PacketResult::Recv(r) => recv_result_matches(ctx, m, r),
            _ => false,
        },
        PacketMsg::AckPacket(m) => ack_result_matches(ctx, m, res),
        PacketMsg::TimeoutPacket(m) => timeout_result_matches(ctx, &m.packet, res),
        PacketMsg::TimeoutOnClosePacket(m) => timeout_result_matches(ctx, &m.packet, res),
    }
}

fn recv_packet(ctx: &IbcContext, m: &MsgRecvPacket) -> (r: Result<(HandlerOutput, PacketResult), Error>)
    requires
        ctx.wf(),
    ensures
        match recv_check(ctx, m) {
            None => r is Ok && match r->Ok_0.1 {
                PacketResult::Recv(res) => recv_result_matches(ctx, m, res),
                _ => false,
            },
            Some(e) => r == Err::<(HandlerOutput, PacketResult), Error>(e),
        },
        (r is Ok && (r->Ok_0.1 matches PacketResult::Recv(RecvPacketResult::NoOp))) ==> r->Ok_0.0.events@.len() == 0,
{
    let p = &m.packet;
    let end = match ctx.channel_end(&p.destination_port, &p.destination_channel) {
        Some(c) => c,
        None => return Err(Error::ChannelNotFound),
    };
    if end.state != State::Open {
        return Err(Error::InvalidChannelState);
    }
    if !check_counterparty(end, &p.source_port, &p.source_channel) {
        return Err(Error::InvalidCounterparty);
    }
    let conn = check_connection(ctx, &end.connection_hops, false)?;
    if timed_out(p, &ctx.host_height, ctx.host_timestamp) {
        return Err(Error::PacketTimedOut);
    }
    if !ctx.verify_proof(conn, &m.proof_height) {
        return Err(Error::ProofVerificationFailed);
    }
    if p.sequence == 0 {
        return Err(Error::ZeroPacketSequence);
    }
    let mut out = HandlerOutput::new();
    let res = if end.ordering == Order::Ordered {
        let next = check_next_seq(&ctx.next_sequence_recv, &p.destination_port, &p.destination_channel, p.sequence)?;
        RecvPacketResult::Ordered {
            port_id: p.destination_port.duplicate(),
            channel_id: p.destination_channel.duplicate(),
            next_sequence_recv: next,
        }
    } else {
        let key = packet_store_key(&p.destination_port, &p.destination_channel, p.sequence);
        if ctx.packet_receipts.contains(&key) {
            out.log_line("packet already received: no-op");
            return Ok((out, PacketResult::Recv(RecvPacketResult::NoOp)));
        }
        RecvPacketResult::Unordered {
            port_id: p.destination_port.duplicate(),
            channel_id: p.destination_channel.duplicate(),
            sequence: p.sequence,
        }
    };
    out.log_line("success: packet receive");
    out.emit(IbcEvent::ReceivePacket(p.duplicate()));
    Ok((out, PacketResult::Recv(res)))
}

fn ack_packet(ctx: &IbcContext, m: &MsgAcknowledgement) -> (r: Result<(HandlerOutput, PacketResult), Error>)
    requires
        ctx.wf(),
    ensures
        match ack_check(ctx, m) {
            None => r is Ok && ack_result_matches(ctx, m, r->Ok_0.1),
            Some(e) => r == Err::<(HandlerOutput, PacketResult), Error>(e),
        },
{
    let p = &m.packet;
    let end = match ctx.channel_end(&p.source_port, &p.source_channel) {
        Some(c) => c,
        None => return Err(Error::ChannelNotFound),
    };
    if !(end.state == State::Open || end.state == State::Closed) {
        return Err(Error::InvalidChannelState);
    }
    if !check_counterparty(end, &p.destination_port, &p.destination_channel) {
        return Err(Error::InvalidCounterparty);
    }
    let conn = check_connection(ctx, &end.connection_hops, false)?;
    check_commitment(ctx, p)?;
    if !ctx.verify_proof(conn, &m.proof_height) {
        return Err(Error::ProofVerificationFailed);
    }
    let next_sequence_ack = if end.ordering == Order::Ordered {
        Some(check_next_seq(&ctx.next_sequence_ack, &p.source_port, &p.source_channel, p.sequence)?)
    } else {
        None
    };
    let mut out = HandlerOutput::new();
    out.log_line("success: packet acknowledgement");
    out.emit(IbcEvent::AcknowledgePacket(p.duplicate()));
    Ok((
        out,
        PacketResult::Ack {
            port_id: p.source_port.duplicate(),
            channel_id: p.source_channel.duplicate(),
            sequence: p.sequence,
            next_sequence_ack,
        },
    ))
}

fn timeout_packet(ctx: &IbcContext, p: &Packet, next_sequence_recv: u64, proof_height: &crate::channel::Height, on_close: bool) -> (r: Result<(HandlerOutput, PacketResult), Error>)
    requires
        ctx.wf(),
    ensures
        match timeout_check(ctx, p, next_sequence_recv, *proof_height, on_close) {
            None => r is Ok && timeout_result_matches(ctx, p, r->Ok_0.1),
            Some(e) => r == Err::<(HandlerOutput, PacketResult), Error>(e),
        },
{
    if !(!p.timeout_height.is_zero() || p.timeout_timestamp != 0) {
        return Err(Error::PacketHasNoTimeout);
    }
    let end = match ctx.channel_end(&p.source_port, &p.source_channel) {
        Some(c) => c,
        None => return Err(Error::ChannelNotFound),
    };
    if !on_close && end.state != State::Open {
        return Err(Error::InvalidChannelState);
    }
    if !check_counterparty(end, &p.destination_port, &p.destination_channel) {
        return Err(Error::InvalidCounterparty);
    }
    let conn = check_connection(ctx, &end.connection_hops, false)?;
    check_commitment(ctx, p)?;
    if !ctx.verify_proof(conn, proof_height) {
        return Err(Error::ProofVerificationFailed);
    }
    if !on_close {
        let client = match ctx.client_state(&conn.client_id) {
            Some(c) => c,
            None => return Err(Error::ProofVerificationFailed),
        };
        if !timed_out(p, proof_height, client.latest_timestamp) {
            return Err(Error::PacketNotTimedOut);
        }
    }
    let channel_end = if end.ordering == Order::Ordered {
        if !(next_sequence_recv < p.sequence) {
            return Err(Error::InvalidPacketSequence);
        }
        let mut closed = end.duplicate();
        closed.state = State::Closed;
        Some(closed)
    } else {
        None
    };
    let mut out = HandlerOutput::new();
    if on_close {
        out.log_line("success: packet timeout on close");
        out.emit(IbcEvent::TimeoutOnClosePacket(p.duplicate()));
    } else {
        out.log_line("success: packet timeout");
        out.emit(IbcEvent::TimeoutPacket(p.duplicate()));
    }
    Ok((
        out,
        PacketResult::Timeout {
            port_id: p.source_port.duplicate(),
            channel_id: p.source_channel.duplicate(),
            sequence: p.sequence,
            channel_end,
        },
    ))
}

/// Runs the handler of a packet message. It reads the store and returns the
/// output and what to write; it writes nothing.
pub fn packet_dispatch(ctx: &IbcContext, msg: &PacketMsg) -> (r: Result<(HandlerOutput, PacketResult), Error>)
    requires
        ctx.wf(),
    ensures
        match packet_check(ctx, msg) {
            None => r is Ok && packet_result_matches(ctx, msg, r->Ok_0.1),
            Some(e) => r == Err::<(HandlerOutput, PacketResult), Error>(e),
        },
        (r is Ok && (r->Ok_0.1 matches PacketResult::Recv(RecvPacketResult::NoOp))) ==> r->Ok_0.0.events@.len() == 0,
{
    match msg {
        PacketMsg::RecvPacket(m) => recv_packet(ctx, m),
        PacketMsg::AckPacket(m) => ack_packet(ctx, m),
        PacketMsg::TimeoutPacket(m) => timeout_packet(ctx, &m.packet, m.next_sequence_recv, &m.proof_height, false),
        PacketMsg::TimeoutOnClosePacket(m) => timeout_packet(ctx, &m.packet, m.next_sequence_recv, &m.proof_height, true),
    }
}

/// The first failed check of a packet to send; `allow_no_timeout` where the
/// bound module accepts packets without any timeout.
pub open spec fn send_check(ctx: &IbcContext, p: &Packet, allow_no_timeout: bool) -> Option<Error> {
    if !allow_no_timeout && !packet_has_timeout(p) {
        Some(Error::PacketHasNoTimeout)
    } else {
        match stored_channel(ctx, p.source_port@, p.source_channel@) {
            None => Some(Error::ChannelNotFound),
            Some(end) => if end.state != State::Open {
                Some(Error::InvalidChannelState)
            } else if !counterparty_is(end, p.destination_port@, p.destination_channel@) {
                Some(Error::InvalidCounterparty)
            } else if conn_check(ctx, end.connection_hops@, false) is Some {
                conn_check(ctx, end.connection_hops@, false)
            } else if ctx.client_of(&hop_connection(ctx, end.connection_hops@)) is None {
                Some(Error::ClientNotFound)
            } else if packet_timed_out(
                p,
                ctx.client_of(&hop_connection(ctx, end.connection_hops@))->0.latest_height,
                ctx.client_of(&hop_connection(ctx, end.connection_hops@))->0.latest_timestamp,
            ) {
                Some(Error::PacketTimedOut)
            } else {
                next_seq_check(seq_at(ctx.next_sequence_send@, p.source_port@, p.source_channel@), p.sequence)
            },
        }
    }
}

/// The result of an accepted packet to send: its commitment is stored and
/// the next sequence to send advances.
pub open spec fn send_result_matches(p: &Packet, res: PacketResult) -> bool {
    match res {
        PacketResult::Send { port_id, channel_id, sequence, next_sequence_send, commitment } => {
            &&& port_id@ == p.source_port@
            &&& channel_id@ == p.source_channel@
            &&& sequence == p.sequence
            &&& next_sequence_send == p.sequence + 1
            &&& commitment@ == packet_commitment(p)
        },
        _ => false,
    }
}

/// Checks a packet to send over a channel and computes its commitment.
pub fn send_packet(ctx: &IbcContext, p: Packet, allow_no_timeout: bool) -> (r: Result<(HandlerOutput, PacketResult), Error>)
    requires
        ctx.wf(),
    ensures
        match send_check(ctx, &p, allow_no_timeout) {
            None => r is Ok && send_result_matches(&p, r->Ok_0.1),
            Some(e) => r == Err::<(HandlerOutput, PacketResult), Error>(e),
        },
{
    if !allow_no_timeout && !(!p.timeout_height.is_zero() || p.timeout_timestamp != 0) {
        return Err(Error::PacketHasNoTimeout);
    }
    let end = match ctx.channel_end(&p.source_port, &p.source_channel) {
        Some(c) => c,
        None => return Err(Error::ChannelNotFound),
    };
    if end.state != State::Open {
        return Err(Error::InvalidChannelState);
    }
    if !check_counterparty(end, &p.destination_port, &p.destination_channel) {
        return Err(Error::InvalidCounterparty);
    }
    let conn = check_connection(ctx, &end.connection_hops, false)?;
    let client = match ctx.client_state(&conn.client_id) {
        Some(c) => c,
        None => return Err(Error::ClientNotFound),
    };
    if timed_out(&p, &client.latest_height, client.latest_timestamp) {
        return Err(Error::PacketTimedOut);
    }
    let next = check_next_seq(&ctx.next_sequence_send, &p.source_port, &p.source_channel, p.sequence)?;
    let commitment = compute_packet_commitment(&p);
    let res = PacketResult::Send {
        port_id: p.source_port.duplicate(),
        channel_id: p.source_channel.duplicate(),
        sequence: p.sequence,
        next_sequence_send: next,
        commitment,
    };
    let mut out = HandlerOutput::new();
    out.log_line("success: packet send");
    out.emit(IbcEvent::SendPacket(p));
    Ok((out, res))
}

/// The first failed check of an acknowledgement to write for a received
/// packet.
pub open spec fn write_ack_check(ctx: &IbcContext, p: &Packet) -> Option<Error> {
    match stored_channel(ctx, p.destination_port@, p.destination_channel@) {
        None => Some(Error::ChannelNotFound),
        Some(end) => if end.state != State::Open {
            Some(Error::InvalidChannelState)
        } else if ctx.packet_acknowledgements@.contains_key(
            packet_key(p.destination_port@, p.destination_channel@, p.sequence),
        ) {
            Some(Error::AcknowledgementExists)
        } else {
            None
        },
    }
}

/// The result of an accepted acknowledgement to write: the digest of the
/// acknowledgement is stored for the packet.
pub open spec fn write_ack_result_matches(p: &Packet, ack: Seq<u8>, res: PacketResult) -> bool {
    match res {
        PacketResult::WriteAck { port_id, channel_id, sequence, ack_commitment } => {
            &&& port_id@ == p.destination_port@
            &&& channel_id@ == p.destination_channel@
            &&& sequence == p.sequence
            &&& ack_commitment@ == sha256_of(ack)
        },
        _ => false,
    }
}

/// Checks that an acknowledgement can be written for a received packet and
/// computes its commitment.
pub fn write_acknowledgement(ctx: &IbcContext, p: Packet, ack: Vec<u8>) -> (r: Result<(HandlerOutput, PacketResult), Error>)
    requires
        ctx.wf(),
    ensures
        match write_ack_check(ctx, &p) {
            None => r is Ok && write_ack_result_matches(&p, ack@, r->Ok_0.1),
            Some(e) => r == Err::<(HandlerOutput, PacketResult), Error>(e),
        },
        r is Ok ==> r->Ok_0.0.log@.len() == 1 && r->Ok_0.0.log@[0]@ == "success: write acknowledgement"@
            && r->Ok_0.0.events@ == seq![IbcEvent::WriteAcknowledgement(p, ack)],
{
    let end = match ctx.channel_end(&p.destination_port, &p.destination_channel) {
        Some(c) => c,
        None => return Err(Error::ChannelNotFound),
    };
    if end.state != State::Open {
        return Err(Error::InvalidChannelState);
    }
    let key = packet_store_key(&p.destination_port, &p.destination_channel, p.sequence);
    if ctx.packet_acknowledgements.contains(&key) {
        return Err(Error::AcknowledgementExists);
    }
    let ack_commitment = sha256(ack.as_slice());
    let res = PacketResult::WriteAck {
        port_id: p.destination_port.duplicate(),
        channel_id: p.destination_channel.duplicate(),
        sequence: p.sequence,
        ack_commitment,
    };
    let mut out = HandlerOutput::new();
    out.log_line("success: write acknowledgement");
    let ghost ev = IbcEvent::WriteAcknowledgement(p, ack);
    out.emit(IbcEvent::WriteAcknowledgement(p, ack));
    assert(out.events@ =~= seq![ev]);
    Ok((out, res))
}

} // verus!
