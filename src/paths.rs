//! The host store paths under which the counterparty proves channel and
//! packet state. Their syntax is fixed, byte for byte, so that proofs made on
//! one chain verify on the other.
use vstd::prelude::*;
use crate::ident::{decimal, push_decimal, ChannelId, PortId};

verus! {

/// `<kind>/ports/<port>/channels/<channel>`.
pub open spec fn channel_path(kind: Seq<char>, port: Seq<char>, channel: Seq<char>) -> Seq<char> {
    kind + "/ports/"@ + port + "/channels/"@ + channel
}

/// `<kind>/ports/<port>/channels/<channel>/sequences/<seq>`.
pub open spec fn sequence_path(kind: Seq<char>, port: Seq<char>, channel: Seq<char>, seq: u64) -> Seq<char> {
    channel_path(kind, port, channel) + "/sequences/"@ + decimal(seq as nat)
}

fn build_channel_path(kind: &str, port_id: &PortId, channel_id: &ChannelId) -> (r: String)
    ensures
        r@ == channel_path(kind@, port_id@, channel_id@),
{
    let r = String::from_str(kind).concat("/ports/").concat(port_id.as_str()).concat("/channels/").concat(
        channel_id.as_str(),
    );
    assert(r@ =~= channel_path(kind@, port_id@, channel_id@));
    r
}

fn build_sequence_path(kind: &str, port_id: &PortId, channel_id: &ChannelId, seq: u64) -> (r: String)
    ensures
        r@ == sequence_path(kind@, port_id@, channel_id@, seq),
{
    let mut r = build_channel_path(kind, port_id, channel_id).concat("/sequences/");
    push_decimal(&mut r, seq as u128);
    assert(r@ =~= sequence_path(kind@, port_id@, channel_id@, seq));
    r
}

/// `channelEnds/ports/<port>/channels/<channel>`: the channel end.
pub fn channel_end_path(port_id: &PortId, channel_id: &ChannelId) -> (r: String)
    ensures
        r@ == channel_path("channelEnds"@, port_id@, channel_id@),
{
    build_channel_path("channelEnds", port_id, channel_id)
}

/// `nextSequenceSend/ports/<port>/channels/<channel>`.
pub fn next_sequence_send_path(port_id: &PortId, channel_id: &ChannelId) -> (r: String)
    ensures
        r@ == channel_path("nextSequenceSend"@, port_id@, channel_id@),
{
    build_channel_path("nextSequenceSend", port_id, channel_id)
}

/// `nextSequenceRecv/ports/<port>/channels/<channel>`.
pub fn next_sequence_recv_path(port_id: &PortId, channel_id: &ChannelId) -> (r: String)
    ensures
        r@ == channel_path("nextSequenceRecv"@, port_id@, channel_id@),
{
    build_channel_path("nextSequenceRecv", port_id, channel_id)
}

/// `nextSequenceAck/ports/<port>/channels/<channel>`.
pub fn next_sequence_ack_path(port_id: &PortId, channel_id: &ChannelId) -> (r: String)
    ensures
        r@ == channel_path("nextSequenceAck"@, port_id@, channel_id@),
{
    build_channel_path("nextSequenceAck", port_id, channel_id)
}

/// `commitments/ports/<port>/channels/<channel>/sequences/<seq>`: the
/// packet commitment.
pub fn commitment_path(port_id: &PortId, channel_id: &ChannelId, seq: u64) -> (r: String)
    ensures
        r@ == sequence_path("commitments"@, port_id@, channel_id@, seq),
{
    build_sequence_path("commitments", port_id, channel_id, seq)
}

/// `receipts/ports/<port>/channels/<channel>/sequences/<seq>`: the receipt
/// of a packet on an unordered channel.
pub fn receipt_path(port_id: &PortId, channel_id: &ChannelId, seq: u64) -> (r: String)
    ensures
        r@ == sequence_path("receipts"@, port_id@, channel_id@, seq),
{
    build_sequence_path("receipts", port_id, channel_id, seq)
}

/// `acks/ports/<port>/channels/<channel>/sequences/<seq>`: the
/// acknowledgement commitment.
pub fn ack_path(port_id: &PortId, channel_id: &ChannelId, seq: u64) -> (r: String)
    ensures
        r@ == sequence_path("acks"@, port_id@, channel_id@, seq),
{
    build_sequence_path("acks", port_id, channel_id, seq)
}

} // verus!
