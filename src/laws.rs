//! Laws of the channel and packet state machine and of transfers, stated
//! over the contracts of the handlers and proved from them.
use vstd::prelude::*;
use crate::bank::BankKeeper;
use crate::channel::{ChannelEnd, Order};
use crate::context::{chan_key, packet_key, IbcContext};
use crate::msgs::PacketMsg;
use crate::packet_handlers::packet_check;
use crate::routing::{channel_progress, commitments_shrink, is_replay, packet_effect, recv_seqs_monotone};
use crate::table::KeyView;
use crate::transfer::TransferModule;
use crate::transfer_relay::{coins_minted, coins_moved, ledger_same};

verus! {

/// Channel states only move forward: if two steps each keep every channel
/// or move it to a later state, so do both steps together. Hence the states
/// one channel goes through follow the handshake, none repeats, and a closed
/// channel stays closed.
pub proof fn lemma_channel_progress_transitive(
    a: Map<KeyView, ChannelEnd>,
    b: Map<KeyView, ChannelEnd>,
    c: Map<KeyView, ChannelEnd>,
)
    requires
        channel_progress(a, b),
        channel_progress(b, c),
    ensures
        channel_progress(a, c),
{
    assert forall|k: KeyView| #[trigger] a.contains_key(k) implies c.contains_key(k) && (c[k].state
        == a[k].state || crate::channel::state_rank(c[k].state) > crate::channel::state_rank(a[k].state)) by {
        assert(b.contains_key(k));
    }
}

/// The commitment a message settles: the sent packet's, for an
/// acknowledgement or a timeout.
pub open spec fn settled_key(m: &PacketMsg) -> Option<KeyView> {
    match m {
        PacketMsg::RecvPacket(_) => None,
        _ => Some(packet_key(m.packet().source_port@, m.packet().source_channel@, m.packet().sequence)),
    }
}

/// A sent packet is settled at most once: once an acknowledgement or a
/// timeout for it has been accepted, its commitment is gone and every later
/// acknowledgement or timeout of it is refused.
pub proof fn lemma_settled_once(c0: IbcContext, c1: IbcContext, m1: PacketMsg, m2: PacketMsg)
    requires
        settled_key(&m1) is Some,
        settled_key(&m2) == settled_key(&m1),
        packet_check(&c0, &m1) is None,
        packet_effect(&c0, &c1, &m1),
    ensures
        !c1.packet_commitments@.contains_key(settled_key(&m1)->0),
        packet_check(&c1, &m2) is Some,
{
    let k = settled_key(&m1)->0;
    assert(!c1.packet_commitments@.contains_key(k));
    assert(crate::packet_handlers::commitment_check(&c1, &m2.packet()) is Some);
}

/// A cleared commitment stays cleared over any steps that only remove
/// commitments, as processing messages does: once a packet is settled, its
/// commitment is absent from then on, until a new send of that sequence.
pub proof fn lemma_cleared_stays_cleared(c1: IbcContext, c2: IbcContext, c3: IbcContext, k: KeyView)
    requires
        !c1.packet_commitments@.contains_key(k),
        commitments_shrink(&c1, &c2),
        commitments_shrink(&c2, &c3),
    ensures
        !c3.packet_commitments@.contains_key(k),
{
}

/// At most once delivery on an unordered channel: after a packet was
/// received, receiving it again is accepted as a replay that writes nothing,
/// fires no callback and emits no event.
pub proof fn lemma_at_most_once(c0: IbcContext, c1: IbcContext, c2: IbcContext, m: PacketMsg)
    requires
        m is RecvPacket,
        packet_check(&c0, &m) is None,
        c0.channels@[chan_key(m.packet().destination_port@, m.packet().destination_channel@)].ordering
            == Order::Unordered,
        packet_effect(&c0, &c1, &m),
        packet_effect(&c1, &c2, &m),
    ensures
        is_replay(&c1, &m),
        c2 == c1,
{
    let p = m.packet();
    let ck = chan_key(p.destination_port@, p.destination_channel@);
    let pk = packet_key(p.destination_port@, p.destination_channel@, p.sequence);
    assert(c0.channels@.contains_key(ck));
    assert(c1.packet_receipts@.contains_key(pk));
}

/// On an ordered channel a packet is accepted only with the sequence the
/// channel expects next, and accepting it advances that sequence by one.
pub proof fn lemma_ordered_strict(c0: IbcContext, c1: IbcContext, m: PacketMsg)
    requires
        m is RecvPacket,
        c0.channels@.contains_key(chan_key(m.packet().destination_port@, m.packet().destination_channel@)),
        c0.channels@[chan_key(m.packet().destination_port@, m.packet().destination_channel@)].ordering
            == Order::Ordered,
        packet_check(&c0, &m) is None,
        packet_effect(&c0, &c1, &m),
    ensures
        ({
            let ck = chan_key(m.packet().destination_port@, m.packet().destination_channel@);
            &&& c0.next_sequence_recv@.contains_key(ck)
            &&& m.packet().sequence == c0.next_sequence_recv@[ck]
            &&& c1.next_sequence_recv@[ck] == c0.next_sequence_recv@[ck] + 1
        }),
{
}

/// The next sequence to receive never decreases over several steps, each of
/// which keeps every channel and never decreases it.
pub proof fn lemma_recv_seqs_transitive(a: IbcContext, b: IbcContext, c: IbcContext)
    requires
        recv_seqs_monotone(&a, &b),
        recv_seqs_monotone(&b, &c),
        channel_progress(a.channels@, b.channels@),
    ensures
        recv_seqs_monotone(&a, &c),
{
    assert forall|k: KeyView| a.channels@.contains_key(k) && #[trigger] a.next_sequence_recv@.contains_key(k)
        implies c.next_sequence_recv@.contains_key(k) && a.next_sequence_recv@[k] <= c.next_sequence_recv@[k] by {
        assert(b.channels@.contains_key(k));
        assert(b.next_sequence_recv@.contains_key(k));
    }
}

/// Conservation of a transfer of a native token: the send moves the amount
/// from the sender into escrow, the successful receive on the other chain
/// mints the same amount of the voucher, and the successful acknowledgement
/// changes nothing. On the source chain no supply changes and the amount
/// sits in escrow; on the other chain the voucher's supply grows by exactly
/// the amount.
pub proof fn lemma_transfer_conservation(
    src0: TransferModule,
    src1: TransferModule,
    src2: TransferModule,
    dst0: TransferModule,
    dst1: TransferModule,
    sender: Seq<char>,
    escrow: Seq<char>,
    denom: Seq<char>,
    receiver: Seq<char>,
    voucher: Seq<char>,
    amount: nat,
)
    requires
        sender != escrow,
        coins_moved(&src0, &src1, sender, escrow, denom, amount),
        ledger_same(&src1, &src2),
        coins_minted(&dst0, &dst1, receiver, voucher, amount),
    ensures
        forall|d: Seq<char>| #[trigger] src2.supply_of(d) == src0.supply_of(d),
        src2.balance_of(sender, denom) == src0.balance_of(sender, denom) - amount,
        src2.balance_of(escrow, denom) == src0.balance_of(escrow, denom) + amount,
        dst1.supply_of(voucher) == dst0.supply_of(voucher) + amount,
{
    assert forall|d: Seq<char>| #[trigger] src2.supply_of(d) == src0.supply_of(d) by {
        assert(src2.supply_of(d) == src1.supply_of(d));
    }
    assert(src2.balance_of(sender, denom) == src1.balance_of(sender, denom));
    assert(src2.balance_of(escrow, denom) == src1.balance_of(escrow, denom));
}

} // verus!
