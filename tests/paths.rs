use ibc::ident::{ChannelId, PortId};
use ibc::paths::{
    ack_path, channel_end_path, commitment_path, next_sequence_ack_path, next_sequence_recv_path,
    next_sequence_send_path, receipt_path,
};

#[test]
fn store_paths_are_byte_exact() {
    let port = PortId::transfer();
    let chan = ChannelId::new(7);
    assert_eq!(channel_end_path(&port, &chan), "channelEnds/ports/transfer/channels/channel-7");
    assert_eq!(next_sequence_send_path(&port, &chan), "nextSequenceSend/ports/transfer/channels/channel-7");
    assert_eq!(next_sequence_recv_path(&port, &chan), "nextSequenceRecv/ports/transfer/channels/channel-7");
    assert_eq!(next_sequence_ack_path(&port, &chan), "nextSequenceAck/ports/transfer/channels/channel-7");
    assert_eq!(
        commitment_path(&port, &chan, 12),
        "commitments/ports/transfer/channels/channel-7/sequences/12"
    );
    assert_eq!(receipt_path(&port, &chan, 1), "receipts/ports/transfer/channels/channel-7/sequences/1");
    assert_eq!(ack_path(&port, &chan, 18446744073709551615), "acks/ports/transfer/channels/channel-7/sequences/18446744073709551615");
}
