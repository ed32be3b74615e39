use ibc::amount::{amount_string, parse_amount};
use ibc::bank::{Bank, BankKeeper, Coin};
use ibc::channel::{ChannelEnd, Counterparty, Height, ModuleExtras, Order, Packet, State};
use ibc::clients::{
    ClientMsg, ConnectionMsg, MsgConnectionOpenAck, MsgConnectionOpenInit, MsgCreateClient,
    MsgSubmitMisbehaviour, MsgUpdateClient,
};
use ibc::context::{channel_store_key, packet_store_key, IbcContext};
use ibc::error::{Error, TransferError};
use ibc::ident::{ChannelId, ClientId, ConnectionId, ModuleId, PortId};
use ibc::msgs::{
    ChannelMsg, MsgAcknowledgement, MsgChannelCloseConfirm, MsgChannelOpenAck,
    MsgChannelOpenConfirm, MsgRecvPacket, MsgTimeout, PacketMsg,
};
use ibc::routing::{dispatch, Ics26Envelope};
use ibc::transfer::{to_hex, Ics20Reader, TransferModule};
use ibc::transfer_relay::{
    decode_ack, decode_packet_data, encode_packet_data, error_ack, on_acknowledgement_packet,
    on_recv_packet, success_ack, OnRecvPacketAck, PacketData, RecvWrite,
};
use ibc::transfer_send::{send_transfer, MsgTransfer};
use ibc::version::Version;

fn signer() -> String {
    "relayer".to_string()
}

/// A chain with a client at height 5, an open connection, the transfer
/// module bound to its port, and an open unordered or ordered channel
/// `transfer/channel-0` whose counterparty is `transfer/<remote>`.
fn chain(order: Order, remote: u64) -> IbcContext {
    let mut ctx = IbcContext::new(Height::new(0, 10), 1_000);
    dispatch(
        &mut ctx,
        Ics26Envelope::Ics2Msg(ClientMsg::CreateClient(MsgCreateClient {
            height: Height::new(0, 5),
            timestamp: 1,
            signer: signer(),
        })),
    )
    .unwrap();
    let client_id = ClientId::new(0);
    dispatch(
        &mut ctx,
        Ics26Envelope::Ics3Msg(ConnectionMsg::ConnectionOpenInit(MsgConnectionOpenInit {
            client_id: client_id.duplicate(),
            counterparty_client_id: client_id.duplicate(),
            signer: signer(),
        })),
    )
    .unwrap();
    dispatch(
        &mut ctx,
        Ics26Envelope::Ics3Msg(ConnectionMsg::ConnectionOpenAck(MsgConnectionOpenAck {
            connection_id: ConnectionId::new(0),
            counterparty_connection_id: ConnectionId::new(0),
            proof_height: Height::new(0, 5),
            signer: signer(),
        })),
    )
    .unwrap();
    ctx.add_route(ModuleId::transfer(), TransferModule::new());
    ctx.scope_port_to_module(&PortId::transfer(), ModuleId::transfer());
    let end = ChannelEnd::new(
        State::Open,
        order,
        Counterparty::new(PortId::transfer(), Some(ChannelId::new(remote))),
        vec![ConnectionId::new(0)],
        Version::ics20(),
    );
    let key = || channel_store_key(&PortId::transfer(), &ChannelId::new(0));
    ctx.channels.insert(key(), end);
    ctx.next_sequence_send.insert(key(), 1);
    ctx.next_sequence_recv.insert(key(), 1);
    ctx.next_sequence_ack.insert(key(), 1);
    ctx
}

fn update_client(ctx: &mut IbcContext, h: u64) {
    dispatch(
        ctx,
        Ics26Envelope::Ics2Msg(ClientMsg::UpdateClient(MsgUpdateClient {
            client_id: ClientId::new(0),
            height: Height::new(0, h),
            timestamp: 100 + h,
            signer: signer(),
        })),
    )
    .unwrap();
}

fn fund(ctx: &mut IbcContext, who: &str, denom: &str, amount: u128) {
    let r = ctx.router[0].module.mint_coins(&who.to_string(), &Coin { denom: denom.to_string(), amount });
    assert!(r.is_ok());
}

fn balance(ctx: &IbcContext, who: &str, denom: &str) -> u128 {
    ctx.router[0].module.bank.balance(who, denom)
}

fn supply(ctx: &IbcContext, denom: &str) -> u128 {
    ctx.router[0].module.bank.total_supply(denom)
}

fn escrow(ctx: &IbcContext) -> String {
    ctx.router[0].module.get_channel_escrow_address(&PortId::transfer(), &ChannelId::new(0))
}

fn data(denom: &str, amount: &str, sender: &str, receiver: &str) -> PacketData {
    PacketData {
        denom: denom.to_string(),
        amount: amount.to_string(),
        sender: sender.to_string(),
        receiver: receiver.to_string(),
    }
}

/// A packet from `transfer/channel-<src>` to `transfer/channel-<dst>`.
fn packet(seq: u64, src: u64, dst: u64, d: &PacketData, timeout: u64) -> Packet {
    Packet {
        sequence: seq,
        source_port: PortId::transfer(),
        source_channel: ChannelId::new(src),
        destination_port: PortId::transfer(),
        destination_channel: ChannelId::new(dst),
        data: encode_packet_data(d),
        timeout_height: Height::new(0, timeout),
        timeout_timestamp: 0,
    }
}

fn recv(p: Packet, proof: u64) -> Ics26Envelope {
    Ics26Envelope::Ics4PacketMsg(PacketMsg::RecvPacket(MsgRecvPacket {
        packet: p,
        proof_height: Height::new(0, proof),
        signer: signer(),
    }))
}

fn ack(p: Packet, a: Vec<u8>, proof: u64) -> Ics26Envelope {
    Ics26Envelope::Ics4PacketMsg(PacketMsg::AckPacket(MsgAcknowledgement {
        packet: p,
        acknowledgement: a,
        proof_height: Height::new(0, proof),
        signer: signer(),
    }))
}

fn timeout(p: Packet, proof: u64) -> Ics26Envelope {
    Ics26Envelope::Ics4PacketMsg(PacketMsg::TimeoutPacket(MsgTimeout {
        packet: p,
        next_sequence_recv: 1,
        proof_height: Height::new(0, proof),
        signer: signer(),
    }))
}

fn transfer(denom: &str, amount: u128, timeout: u64) -> MsgTransfer {
    MsgTransfer {
        source_port: PortId::transfer(),
        source_channel: ChannelId::new(0),
        token: Coin { denom: denom.to_string(), amount },
        sender: "alice".to_string(),
        receiver: "bob".to_string(),
        timeout_height: Height::new(0, timeout),
        timeout_timestamp: 0,
    }
}

#[test]
fn native_transfer_conserves_supply() {
    let mut a = chain(Order::Unordered, 0);
    let mut b = chain(Order::Unordered, 0);
    fund(&mut a, "alice", "uatom", 500);
    let supply_before = supply(&a, "uatom");
    send_transfer(&mut a, &transfer("uatom", 100, 50)).unwrap();
    assert_eq!(balance(&a, "alice", "uatom"), 400);
    assert_eq!(balance(&a, &escrow(&a), "uatom"), 100);
    assert_eq!(supply(&a, "uatom"), supply_before);

    // Each chain's channel-0 is the other's counterparty.
    let d = data("uatom", "100", "alice", "bob");
    let on_b = packet(1, 0, 0, &d, 50);
    let res = dispatch(&mut b, recv(on_b, 5)).unwrap();
    assert!(!res.events.is_empty());
    assert_eq!(balance(&b, "bob", "transfer/channel-0/uatom"), 100);
    assert_eq!(supply(&b, "transfer/channel-0/uatom"), 100);

    let sent = packet(1, 0, 0, &d, 50);
    dispatch(&mut a, ack(sent, success_ack(), 5)).unwrap();
    assert_eq!(balance(&a, "alice", "uatom"), 400);
    assert_eq!(balance(&a, &escrow(&a), "uatom"), 100);
    assert_eq!(supply(&a, "uatom"), supply_before);
}

#[test]
fn replayed_packet_is_a_no_op() {
    let mut b = chain(Order::Unordered, 3);
    let d = data("uatom", "7", "alice", "bob");
    dispatch(&mut b, recv(packet(1, 3, 0, &d, 50), 5)).unwrap();
    let key = packet_store_key(&PortId::transfer(), &ChannelId::new(0), 1);
    assert!(b.packet_receipts.contains(&key));
    assert!(b.packet_acknowledgements.contains(&key));
    let res = dispatch(&mut b, recv(packet(1, 3, 0, &d, 50), 5)).unwrap();
    assert_eq!(res.events.len(), 0);
    assert_eq!(balance(&b, "bob", "transfer/channel-0/uatom"), 7);
    assert_eq!(supply(&b, "transfer/channel-0/uatom"), 7);
}

#[test]
fn ordered_channel_takes_packets_in_order() {
    let mut b = chain(Order::Ordered, 3);
    let d = data("uatom", "1", "alice", "bob");
    let err = dispatch(&mut b, recv(packet(2, 3, 0, &d, 50), 5)).err();
    assert_eq!(err, Some(Error::InvalidPacketSequence));
    dispatch(&mut b, recv(packet(1, 3, 0, &d, 50), 5)).unwrap();
    let next = IbcContext::sequence_of(&b.next_sequence_recv, &PortId::transfer(), &ChannelId::new(0));
    assert_eq!(next, Some(2));
    let err = dispatch(&mut b, recv(packet(1, 3, 0, &d, 50), 5)).err();
    assert_eq!(err, Some(Error::InvalidPacketSequence));
    dispatch(&mut b, recv(packet(2, 3, 0, &d, 50), 5)).unwrap();
    let next = IbcContext::sequence_of(&b.next_sequence_recv, &PortId::transfer(), &ChannelId::new(0));
    assert_eq!(next, Some(3));
}

#[test]
fn timeout_refunds_escrow_and_clears_commitment() {
    let mut a = chain(Order::Unordered, 3);
    fund(&mut a, "alice", "uatom", 100);
    send_transfer(&mut a, &transfer("uatom", 100, 36)).unwrap();
    assert_eq!(balance(&a, "alice", "uatom"), 0);
    let sent = packet(1, 0, 3, &data("uatom", "100", "alice", "bob"), 36);
    let early = dispatch(&mut a, timeout(packet(1, 0, 3, &data("uatom", "100", "alice", "bob"), 36), 5));
    assert_eq!(early.err(), Some(Error::PacketNotTimedOut));
    update_client(&mut a, 37);
    dispatch(&mut a, timeout(sent, 37)).unwrap();
    assert_eq!(balance(&a, "alice", "uatom"), 100);
    assert_eq!(balance(&a, &escrow(&a), "uatom"), 0);
    let key = packet_store_key(&PortId::transfer(), &ChannelId::new(0), 1);
    assert!(!a.packet_commitments.contains(&key));
}

#[test]
fn a_packet_is_settled_once() {
    let mut a = chain(Order::Unordered, 3);
    fund(&mut a, "alice", "uatom", 100);
    send_transfer(&mut a, &transfer("uatom", 60, 36)).unwrap();
    let d = data("uatom", "60", "alice", "bob");
    dispatch(&mut a, ack(packet(1, 0, 3, &d, 36), success_ack(), 5)).unwrap();
    update_client(&mut a, 40);
    let again = dispatch(&mut a, timeout(packet(1, 0, 3, &d, 36), 40));
    assert_eq!(again.err(), Some(Error::PacketCommitmentNotFound));
    let twice = dispatch(&mut a, ack(packet(1, 0, 3, &d, 36), success_ack(), 5));
    assert_eq!(twice.err(), Some(Error::PacketCommitmentNotFound));
}

#[test]
fn error_ack_refunds_the_sender() {
    let mut a = chain(Order::Unordered, 3);
    fund(&mut a, "alice", "uatom", 100);
    send_transfer(&mut a, &transfer("uatom", 30, 36)).unwrap();
    let d = data("uatom", "30", "alice", "bob");
    dispatch(&mut a, ack(packet(1, 0, 3, &d, 36), error_ack(TransferError::InsufficientFunds), 5)).unwrap();
    assert_eq!(balance(&a, "alice", "uatom"), 100);
}

#[test]
fn voucher_send_burns_and_returns_home() {
    let mut a = chain(Order::Unordered, 3);
    fund(&mut a, "alice", "transfer/channel-0/stake", 50);
    send_transfer(&mut a, &transfer("transfer/channel-0/stake", 20, 36)).unwrap();
    assert_eq!(balance(&a, "alice", "transfer/channel-0/stake"), 30);
    assert_eq!(supply(&a, "transfer/channel-0/stake"), 30);
}

#[test]
fn recv_of_bad_data_writes_an_error_ack() {
    let module = TransferModule::new();
    let mut out = ModuleExtras::empty();
    let mut p = packet(1, 3, 0, &data("uatom", "1", "a", "b"), 50);
    p.data = b"not json".to_vec();
    match on_recv_packet(&module, &mut out, &p, &signer()) {
        OnRecvPacketAck::Failed(a) => {
            assert_eq!(a, error_ack(TransferError::PacketDataDeserialization))
        },
        other => panic!("unexpected ack {:?}", other),
    }
    assert_eq!(out.events.len(), 0);
    let p = packet(1, 3, 0, &data("uatom", "1x", "a", "b"), 50);
    match on_recv_packet(&module, &mut out, &p, &signer()) {
        OnRecvPacketAck::Failed(a) => assert_eq!(a, error_ack(TransferError::InvalidAmount)),
        other => panic!("unexpected ack {:?}", other),
    }
    assert_eq!(out.events.len(), 1);
    let attrs: Vec<(String, String)> =
        out.events[0].attributes.iter().map(|a| (a.key.clone(), a.value.clone())).collect();
    assert_eq!(attrs[0], ("receiver".to_string(), "b".to_string()));
    assert_eq!(attrs[3], ("success".to_string(), "false".to_string()));
}

#[test]
fn recv_of_returning_token_unescrows() {
    let module = TransferModule::new();
    let mut out = ModuleExtras::empty();
    let p = packet(1, 3, 0, &data("transfer/channel-3/uatom", "5", "a", "b"), 50);
    match on_recv_packet(&module, &mut out, &p, &signer()) {
        OnRecvPacketAck::Successful(a, RecvWrite::Unescrow { escrow, receiver, coin }) => {
            assert_eq!(a, success_ack());
            assert_eq!(receiver, "b");
            assert_eq!(coin.denom, "uatom");
            assert_eq!(coin.amount, 5);
            assert_eq!(escrow, module.get_channel_escrow_address(&PortId::transfer(), &ChannelId::new(0)));
        },
        other => panic!("unexpected ack {:?}", other),
    }
    assert_eq!(out.events.len(), 1);
}

#[test]
fn ack_of_bad_bytes_is_refused() {
    let mut module = TransferModule::new();
    let mut out = ModuleExtras::empty();
    let p = packet(1, 0, 3, &data("uatom", "1", "a", "b"), 50);
    let r = on_acknowledgement_packet(&mut module, &mut out, &p, &b"{}".to_vec(), &signer());
    assert_eq!(r.err(), Some(TransferError::AckDeserialization));
    assert_eq!(out.events.len(), 0);
    let r = on_acknowledgement_packet(&mut module, &mut out, &p, &success_ack(), &signer());
    assert!(r.is_ok());
    assert_eq!(out.events.len(), 2);
    let r = on_acknowledgement_packet(&mut module, &mut out, &p, &error_ack(TransferError::Overflow), &signer());
    assert_eq!(r.err(), Some(TransferError::InsufficientFunds));
    assert_eq!(out.events.len(), 2);
    let mut bad = packet(1, 0, 3, &data("uatom", "1", "a", "b"), 50);
    bad.data = vec![1, 2, 3];
    let r = on_acknowledgement_packet(&mut module, &mut out, &bad, &success_ack(), &signer());
    assert_eq!(r.err(), Some(TransferError::PacketDataDeserialization));
}

#[test]
fn packet_data_encoding_is_canonical_json() {
    let d = data("uatom", "100", "alice", "bob");
    let bytes = encode_packet_data(&d);
    assert_eq!(
        String::from_utf8(bytes.clone()).unwrap(),
        r#"{"amount":"100","denom":"uatom","receiver":"bob","sender":"alice"}"#
    );
    let back = decode_packet_data(&bytes).unwrap();
    assert_eq!(back.denom, "uatom");
    assert_eq!(back.amount, "100");
    assert_eq!(back.sender, "alice");
    assert_eq!(back.receiver, "bob");
    let reordered = br#"{"sender":"s","receiver":"r","denom":"d","amount":"1"}"#;
    let d2 = decode_packet_data(reordered).unwrap();
    assert_eq!((d2.denom.as_str(), d2.amount.as_str()), ("d", "1"));
    assert!(decode_packet_data(br#"{"denom":"d"}"#).is_none());
    let quoted = encode_packet_data(&data("d", "1", "a\"b", "r"));
    assert_eq!(
        String::from_utf8(quoted.clone()).unwrap(),
        r#"{"amount":"1","denom":"d","receiver":"r","sender":"a\"b"}"#
    );
    assert_eq!(decode_packet_data(&quoted).unwrap().sender, "a\"b");
}

#[test]
fn acknowledgements_encode_and_decode() {
    assert_eq!(String::from_utf8(success_ack()).unwrap(), r#"{"result":"AQ=="}"#);
    assert_eq!(
        String::from_utf8(error_ack(TransferError::InvalidAmount)).unwrap(),
        r#"{"error":"error handling packet on destination chain: see events for details: invalid_amount"}"#
    );
    assert_eq!(decode_ack(&success_ack()), Some(true));
    assert_eq!(decode_ack(&error_ack(TransferError::Overflow)), Some(false));
    assert_eq!(decode_ack(b"[]"), None);
}

#[test]
fn amounts_parse_as_decimal() {
    assert_eq!(parse_amount("0"), Some(0));
    assert_eq!(parse_amount("100"), Some(100));
    assert_eq!(parse_amount(""), None);
    assert_eq!(parse_amount("12a"), None);
    assert_eq!(parse_amount("-1"), None);
    assert_eq!(parse_amount("340282366920938463463374607431768211455"), Some(u128::MAX));
    assert_eq!(parse_amount("340282366920938463463374607431768211456"), None);
    assert_eq!(amount_string(0), "0");
    assert_eq!(amount_string(u128::MAX), "340282366920938463463374607431768211455");
}

#[test]
fn identifiers_and_hex() {
    assert_eq!(ChannelId::new(141).0, "channel-141");
    assert_eq!(ConnectionId::new(0).0, "connection-0");
    assert_eq!(ClientId::new(12).0, "07-tendermint-12");
    assert_eq!(to_hex(&vec![0xab, 0x01, 0x00, 0xff]), "ab0100ff");
    assert_eq!(Version::default(), Version::empty());
    assert!(Version::empty().is_empty());
    assert!(!Version::ics20().is_empty());
    assert_eq!(Version::from("x".to_string()), Version::new("x".to_string()));
}

#[test]
fn bank_errors() {
    let mut bank = Bank::new();
    let coin = Coin { denom: "d".to_string(), amount: 10 };
    let r = bank.send_coins(&"a".to_string(), &"b".to_string(), &coin);
    assert_eq!(r.err(), Some(TransferError::InsufficientFunds));
    assert_eq!(bank.burn_coins(&"a".to_string(), &coin).err(), Some(TransferError::InsufficientFunds));
    bank.mint_coins(&"a".to_string(), &Coin { denom: "d".to_string(), amount: u128::MAX }).unwrap();
    assert_eq!(bank.mint_coins(&"b".to_string(), &coin).err(), Some(TransferError::Overflow));
    bank.send_coins(&"a".to_string(), &"b".to_string(), &coin).unwrap();
    assert_eq!(bank.balance("b", "d"), 10);
    assert_eq!(bank.total_supply("d"), u128::MAX);
}

#[test]
fn routing_errors() {
    let mut a = chain(Order::Unordered, 3);
    let d = data("uatom", "1", "alice", "bob");
    let mut p = packet(1, 3, 0, &d, 50);
    p.destination_port = PortId::from_string("unbound".to_string());
    assert_eq!(dispatch(&mut a, recv(p, 5)).err(), Some(Error::UnknownPort));
    a.scope_port_to_module(&PortId::from_string("orphan".to_string()), ModuleId::from_string("none".to_string()));
    let mut p = packet(1, 3, 0, &d, 50);
    p.destination_port = PortId::from_string("orphan".to_string());
    assert_eq!(dispatch(&mut a, recv(p, 5)).err(), Some(Error::RouteNotFound));
    let p = packet(1, 3, 9, &d, 50);
    assert_eq!(dispatch(&mut a, recv(p, 5)).err(), Some(Error::ChannelNotFound));
    let p = packet(1, 4, 0, &d, 50);
    assert_eq!(dispatch(&mut a, recv(p, 5)).err(), Some(Error::InvalidCounterparty));
    let p = packet(1, 3, 0, &d, 10);
    assert_eq!(dispatch(&mut a, recv(p, 5)).err(), Some(Error::PacketTimedOut));
    let p = packet(1, 3, 0, &d, 50);
    assert_eq!(dispatch(&mut a, recv(p, 6)).err(), Some(Error::ProofVerificationFailed));
    let p = packet(0, 3, 0, &d, 50);
    assert_eq!(dispatch(&mut a, recv(p, 5)).err(), Some(Error::ZeroPacketSequence));
    let mut no_timeout = packet(1, 0, 3, &d, 0);
    no_timeout.timeout_timestamp = 0;
    assert_eq!(dispatch(&mut a, timeout(no_timeout, 5)).err(), Some(Error::PacketHasNoTimeout));
    let r = dispatch(&mut a, ack(packet(5, 0, 3, &d, 50), success_ack(), 5));
    assert_eq!(r.err(), Some(Error::PacketCommitmentNotFound));
}

#[test]
fn channel_states_only_move_forward() {
    let mut a = chain(Order::Unordered, 3);
    let ack_msg = || {
        Ics26Envelope::Ics4ChannelMsg(ChannelMsg::ChannelOpenAck(MsgChannelOpenAck {
            port_id: PortId::transfer(),
            channel_id: ChannelId::new(0),
            counterparty_channel_id: ChannelId::new(3),
            counterparty_version: Version::ics20(),
            proof_height: Height::new(0, 5),
            signer: signer(),
        }))
    };
    assert_eq!(dispatch(&mut a, ack_msg()).err(), Some(Error::InvalidChannelState));
    let close = Ics26Envelope::Ics4ChannelMsg(ChannelMsg::ChannelCloseConfirm(MsgChannelCloseConfirm {
        port_id: PortId::transfer(),
        channel_id: ChannelId::new(0),
        proof_height: Height::new(0, 5),
        signer: signer(),
    }));
    dispatch(&mut a, close).unwrap();
    assert_eq!(a.channel_end(&PortId::transfer(), &ChannelId::new(0)).unwrap().state, State::Closed);
    assert_eq!(dispatch(&mut a, ack_msg()).err(), Some(Error::InvalidChannelState));
    let confirm = Ics26Envelope::Ics4ChannelMsg(ChannelMsg::ChannelOpenConfirm(MsgChannelOpenConfirm {
        port_id: PortId::transfer(),
        channel_id: ChannelId::new(0),
        proof_height: Height::new(0, 5),
        signer: signer(),
    }));
    assert_eq!(dispatch(&mut a, confirm).err(), Some(Error::InvalidChannelState));
    assert_eq!(a.channel_end(&PortId::transfer(), &ChannelId::new(0)).unwrap().state, State::Closed);
}

#[test]
fn ordered_timeout_closes_the_channel() {
    let mut a = chain(Order::Ordered, 3);
    fund(&mut a, "alice", "uatom", 10);
    send_transfer(&mut a, &transfer("uatom", 10, 20)).unwrap();
    update_client(&mut a, 25);
    let sent = packet(1, 0, 3, &data("uatom", "10", "alice", "bob"), 20);
    let msg = Ics26Envelope::Ics4PacketMsg(PacketMsg::TimeoutPacket(MsgTimeout {
        packet: sent,
        next_sequence_recv: 0,
        proof_height: Height::new(0, 25),
        signer: signer(),
    }));
    dispatch(&mut a, msg).unwrap();
    assert_eq!(a.channel_end(&PortId::transfer(), &ChannelId::new(0)).unwrap().state, State::Closed);
    assert_eq!(balance(&a, "alice", "uatom"), 10);
}

#[test]
fn version_parses_from_any_string() {
    let v: Version = "ics20-1".parse().unwrap();
    assert_eq!(v, Version::ics20());
    let e: Version = "".parse().unwrap();
    assert!(e.is_empty());
    assert_eq!(v.as_str(), "ics20-1");
}

#[test]
fn misbehaviour_freezes_the_client() {
    let mut b = chain(Order::Unordered, 3);
    let evidence = |ta: u64, tb: u64| {
        Ics26Envelope::Ics2Msg(ClientMsg::SubmitMisbehaviour(MsgSubmitMisbehaviour {
            client_id: ClientId::new(0),
            height: Height::new(0, 5),
            timestamp_a: ta,
            timestamp_b: tb,
            signer: signer(),
        }))
    };
    assert_eq!(dispatch(&mut b, evidence(7, 7)).err(), Some(Error::InvalidMisbehaviour));
    dispatch(&mut b, evidence(7, 8)).unwrap();
    assert_eq!(dispatch(&mut b, evidence(7, 9)).err(), Some(Error::ClientFrozen));
    let d = data("uatom", "1", "alice", "bob");
    let r = dispatch(&mut b, recv(packet(1, 3, 0, &d, 50), 5));
    assert_eq!(r.err(), Some(Error::ProofVerificationFailed));
    let upd = Ics26Envelope::Ics2Msg(ClientMsg::UpdateClient(MsgUpdateClient {
        client_id: ClientId::new(0),
        height: Height::new(0, 9),
        timestamp: 9,
        signer: signer(),
    }));
    assert_eq!(dispatch(&mut b, upd).err(), Some(Error::ClientFrozen));
}
