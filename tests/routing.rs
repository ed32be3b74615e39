use ibc::bank::{BankKeeper, Coin};
use ibc::channel::{ChannelEnd, Counterparty, Height, IbcEvent, Order, Packet, State};
use ibc::clients::{
    ClientMsg, ConnectionMsg, MsgConnectionOpenAck, MsgConnectionOpenInit, MsgConnectionOpenTry,
    MsgCreateClient, MsgUpdateClient, MsgUpgradeClient,
};
use ibc::context::{channel_store_key, packet_store_key, IbcContext};
use ibc::error::{Error, TransferError};
use ibc::ident::{ChannelId, ClientId, ConnectionId, ModuleId, PortId};
use ibc::msgs::{
    ChannelMsg, MsgAcknowledgement, MsgChannelCloseConfirm, MsgChannelCloseInit,
    MsgChannelOpenAck, MsgChannelOpenConfirm, MsgChannelOpenInit, MsgChannelOpenTry,
    MsgRecvPacket, MsgTimeoutOnClose, PacketMsg,
};
use ibc::routing::{deliver, dispatch, Ics26Envelope};
use ibc::transfer::TransferModule;
use ibc::transfer_relay::{encode_packet_data, success_ack, PacketData};
use ibc::transfer_send::{send_transfer, MsgTransfer};
use ibc::version::Version;

fn signer() -> String {
    "cosmos1signer".to_string()
}

fn create_client(ctx: &mut IbcContext, height: u64) -> ClientId {
    let res = dispatch(
        ctx,
        Ics26Envelope::Ics2Msg(ClientMsg::CreateClient(MsgCreateClient {
            height: Height::new(0, height),
            timestamp: 1,
            signer: signer(),
        })),
    )
    .unwrap();
    match &res.events[0] {
        IbcEvent::CreateClient(id) => id.duplicate(),
        event => panic!("unexpected IBC event: {:?}", event),
    }
}

fn open_connection(ctx: &mut IbcContext, client_id: &ClientId, proof_height: u64) {
    dispatch(
        ctx,
        Ics26Envelope::Ics3Msg(ConnectionMsg::ConnectionOpenInit(MsgConnectionOpenInit {
            client_id: client_id.duplicate(),
            counterparty_client_id: client_id.duplicate(),
            signer: signer(),
        })),
    )
    .unwrap();
    dispatch(
        ctx,
        Ics26Envelope::Ics3Msg(ConnectionMsg::ConnectionOpenAck(MsgConnectionOpenAck {
            connection_id: ConnectionId::new(0),
            counterparty_connection_id: ConnectionId::new(0),
            proof_height: Height::new(0, proof_height),
            signer: signer(),
        })),
    )
    .unwrap();
}

fn add_transfer_route(ctx: &mut IbcContext) {
    ctx.add_route(ModuleId::transfer(), TransferModule::new());
    ctx.scope_port_to_module(&PortId::transfer(), ModuleId::transfer());
}

fn get_channel_events_ctx() -> IbcContext {
    let mut ctx = IbcContext::new(Height::new(0, 10), 1_000);
    let client_id = create_client(&mut ctx, 1);
    open_connection(&mut ctx, &client_id, 1);
    add_transfer_route(&mut ctx);
    ctx
}

fn channel_end(state: State, version: Version) -> ChannelEnd {
    ChannelEnd::new(
        state,
        Order::Unordered,
        Counterparty::new(PortId::transfer(), Some(ChannelId::new(0))),
        vec![ConnectionId::new(0)],
        version,
    )
}

fn with_channel(ctx: &mut IbcContext, end: ChannelEnd) {
    ctx.channels.insert(channel_store_key(&PortId::transfer(), &ChannelId::new(0)), end);
}

fn chan_msg(m: ChannelMsg) -> Ics26Envelope {
    Ics26Envelope::Ics4ChannelMsg(m)
}

#[test]
fn test_chan_open_init_event() {
    let mut ctx = get_channel_events_ctx();
    let msg = MsgChannelOpenInit {
        port_id: PortId::transfer(),
        channel: ChannelEnd::new(
            State::Init,
            Order::Unordered,
            Counterparty::new(PortId::transfer(), None),
            vec![ConnectionId::new(0)],
            Version::empty(),
        ),
        signer: signer(),
    };
    let res = dispatch(&mut ctx, chan_msg(ChannelMsg::ChannelOpenInit(msg))).unwrap();
    assert_eq!(res.events.len(), 1);
    let event = res.events.first().unwrap();
    assert!(matches!(event, IbcEvent::OpenInitChannel(_)));
}

#[test]
fn test_chan_open_try_event() {
    let mut ctx = get_channel_events_ctx();
    let msg = MsgChannelOpenTry {
        port_id: PortId::transfer(),
        channel: channel_end(State::TryOpen, Version::ics20()),
        counterparty_version: Version::ics20(),
        proof_height: Height::new(0, 1),
        signer: signer(),
    };
    let res = dispatch(&mut ctx, chan_msg(ChannelMsg::ChannelOpenTry(msg))).unwrap();
    assert_eq!(res.events.len(), 1);
    let event = res.events.first().unwrap();
    assert!(matches!(event, IbcEvent::OpenTryChannel(_)));
}

#[test]
fn test_chan_open_ack_event() {
    let mut ctx = get_channel_events_ctx();
    with_channel(&mut ctx, channel_end(State::Init, Version::default()));
    let msg = MsgChannelOpenAck {
        port_id: PortId::transfer(),
        channel_id: ChannelId::new(0),
        counterparty_channel_id: ChannelId::new(0),
        counterparty_version: Version::ics20(),
        proof_height: Height::new(0, 1),
        signer: signer(),
    };
    let res = dispatch(&mut ctx, chan_msg(ChannelMsg::ChannelOpenAck(msg))).unwrap();
    assert_eq!(res.events.len(), 1);
    let event = res.events.first().unwrap();
    assert!(matches!(event, IbcEvent::OpenAckChannel(_)));
}

#[test]
fn test_chan_open_confirm_event() {
    let mut ctx = get_channel_events_ctx();
    with_channel(&mut ctx, channel_end(State::TryOpen, Version::default()));
    let msg = MsgChannelOpenConfirm {
        port_id: PortId::transfer(),
        channel_id: ChannelId::new(0),
        proof_height: Height::new(0, 1),
        signer: signer(),
    };
    let res = dispatch(&mut ctx, chan_msg(ChannelMsg::ChannelOpenConfirm(msg))).unwrap();
    assert_eq!(res.events.len(), 1);
    let event = res.events.first().unwrap();
    assert!(matches!(event, IbcEvent::OpenConfirmChannel(_)));
}

/// The transfer application refuses to close a channel: the message fails
/// and the channel stays open.
#[test]
fn test_chan_close_init_event() {
    let mut ctx = get_channel_events_ctx();
    with_channel(&mut ctx, channel_end(State::Open, Version::default()));
    let msg = MsgChannelCloseInit {
        port_id: PortId::transfer(),
        channel_id: ChannelId::new(0),
        signer: signer(),
    };
    let res = dispatch(&mut ctx, chan_msg(ChannelMsg::ChannelCloseInit(msg)));
    assert_eq!(res.err(), Some(Error::AppModule(TransferError::CantCloseChannel)));
    let end = ctx.channel_end(&PortId::transfer(), &ChannelId::new(0)).unwrap();
    assert_eq!(end.state, State::Open);
}

#[test]
fn test_chan_close_confirm_event() {
    let mut ctx = get_channel_events_ctx();
    with_channel(&mut ctx, channel_end(State::Open, Version::default()));
    let msg = MsgChannelCloseConfirm {
        port_id: PortId::transfer(),
        channel_id: ChannelId::new(0),
        proof_height: Height::new(0, 1),
        signer: signer(),
    };
    let res = dispatch(&mut ctx, chan_msg(ChannelMsg::ChannelCloseConfirm(msg))).unwrap();
    assert_eq!(res.events.len(), 1);
    let event = res.events.first().unwrap();
    assert!(matches!(event, IbcEvent::CloseConfirmChannel(_)));
    let end = ctx.channel_end(&PortId::transfer(), &ChannelId::new(0)).unwrap();
    assert_eq!(end.state, State::Closed);
}

enum TestMsg {
    Ics26(Ics26Envelope),
    Ics20(MsgTransfer),
}

fn transfer_msg(amount: u128, timeout_height: Height) -> MsgTransfer {
    MsgTransfer {
        source_port: PortId::transfer(),
        source_channel: ChannelId::new(0),
        token: Coin { denom: "uatom".to_string(), amount },
        sender: "alice".to_string(),
        receiver: "bob".to_string(),
        timeout_height,
        timeout_timestamp: 0,
    }
}

/// The packet that `transfer_msg` sends with the given sequence.
fn sent_packet(sequence: u64, amount: u128, timeout_height: Height) -> Packet {
    let data = PacketData {
        denom: "uatom".to_string(),
        amount: amount.to_string(),
        sender: "alice".to_string(),
        receiver: "bob".to_string(),
    };
    Packet {
        sequence,
        source_port: PortId::transfer(),
        source_channel: ChannelId::new(0),
        destination_port: PortId::transfer(),
        destination_channel: ChannelId::new(7),
        data: encode_packet_data(&data),
        timeout_height,
        timeout_timestamp: 0,
    }
}

fn escrow_balance(ctx: &IbcContext) -> u128 {
    let module = &ctx.router[0].module;
    let escrow = ibc::transfer::Ics20Reader::get_channel_escrow_address(
        module,
        &PortId::transfer(),
        &ChannelId::new(0),
    );
    module.bank.balance(&escrow, "uatom")
}

#[test]
fn routing_module_and_keepers() {
    let mut ctx = IbcContext::new(Height::new(0, 10), 1_000);
    let client_id = create_client(&mut ctx, 5);
    add_transfer_route(&mut ctx);
    let funded = ctx.router[0]
        .module
        .mint_coins(&"alice".to_string(), &Coin { denom: "uatom".to_string(), amount: 1_000 });
    assert!(funded.is_ok());

    let update = |h: u64| {
        Ics26Envelope::Ics2Msg(ClientMsg::UpdateClient(MsgUpdateClient {
            client_id: client_id.duplicate(),
            height: Height::new(0, h),
            timestamp: 2 + h,
            signer: signer(),
        }))
    };
    let upgrade = |revision: u64, h: u64| {
        Ics26Envelope::Ics2Msg(ClientMsg::UpgradeClient(MsgUpgradeClient {
            client_id: client_id.duplicate(),
            height: Height::new(revision, h),
            timestamp: 500,
            signer: signer(),
        }))
    };
    let conn_try = |proof: u64| {
        Ics26Envelope::Ics3Msg(ConnectionMsg::ConnectionOpenTry(MsgConnectionOpenTry {
            client_id: client_id.duplicate(),
            counterparty_client_id: client_id.duplicate(),
            counterparty_connection_id: ConnectionId::new(0),
            proof_height: Height::new(0, proof),
            signer: signer(),
        }))
    };
    let chan_init = |conn: u64| {
        chan_msg(ChannelMsg::ChannelOpenInit(MsgChannelOpenInit {
            port_id: PortId::transfer(),
            channel: ChannelEnd::new(
                State::Init,
                Order::Unordered,
                Counterparty::new(PortId::transfer(), None),
                vec![ConnectionId::new(conn)],
                Version::empty(),
            ),
            signer: signer(),
        }))
    };
    let recv_data = PacketData {
        denom: "transfer/channel-7/uatom".to_string(),
        amount: "100".to_string(),
        sender: "carol".to_string(),
        receiver: "bob".to_string(),
    };
    let recv_packet = || Packet {
        sequence: 1,
        source_port: PortId::transfer(),
        source_channel: ChannelId::new(7),
        destination_port: PortId::transfer(),
        destination_channel: ChannelId::new(0),
        data: encode_packet_data(&recv_data),
        timeout_height: Height::new(0, 35),
        timeout_timestamp: 0,
    };

    let tests: Vec<(&str, TestMsg, bool)> = vec![
        ("Client update successful", TestMsg::Ics26(update(34)), true),
        ("Client update fails due to stale header", TestMsg::Ics26(update(34)), false),
        (
            "Connection open init succeeds",
            TestMsg::Ics26(Ics26Envelope::Ics3Msg(ConnectionMsg::ConnectionOpenInit(
                MsgConnectionOpenInit {
                    client_id: client_id.duplicate(),
                    counterparty_client_id: client_id.duplicate(),
                    signer: signer(),
                },
            ))),
            true,
        ),
        (
            "Connection open try fails due to InvalidConsensusHeight (too high)",
            TestMsg::Ics26(conn_try(35)),
            false,
        ),
        ("Connection open try succeeds", TestMsg::Ics26(conn_try(5)), true),
        (
            "Connection open ack succeeds",
            TestMsg::Ics26(Ics26Envelope::Ics3Msg(ConnectionMsg::ConnectionOpenAck(
                MsgConnectionOpenAck {
                    connection_id: ConnectionId::new(0),
                    counterparty_connection_id: ConnectionId::new(1),
                    proof_height: Height::new(0, 5),
                    signer: signer(),
                },
            ))),
            true,
        ),
        ("Channel open init succeeds", TestMsg::Ics26(chan_init(0)), true),
        ("Channel open init fail due to missing connection", TestMsg::Ics26(chan_init(590)), false),
        (
            "Channel open try succeeds",
            TestMsg::Ics26(chan_msg(ChannelMsg::ChannelOpenTry(MsgChannelOpenTry {
                port_id: PortId::transfer(),
                channel: ChannelEnd::new(
                    State::TryOpen,
                    Order::Unordered,
                    Counterparty::new(PortId::transfer(), Some(ChannelId::new(8))),
                    vec![ConnectionId::new(0)],
                    Version::ics20(),
                ),
                counterparty_version: Version::ics20(),
                proof_height: Height::new(0, 5),
                signer: signer(),
            }))),
            true,
        ),
        (
            "Channel open ack succeeds",
            TestMsg::Ics26(chan_msg(ChannelMsg::ChannelOpenAck(MsgChannelOpenAck {
                port_id: PortId::transfer(),
                channel_id: ChannelId::new(0),
                counterparty_channel_id: ChannelId::new(7),
                counterparty_version: Version::ics20(),
                proof_height: Height::new(0, 5),
                signer: signer(),
            }))),
            true,
        ),
        ("Packet send", TestMsg::Ics20(transfer_msg(100, Height::new(0, 35))), true),
        ("Client update successful #2", TestMsg::Ics26(update(35)), true),
        (
            "Receive packet",
            TestMsg::Ics26(Ics26Envelope::Ics4PacketMsg(PacketMsg::RecvPacket(MsgRecvPacket {
                packet: recv_packet(),
                proof_height: Height::new(0, 35),
                signer: signer(),
            }))),
            true,
        ),
        (
            "Re-Receive packet",
            TestMsg::Ics26(Ics26Envelope::Ics4PacketMsg(PacketMsg::RecvPacket(MsgRecvPacket {
                packet: recv_packet(),
                proof_height: Height::new(0, 35),
                signer: signer(),
            }))),
            true,
        ),
        (
            "Ack packet",
            TestMsg::Ics26(Ics26Envelope::Ics4PacketMsg(PacketMsg::AckPacket(MsgAcknowledgement {
                packet: sent_packet(1, 100, Height::new(0, 35)),
                acknowledgement: success_ack(),
                proof_height: Height::new(0, 35),
                signer: signer(),
            }))),
            true,
        ),
        ("Packet send", TestMsg::Ics20(transfer_msg(100, Height::new(0, 36))), true),
        ("Client update successful", TestMsg::Ics26(update(36)), true),
        ("Transfer message no timeout", TestMsg::Ics20(transfer_msg(10, Height::zero())), true),
        (
            "Transfer message no timeout nor timestamp",
            TestMsg::Ics20(transfer_msg(10, Height::zero())),
            true,
        ),
        (
            "Channel close init is refused by the transfer module",
            TestMsg::Ics26(chan_msg(ChannelMsg::ChannelCloseInit(MsgChannelCloseInit {
                port_id: PortId::transfer(),
                channel_id: ChannelId::new(0),
                signer: signer(),
            }))),
            false,
        ),
        (
            "Channel close confirm fails cause channel is not open",
            TestMsg::Ics26(chan_msg(ChannelMsg::ChannelCloseConfirm(MsgChannelCloseConfirm {
                port_id: PortId::transfer(),
                channel_id: ChannelId::new(1),
                proof_height: Height::new(0, 5),
                signer: signer(),
            }))),
            false,
        ),
        (
            "Timeout on close",
            TestMsg::Ics26(Ics26Envelope::Ics4PacketMsg(PacketMsg::TimeoutOnClosePacket(
                MsgTimeoutOnClose {
                    packet: sent_packet(2, 100, Height::new(0, 36)),
                    next_sequence_recv: 1,
                    proof_height: Height::new(0, 36),
                    signer: signer(),
                },
            ))),
            true,
        ),
        ("Client upgrade successful", TestMsg::Ics26(upgrade(1, 2)), true),
        ("Client upgrade un-successful", TestMsg::Ics26(upgrade(1, 1)), false),
    ];

    for (name, msg, want_pass) in tests {
        let escrow_before = escrow_balance(&ctx);
        let res = match msg {
            TestMsg::Ics26(m) => dispatch(&mut ctx, m).map(|out| out.events.len()),
            TestMsg::Ics20(m) => send_transfer(&mut ctx, &m).map(|out| out.events.len()),
        };
        assert_eq!(
            want_pass,
            res.is_ok(),
            "ICS26 routing dispatch test '{}' failed with result: {:?}",
            name,
            res
        );
        match name {
            "Packet send" => assert_eq!(escrow_balance(&ctx), escrow_before + 100),
            "Receive packet" => {
                assert_eq!(escrow_balance(&ctx), escrow_before - 100);
                assert_eq!(ctx.router[0].module.bank.balance("bob", "uatom"), 100);
            },
            "Re-Receive packet" => {
                assert_eq!(res.unwrap(), 0);
                assert_eq!(escrow_balance(&ctx), escrow_before);
            },
            "Ack packet" => {
                let key = packet_store_key(&PortId::transfer(), &ChannelId::new(0), 1);
                assert!(!ctx.packet_commitments.contains(&key));
            },
            "Timeout on close" => {
                assert_eq!(escrow_balance(&ctx), escrow_before - 100);
                let key = packet_store_key(&PortId::transfer(), &ChannelId::new(0), 2);
                assert!(!ctx.packet_commitments.contains(&key));
            },
            _ => {},
        }
    }
}

#[test]
fn deliver_returns_events_and_log() {
    let mut ctx = get_channel_events_ctx();
    let msg = MsgChannelOpenInit {
        port_id: PortId::transfer(),
        channel: ChannelEnd::new(
            State::Init,
            Order::Unordered,
            Counterparty::new(PortId::transfer(), None),
            vec![ConnectionId::new(0)],
            Version::empty(),
        ),
        signer: signer(),
    };
    let receipt = deliver(&mut ctx, chan_msg(ChannelMsg::ChannelOpenInit(msg))).unwrap();
    assert_eq!(receipt.log, vec!["success: channel open init".to_string()]);
    match &receipt.events[0] {
        IbcEvent::OpenInitChannel(a) => {
            assert_eq!(a.channel_id.0, "channel-0");
            assert_eq!(a.version.as_ref().unwrap(), &Version::ics20());
        },
        other => panic!("unexpected IBC event: {:?}", other),
    }
}
