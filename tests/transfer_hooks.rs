use ibc::channel::{Counterparty, Order};
use ibc::error::TransferError;
use ibc::ident::{ChannelId, ConnectionId, PortId};
use ibc::transfer::{
    cosmos_adr028_escrow_address, on_chan_close_confirm, on_chan_close_init, on_chan_open_ack,
    on_chan_open_confirm, on_chan_open_init, on_chan_open_try, TransferModule,
};
use ibc::version::Version;

fn get_defaults() -> (TransferModule, Order, Vec<ConnectionId>, PortId, ChannelId, Counterparty) {
    let ctx = TransferModule::new();
    let order = Order::Unordered;
    let connection_hops = vec![ConnectionId::new(1)];
    let port_id = PortId::transfer();
    let channel_id = ChannelId::new(1);
    let counterparty = Counterparty::new(port_id.duplicate(), Some(channel_id.duplicate()));
    (ctx, order, connection_hops, port_id, channel_id, counterparty)
}

fn escrow_bech32(port_id: &str, channel_id: &str) -> String {
    let port_id = PortId::from_string(port_id.to_string());
    let channel_id = ChannelId::from_string(channel_id.to_string());
    let addr = cosmos_adr028_escrow_address(&port_id, &channel_id);
    subtle_encoding::bech32::encode("cosmos", addr)
}

#[test]
fn test_cosmos_escrow_address() {
    assert_eq!(
        escrow_bech32("transfer", "channel-141"),
        "cosmos1x54ltnyg88k0ejmk8ytwrhd3ltm84xehrnlslf".to_owned()
    );
    assert_eq!(
        escrow_bech32("transfer", "channel-207"),
        "cosmos1ju6tlfclulxumtt2kglvnxduj5d93a64r5czge".to_owned()
    );
    assert_eq!(
        escrow_bech32("transfer", "channel-187"),
        "cosmos177x69sver58mcfs74x6dg0tv6ls4s3xmmcaw53".to_owned()
    );
}

#[test]
fn test_on_chan_open_init_empty_version() {
    let (mut ctx, order, connection_hops, port_id, channel_id, counterparty) = get_defaults();
    let in_version = Version::new("".to_string());
    let (_, out_version) = on_chan_open_init(
        &mut ctx,
        order,
        &connection_hops,
        &port_id,
        &channel_id,
        &counterparty,
        &in_version,
    )
    .unwrap();
    assert_eq!(out_version, Version::ics20());
}

#[test]
fn test_on_chan_open_init_ics20_version() {
    let (mut ctx, order, connection_hops, port_id, channel_id, counterparty) = get_defaults();
    let in_version = Version::ics20();
    let (_, out_version) = on_chan_open_init(
        &mut ctx,
        order,
        &connection_hops,
        &port_id,
        &channel_id,
        &counterparty,
        &in_version,
    )
    .unwrap();
    assert_eq!(out_version, Version::ics20());
}

#[test]
fn test_on_chan_open_init_incorrect_version() {
    let (mut ctx, order, connection_hops, port_id, channel_id, counterparty) = get_defaults();
    let in_version = Version::new("some-unsupported-version".to_string());
    let res = on_chan_open_init(
        &mut ctx,
        order,
        &connection_hops,
        &port_id,
        &channel_id,
        &counterparty,
        &in_version,
    );
    assert!(res.is_err());
}

#[test]
fn test_on_chan_open_try_counterparty_correct_version() {
    let (mut ctx, order, connection_hops, port_id, channel_id, counterparty) = get_defaults();
    let counterparty_version = Version::ics20();
    let (_, out_version) = on_chan_open_try(
        &mut ctx,
        order,
        &connection_hops,
        &port_id,
        &channel_id,
        &counterparty,
        &counterparty_version,
    )
    .unwrap();
    assert_eq!(out_version, Version::ics20());
}

#[test]
fn test_on_chan_open_try_counterparty_incorrect_version() {
    let (mut ctx, order, connection_hops, port_id, channel_id, counterparty) = get_defaults();
    let counterparty_version = Version::new("some-unsupported-version".to_string());
    let res = on_chan_open_try(
        &mut ctx,
        order,
        &connection_hops,
        &port_id,
        &channel_id,
        &counterparty,
        &counterparty_version,
    );
    assert!(res.is_err());
}

#[test]
fn escrow_address_is_deterministic_and_twenty_bytes() {
    let port = PortId::transfer();
    let a = cosmos_adr028_escrow_address(&port, &ChannelId::new(141));
    let b = cosmos_adr028_escrow_address(&port, &ChannelId::new(141));
    let c = cosmos_adr028_escrow_address(&port, &ChannelId::new(142));
    assert_eq!(a.len(), 20);
    assert_eq!(a, b);
    assert_ne!(a, c);
}

#[test]
fn open_init_rejects_ordered_channels() {
    let (mut ctx, _, connection_hops, port_id, channel_id, counterparty) = get_defaults();
    let res = on_chan_open_init(
        &mut ctx,
        Order::Ordered,
        &connection_hops,
        &port_id,
        &channel_id,
        &counterparty,
        &Version::empty(),
    );
    assert_eq!(res.err(), Some(TransferError::ChannelNotUnordered));
}

#[test]
fn open_try_rejects_ordered_channels() {
    let (mut ctx, _, connection_hops, port_id, channel_id, counterparty) = get_defaults();
    let res = on_chan_open_try(
        &mut ctx,
        Order::Ordered,
        &connection_hops,
        &port_id,
        &channel_id,
        &counterparty,
        &Version::ics20(),
    );
    assert_eq!(res.err(), Some(TransferError::ChannelNotUnordered));
}

#[test]
fn open_init_rejects_foreign_port() {
    let (mut ctx, order, connection_hops, _, channel_id, counterparty) = get_defaults();
    let port = PortId::from_string("other".to_string());
    let res = on_chan_open_init(
        &mut ctx,
        order,
        &connection_hops,
        &port,
        &channel_id,
        &counterparty,
        &Version::empty(),
    );
    assert_eq!(res.err(), Some(TransferError::InvalidPort));
}

#[test]
fn open_init_error_is_invalid_version() {
    let (mut ctx, order, connection_hops, port_id, channel_id, counterparty) = get_defaults();
    let res = on_chan_open_init(
        &mut ctx,
        order,
        &connection_hops,
        &port_id,
        &channel_id,
        &counterparty,
        &Version::new("ics20-2".to_string()),
    );
    assert_eq!(res.err(), Some(TransferError::InvalidVersion));
}

#[test]
fn open_ack_checks_counterparty_version() {
    let (mut ctx, _, _, port_id, channel_id, _) = get_defaults();
    assert!(on_chan_open_ack(&mut ctx, &port_id, &channel_id, &Version::ics20()).is_ok());
    let res = on_chan_open_ack(&mut ctx, &port_id, &channel_id, &Version::empty());
    assert_eq!(res.err(), Some(TransferError::InvalidCounterpartyVersion));
}

#[test]
fn close_init_always_fails_and_close_confirm_succeeds() {
    let (mut ctx, _, _, port_id, channel_id, _) = get_defaults();
    let res = on_chan_close_init(&mut ctx, &port_id, &channel_id);
    let err = res.err().unwrap();
    assert_eq!(err, TransferError::CantCloseChannel);
    assert_eq!(err.code(), "cant_close_channel");
    assert!(on_chan_close_confirm(&mut ctx, &port_id, &channel_id).is_ok());
    assert!(on_chan_open_confirm(&mut ctx, &port_id, &channel_id).is_ok());
}
