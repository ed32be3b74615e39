//! The fungible-token transfer application: its channel handshake hooks and
//! its escrow accounts.
use vstd::prelude::*;
use vstd::utf8::encode_utf8;
use crate::bank::{Bank, BankKeeper, Coin};
use crate::channel::{Counterparty, ModuleExtras, Order};
use crate::error::TransferError;
use crate::hashing::{sha256, sha256_of};
use crate::ident::{transfer_port_view, ChannelId, ConnectionId, PortId};
use crate::version::{transfer_version_view, Version};

verus! {

/// The lower-case hexadecimal digit of `n`.
pub open spec fn hex_char(n: nat) -> char {
    if n < 10 {
        crate::ident::digit_char(n)
    } else if n == 10 { 'a' }
    else if n == 11 { 'b' }
    else if n == 12 { 'c' }
    else if n == 13 { 'd' }
    else if n == 14 { 'e' }
    else { 'f' }
}

/// The lower-case hexadecimal notation of `b`, two digits per byte.
pub open spec fn hex_of(b: Seq<u8>) -> Seq<char>
    decreases b.len(),
{
    if b.len() == 0 {
        Seq::empty()
    } else {
        hex_of(b.drop_last()).push(hex_char(b.last() as nat / 16)).push(
            hex_char(b.last() as nat % 16),
        )
    }
}

fn hex_str(n: u8) -> (r: &'static str)
    requires
        n < 16,
    ensures
        r@ == seq![hex_char(n as nat)],
{
    proof {
        reveal_strlit("0");
        reveal_strlit("1");
        reveal_strlit("2");
        reveal_strlit("3");
        reveal_strlit("4");
        reveal_strlit("5");
        reveal_strlit("6");
        reveal_strlit("7");
        reveal_strlit("8");
        reveal_strlit("9");
        reveal_strlit("a");
        reveal_strlit("b");
        reveal_strlit("c");
        reveal_strlit("d");
        reveal_strlit("e");
        reveal_strlit("f");
    }
    if n == 0 { "0" }
    else if n == 1 { "1" }
    else if n == 2 { "2" }
    else if n == 3 { "3" }
    else if n == 4 { "4" }
    else if n == 5 { "5" }
    else if n == 6 { "6" }
    else if n == 7 { "7" }
    else if n == 8 { "8" }
    else if n == 9 { "9" }
    else if n == 10 { "a" }
    else if n == 11 { "b" }
    else if n == 12 { "c" }
    else if n == 13 { "d" }
    else if n == 14 { "e" }
    else { "f" }
}

/// The lower-case hexadecimal notation of `b`.
pub fn to_hex(b: &Vec<u8>) -> (r: String)
    ensures
        r@ == hex_of(b@),
{
    let mut s = String::new();
    let mut i: usize = 0;
    while i < b.len()
        invariant
            i <= b.len(),
            s@ == hex_of(b@.subrange(0, i as int)),
        decreases b.len() - i,
    {
        let x = b[i];
        s.append(hex_str(x / 16));
        s.append(hex_str(x % 16));
        assert(b@.subrange(0, i + 1).drop_last() =~= b@.subrange(0, i as int));
        i = i + 1;
    }
    assert(b@.subrange(0, b@.len() as int) =~= b@);
    s
}

/// The bytes hashed for the escrow account of a port and channel: the
/// transfer version, a zero byte, then `<port>/<channel>`.
pub open spec fn escrow_preimage(port: Seq<char>, channel: Seq<char>) -> Seq<u8> {
    encode_utf8(transfer_version_view()) + seq![0u8] + encode_utf8(port + seq!['/'] + channel)
}

/// The first twenty bytes of a digest, or all of it where it is shorter.
pub open spec fn address_prefix(digest: Seq<u8>) -> Seq<u8> {
    if digest.len() > 20 {
        digest.subrange(0, 20)
    } else {
        digest
    }
}

/// The escrow address of a port and channel.
pub open spec fn escrow_address_of(port: Seq<char>, channel: Seq<char>) -> Seq<u8> {
    address_prefix(sha256_of(escrow_preimage(port, channel)))
}

/// The account that holds in escrow the coins sent out over a channel: the
/// escrow address in hexadecimal.
pub open spec fn escrow_account_of(port: Seq<char>, channel: Seq<char>) -> Seq<char> {
    hex_of(escrow_address_of(port, channel))
}

/// The bytes hashed for the escrow account of a port and channel.
pub fn escrow_preimage_bytes(port_id: &PortId, channel_id: &ChannelId) -> (r: Vec<u8>)
    ensures
        r@ == escrow_preimage(port_id@, channel_id@),
{
    proof {
        reveal_strlit("ics20-1");
        reveal_strlit("/");
    }
    let contents = port_id.0.clone().concat("/").concat(channel_id.as_str());
    let mut r: Vec<u8> = Vec::new();
    r.extend_from_slice("ics20-1".as_bytes());
    r.push(0u8);
    r.extend_from_slice(contents.as_str().as_bytes());
    assert("ics20-1"@ =~= transfer_version_view());
    assert(contents@ =~= port_id@ + seq!['/'] + channel_id@);
    assert(r@ =~= escrow_preimage(port_id@, channel_id@));
    r
}

/// The escrow address taken from a digest: its first twenty bytes.
pub fn escrow_address_from_digest(digest: Vec<u8>) -> (r: Vec<u8>)
    ensures
        r@ == address_prefix(digest@),
{
    let mut d = digest;
    if d.len() > 20 {
        d.truncate(20);
    }
    assert(d@ =~= address_prefix(digest@));
    d
}

/// The escrow address of a port and channel (ADR 028): the first twenty bytes
/// of the SHA-256 digest of the transfer version, a zero byte and
/// `<port>/<channel>`.
pub fn cosmos_adr028_escrow_address(port_id: &PortId, channel_id: &ChannelId) -> (r: Vec<u8>)
    ensures
        r@ == escrow_address_of(port_id@, channel_id@),
        r@.len() == 20,
{
    let pre = escrow_preimage_bytes(port_id, channel_id);
    let digest = sha256(pre.as_slice());
    escrow_address_from_digest(digest)
}

/// What the transfer application reads of its own configuration.
pub trait Ics20Reader {
    /// The port the application is bound to.
    spec fn bound_port(&self) -> Seq<char>;

    spec fn sending_enabled(&self) -> bool;

    spec fn receiving_enabled(&self) -> bool;

    /// The port the application is bound to.
    fn get_port(&self) -> (r: PortId)
        ensures
            r@ == self.bound_port(),
    ;

    /// The escrow account of a port and channel.
    fn get_channel_escrow_address(&self, port_id: &PortId, channel_id: &ChannelId) -> (r: String)
        ensures
            r@ == escrow_account_of(port_id@, channel_id@),
    ;

    fn is_send_enabled(&self) -> (r: bool)
        ensures
            r == self.sending_enabled(),
    ;

    fn is_receive_enabled(&self) -> (r: bool)
        ensures
            r == self.receiving_enabled(),
    ;
}

/// What the transfer application writes: balances.
pub trait Ics20Keeper: BankKeeper {
}

/// All the transfer application needs of its host.
pub trait Ics20Context: Ics20Keeper + Ics20Reader {
}

/// The transfer application's state: its port, its ledger and its switches.
pub struct TransferModule {
    pub port_id: PortId,
    pub bank: Bank,
    pub send_enabled: bool,
    pub receive_enabled: bool,
}

impl TransferModule {
    /// A transfer application bound to the `transfer` port, with an empty
    /// ledger and sending and receiving enabled.
    pub fn new() -> (r: Self)
        ensures
            r.bank.bank_wf(),
            r.port_id@ == transfer_port_view(),
            r.send_enabled && r.receive_enabled,
            forall|a: Seq<char>, d: Seq<char>| #[trigger] r.bank.balance_of(a, d) == 0,
            forall|d: Seq<char>| #[trigger] r.bank.supply_of(d) == 0,
    {
        TransferModule {
            port_id: PortId::transfer(),
            bank: Bank::new(),
            send_enabled: true,
            receive_enabled: true,
        }
    }
}

impl BankKeeper for TransferModule {
    open spec fn bank_wf(&self) -> bool {
        self.bank.bank_wf()
    }

    open spec fn balance_of(&self, account: Seq<char>, denom: Seq<char>) -> nat {
        self.bank.balance_of(account, denom)
    }

    open spec fn supply_of(&self, denom: Seq<char>) -> nat {
        self.bank.supply_of(denom)
    }

    fn send_coins(&mut self, from: &String, to: &String, amt: &Coin) -> (r: Result<
        (),
        TransferError,
    >) {
        self.bank.send_coins(from, to, amt)
    }

    fn mint_coins(&mut self, account: &String, amt: &Coin) -> (r: Result<(), TransferError>) {
        self.bank.mint_coins(account, amt)
    }

    fn burn_coins(&mut self, account: &String, amt: &Coin) -> (r: Result<(), TransferError>) {
        self.bank.burn_coins(account, amt)
    }
}

impl Ics20Reader for TransferModule {
    open spec fn bound_port(&self) -> Seq<char> {
        self.port_id@
    }

    open spec fn sending_enabled(&self) -> bool {
        self.send_enabled
    }

    open spec fn receiving_enabled(&self) -> bool {
        self.receive_enabled
    }

    fn get_port(&self) -> (r: PortId) {
        self.port_id.duplicate()
    }

    fn get_channel_escrow_address(&self, port_id: &PortId, channel_id: &ChannelId) -> (r: String) {
        to_hex(&cosmos_adr028_escrow_address(port_id, channel_id))
    }

    fn is_send_enabled(&self) -> (r: bool) {
        self.send_enabled
    }

    fn is_receive_enabled(&self) -> (r: bool) {
        self.receive_enabled
    }
}

impl Ics20Keeper for TransferModule {
}

impl Ics20Context for TransferModule {
}

/// The outcome of the open init hook: it accepts unordered channels on its
/// own port whose proposed version is empty or the transfer version, and then
/// chooses the transfer version.
pub open spec fn open_init_outcome(order: Order, port: Seq<char>, bound: Seq<char>, proposed: Seq<
    char,
>) -> Result<Seq<char>, TransferError> {
    if order != Order::Unordered {
        Err(TransferError::ChannelNotUnordered)
    } else if port != bound {
        Err(TransferError::InvalidPort)
    } else if proposed.len() != 0 && proposed != transfer_version_view() {
        Err(TransferError::InvalidVersion)
    } else {
        Ok(transfer_version_view())
    }
}

/// The outcome of the open try hook: it accepts unordered channels whose
/// counterparty speaks the transfer version, and then chooses that version.
pub open spec fn open_try_outcome(order: Order, counterparty_version: Seq<char>) -> Result<
    Seq<char>,
    TransferError,
> {
    if order != Order::Unordered {
        Err(TransferError::ChannelNotUnordered)
    } else if counterparty_version != transfer_version_view() {
        Err(TransferError::InvalidCounterpartyVersion)
    } else {
        Ok(transfer_version_view())
    }
}

/// The chosen version and the extras of an accepted open hook, or the error.
pub open spec fn hook_matches(
    r: Result<(ModuleExtras, Version), TransferError>,
    outcome: Result<Seq<char>, TransferError>,
) -> bool {
    match (r, outcome) {
        (Ok((extras, v)), Ok(w)) => v@ == w && extras.events@.len() == 0 && extras.log@.len()
            == 0,
        (Err(e), Err(f)) => e == f,
        _ => false,
    }
}

/// The open init hook of the transfer application.
pub fn on_chan_open_init<C: Ics20Context>(
    ctx: &mut C,
    order: Order,
    connection_hops: &[ConnectionId],
    port_id: &PortId,
    channel_id: &ChannelId,
    counterparty: &Counterparty,
    version: &Version,
) -> (r: Result<(ModuleExtras, Version), TransferError>)
    ensures
        hook_matches(r, open_init_outcome(order, port_id@, old(ctx).bound_port(), version@)),
        *final(ctx) == *old(ctx),
{
    if order != Order::Unordered {
        return Err(TransferError::ChannelNotUnordered);
    }
    let bound_port = ctx.get_port();
    if !port_id.same(&bound_port) {
        return Err(TransferError::InvalidPort);
    }
    if !version.is_empty() && !version.is_ics20() {
        return Err(TransferError::InvalidVersion);
    }
    Ok((ModuleExtras::empty(), Version::ics20()))
}

/// The open try hook of the transfer application.
pub fn on_chan_open_try<C: Ics20Context>(
    ctx: &mut C,
    order: Order,
    connection_hops: &[ConnectionId],
    port_id: &PortId,
    channel_id: &ChannelId,
    counterparty: &Counterparty,
    counterparty_version: &Version,
) -> (r: Result<(ModuleExtras, Version), TransferError>)
    ensures
        hook_matches(r, open_try_outcome(order, counterparty_version@)),
        *final(ctx) == *old(ctx),
{
    if order != Order::Unordered {
        return Err(TransferError::ChannelNotUnordered);
    }
    if !counterparty_version.is_ics20() {
        return Err(TransferError::InvalidCounterpartyVersion);
    }
    Ok((ModuleExtras::empty(), Version::ics20()))
}

/// Empty extras on success, the error otherwise.
pub open spec fn extras_match(r: Result<ModuleExtras, TransferError>, outcome: Result<
    (),
    TransferError,
>) -> bool {
    match (r, outcome) {
        (Ok(extras), Ok(_)) => extras.events@.len() == 0 && extras.log@.len() == 0,
        (Err(e), Err(f)) => e == f,
        _ => false,
    }
}

/// The open ack hook: the counterparty must speak the transfer version.
pub fn on_chan_open_ack<C: Ics20Context>(
    ctx: &mut C,
    port_id: &PortId,
    channel_id: &ChannelId,
    counterparty_version: &Version,
) -> (r: Result<ModuleExtras, TransferError>)
    ensures
        extras_match(
            r,
            if counterparty_version@ == transfer_version_view() {
                Ok(())
            } else {
                Err(TransferError::InvalidCounterpartyVersion)
            },
        ),
        *final(ctx) == *old(ctx),
{
    if !counterparty_version.is_ics20() {
        return Err(TransferError::InvalidCounterpartyVersion);
    }
    Ok(ModuleExtras::empty())
}

/// The open confirm hook: always accepts.
pub fn on_chan_open_confirm<C: Ics20Context>(
    ctx: &mut C,
    port_id: &PortId,
    channel_id: &ChannelId,
) -> (r: Result<ModuleExtras, TransferError>)
    ensures
        extras_match(r, Ok(())),
        *final(ctx) == *old(ctx),
{
    Ok(ModuleExtras::empty())
}

/// The close init hook: transfer channels cannot be closed by this chain.
pub fn on_chan_close_init<C: Ics20Context>(
    ctx: &mut C,
    port_id: &PortId,
    channel_id: &ChannelId,
) -> (r: Result<ModuleExtras, TransferError>)
    ensures
        extras_match(r, Err(TransferError::CantCloseChannel)),
        *final(ctx) == *old(ctx),
{
    Err(TransferError::CantCloseChannel)
}

/// The close confirm hook: always accepts.
pub fn on_chan_close_confirm<C: Ics20Context>(
    ctx: &mut C,
    port_id: &PortId,
    channel_id: &ChannelId,
) -> (r: Result<ModuleExtras, TransferError>)
    ensures
        extras_match(r, Ok(())),
        *final(ctx) == *old(ctx),
{
    Ok(ModuleExtras::empty())
}

} // verus!
