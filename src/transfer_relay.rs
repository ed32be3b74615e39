//! The transfer application's packet hooks: what it does on a received
//! packet, on an acknowledgement and on a timeout, and the packet data and
//! acknowledgement it sends.
use vstd::prelude::*;
use crate::amount::{amount_of, parse_amount};
use crate::bank::{BankKeeper, Coin};
use crate::channel::{EventAttribute, ModuleEvent, ModuleExtras, Packet};
use crate::error::{code_of, TransferError};
use crate::ident::{ChannelId, PortId};
use crate::json::{
    keys_ascending, seq_lt,
    decode_string_object, encode_string_object, field_value, find_field, json_object_text,
    json_string_object, pairs_view,
};
use crate::transfer::{escrow_account_of, Ics20Reader, TransferModule};

verus! {

/// `amt` of `denom` moved from `from` to `to`; no other balance and no
/// supply changed.
pub open spec fn coins_moved(m0: &TransferModule, m1: &TransferModule, from: Seq<char>, to: Seq<char>, denom: Seq<char>, amt: nat) -> bool {
    &&& from != to ==> m1.balance_of(from, denom) == m0.balance_of(from, denom) - amt
        && m1.balance_of(to, denom) == m0.balance_of(to, denom) + amt
    &&& from == to ==> m1.balance_of(from, denom) == m0.balance_of(from, denom)
    &&& forall|a: Seq<char>, d: Seq<char>|
        (d != denom || (a != from && a != to)) ==> #[trigger] m1.balance_of(a, d) == m0.balance_of(a, d)
    &&& forall|d: Seq<char>| #[trigger] m1.supply_of(d) == m0.supply_of(d)
}

/// `amt` of `denom` was created in `account`; nothing else changed.
pub open spec fn coins_minted(m0: &TransferModule, m1: &TransferModule, account: Seq<char>, denom: Seq<char>, amt: nat) -> bool {
    &&& m1.balance_of(account, denom) == m0.balance_of(account, denom) + amt
    &&& m1.supply_of(denom) == m0.supply_of(denom) + amt
    &&& forall|a: Seq<char>, d: Seq<char>|
        (d != denom || a != account) ==> #[trigger] m1.balance_of(a, d) == m0.balance_of(a, d)
    &&& forall|d: Seq<char>| d != denom ==> #[trigger] m1.supply_of(d) == m0.supply_of(d)
}

/// `amt` of `denom` held by `account` was destroyed; nothing else changed.
pub open spec fn coins_burned(m0: &TransferModule, m1: &TransferModule, account: Seq<char>, denom: Seq<char>, amt: nat) -> bool {
    &&& m1.balance_of(account, denom) == m0.balance_of(account, denom) - amt
    &&& m1.supply_of(denom) == m0.supply_of(denom) - amt
    &&& forall|a: Seq<char>, d: Seq<char>|
        (d != denom || a != account) ==> #[trigger] m1.balance_of(a, d) == m0.balance_of(a, d)
    &&& forall|d: Seq<char>| d != denom ==> #[trigger] m1.supply_of(d) == m0.supply_of(d)
}

/// No balance and no supply changed.
pub open spec fn ledger_same(m0: &TransferModule, m1: &TransferModule) -> bool {
    &&& forall|a: Seq<char>, d: Seq<char>| #[trigger] m1.balance_of(a, d) == m0.balance_of(a, d)
    &&& forall|d: Seq<char>| #[trigger] m1.supply_of(d) == m0.supply_of(d)
}

/// The port and the switches are unchanged and the ledger stays well formed.
pub open spec fn config_same(m0: &TransferModule, m1: &TransferModule) -> bool {
    &&& m1.port_id == m0.port_id
    &&& m1.send_enabled == m0.send_enabled
    &&& m1.receive_enabled == m0.receive_enabled
    &&& m1.bank_wf()
}

pub open spec fn send_ok(m: &TransferModule, from: Seq<char>, to: Seq<char>, denom: Seq<char>, amt: nat) -> bool {
    m.balance_of(from, denom) >= amt && (from == to || m.balance_of(to, denom) + amt <= u128::MAX)
}

pub open spec fn mint_ok(m: &TransferModule, account: Seq<char>, denom: Seq<char>, amt: nat) -> bool {
    m.balance_of(account, denom) + amt <= u128::MAX && m.supply_of(denom) + amt <= u128::MAX
}

pub open spec fn burn_ok(m: &TransferModule, account: Seq<char>, denom: Seq<char>, amt: nat) -> bool {
    m.balance_of(account, denom) >= amt && m.supply_of(denom) >= amt
}

/// The outcome of moving coins: done where it can be, nothing otherwise.
pub open spec fn move_outcome(m0: &TransferModule, m1: &TransferModule, from: Seq<char>, to: Seq<char>, denom: Seq<char>, amt: nat, r: Result<(), TransferError>) -> bool {
    &&& config_same(m0, m1)
    &&& (r is Ok <==> send_ok(m0, from, to, denom, amt))
    &&& (r is Ok ==> coins_moved(m0, m1, from, to, denom, amt))
    &&& (r is Err ==> ledger_same(m0, m1))
    &&& (r is Err ==> r == Err::<(), TransferError>(if m0.balance_of(from, denom) < amt {
        TransferError::InsufficientFunds
    } else {
        TransferError::Overflow
    }))
}

/// The outcome of minting coins: done where it can be, nothing otherwise.
pub open spec fn mint_outcome(m0: &TransferModule, m1: &TransferModule, account: Seq<char>, denom: Seq<char>, amt: nat, r: Result<(), TransferError>) -> bool {
    &&& config_same(m0, m1)
    &&& (r is Ok <==> mint_ok(m0, account, denom, amt))
    &&& (r is Ok ==> coins_minted(m0, m1, account, denom, amt))
    &&& (r is Err ==> ledger_same(m0, m1))
    &&& (r is Err ==> r == Err::<(), TransferError>(TransferError::Overflow))
}

/// The outcome of burning coins: done where it can be, nothing otherwise.
pub open spec fn burn_outcome(m0: &TransferModule, m1: &TransferModule, account: Seq<char>, denom: Seq<char>, amt: nat, r: Result<(), TransferError>) -> bool {
    &&& config_same(m0, m1)
    &&& (r is Ok <==> burn_ok(m0, account, denom, amt))
    &&& (r is Ok ==> coins_burned(m0, m1, account, denom, amt))
    &&& (r is Err ==> ledger_same(m0, m1))
    &&& (r is Err ==> r == Err::<(), TransferError>(if m0.balance_of(account, denom) < amt {
        TransferError::InsufficientFunds
    } else {
        TransferError::Overflow
    }))
}

pub fn move_coins(m: &mut TransferModule, from: &String, to: &String, coin: &Coin) -> (r: Result<(), TransferError>)
    requires
        old(m).bank_wf(),
    ensures
        move_outcome(old(m), final(m), from@, to@, coin.denom@, coin.amount as nat, r),
{
    let r = m.bank.send_coins(from, to, coin);
    proof {
        if r is Err || from@ == to@ {
            assert forall|a: Seq<char>, d: Seq<char>| #[trigger] m.balance_of(a, d) == old(m).balance_of(a, d) by {
            }
        }
    }
    r
}

pub fn mint(m: &mut TransferModule, account: &String, coin: &Coin) -> (r: Result<(), TransferError>)
    requires
        old(m).bank_wf(),
    ensures
        mint_outcome(old(m), final(m), account@, coin.denom@, coin.amount as nat, r),
{
    let r = m.bank.mint_coins(account, coin);
    proof {
        if r is Err {
            assert forall|a: Seq<char>, d: Seq<char>| #[trigger] m.balance_of(a, d) == old(m).balance_of(a, d) by {}
            assert forall|d: Seq<char>| #[trigger] m.supply_of(d) == old(m).supply_of(d) by {}
        }
    }
    r
}

pub fn burn(m: &mut TransferModule, account: &String, coin: &Coin) -> (r: Result<(), TransferError>)
    requires
        old(m).bank_wf(),
    ensures
        burn_outcome(old(m), final(m), account@, coin.denom@, coin.amount as nat, r),
{
    let r = m.bank.burn_coins(account, coin);
    proof {
        if r is Err {
            assert forall|a: Seq<char>, d: Seq<char>| #[trigger] m.balance_of(a, d) == old(m).balance_of(a, d) by {}
            assert forall|d: Seq<char>| #[trigger] m.supply_of(d) == old(m).supply_of(d) by {}
        }
    }
    r
}

/// Whether `s` begins with `p`.
pub open spec fn has_prefix(s: Seq<char>, p: Seq<char>) -> bool {
    p.len() <= s.len() && s.subrange(0, p.len() as int) == p
}

pub fn starts_with(s: &str, p: &str) -> (r: bool)
    ensures
        r == has_prefix(s@, p@),
{
    let n = s.unicode_len();
    let m = p.unicode_len();
    if m > n {
        return false;
    }
    let mut i: usize = 0;
    while i < m
        invariant
            n == s@.len(),
            m == p@.len(),
            m <= n,
            i <= m,
            forall|j: int| 0 <= j < i ==> s@[j] == p@[j],
        decreases m - i,
    {
        if s.get_char(i) != p.get_char(i) {
            assert(s@.subrange(0, m as int)[i as int] != p@[i as int]);
            return false;
        }
        i = i + 1;
    }
    assert(s@.subrange(0, m as int) =~= p@);
    true
}

/// The prefix a denomination gets for each hop it travels: `<port>/<channel>/`.
pub open spec fn trace_prefix(port: Seq<char>, channel: Seq<char>) -> Seq<char> {
    port + seq!['/'] + channel + seq!['/']
}

pub fn trace_prefix_string(port_id: &PortId, channel_id: &ChannelId) -> (r: String)
    ensures
        r@ == trace_prefix(port_id@, channel_id@),
{
    proof {
        reveal_strlit("/");
    }
    let r = port_id.0.clone().concat("/").concat(channel_id.as_str()).concat("/");
    assert(r@ =~= trace_prefix(port_id@, channel_id@));
    r
}

/// Whether a denomination sent out over a channel originates on this chain:
/// it does not carry the channel's own prefix.
pub open spec fn is_native(port: Seq<char>, channel: Seq<char>, denom: Seq<char>) -> bool {
    !has_prefix(denom, trace_prefix(port, channel))
}

/// The packet data of a transfer.
#[derive(Debug)]
pub struct PacketData {
    pub denom: String,
    pub amount: String,
    pub sender: String,
    pub receiver: String,
}

/// Packet data as four strings: denomination, amount, sender, receiver.
pub type DataView = (Seq<char>, Seq<char>, Seq<char>, Seq<char>);

impl PacketData {
    pub open spec fn view(&self) -> DataView {
        (self.denom@, self.amount@, self.sender@, self.receiver@)
    }
}

pub open spec fn denom_key() -> Seq<char> { seq!['d', 'e', 'n', 'o', 'm'] }
pub open spec fn amount_key() -> Seq<char> { seq!['a', 'm', 'o', 'u', 'n', 't'] }
pub open spec fn sender_key() -> Seq<char> { seq!['s', 'e', 'n', 'd', 'e', 'r'] }
pub open spec fn receiver_key() -> Seq<char> { seq!['r', 'e', 'c', 'e', 'i', 'v', 'e', 'r'] }
pub open spec fn result_key() -> Seq<char> { seq!['r', 'e', 's', 'u', 'l', 't'] }
pub open spec fn error_key() -> Seq<char> { seq!['e', 'r', 'r', 'o', 'r'] }

/// The packet data that the fields of a JSON object give: all four must be
/// present.
pub open spec fn data_of_fields(f: Seq<(Seq<char>, Seq<char>)>) -> Option<DataView> {
    match (field_value(f, denom_key()), field_value(f, amount_key()), field_value(f, sender_key()), field_value(f, receiver_key())) {
        (Some(d), Some(a), Some(s), Some(r)) => Some((d, a, s, r)),
        _ => None,
    }
}

/// The packet data that packet bytes hold, if any.
pub open spec fn data_of_bytes(b: Seq<u8>) -> Option<DataView> {
    match json_string_object(b) {
        Some(f) => data_of_fields(f),
        None => None,
    }
}

pub open spec fn opt_data_view(d: Option<PacketData>) -> Option<DataView> {
    match d {
        Some(x) => Some(x@),
        None => None,
    }
}

/// Packet data from the fields of a decoded JSON object.
pub fn packet_data_from_fields(fields: &Vec<(String, String)>) -> (r: Option<PacketData>)
    ensures
        opt_data_view(r) == data_of_fields(pairs_view(fields@)),
{
    proof {
        reveal_strlit("denom");
        reveal_strlit("amount");
        reveal_strlit("sender");
        reveal_strlit("receiver");
        assert("denom"@ =~= denom_key());
        assert("amount"@ =~= amount_key());
        assert("sender"@ =~= sender_key());
        assert("receiver"@ =~= receiver_key());
    }
    let denom = find_field(fields, "denom");
    let amount = find_field(fields, "amount");
    let sender = find_field(fields, "sender");
    let receiver = find_field(fields, "receiver");
    match (denom, amount, sender, receiver) {
        (Some(denom), Some(amount), Some(sender), Some(receiver)) => Some(PacketData { denom, amount, sender, receiver }),
        _ => None,
    }
}

/// Decodes transfer packet data: a JSON object with string fields denom,
/// amount, sender and receiver, in any order.
pub fn decode_packet_data(bytes: &[u8]) -> (r: Option<PacketData>)
    ensures
        opt_data_view(r) == data_of_bytes(bytes@),
{
    match decode_string_object(bytes) {
        Some(fields) => packet_data_from_fields(&fields),
        None => None,
    }
}

/// The fields of encoded packet data, in key order.
pub open spec fn data_fields(d: DataView) -> Seq<(Seq<char>, Seq<char>)> {
    seq![(amount_key(), d.1), (denom_key(), d.0), (receiver_key(), d.3), (sender_key(), d.2)]
}

/// Encodes transfer packet data as JSON, fields in key order.
pub fn encode_packet_data(d: &PacketData) -> (r: Vec<u8>)
    ensures
        r@ == json_object_text(data_fields(d@)),
        data_of_bytes(r@) == Some(d@),
{
    proof {
        reveal_strlit("denom");
        reveal_strlit("amount");
        reveal_strlit("sender");
        reveal_strlit("receiver");
        assert("denom"@ =~= denom_key());
        assert("amount"@ =~= amount_key());
        assert("sender"@ =~= sender_key());
        assert("receiver"@ =~= receiver_key());
    }
    let mut fields: Vec<(String, String)> = Vec::new();
    fields.push((String::from_str("amount"), d.amount.clone()));
    fields.push((String::from_str("denom"), d.denom.clone()));
    fields.push((String::from_str("receiver"), d.receiver.clone()));
    fields.push((String::from_str("sender"), d.sender.clone()));
    assert(pairs_view(fields@) =~= data_fields(d@));
    proof {
        let f = data_fields(d@);
        assert forall|i: int, j: int| 0 <= i < j < f.len() implies seq_lt(#[trigger] f[i].0, #[trigger] f[j].0) by {
            assert(seq_lt(amount_key(), denom_key()));
            assert(seq_lt(amount_key(), receiver_key()));
            assert(seq_lt(amount_key(), sender_key()));
            assert(seq_lt(denom_key(), receiver_key()));
            assert(seq_lt(denom_key(), sender_key()));
            assert(seq_lt(receiver_key(), sender_key()));
        }
        assert(field_value(f.drop_first(), denom_key()) == Some(d@.0)) by {
            assert(f.drop_first().drop_first() =~= seq![(receiver_key(), d@.3), (sender_key(), d@.2)]);
        }
        assert(field_value(f.drop_first().drop_first(), receiver_key()) == Some(d@.3));
        assert(field_value(f.drop_first().drop_first().drop_first(), sender_key()) == Some(d@.2));
        assert(field_value(f, denom_key()) == Some(d@.0));
        assert(field_value(f, amount_key()) == Some(d@.1));
        assert(field_value(f, sender_key()) == Some(d@.2)) by {
            assert(field_value(f.drop_first(), sender_key()) == field_value(f.drop_first().drop_first(), sender_key()));
            assert(field_value(f.drop_first().drop_first(), sender_key()) == field_value(f.drop_first().drop_first().drop_first(), sender_key()));
        }
        assert(field_value(f, receiver_key()) == Some(d@.3)) by {
            assert(field_value(f.drop_first(), receiver_key()) == field_value(f.drop_first().drop_first(), receiver_key()));
        }
    }
    encode_string_object(&fields)
}

/// The base64 text of the single byte 1, the payload of a successful
/// acknowledgement.
pub open spec fn success_payload() -> Seq<char> { seq!['A', 'Q', '=', '='] }

/// The message of a failed acknowledgement: a fixed text, then the reason.
pub open spec fn error_message(e: TransferError) -> Seq<char> {
    "error handling packet on destination chain: see events for details: "@ + code_of(e)
}

/// The acknowledgement of a packet the application accepted.
pub open spec fn success_ack_text() -> Seq<u8> {
    json_object_text(seq![(result_key(), success_payload())])
}

/// The acknowledgement of a packet the application refused for `e`.
pub open spec fn error_ack_text(e: TransferError) -> Seq<u8> {
    json_object_text(seq![(error_key(), error_message(e))])
}

pub fn success_ack() -> (r: Vec<u8>)
    ensures
        r@ == success_ack_text(),
{
    proof {
        reveal_strlit("result");
        reveal_strlit("AQ==");
        assert("result"@ =~= result_key());
        assert("AQ=="@ =~= success_payload());
    }
    let mut fields: Vec<(String, String)> = Vec::new();
    fields.push((String::from_str("result"), String::from_str("AQ==")));
    assert(pairs_view(fields@) =~= seq![(result_key(), success_payload())]);
    assert(keys_ascending(pairs_view(fields@)));
    encode_string_object(&fields)
}

/// The acknowledgement of a packet refused for `e`.
pub fn error_ack(e: TransferError) -> (r: Vec<u8>)
    ensures
        r@ == error_ack_text(e),
{
    proof {
        reveal_strlit("error");
        assert("error"@ =~= error_key());
    }
    let message = String::from_str("error handling packet on destination chain: see events for details: ").concat(e.code());
    let mut fields: Vec<(String, String)> = Vec::new();
    fields.push((String::from_str("error"), message));
    assert(pairs_view(fields@) =~= seq![(error_key(), error_message(e))]);
    assert(keys_ascending(pairs_view(fields@)));
    encode_string_object(&fields)
}

/// Whether an acknowledgement reports success (`Some(true)`) or an error
/// (`Some(false)`): a JSON object with a `result` or an `error` field.
pub open spec fn ack_outcome(b: Seq<u8>) -> Option<bool> {
    match json_string_object(b) {
        None => None,
        Some(f) => if field_value(f, result_key()) is Some {
            Some(true)
        } else if field_value(f, error_key()) is Some {
            Some(false)
        } else {
            None
        },
    }
}

/// Reads an acknowledgement: success, error, or neither.
pub fn decode_ack(bytes: &[u8]) -> (r: Option<bool>)
    ensures
        r == ack_outcome(bytes@),
{
    proof {
        reveal_strlit("result");
        reveal_strlit("error");
        assert("result"@ =~= result_key());
        assert("error"@ =~= error_key());
    }
    match decode_string_object(bytes) {
        None => None,
        Some(fields) => {
            if find_field(&fields, "result").is_some() {
                Some(true)
            } else if find_field(&fields, "error").is_some() {
                Some(false)
            } else {
                None
            }
        },
    }
}

/// The write a received packet asks for once the router goes on: give
/// back escrowed coins, or mint vouchers.
#[derive(Debug)]
pub enum RecvWrite {
    Unescrow { escrow: String, receiver: String, coin: Coin },
    Mint { receiver: String, coin: Coin },
}

/// What the application answers to a received packet: the acknowledgement,
/// and the write the router applies before it records the acknowledgement.
#[derive(Debug)]
pub enum OnRecvPacketAck {
    Nil(RecvWrite),
    Successful(Vec<u8>, RecvWrite),
    Failed(Vec<u8>),
}

/// Why the application refuses a received packet, if it does.
pub open spec fn recv_refusal(receive_enabled: bool, d: Option<DataView>) -> Option<TransferError> {
    match d {
        None => Some(TransferError::PacketDataDeserialization),
        Some(d) => if !receive_enabled {
            Some(TransferError::ReceiveDisabled)
        } else if amount_of(d.1) is None {
            Some(TransferError::InvalidAmount)
        } else {
            None
        },
    }
}

/// The write for accepted packet data: a denomination that carries the
/// sending channel's prefix is coming home and leaves escrow without that
/// prefix; any other is minted as a voucher under this channel's prefix.
pub open spec fn recv_write_matches(w: RecvWrite, p: &Packet, d: DataView) -> bool {
    let amt = amount_of(d.1)->0;
    let src = trace_prefix(p.source_port@, p.source_channel@);
    if has_prefix(d.0, src) {
        match w {
            RecvWrite::Unescrow { escrow, receiver, coin } => escrow@ == escrow_account_of(
                p.destination_port@,
                p.destination_channel@,
            ) && receiver@ == d.3 && coin.denom@ == d.0.skip(src.len() as int) && coin.amount
                == amt,
            _ => false,
        }
    } else {
        match w {
            RecvWrite::Mint { receiver, coin } => receiver@ == d.3 && coin.denom@ == trace_prefix(
                p.destination_port@,
                p.destination_channel@,
            ) + d.0 && coin.amount == amt,
            _ => false,
        }
    }
}

pub open spec fn attr_is(a: EventAttribute, key: Seq<char>, value: Seq<char>) -> bool {
    a.key@ == key && a.value@ == value
}

pub open spec fn flag(b: bool) -> Seq<char> {
    if b { "true"@ } else { "false"@ }
}

/// The event of a received packet: receiver, denomination, amount, and
/// whether the application accepted it.
pub open spec fn recv_event_is(e: ModuleEvent, d: DataView, success: bool) -> bool {
    &&& e.kind@ == "fungible_token_packet"@
    &&& e.attributes@.len() == 4
    &&& attr_is(e.attributes@[0], "receiver"@, d.3)
    &&& attr_is(e.attributes@[1], "denom"@, d.0)
    &&& attr_is(e.attributes@[2], "amount"@, d.1)
    &&& attr_is(e.attributes@[3], "success"@, flag(success))
}

/// The two events of an acknowledgement: the packet's receiver,
/// denomination and amount with the acknowledgement's kind, then its status.
pub open spec fn ack_events_are(e0: ModuleEvent, e1: ModuleEvent, d: DataView, success: bool) -> bool {
    let kind = if success { "result"@ } else { "error"@ };
    &&& e0.kind@ == "fungible_token_packet"@
    &&& e0.attributes@.len() == 4
    &&& attr_is(e0.attributes@[0], "receiver"@, d.3)
    &&& attr_is(e0.attributes@[1], "denom"@, d.0)
    &&& attr_is(e0.attributes@[2], "amount"@, d.1)
    &&& attr_is(e0.attributes@[3], "acknowledgement"@, kind)
    &&& e1.kind@ == "fungible_token_packet"@
    &&& e1.attributes@.len() == 1
    &&& attr_is(e1.attributes@[0], if success { "success"@ } else { "error"@ }, "true"@)
}

/// The event of a timed-out packet: who is refunded, what and how much.
pub open spec fn timeout_event_is(e: ModuleEvent, d: DataView) -> bool {
    &&& e.kind@ == "timeout"@
    &&& e.attributes@.len() == 3
    &&& attr_is(e.attributes@[0], "refund_receiver"@, d.2)
    &&& attr_is(e.attributes@[1], "refund_denom"@, d.0)
    &&& attr_is(e.attributes@[2], "refund_amount"@, d.1)
}

/// The events a packet hook appends: one for a received packet whose data
/// decodes, two for an accepted acknowledgement, one for an accepted timeout,
/// none otherwise.
pub open spec fn hook_events(evs: Seq<ModuleEvent>, m0: &TransferModule, msg_kind: int, p: &Packet, ack: Seq<u8>, r: Result<(), TransferError>) -> bool {
    match data_of_bytes(p.data@) {
        None => evs.len() == 0,
        Some(d) => if msg_kind == 0 {
            evs.len() == 1 && recv_event_is(evs[0], d, recv_refusal(m0.receive_enabled, Some(d)) is None)
        } else if r is Err {
            evs.len() == 0
        } else if msg_kind == 1 {
            evs.len() == 2 && ack_events_are(evs[0], evs[1], d, ack_outcome(ack) == Some(true))
        } else {
            evs.len() == 1 && timeout_event_is(evs[0], d)
        },
    }
}

fn attribute(key: &str, value: String) -> (r: EventAttribute)
    ensures
        attr_is(r, key@, value@),
{
    EventAttribute { key: String::from_str(key), value }
}

fn flag_str(b: bool) -> (r: &'static str)
    ensures
        r@ == flag(b),
{
    if b { "true" } else { "false" }
}

fn recv_event(d: &PacketData, success: bool) -> (r: ModuleEvent)
    ensures
        recv_event_is(r, d@, success),
{
    let mut attributes: Vec<EventAttribute> = Vec::new();
    attributes.push(attribute("receiver", d.receiver.clone()));
    attributes.push(attribute("denom", d.denom.clone()));
    attributes.push(attribute("amount", d.amount.clone()));
    attributes.push(attribute("success", String::from_str(flag_str(success))));
    ModuleEvent { kind: String::from_str("fungible_token_packet"), attributes }
}

fn ack_events(d: &PacketData, success: bool) -> (r: (ModuleEvent, ModuleEvent))
    ensures
        ack_events_are(r.0, r.1, d@, success),
{
    let mut attributes: Vec<EventAttribute> = Vec::new();
    attributes.push(attribute("receiver", d.receiver.clone()));
    attributes.push(attribute("denom", d.denom.clone()));
    attributes.push(attribute("amount", d.amount.clone()));
    attributes.push(attribute("acknowledgement", String::from_str(if success { "result" } else { "error" })));
    let mut status: Vec<EventAttribute> = Vec::new();
    status.push(attribute(if success { "success" } else { "error" }, String::from_str("true")));
    (
        ModuleEvent { kind: String::from_str("fungible_token_packet"), attributes },
        ModuleEvent { kind: String::from_str("fungible_token_packet"), attributes: status },
    )
}

fn timeout_event(d: &PacketData) -> (r: ModuleEvent)
    ensures
        timeout_event_is(r, d@),
{
    let mut attributes: Vec<EventAttribute> = Vec::new();
    attributes.push(attribute("refund_receiver", d.sender.clone()));
    attributes.push(attribute("refund_denom", d.denom.clone()));
    attributes.push(attribute("refund_amount", d.amount.clone()));
    ModuleEvent { kind: String::from_str("timeout"), attributes }
}

fn suffix(s: &String, n: usize) -> (r: String)
    requires
        n <= s@.len(),
    ensures
        r@ == s@.skip(n as int),
{
    let len = s.as_str().unicode_len();
    let t = s.as_str().substring_char(n, len);
    let r = String::from_str(t);
    assert(r@ =~= s@.skip(n as int));
    r
}

/// What applying the write for accepted packet data does to the module: a
/// token coming home leaves this channel's escrow, any other is minted as a
/// voucher.
pub open spec fn recv_applied(m0: &TransferModule, m1: &TransferModule, p: &Packet, d: DataView, r: Result<(), TransferError>) -> bool {
    let amt = amount_of(d.1)->0 as nat;
    let src = trace_prefix(p.source_port@, p.source_channel@);
    if has_prefix(d.0, src) {
        move_outcome(m0, m1, escrow_account_of(p.destination_port@, p.destination_channel@), d.3, d.0.skip(src.len() as int), amt, r)
    } else {
        mint_outcome(m0, m1, d.3, trace_prefix(p.destination_port@, p.destination_channel@) + d.0, amt, r)
    }
}

/// What receiving a packet does to the module, with the acknowledgement it
/// answers: a refused packet changes nothing and is answered with the error
/// acknowledgement; an accepted one is applied and answered with success.
pub open spec fn recv_hook_outcome(m0: &TransferModule, m1: &TransferModule, p: &Packet, r: Result<(), TransferError>, ack: Seq<u8>) -> bool {
    match recv_refusal(m0.receive_enabled, data_of_bytes(p.data@)) {
        Some(e) => ack == error_ack_text(e) && r is Ok && *m1 == *m0,
        None => ack == success_ack_text() && recv_applied(m0, m1, p, data_of_bytes(p.data@)->0, r),
    }
}

/// What an acknowledgement does to the module: nothing on success, a refund
/// on an error; bytes that are not a transfer packet or acknowledgement are
/// refused.
pub open spec fn ack_hook_outcome(m0: &TransferModule, m1: &TransferModule, p: &Packet, ack: Seq<u8>, r: Result<(), TransferError>) -> bool {
    match data_of_bytes(p.data@) {
        None => r == Err::<(), TransferError>(TransferError::PacketDataDeserialization) && *m1 == *m0,
        Some(d) => match ack_outcome(ack) {
            None => r == Err::<(), TransferError>(TransferError::AckDeserialization) && *m1 == *m0,
            Some(true) => r is Ok && *m1 == *m0,
            Some(false) => refund_outcome(m0, m1, p, d, r),
        },
    }
}

/// What a timeout does to the module: a refund.
pub open spec fn timeout_hook_outcome(m0: &TransferModule, m1: &TransferModule, p: &Packet, r: Result<(), TransferError>) -> bool {
    match data_of_bytes(p.data@) {
        None => r == Err::<(), TransferError>(TransferError::PacketDataDeserialization) && *m1 == *m0,
        Some(d) => refund_outcome(m0, m1, p, d, r),
    }
}

/// The receive hook: decides on the acknowledgement and the write, and
/// writes nothing itself.
pub fn on_recv_packet(ctx: &TransferModule, output: &mut ModuleExtras, packet: &Packet, relayer: &String) -> (r: OnRecvPacketAck)
    ensures
        match recv_refusal(ctx.receive_enabled, data_of_bytes(packet.data@)) {
            Some(e) => r matches OnRecvPacketAck::Failed(ack) && ack@ == error_ack_text(e),
            None => r matches OnRecvPacketAck::Successful(ack, w) && ack@ == success_ack_text()
                && recv_write_matches(w, packet, data_of_bytes(packet.data@)->0),
        },
        final(output).log@ == old(output).log@,
        final(output).events@.len() >= old(output).events@.len(),
        final(output).events@.subrange(0, old(output).events@.len() as int) == old(output).events@,
        hook_events(
            final(output).events@.subrange(old(output).events@.len() as int, final(output).events@.len() as int),
            ctx, 0, packet, Seq::empty(), Ok(()),
        ),
{
    let data = match decode_packet_data(packet.data.as_slice()) {
        Some(d) => d,
        None => {
            proof {
                assert(output.events@.subrange(0, output.events@.len() as int) =~= output.events@);
            }
            return OnRecvPacketAck::Failed(error_ack(TransferError::PacketDataDeserialization));
        },
    };
    let ack = if !ctx.is_receive_enabled() {
        OnRecvPacketAck::Failed(error_ack(TransferError::ReceiveDisabled))
    } else {
        match parse_amount(data.amount.as_str()) {
            None => OnRecvPacketAck::Failed(error_ack(TransferError::InvalidAmount)),
            Some(amt) => {
                let src = trace_prefix_string(&packet.source_port, &packet.source_channel);
                let write = if starts_with(data.denom.as_str(), src.as_str()) {
                    let n = src.as_str().unicode_len();
                    RecvWrite::Unescrow {
                        escrow: ctx.get_channel_escrow_address(&packet.destination_port, &packet.destination_channel),
                        receiver: data.receiver.clone(),
                        coin: Coin { denom: suffix(&data.denom, n), amount: amt },
                    }
                } else {
                    let prefix = trace_prefix_string(&packet.destination_port, &packet.destination_channel);
                    RecvWrite::Mint {
                        receiver: data.receiver.clone(),
                        coin: Coin { denom: prefix.concat(data.denom.as_str()), amount: amt },
                    }
                };
                OnRecvPacketAck::Successful(success_ack(), write)
            },
        }
    };
    let success = match &ack {
        OnRecvPacketAck::Failed(_) => false,
        _ => true,
    };
    let ghost before = output.events@;
    output.events.push(recv_event(&data, success));
    proof {
        assert(output.events@.subrange(0, before.len() as int) =~= before);
        assert(output.events@.subrange(before.len() as int, output.events@.len() as int) =~= seq![output.events@.last()]);
    }
    ack
}

/// Applies the write of an accepted received packet.
pub fn apply_recv_write(m: &mut TransferModule, w: &RecvWrite) -> (r: Result<(), TransferError>)
    requires
        old(m).bank_wf(),
    ensures
        match w {
            RecvWrite::Unescrow { escrow, receiver, coin } => move_outcome(old(m), final(m), escrow@, receiver@, coin.denom@, coin.amount as nat, r),
            RecvWrite::Mint { receiver, coin } => mint_outcome(old(m), final(m), receiver@, coin.denom@, coin.amount as nat, r),
        },
{
    match w {
        RecvWrite::Unescrow { escrow, receiver, coin } => move_coins(m, escrow, receiver, coin),
        RecvWrite::Mint { receiver, coin } => mint(m, receiver, coin),
    }
}

/// What giving a sent token back to its sender does: a native token leaves
/// the channel's escrow, a voucher is minted again.
pub open spec fn refund_outcome(m0: &TransferModule, m1: &TransferModule, p: &Packet, d: DataView, r: Result<(), TransferError>) -> bool {
    match amount_of(d.1) {
        None => r == Err::<(), TransferError>(TransferError::InvalidAmount) && *m1 == *m0,
        Some(a) => if is_native(p.source_port@, p.source_channel@, d.0) {
            move_outcome(m0, m1, escrow_account_of(p.source_port@, p.source_channel@), d.2, d.0, a as nat, r)
        } else {
            mint_outcome(m0, m1, d.2, d.0, a as nat, r)
        },
    }
}

/// Gives a sent token back to its sender.
pub fn refund_packet_token(m: &mut TransferModule, p: &Packet, d: &PacketData) -> (r: Result<(), TransferError>)
    requires
        old(m).bank_wf(),
    ensures
        refund_outcome(old(m), final(m), p, d@, r),
{
    let amt = match parse_amount(d.amount.as_str()) {
        Some(a) => a,
        None => return Err(TransferError::InvalidAmount),
    };
    let coin = Coin { denom: d.denom.clone(), amount: amt };
    let src = trace_prefix_string(&p.source_port, &p.source_channel);
    if !starts_with(d.denom.as_str(), src.as_str()) {
        let escrow = m.get_channel_escrow_address(&p.source_port, &p.source_channel);
        move_coins(m, &escrow, &d.sender, &coin)
    } else {
        mint(m, &d.sender, &coin)
    }
}

/// The acknowledgement hook: on an error acknowledgement the sender gets
/// the token back; on success nothing changes.
pub fn on_acknowledgement_packet(
    ctx: &mut TransferModule,
    output: &mut ModuleExtras,
    packet: &Packet,
    acknowledgement: &Vec<u8>,
    relayer: &String,
) -> (r: Result<(), TransferError>)
    requires
        old(ctx).bank_wf(),
    ensures
        ack_hook_outcome(old(ctx), final(ctx), packet, acknowledgement@, r),
        final(output).log@ == old(output).log@,
        r is Err ==> final(output).events@ == old(output).events@,
        final(output).events@.len() >= old(output).events@.len(),
        final(output).events@.subrange(0, old(output).events@.len() as int) == old(output).events@,
        hook_events(
            final(output).events@.subrange(old(output).events@.len() as int, final(output).events@.len() as int),
            old(ctx), 1, packet, acknowledgement@, r,
        ),
{
    let data = match decode_packet_data(packet.data.as_slice()) {
        Some(d) => d,
        None => return Err(TransferError::PacketDataDeserialization),
    };
    let success = match decode_ack(acknowledgement.as_slice()) {
        Some(s) => s,
        None => return Err(TransferError::AckDeserialization),
    };
    if !success {
        refund_packet_token(ctx, packet, &data)?;
    }
    let ghost before = output.events@;
    let (e0, e1) = ack_events(&data, success);
    output.events.push(e0);
    output.events.push(e1);
    proof {
        assert(output.events@.subrange(0, before.len() as int) =~= before);
        let added = output.events@.subrange(before.len() as int, output.events@.len() as int);
        assert(added =~= seq![output.events@[before.len() as int], output.events@[before.len() as int + 1]]);
    }
    Ok(())
}

/// The timeout hook: the sender gets the token back.
pub fn on_timeout_packet(
    ctx: &mut TransferModule,
    output: &mut ModuleExtras,
    packet: &Packet,
    relayer: &String,
) -> (r: Result<(), TransferError>)
    requires
        old(ctx).bank_wf(),
    ensures
        timeout_hook_outcome(old(ctx), final(ctx), packet, r),
        final(output).log@ == old(output).log@,
        r is Err ==> final(output).events@ == old(output).events@,
        final(output).events@.len() >= old(output).events@.len(),
        final(output).events@.subrange(0, old(output).events@.len() as int) == old(output).events@,
        hook_events(
            final(output).events@.subrange(old(output).events@.len() as int, final(output).events@.len() as int),
            old(ctx), 2, packet, Seq::empty(), r,
        ),
{
    let data = match decode_packet_data(packet.data.as_slice()) {
        Some(d) => d,
        None => return Err(TransferError::PacketDataDeserialization),
    };
    refund_packet_token(ctx, packet, &data)?;
    let ghost before = output.events@;
    output.events.push(timeout_event(&data));
    proof {
        assert(output.events@.subrange(0, before.len() as int) =~= before);
        assert(output.events@.subrange(before.len() as int, output.events@.len() as int) =~= seq![output.events@.last()]);
    }
    Ok(())
}

} // verus!
