//! Identifiers of ports, channels, connections, clients and bound modules.
//!
//! Each identifier is a string. Channel, connection and client identifiers
//! minted by this chain are a fixed prefix followed by a counter in decimal.
use vstd::prelude::*;

verus! {

/// The decimal digit character of `d`.
pub open spec fn digit_char(d: nat) -> char {
    if d == 0 { '0' }
    else if d == 1 { '1' }
    else if d == 2 { '2' }
    else if d == 3 { '3' }
    else if d == 4 { '4' }
    else if d == 5 { '5' }
    else if d == 6 { '6' }
    else if d == 7 { '7' }
    else if d == 8 { '8' }
    else { '9' }
}

/// The decimal notation of `n`, without leading zeros.
pub open spec fn decimal(n: nat) -> Seq<char>
    decreases n,
{
    if n < 10 {
        seq![digit_char(n)]
    } else {
        decimal(n / 10).push(digit_char(n % 10))
    }
}

fn digit_str(d: u128) -> (r: &'static str)
    requires
        d < 10,
    ensures
        r@ == seq![digit_char(d as nat)],
{
    proof {
        reveal_strlit("0");
        reveal_strlit("1");
        reveal_strlit("2");
        reveal_strlit("3");
        reveal_strlit("4");
        reveal_strlit("5");
        reveal_strlit("6");
        reveal_strlit("7");
        reveal_strlit("8");
        reveal_strlit("9");
    }
    if d == 0 { "0" }
    else if d == 1 { "1" }
    else if d == 2 { "2" }
    else if d == 3 { "3" }
    else if d == 4 { "4" }
    else if d == 5 { "5" }
    else if d == 6 { "6" }
    else if d == 7 { "7" }
    else if d == 8 { "8" }
    else { "9" }
}

/// Appends the decimal notation of `n` to `s`.
pub fn push_decimal(s: &mut String, n: u128)
    ensures
        final(s)@ == old(s)@ + decimal(n as nat),
    decreases n,
{
    if n < 10 {
        s.append(digit_str(n));
    } else {
        push_decimal(s, n / 10);
        s.append(digit_str(n % 10));
    }
}

/// The string `prefix` followed by the decimal notation of `n`.
pub fn prefixed_counter(prefix: &str, n: u64) -> (r: String)
    ensures
        r@ == prefix@ + decimal(n as nat),
{
    let mut s = String::from_str(prefix);
    push_decimal(&mut s, n as u128);
    s
}

pub open spec fn channel_prefix() -> Seq<char> {
    seq!['c', 'h', 'a', 'n', 'n', 'e', 'l', '-']
}

pub open spec fn connection_prefix() -> Seq<char> {
    seq!['c', 'o', 'n', 'n', 'e', 'c', 't', 'i', 'o', 'n', '-']
}

pub open spec fn client_prefix() -> Seq<char> {
    seq!['0', '7', '-', 't', 'e', 'n', 'd', 'e', 'r', 'm', 'i', 'n', 't', '-']
}

pub open spec fn transfer_port_view() -> Seq<char> {
    seq!['t', 'r', 'a', 'n', 's', 'f', 'e', 'r']
}

/// A port identifier, bound by the host to a module.
#[derive(Debug)]
pub struct PortId(pub String);

/// A channel identifier.
#[derive(Debug)]
pub struct ChannelId(pub String);

/// A connection identifier.
#[derive(Debug)]
pub struct ConnectionId(pub String);

/// A light client identifier.
#[derive(Debug)]
pub struct ClientId(pub String);

/// The identifier of a module registered with the router.
#[derive(Debug)]
pub struct ModuleId(pub String);

impl PortId {
    pub open spec fn view(&self) -> Seq<char> {
        self.0@
    }

    pub fn from_string(s: String) -> (r: Self)
        ensures
            r@ == s@,
    {
        PortId(s)
    }

    /// The port that the transfer application is bound to.
    pub fn transfer() -> (r: Self)
        ensures
            r@ == transfer_port_view(),
    {
        proof {
            reveal_strlit("transfer");
        }
        PortId(String::from_str("transfer"))
    }

    pub fn duplicate(&self) -> (r: Self)
        ensures
            r@ == self@,
    {
        PortId(self.0.clone())
    }

    pub fn same(&self, o: &Self) -> (r: bool)
        ensures
            r == (self@ == o@),
    {
        self.0 == o.0
    }

    pub fn as_str(&self) -> (r: &str)
        ensures
            r@ == self@,
    {
        self.0.as_str()
    }
}

impl ChannelId {
    pub open spec fn view(&self) -> Seq<char> {
        self.0@
    }

    /// The channel identifier with counter `n`: `channel-<n>`.
    pub fn new(n: u64) -> (r: Self)
        ensures
            r@ == channel_prefix() + decimal(n as nat),
    {
        proof {
            reveal_strlit("channel-");
        }
        ChannelId(prefixed_counter("channel-", n))
    }

    pub fn from_string(s: String) -> (r: Self)
        ensures
            r@ == s@,
    {
        ChannelId(s)
    }

    pub fn duplicate(&self) -> (r: Self)
        ensures
            r@ == self@,
    {
        ChannelId(self.0.clone())
    }

    pub fn same(&self, o: &Self) -> (r: bool)
        ensures
            r == (self@ == o@),
    {
        self.0 == o.0
    }

    pub fn as_str(&self) -> (r: &str)
        ensures
            r@ == self@,
    {
        self.0.as_str()
    }
}

impl ConnectionId {
    pub open spec fn view(&self) -> Seq<char> {
        self.0@
    }

    /// The connection identifier with counter `n`: `connection-<n>`.
    pub fn new(n: u64) -> (r: Self)
        ensures
            r@ == connection_prefix() + decimal(n as nat),
    {
        proof {
            reveal_strlit("connection-");
        }
        ConnectionId(prefixed_counter("connection-", n))
    }

    pub fn from_string(s: String) -> (r: Self)
        ensures
            r@ == s@,
    {
        ConnectionId(s)
    }

    pub fn duplicate(&self) -> (r: Self)
        ensures
            r@ == self@,
    {
        ConnectionId(self.0.clone())
    }

    pub fn same(&self, o: &Self) -> (r: bool)
        ensures
            r == (self@ == o@),
    {
        self.0 == o.0
    }
}

impl ClientId {
    pub open spec fn view(&self) -> Seq<char> {
        self.0@
    }

    /// The client identifier with counter `n`: `07-tendermint-<n>`.
    pub fn new(n: u64) -> (r: Self)
        ensures
            r@ == client_prefix() + decimal(n as nat),
    {
        proof {
            reveal_strlit("07-tendermint-");
        }
        ClientId(prefixed_counter("07-tendermint-", n))
    }

    pub fn from_string(s: String) -> (r: Self)
        ensures
            r@ == s@,
    {
        ClientId(s)
    }

    pub fn duplicate(&self) -> (r: Self)
        ensures
            r@ == self@,
    {
        ClientId(self.0.clone())
    }
}

impl ModuleId {
    pub open spec fn view(&self) -> Seq<char> {
        self.0@
    }

    pub fn from_string(s: String) -> (r: Self)
        ensures
            r@ == s@,
    {
        ModuleId(s)
    }

    /// The identifier under which the transfer application is registered.
    pub fn transfer() -> (r: Self)
        ensures
            r@ == transfer_port_view(),
    {
        proof {
            reveal_strlit("transfer");
        }
        ModuleId(String::from_str("transfer"))
    }

    pub fn duplicate(&self) -> (r: Self)
        ensures
            r@ == self@,
    {
        ModuleId(self.0.clone())
    }

    pub fn same(&self, o: &Self) -> (r: bool)
        ensures
            r == (self@ == o@),
    {
        self.0 == o.0
    }
}

} // verus!
