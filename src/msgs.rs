//! The channel handshake and packet messages.
use vstd::prelude::*;
use crate::channel::{ChannelEnd, Height, Packet};
use crate::ident::{ChannelId, PortId};
use crate::version::Version;

verus! {

pub struct MsgChannelOpenInit {
    pub port_id: PortId,
    pub channel: ChannelEnd,
    pub signer: String,
}

pub struct MsgChannelOpenTry {
    pub port_id: PortId,
    pub channel: ChannelEnd,
    pub counterparty_version: Version,
    pub proof_height: Height,
    pub signer: String,
}

pub struct MsgChannelOpenAck {
    pub port_id: PortId,
    pub channel_id: ChannelId,
    pub counterparty_channel_id: ChannelId,
    pub counterparty_version: Version,
    pub proof_height: Height,
    pub signer: String,
}

pub struct MsgChannelOpenConfirm {
    pub port_id: PortId,
    pub channel_id: ChannelId,
    pub proof_height: Height,
    pub signer: String,
}

pub struct MsgChannelCloseInit {
    pub port_id: PortId,
    pub channel_id: ChannelId,
    pub signer: String,
}

pub struct MsgChannelCloseConfirm {
    pub port_id: PortId,
    pub channel_id: ChannelId,
    pub proof_height: Height,
    pub signer: String,
}

/// A message of the channel handshake.
pub enum ChannelMsg {
    ChannelOpenInit(MsgChannelOpenInit),
    ChannelOpenTry(MsgChannelOpenTry),
    ChannelOpenAck(MsgChannelOpenAck),
    ChannelOpenConfirm(MsgChannelOpenConfirm),
    ChannelCloseInit(MsgChannelCloseInit),
    ChannelCloseConfirm(MsgChannelCloseConfirm),
}

impl ChannelMsg {
    /// The local port the message is about.
    pub open spec fn port(&self) -> Seq<char> {
        match self {
            ChannelMsg::ChannelOpenInit(m) => m.port_id@,
            ChannelMsg::ChannelOpenTry(m) => m.port_id@,
            ChannelMsg::ChannelOpenAck(m) => m.port_id@,
            ChannelMsg::ChannelOpenConfirm(m) => m.port_id@,
            ChannelMsg::ChannelCloseInit(m) => m.port_id@,
            ChannelMsg::ChannelCloseConfirm(m) => m.port_id@,
        }
    }

    pub fn port_id(&self) -> (r: &PortId)
        ensures
            r@ == self.port(),
    {
        match self {
            ChannelMsg::ChannelOpenInit(m) => &m.port_id,
            ChannelMsg::ChannelOpenTry(m) => &m.port_id,
            ChannelMsg::ChannelOpenAck(m) => &m.port_id,
            ChannelMsg::ChannelOpenConfirm(m) => &m.port_id,
            ChannelMsg::ChannelCloseInit(m) => &m.port_id,
            ChannelMsg::ChannelCloseConfirm(m) => &m.port_id,
        }
    }
}

pub struct MsgRecvPacket {
    pub packet: Packet,
    pub proof_height: Height,
    pub signer: String,
}

pub struct MsgAcknowledgement {
    pub packet: Packet,
    pub acknowledgement: Vec<u8>,
    pub proof_height: Height,
    pub signer: String,
}

pub struct MsgTimeout {
    pub packet: Packet,
    pub next_sequence_recv: u64,
    pub proof_height: Height,
    pub signer: String,
}

pub struct MsgTimeoutOnClose {
    pub packet: Packet,
    pub next_sequence_recv: u64,
    pub proof_height: Height,
    pub signer: String,
}

/// A message of the packet lifecycle.
pub enum PacketMsg {
    RecvPacket(MsgRecvPacket),
    AckPacket(MsgAcknowledgement),
    TimeoutPacket(MsgTimeout),
    TimeoutOnClosePacket(MsgTimeoutOnClose),
}

impl PacketMsg {
    pub open spec fn packet(&self) -> Packet {
        match self {
            PacketMsg::RecvPacket(m) => m.packet,
            PacketMsg::AckPacket(m) => m.packet,
            PacketMsg::TimeoutPacket(m) => m.packet,
            PacketMsg::TimeoutOnClosePacket(m) => m.packet,
        }
    }

    /// The port whose module handles the message: the destination port for a
    /// received packet, the source port otherwise.
    pub open spec fn module_port(&self) -> Seq<char> {
        match self {
            PacketMsg::RecvPacket(m) => m.packet.destination_port@,
            _ => self.packet().source_port@,
        }
    }
}

} // verus!
