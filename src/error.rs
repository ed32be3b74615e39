//! Errors of the core handlers and of the transfer application.
use vstd::prelude::*;

verus! {

/// Why the transfer application refused a hook or a packet.
#[derive(Debug, Clone, Copy, PartialEq, Eq, Structural)]
pub enum TransferError {
    /// The channel is ordered; transfers run over unordered channels only.
    ChannelNotUnordered,
    /// The port is not the one the application is bound to.
    InvalidPort,
    /// The proposed version is neither empty nor the transfer version.
    InvalidVersion,
    /// The counterparty's version is not the transfer version.
    InvalidCounterpartyVersion,
    /// Transfer channels cannot be closed by this chain.
    CantCloseChannel,
    /// The packet data is not a transfer packet.
    PacketDataDeserialization,
    /// The acknowledgement is not a transfer acknowledgement.
    AckDeserialization,
    /// The amount is not a decimal number that fits.
    InvalidAmount,
    /// An account holds less than the amount to move.
    InsufficientFunds,
    /// A balance or the supply would overflow.
    Overflow,
    /// Sending is disabled.
    SendDisabled,
    /// Receiving is disabled.
    ReceiveDisabled,
}

/// The short machine-readable name of a transfer error.
pub open spec fn code_of(e: TransferError) -> Seq<char> {
    match e {
        TransferError::ChannelNotUnordered => "channel_not_unordered"@,
        TransferError::InvalidPort => "invalid_port"@,
        TransferError::InvalidVersion => "invalid_version"@,
        TransferError::InvalidCounterpartyVersion => "invalid_counterparty_version"@,
        TransferError::CantCloseChannel => "cant_close_channel"@,
        TransferError::PacketDataDeserialization => "packet_data_deserialization"@,
        TransferError::AckDeserialization => "ack_deserialization"@,
        TransferError::InvalidAmount => "invalid_amount"@,
        TransferError::InsufficientFunds => "insufficient_funds"@,
        TransferError::Overflow => "overflow"@,
        TransferError::SendDisabled => "send_disabled"@,
        TransferError::ReceiveDisabled => "receive_disabled"@,
    }
}

impl TransferError {
    /// A short machine-readable name of the error.
    pub fn code(&self) -> (r: &'static str)
        ensures
            r@ == code_of(*self),
    {
        match self {
            TransferError::ChannelNotUnordered => "channel_not_unordered",
            TransferError::InvalidPort => "invalid_port",
            TransferError::InvalidVersion => "invalid_version",
            TransferError::InvalidCounterpartyVersion => "invalid_counterparty_version",
            TransferError::CantCloseChannel => "cant_close_channel",
            TransferError::PacketDataDeserialization => "packet_data_deserialization",
            TransferError::AckDeserialization => "ack_deserialization",
            TransferError::InvalidAmount => "invalid_amount",
            TransferError::InsufficientFunds => "insufficient_funds",
            TransferError::Overflow => "overflow",
            TransferError::SendDisabled => "send_disabled",
            TransferError::ReceiveDisabled => "receive_disabled",
        }
    }
}

/// Why a message was refused. Every error aborts the message: the host rolls
/// back what it wrote.
#[derive(Debug, Clone, Copy, PartialEq, Eq, Structural)]
pub enum Error {
    ClientNotFound,
    /// A client update does not move the client to a newer height.
    HeaderNotNewer,
    /// The client is frozen after misbehaviour.
    ClientFrozen,
    /// An upgrade does not move the client to a newer revision.
    InvalidUpgrade,
    /// The evidence does not show two conflicting headers.
    InvalidMisbehaviour,
    ConnectionNotFound,
    ConnectionNotOpen,
    InvalidConnectionState,
    /// The counterparty's state did not verify against the light client.
    ProofVerificationFailed,
    /// No module is bound to the port.
    UnknownPort,
    /// The module bound to the port is not registered with the router.
    RouteNotFound,
    ChannelNotFound,
    ChannelAlreadyExists,
    InvalidChannelState,
    InvalidConnectionHops,
    InvalidCounterparty,
    /// The packet's sequence is not the one the ordered channel expects.
    InvalidPacketSequence,
    ZeroPacketSequence,
    PacketTimedOut,
    PacketNotTimedOut,
    PacketHasNoTimeout,
    MissingNextSequence,
    PacketCommitmentNotFound,
    IncorrectPacketCommitment,
    AcknowledgementExists,
    /// A counter of minted identifiers or sequences would overflow.
    CounterOverflow,
    /// The bound module refused.
    AppModule(TransferError),
}

} // verus!
