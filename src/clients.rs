//! Light clients and the connection handshake, as far as channels need them:
//! a client follows the counterparty's height, and a connection is open once
//! both ends have agreed on it.
use vstd::prelude::*;
use crate::channel::{height_le, HandlerOutput, Height, IbcEvent};
use crate::context::{id_key, id_store_key, proof_verifies, ClientState, ConnectionEnd, ConnectionState, IbcContext};
use crate::error::Error;
use crate::ident::{client_prefix, connection_prefix, decimal, ClientId, ConnectionId};

verus! {

pub struct MsgCreateClient {
    pub height: Height,
    pub timestamp: u64,
    pub signer: String,
}

pub struct MsgUpdateClient {
    pub client_id: ClientId,
    pub height: Height,
    pub timestamp: u64,
    pub signer: String,
}

/// Moves a client to a new revision of the counterparty chain.
pub struct MsgUpgradeClient {
    pub client_id: ClientId,
    pub height: Height,
    pub timestamp: u64,
    pub signer: String,
}

/// Evidence of misbehaviour: two headers of the counterparty at one height
/// with different times.
pub struct MsgSubmitMisbehaviour {
    pub client_id: ClientId,
    pub height: Height,
    pub timestamp_a: u64,
    pub timestamp_b: u64,
    pub signer: String,
}

/// A light client message.
pub enum ClientMsg {
    CreateClient(MsgCreateClient),
    UpdateClient(MsgUpdateClient),
    UpgradeClient(MsgUpgradeClient),
    SubmitMisbehaviour(MsgSubmitMisbehaviour),
}

/// A client state to store under an identifier.
pub struct ClientResult {
    pub client_id: ClientId,
    pub client_state: ClientState,
    pub created: bool,
}

pub open spec fn next_client_id(ctx: &IbcContext) -> Seq<char> {
    client_prefix() + decimal(ctx.client_counter as nat)
}

/// The first failed check of a client message: a new client needs a fresh
/// identifier; an update needs a known client and a newer height.
pub open spec fn client_check(ctx: &IbcContext, msg: &ClientMsg) -> Option<Error> {
    match msg {
        ClientMsg::CreateClient(m) => if ctx.client_counter == u64::MAX {
            Some(Error::CounterOverflow)
        } else {
            None
        },
        ClientMsg::UpdateClient(m) => if !ctx.clients@.contains_key(id_key(m.client_id@)) {
            Some(Error::ClientNotFound)
        } else if ctx.clients@[id_key(m.client_id@)].frozen {
            Some(Error::ClientFrozen)
        } else if height_le(m.height, ctx.clients@[id_key(m.client_id@)].latest_height) {
            Some(Error::HeaderNotNewer)
        } else {
            None
        },
        ClientMsg::UpgradeClient(m) => if !ctx.clients@.contains_key(id_key(m.client_id@)) {
            Some(Error::ClientNotFound)
        } else if ctx.clients@[id_key(m.client_id@)].frozen {
            Some(Error::ClientFrozen)
        } else if m.height.revision_number <= ctx.clients@[id_key(m.client_id@)].latest_height.revision_number {
            Some(Error::InvalidUpgrade)
        } else {
            None
        },
        ClientMsg::SubmitMisbehaviour(m) => if !ctx.clients@.contains_key(id_key(m.client_id@)) {
            Some(Error::ClientNotFound)
        } else if ctx.clients@[id_key(m.client_id@)].frozen {
            Some(Error::ClientFrozen)
        } else if m.timestamp_a == m.timestamp_b {
            Some(Error::InvalidMisbehaviour)
        } else {
            None
        },
    }
}

pub open spec fn client_result_matches(ctx: &IbcContext, msg: &ClientMsg, res: &ClientResult) -> bool {
    match msg {
        ClientMsg::CreateClient(m) => res.client_id@ == next_client_id(ctx) && res.created
            && res.client_state == (ClientState { latest_height: m.height, latest_timestamp: m.timestamp, frozen: false }),
        ClientMsg::UpdateClient(m) => res.client_id@ == m.client_id@ && !res.created
            && res.client_state == (ClientState { latest_height: m.height, latest_timestamp: m.timestamp, frozen: false }),
        ClientMsg::UpgradeClient(m) => res.client_id@ == m.client_id@ && !res.created
            && res.client_state == (ClientState { latest_height: m.height, latest_timestamp: m.timestamp, frozen: false }),
        ClientMsg::SubmitMisbehaviour(m) => res.client_id@ == m.client_id@ && !res.created
            && res.client_state == (ClientState { frozen: true, ..ctx.clients@[id_key(m.client_id@)] }),
    }
}

/// Runs the handler of a client message; writes nothing.
pub fn client_dispatch(ctx: &IbcContext, msg: &ClientMsg) -> (r: Result<(HandlerOutput, ClientResult), Error>)
    requires
        ctx.wf(),
    ensures
        match client_check(ctx, msg) {
            None => r is Ok && client_result_matches(ctx, msg, &r->Ok_0.1),
            Some(e) => r == Err::<(HandlerOutput, ClientResult), Error>(e),
        },
{
    let mut out = HandlerOutput::new();
    match msg {
        ClientMsg::CreateClient(m) => {
            if ctx.client_counter == u64::MAX {
                return Err(Error::CounterOverflow);
            }
            let client_id = ClientId::new(ctx.client_counter);
            out.log_line("success: client created");
            out.emit(IbcEvent::CreateClient(client_id.duplicate()));
            Ok((out, ClientResult {
                client_id,
                client_state: ClientState { latest_height: m.height, latest_timestamp: m.timestamp, frozen: false },
                created: true,
            }))
        },
        ClientMsg::UpdateClient(m) => {
            let current = match ctx.client_state(&m.client_id) {
                Some(c) => c,
                None => return Err(Error::ClientNotFound),
            };
            if current.frozen {
                return Err(Error::ClientFrozen);
            }
            if m.height.le(&current.latest_height) {
                return Err(Error::HeaderNotNewer);
            }
            out.log_line("success: client updated");
            out.emit(IbcEvent::UpdateClient(m.client_id.duplicate(), m.height));
            Ok((out, ClientResult {
                client_id: m.client_id.duplicate(),
                client_state: ClientState { latest_height: m.height, latest_timestamp: m.timestamp, frozen: false },
                created: false,
            }))
        },
        ClientMsg::UpgradeClient(m) => {
            let current = match ctx.client_state(&m.client_id) {
                Some(c) => c,
                None => return Err(Error::ClientNotFound),
            };
            if current.frozen {
                return Err(Error::ClientFrozen);
            }
            if m.height.revision_number <= current.latest_height.revision_number {
                return Err(Error::InvalidUpgrade);
            }
            out.log_line("success: client upgraded");
            out.emit(IbcEvent::UpgradeClient(m.client_id.duplicate(), m.height));
            Ok((out, ClientResult {
                client_id: m.client_id.duplicate(),
                client_state: ClientState { latest_height: m.height, latest_timestamp: m.timestamp, frozen: false },
                created: false,
            }))
        },
        ClientMsg::SubmitMisbehaviour(m) => {
            let current = match ctx.client_state(&m.client_id) {
                Some(c) => c,
                None => return Err(Error::ClientNotFound),
            };
            if current.frozen {
                return Err(Error::ClientFrozen);
            }
            if m.timestamp_a == m.timestamp_b {
                return Err(Error::InvalidMisbehaviour);
            }
            out.log_line("success: client frozen for misbehaviour");
            out.emit(IbcEvent::ClientMisbehaviour(m.client_id.duplicate()));
            Ok((out, ClientResult {
                client_id: m.client_id.duplicate(),
                client_state: ClientState { frozen: true, ..current },
                created: false,
            }))
        },
    }
}

/// Writes a client result; only the clients and their counter change.
pub fn store_client_result(ctx: &mut IbcContext, res: ClientResult)
    requires
        old(ctx).wf(),
        res.created ==> old(ctx).client_counter < u64::MAX,
    ensures
        final(ctx).wf(),
        final(ctx).clients@ == old(ctx).clients@.insert(id_key(res.client_id@), res.client_state),
        final(ctx).client_counter == if res.created { old(ctx).client_counter + 1 } else { old(ctx).client_counter as int },
        final(ctx).connections == old(ctx).connections,
        final(ctx).channels == old(ctx).channels,
        final(ctx).next_sequence_send == old(ctx).next_sequence_send,
        final(ctx).next_sequence_recv == old(ctx).next_sequence_recv,
        final(ctx).next_sequence_ack == old(ctx).next_sequence_ack,
        final(ctx).packet_commitments == old(ctx).packet_commitments,
        final(ctx).packet_receipts == old(ctx).packet_receipts,
        final(ctx).packet_acknowledgements == old(ctx).packet_acknowledgements,
        final(ctx).port_bindings == old(ctx).port_bindings,
        final(ctx).router == old(ctx).router,
        final(ctx).connection_counter == old(ctx).connection_counter,
        final(ctx).channel_counter == old(ctx).channel_counter,
        final(ctx).host_height == old(ctx).host_height,
        final(ctx).host_timestamp == old(ctx).host_timestamp,
{
    if res.created {
        ctx.client_counter = ctx.client_counter + 1;
    }
    ctx.clients.insert(id_store_key(&res.client_id.0), res.client_state);
}

pub struct MsgConnectionOpenInit {
    pub client_id: ClientId,
    pub counterparty_client_id: ClientId,
    pub signer: String,
}

pub struct MsgConnectionOpenTry {
    pub client_id: ClientId,
    pub counterparty_client_id: ClientId,
    pub counterparty_connection_id: ConnectionId,
    pub proof_height: Height,
    pub signer: String,
}

pub struct MsgConnectionOpenAck {
    pub connection_id: ConnectionId,
    pub counterparty_connection_id: ConnectionId,
    pub proof_height: Height,
    pub signer: String,
}

pub struct MsgConnectionOpenConfirm {
    pub connection_id: ConnectionId,
    pub proof_height: Height,
    pub signer: String,
}

/// A message of the connection handshake.
pub enum ConnectionMsg {
    ConnectionOpenInit(MsgConnectionOpenInit),
    ConnectionOpenTry(MsgConnectionOpenTry),
    ConnectionOpenAck(MsgConnectionOpenAck),
    ConnectionOpenConfirm(MsgConnectionOpenConfirm),
}

/// A connection end to store under an identifier.
pub struct ConnectionResult {
    pub connection_id: ConnectionId,
    pub connection_end: ConnectionEnd,
    pub created: bool,
}

pub open spec fn next_connection_id(ctx: &IbcContext) -> Seq<char> {
    connection_prefix() + decimal(ctx.connection_counter as nat)
}

pub open spec fn stored_client(ctx: &IbcContext, id: Seq<char>) -> Option<ClientState> {
    if ctx.clients@.contains_key(id_key(id)) {
        Some(ctx.clients@[id_key(id)])
    } else {
        None
    }
}

/// The first failed check of a connection handshake message.
pub open spec fn connection_check(ctx: &IbcContext, msg: &ConnectionMsg) -> Option<Error> {
    match msg {
        ConnectionMsg::ConnectionOpenInit(m) => if stored_client(ctx, m.client_id@) is None {
            Some(Error::ClientNotFound)
        } else if ctx.connection_counter == u64::MAX {
            Some(Error::CounterOverflow)
        } else {
            None
        },
        ConnectionMsg::ConnectionOpenTry(m) => if stored_client(ctx, m.client_id@) is None {
            Some(Error::ClientNotFound)
        } else if !proof_verifies(stored_client(ctx, m.client_id@), m.proof_height) {
            Some(Error::ProofVerificationFailed)
        } else if ctx.connection_counter == u64::MAX {
            Some(Error::CounterOverflow)
        } else {
            None
        },
        ConnectionMsg::ConnectionOpenAck(m) => if !ctx.connections@.contains_key(id_key(m.connection_id@)) {
            Some(Error::ConnectionNotFound)
        } else if ctx.connections@[id_key(m.connection_id@)].state == ConnectionState::Open {
            Some(Error::InvalidConnectionState)
        } else if !proof_verifies(ctx.client_of(&ctx.connections@[id_key(m.connection_id@)]), m.proof_height) {
            Some(Error::ProofVerificationFailed)
        } else {
            None
        },
        ConnectionMsg::ConnectionOpenConfirm(m) => if !ctx.connections@.contains_key(id_key(m.connection_id@)) {
            Some(Error::ConnectionNotFound)
        } else if ctx.connections@[id_key(m.connection_id@)].state != ConnectionState::TryOpen {
            Some(Error::InvalidConnectionState)
        } else if !proof_verifies(ctx.client_of(&ctx.connections@[id_key(m.connection_id@)]), m.proof_height) {
            Some(Error::ProofVerificationFailed)
        } else {
            None
        },
    }
}

/// The connection identifier and state an accepted message stores.
pub open spec fn connection_result_matches(ctx: &IbcContext, msg: &ConnectionMsg, res: &ConnectionResult) -> bool {
    match msg {
        ConnectionMsg::ConnectionOpenInit(m) => res.connection_id@ == next_connection_id(ctx) && res.created
            && res.connection_end.state == ConnectionState::Init && res.connection_end.client_id@ == m.client_id@,
        ConnectionMsg::ConnectionOpenTry(m) => res.connection_id@ == next_connection_id(ctx) && res.created
            && res.connection_end.state == ConnectionState::TryOpen && res.connection_end.client_id@ == m.client_id@,
        ConnectionMsg::ConnectionOpenAck(m) => res.connection_id@ == m.connection_id@ && !res.created
            && res.connection_end.state == ConnectionState::Open
            && res.connection_end.client_id@ == ctx.connections@[id_key(m.connection_id@)].client_id@,
        ConnectionMsg::ConnectionOpenConfirm(m) => res.connection_id@ == m.connection_id@ && !res.created
            && res.connection_end.state == ConnectionState::Open
            && res.connection_end.client_id@ == ctx.connections@[id_key(m.connection_id@)].client_id@,
    }
}

fn opened(end: &ConnectionEnd, counterparty_connection_id: Option<ConnectionId>) -> (r: ConnectionEnd)
    ensures
        r.state == ConnectionState::Open,
        r.client_id@ == end.client_id@,
{
    let counterparty_connection_id = match counterparty_connection_id {
        Some(c) => Some(c),
        None => match &end.counterparty_connection_id {
            Some(c) => Some(c.duplicate()),
            None => None,
        },
    };
    ConnectionEnd {
        state: ConnectionState::Open,
        client_id: end.client_id.duplicate(),
        counterparty_client_id: end.counterparty_client_id.duplicate(),
        counterparty_connection_id,
    }
}

/// Runs the handler of a connection handshake message; writes nothing.
pub fn connection_dispatch(ctx: &IbcContext, msg: &ConnectionMsg) -> (r: Result<(HandlerOutput, ConnectionResult), Error>)
    requires
        ctx.wf(),
    ensures
        match connection_check(ctx, msg) {
            None => r is Ok && connection_result_matches(ctx, msg, &r->Ok_0.1),
            Some(e) => r == Err::<(HandlerOutput, ConnectionResult), Error>(e),
        },
{
    let mut out = HandlerOutput::new();
    match msg {
        ConnectionMsg::ConnectionOpenInit(m) => {
            if ctx.client_state(&m.client_id).is_none() {
                return Err(Error::ClientNotFound);
            }
            if ctx.connection_counter == u64::MAX {
                return Err(Error::CounterOverflow);
            }
            let connection_id = ConnectionId::new(ctx.connection_counter);
            out.log_line("success: connection open init");
            out.emit(IbcEvent::OpenInitConnection(connection_id.duplicate()));
            Ok((out, ConnectionResult {
                connection_id,
                connection_end: ConnectionEnd {
                    state: ConnectionState::Init,
                    client_id: m.client_id.duplicate(),
                    counterparty_client_id: m.counterparty_client_id.duplicate(),
                    counterparty_connection_id: None,
                },
                created: true,
            }))
        },
        ConnectionMsg::ConnectionOpenTry(m) => {
            let client = match ctx.client_state(&m.client_id) {
                Some(c) => c,
                None => return Err(Error::ClientNotFound),
            };
            if !(!client.frozen && !m.proof_height.is_zero() && m.proof_height.le(&client.latest_height)) {
                return Err(Error::ProofVerificationFailed);
            }
            if ctx.connection_counter == u64::MAX {
                return Err(Error::CounterOverflow);
            }
            let connection_id = ConnectionId::new(ctx.connection_counter);
            out.log_line("success: connection open try");
            out.emit(IbcEvent::OpenTryConnection(connection_id.duplicate()));
            Ok((out, ConnectionResult {
                connection_id,
                connection_end: ConnectionEnd {
                    state: ConnectionState::TryOpen,
                    client_id: m.client_id.duplicate(),
                    counterparty_client_id: m.counterparty_client_id.duplicate(),
                    counterparty_connection_id: Some(m.counterparty_connection_id.duplicate()),
                },
                created: true,
            }))
        },
        ConnectionMsg::ConnectionOpenAck(m) => {
            let end = match ctx.connection_end(&m.connection_id) {
                Some(c) => c,
                None => return Err(Error::ConnectionNotFound),
            };
            if end.state == ConnectionState::Open {
                return Err(Error::InvalidConnectionState);
            }
            if !ctx.verify_proof(end, &m.proof_height) {
                return Err(Error::ProofVerificationFailed);
            }
            out.log_line("success: connection open ack");
            out.emit(IbcEvent::OpenAckConnection(m.connection_id.duplicate()));
            Ok((out, ConnectionResult {
                connection_id: m.connection_id.duplicate(),
                connection_end: opened(end, Some(m.counterparty_connection_id.duplicate())),
                created: false,
            }))
        },
        ConnectionMsg::ConnectionOpenConfirm(m) => {
            let end = match ctx.connection_end(&m.connection_id) {
                Some(c) => c,
                None => return Err(Error::ConnectionNotFound),
            };
            if end.state != ConnectionState::TryOpen {
                return Err(Error::InvalidConnectionState);
            }
            if !ctx.verify_proof(end, &m.proof_height) {
                return Err(Error::ProofVerificationFailed);
            }
            out.log_line("success: connection open confirm");
            out.emit(IbcEvent::OpenConfirmConnection(m.connection_id.duplicate()));
            Ok((out, ConnectionResult {
                connection_id: m.connection_id.duplicate(),
                connection_end: opened(end, None),
                created: false,
            }))
        },
    }
}

/// Writes a connection result; only the connections and their counter
/// change.
pub fn store_connection_result(ctx: &mut IbcContext, res: ConnectionResult)
    requires
        old(ctx).wf(),
        res.created ==> old(ctx).connection_counter < u64::MAX,
    ensures
        final(ctx).wf(),
        final(ctx).connections@ == old(ctx).connections@.insert(id_key(res.connection_id@), res.connection_end),
        final(ctx).connection_counter == if res.created { old(ctx).connection_counter + 1 } else { old(ctx).connection_counter as int },
        final(ctx).clients == old(ctx).clients,
        final(ctx).channels == old(ctx).channels,
        final(ctx).next_sequence_send == old(ctx).next_sequence_send,
        final(ctx).next_sequence_recv == old(ctx).next_sequence_recv,
        final(ctx).next_sequence_ack == old(ctx).next_sequence_ack,
        final(ctx).packet_commitments == old(ctx).packet_commitments,
        final(ctx).packet_receipts == old(ctx).packet_receipts,
        final(ctx).packet_acknowledgements == old(ctx).packet_acknowledgements,
        final(ctx).port_bindings == old(ctx).port_bindings,
        final(ctx).router == old(ctx).router,
        final(ctx).client_counter == old(ctx).client_counter,
        final(ctx).channel_counter == old(ctx).channel_counter,
        final(ctx).host_height == old(ctx).host_height,
        final(ctx).host_timestamp == old(ctx).host_timestamp,
{
    if res.created {
        ctx.connection_counter = ctx.connection_counter + 1;
    }
    ctx.connections.insert(id_store_key(&res.connection_id.0), res.connection_end);
}

} // verus!
