//! The channel handshake handlers: each checks a message against the store
//! and computes the channel end to store, without writing anything.
use vstd::prelude::*;
use crate::channel::{
    clone_hops, hops_view, opt_channel_view, state_rank, ChannelEnd, ChannelIdState,
    ChannelResult, Counterparty, Height, State,
};
use crate::context::{chan_key, id_key, proof_verifies, ConnectionEnd, ConnectionState, IbcContext};
use crate::error::Error;
use crate::ident::{channel_prefix, decimal, ChannelId, ConnectionId, PortId};
use crate::msgs::{
    ChannelMsg, MsgChannelCloseConfirm, MsgChannelCloseInit, MsgChannelOpenAck,
    MsgChannelOpenConfirm, MsgChannelOpenInit, MsgChannelOpenTry,
};

verus! {

/// The first failed check on the connection a channel runs over: exactly one
/// hop, known, and open (or, where `allow_init`, still in init).
pub open spec fn conn_check(ctx: &IbcContext, hops: Seq<ConnectionId>, allow_init: bool) -> Option<
    Error,
> {
    if hops.len() != 1 {
        Some(Error::InvalidConnectionHops)
    } else if !ctx.connections@.contains_key(id_key(hops[0]@)) {
        Some(Error::ConnectionNotFound)
    } else if !(ctx.connections@[id_key(hops[0]@)].state == ConnectionState::Open || (allow_init
        && ctx.connections@[id_key(hops[0]@)].state == ConnectionState::Init)) {
        Some(Error::ConnectionNotOpen)
    } else {
        None
    }
}

/// The connection of the single hop.
pub open spec fn hop_connection(ctx: &IbcContext, hops: Seq<ConnectionId>) -> ConnectionEnd {
    ctx.connections@[id_key(hops[0]@)]
}

/// Whether a proof at `h` verifies with the client of the single hop.
pub open spec fn hop_proof_ok(ctx: &IbcContext, hops: Seq<ConnectionId>, h: Height) -> bool {
    proof_verifies(ctx.client_of(&hop_connection(ctx, hops)), h)
}

/// The channel identifier the next generated channel gets.
pub open spec fn next_channel_id(ctx: &IbcContext) -> Seq<char> {
    channel_prefix() + decimal(ctx.channel_counter as nat)
}

/// The stored channel end of a port and channel, if any.
pub open spec fn stored_channel(ctx: &IbcContext, port: Seq<char>, channel: Seq<char>) -> Option<
    ChannelEnd,
> {
    if ctx.channels@.contains_key(chan_key(port, channel)) {
        Some(ctx.channels@[chan_key(port, channel)])
    } else {
        None
    }
}

/// The first failed check of a channel handshake message, or `None` where it
/// is accepted.
pub open spec fn channel_check(ctx: &IbcContext, msg: &ChannelMsg) -> Option<Error> {
    match msg {
        ChannelMsg::ChannelOpenInit(m) => {
            let hops = m.channel.connection_hops@;
            if conn_check(ctx, hops, true) is Some {
                conn_check(ctx, hops, true)
            } else if ctx.channel_counter == u64::MAX {
                Some(Error::CounterOverflow)
            } else if ctx.channels@.contains_key(chan_key(m.port_id@, next_channel_id(ctx))) {
                Some(Error::ChannelAlreadyExists)
            } else {
                None
            }
        },
        ChannelMsg::ChannelOpenTry(m) => {
            let hops = m.channel.connection_hops@;
            if conn_check(ctx, hops, false) is Some {
                conn_check(ctx, hops, false)
            } else if m.channel.remote.channel_id is None {
                Some(Error::InvalidCounterparty)
            } else if !hop_proof_ok(ctx, hops, m.proof_height) {
                Some(Error::ProofVerificationFailed)
            } else if ctx.channel_counter == u64::MAX {
                Some(Error::CounterOverflow)
            } else if ctx.channels@.contains_key(chan_key(m.port_id@, next_channel_id(ctx))) {
                Some(Error::ChannelAlreadyExists)
            } else {
                None
            }
        },
        ChannelMsg::ChannelOpenAck(m) => match stored_channel(ctx, m.port_id@, m.channel_id@) {
            None => Some(Error::ChannelNotFound),
            Some(end) => if end.state != State::Init {
                Some(Error::InvalidChannelState)
            } else if conn_check(ctx, end.connection_hops@, false) is Some {
                conn_check(ctx, end.connection_hops@, false)
            } else if !hop_proof_ok(ctx, end.connection_hops@, m.proof_height) {
                Some(Error::ProofVerificationFailed)
            } else {
                None
            },
        },
        ChannelMsg::ChannelOpenConfirm(m) => match stored_channel(ctx, m.port_id@, m.channel_id@) {
            None => Some(Error::ChannelNotFound),
            Some(end) => if end.state != State::TryOpen {
                Some(Error::InvalidChannelState)
            } else if end.remote.channel_id is None {
                Some(Error::InvalidCounterparty)
            } else if conn_check(ctx, end.connection_hops@, false) is Some {
                conn_check(ctx, end.connection_hops@, false)
            } else if !hop_proof_ok(ctx, end.connection_hops@, m.proof_height) {
                Some(Error::ProofVerificationFailed)
            } else {
                None
            },
        },
        ChannelMsg::ChannelCloseInit(m) => match stored_channel(ctx, m.port_id@, m.channel_id@) {
            None => Some(Error::ChannelNotFound),
            Some(end) => if end.state != State::Open {
                Some(Error::InvalidChannelState)
            } else if end.remote.channel_id is None {
                Some(Error::InvalidCounterparty)
            } else if conn_check(ctx, end.connection_hops@, false) is Some {
                conn_check(ctx, end.connection_hops@, false)
            } else {
                None
            },
        },
        ChannelMsg::ChannelCloseConfirm(m) => match stored_channel(ctx, m.port_id@, m.channel_id@) {
            None => Some(Error::ChannelNotFound),
            Some(end) => if end.state != State::Open {
                Some(Error::InvalidChannelState)
            } else if end.remote.channel_id is None {
                Some(Error::InvalidCounterparty)
            } else if conn_check(ctx, end.connection_hops@, false) is Some {
                conn_check(ctx, end.connection_hops@, false)
            } else if !hop_proof_ok(ctx, end.connection_hops@, m.proof_height) {
                Some(Error::ProofVerificationFailed)
            } else {
                None
            },
        },
    }
}

/// The result an accepted channel handshake message yields.
pub open spec fn channel_result_matches(ctx: &IbcContext, msg: &ChannelMsg, res: ChannelResult) -> bool {
    &&& res.port_id@ == msg.port()
    &&& match msg {
        ChannelMsg::ChannelOpenInit(m) => {
            &&& res.channel_id@ == next_channel_id(ctx)
            &&& res.channel_id_state == ChannelIdState::Generated
            &&& res.channel_end.moved_from(&m.channel, State::Init)
        },
        ChannelMsg::ChannelOpenTry(m) => {
            &&& res.channel_id@ == next_channel_id(ctx)
            &&& res.channel_id_state == ChannelIdState::Generated
            &&& res.channel_end.moved_from(&m.channel, State::TryOpen)
        },
        ChannelMsg::ChannelOpenAck(m) => {
            let end = ctx.channels@[chan_key(m.port_id@, m.channel_id@)];
            &&& res.channel_id@ == m.channel_id@
            &&& res.channel_id_state == ChannelIdState::Reused
            &&& res.channel_end.state == State::Open
            &&& res.channel_end.ordering == end.ordering
            &&& res.channel_end.remote.port_id@ == end.remote.port_id@
            &&& opt_channel_view(res.channel_end.remote.channel_id) == Some(m.counterparty_channel_id@)
            &&& hops_view(res.channel_end.connection_hops@) == hops_view(end.connection_hops@)
            &&& res.channel_end.version@ == m.counterparty_version@
        },
        ChannelMsg::ChannelOpenConfirm(m) => {
            &&& res.channel_id@ == m.channel_id@
            &&& res.channel_id_state == ChannelIdState::Reused
            &&& res.channel_end.moved_from(&ctx.channels@[chan_key(m.port_id@, m.channel_id@)], State::Open)
        },
        ChannelMsg::ChannelCloseInit(m) => {
            &&& res.channel_id@ == m.channel_id@
            &&& res.channel_id_state == ChannelIdState::Reused
            &&& res.channel_end.moved_from(&ctx.channels@[chan_key(m.port_id@, m.channel_id@)], State::Closed)
        },
        ChannelMsg::ChannelCloseConfirm(m) => {
            &&& res.channel_id@ == m.channel_id@
            &&& res.channel_id_state == ChannelIdState::Reused
            &&& res.channel_end.moved_from(&ctx.channels@[chan_key(m.port_id@, m.channel_id@)], State::Closed)
        },
    }
}

/// The rank of the state stored for a channel; an absent channel is
/// uninitialized.
pub open spec fn stored_rank(ctx: &IbcContext, port: Seq<char>, channel: Seq<char>) -> int {
    match stored_channel(ctx, port, channel) {
        Some(end) => state_rank(end.state),
        None => 0,
    }
}

/// An accepted handshake message moves its channel to a state of a higher
/// rank than the one stored.
pub proof fn lemma_result_advances(ctx: &IbcContext, msg: &ChannelMsg, res: ChannelResult)
    requires
        channel_check(ctx, msg) is None,
        channel_result_matches(ctx, msg, res),
    ensures
        state_rank(res.channel_end.state) > stored_rank(ctx, res.port_id@, res.channel_id@),
        res.channel_id_state == ChannelIdState::Generated ==> stored_channel(ctx, res.port_id@, res.channel_id@) is None,
{
}

/// An accepted handshake message yields a channel end over one connection,
/// whose counterparty channel is known unless the message is an open init.
pub proof fn lemma_result_hops(ctx: &IbcContext, msg: &ChannelMsg, res: ChannelResult)
    requires
        channel_check(ctx, msg) is None,
        channel_result_matches(ctx, msg, res),
    ensures
        res.channel_end.connection_hops@.len() == 1,
        msg is ChannelOpenInit || res.channel_end.remote.channel_id is Some,
{
    let h = res.channel_end.connection_hops@;
    assert(hops_view(h).len() == h.len());
    match msg {
        ChannelMsg::ChannelOpenInit(m) => {
            assert(hops_view(m.channel.connection_hops@).len() == m.channel.connection_hops@.len());
        },
        ChannelMsg::ChannelOpenTry(m) => {
            assert(hops_view(m.channel.connection_hops@).len() == m.channel.connection_hops@.len());
        },
        ChannelMsg::ChannelOpenAck(m) => {
            let end = ctx.channels@[chan_key(m.port_id@, m.channel_id@)];
            assert(hops_view(end.connection_hops@).len() == end.connection_hops@.len());
        },
        ChannelMsg::ChannelOpenConfirm(m) => {
            let end = ctx.channels@[chan_key(m.port_id@, m.channel_id@)];
            assert(hops_view(end.connection_hops@).len() == end.connection_hops@.len());
        },
        ChannelMsg::ChannelCloseInit(m) => {
            let end = ctx.channels@[chan_key(m.port_id@, m.channel_id@)];
            assert(hops_view(end.connection_hops@).len() == end.connection_hops@.len());
        },
        ChannelMsg::ChannelCloseConfirm(m) => {
            let end = ctx.channels@[chan_key(m.port_id@, m.channel_id@)];
            assert(hops_view(end.connection_hops@).len() == end.connection_hops@.len());
        },
    }
}

/// Checks the single connection hop.
pub fn check_connection<'a>(ctx: &'a IbcContext, hops: &Vec<ConnectionId>, allow_init: bool) -> (r: Result<&'a ConnectionEnd, Error>)
    requires
        ctx.wf(),
    ensures
        match r {
            Ok(c) => conn_check(ctx, hops@, allow_init) is None && *c == hop_connection(ctx, hops@),
            Err(e) => conn_check(ctx, hops@, allow_init) == Some(e),
        },
{
    if hops.len() != 1 {
        return Err(Error::InvalidConnectionHops);
    }
    match ctx.connection_end(&hops[0]) {
        None => Err(Error::ConnectionNotFound),
        Some(c) => {
            if c.state == ConnectionState::Open || (allow_init && c.state == ConnectionState::Init) {
                Ok(c)
            } else {
                Err(Error::ConnectionNotOpen)
            }
        },
    }
}

/// The log line of an accepted handshake message.
pub open spec fn channel_log_line(msg: &ChannelMsg) -> Seq<char> {
    match msg {
        ChannelMsg::ChannelOpenInit(_) => "success: channel open init"@,
        ChannelMsg::ChannelOpenTry(_) => "success: channel open try"@,
        ChannelMsg::ChannelOpenAck(_) => "success: channel open ack"@,
        ChannelMsg::ChannelOpenConfirm(_) => "success: channel open confirm"@,
        ChannelMsg::ChannelCloseInit(_) => "success: channel close init"@,
        ChannelMsg::ChannelCloseConfirm(_) => "success: channel close confirm"@,
    }
}

fn log_line(s: &str) -> (r: Vec<String>)
    ensures
        r@.len() == 1,
        r@[0]@ == s@,
{
    let mut v: Vec<String> = Vec::new();
    v.push(String::from_str(s));
    v
}

/// The identifier for a new channel, checked to be fresh on `port_id`.
fn fresh_channel_id(ctx: &IbcContext, port_id: &PortId) -> (r: Result<ChannelId, Error>)
    requires
        ctx.wf(),
    ensures
        match r {
            Ok(id) => id@ == next_channel_id(ctx) && ctx.channel_counter < u64::MAX
                && !ctx.channels@.contains_key(chan_key(port_id@, next_channel_id(ctx))),
            Err(e) => (e == Error::CounterOverflow && ctx.channel_counter == u64::MAX) || (e
                == Error::ChannelAlreadyExists && ctx.channel_counter < u64::MAX
                && ctx.channels@.contains_key(chan_key(port_id@, next_channel_id(ctx)))),
        },
{
    if ctx.channel_counter == u64::MAX {
        return Err(Error::CounterOverflow);
    }
    let id = ChannelId::new(ctx.channel_counter);
    if ctx.channel_end(port_id, &id).is_some() {
        return Err(Error::ChannelAlreadyExists);
    }
    Ok(id)
}

fn open_init(ctx: &IbcContext, msg: &MsgChannelOpenInit) -> (r: Result<(Vec<String>, ChannelResult), Error>)
    requires
        ctx.wf(),
    ensures
        ({
            let cm = ChannelMsg::ChannelOpenInit(*msg);
            match channel_check(ctx, &cm) {
                None => r is Ok && channel_result_matches(ctx, &cm, r->Ok_0.1),
                Some(e) => r == Err::<(Vec<String>, ChannelResult), Error>(e),
            }
        }),
        r is Ok ==> r->Ok_0.0@.len() == 1 && r->Ok_0.0@[0]@ == channel_log_line(&ChannelMsg::ChannelOpenInit(*msg)),
{
    check_connection(ctx, &msg.channel.connection_hops, true)?;
    let channel_id = fresh_channel_id(ctx, &msg.port_id)?;
    let mut end = msg.channel.duplicate();
    end.state = State::Init;
    Ok((
        log_line("success: channel open init"),
        ChannelResult {
            port_id: msg.port_id.duplicate(),
            channel_id,
            channel_id_state: ChannelIdState::Generated,
            channel_end: end,
        },
    ))
}

fn open_try(ctx: &IbcContext, msg: &MsgChannelOpenTry) -> (r: Result<(Vec<String>, ChannelResult), Error>)
    requires
        ctx.wf(),
    ensures
        ({
            let cm = ChannelMsg::ChannelOpenTry(*msg);
            match channel_check(ctx, &cm) {
                None => r is Ok && channel_result_matches(ctx, &cm, r->Ok_0.1),
                Some(e) => r == Err::<(Vec<String>, ChannelResult), Error>(e),
            }
        }),
        r is Ok ==> r->Ok_0.0@.len() == 1 && r->Ok_0.0@[0]@ == channel_log_line(&ChannelMsg::ChannelOpenTry(*msg)),
{
    let conn = check_connection(ctx, &msg.channel.connection_hops, false)?;
    if msg.channel.remote.channel_id.is_none() {
        return Err(Error::InvalidCounterparty);
    }
    if !ctx.verify_proof(conn, &msg.proof_height) {
        return Err(Error::ProofVerificationFailed);
    }
    let channel_id = fresh_channel_id(ctx, &msg.port_id)?;
    let mut end = msg.channel.duplicate();
    end.state = State::TryOpen;
    Ok((
        log_line("success: channel open try"),
        ChannelResult {
            port_id: msg.port_id.duplicate(),
            channel_id,
            channel_id_state: ChannelIdState::Generated,
            channel_end: end,
        },
    ))
}

fn open_ack(ctx: &IbcContext, msg: &MsgChannelOpenAck) -> (r: Result<(Vec<String>, ChannelResult), Error>)
    requires
        ctx.wf(),
    ensures
        ({
            let cm = ChannelMsg::ChannelOpenAck(*msg);
            match channel_check(ctx, &cm) {
                None => r is Ok && channel_result_matches(ctx, &cm, r->Ok_0.1),
                Some(e) => r == Err::<(Vec<String>, ChannelResult), Error>(e),
            }
        }),
        r is Ok ==> r->Ok_0.0@.len() == 1 && r->Ok_0.0@[0]@ == channel_log_line(&ChannelMsg::ChannelOpenAck(*msg)),
{
    let stored = match ctx.channel_end(&msg.port_id, &msg.channel_id) {
        Some(c) => c,
        None => return Err(Error::ChannelNotFound),
    };
    if stored.state != State::Init {
        return Err(Error::InvalidChannelState);
    }
    let conn = check_connection(ctx, &stored.connection_hops, false)?;
    if !ctx.verify_proof(conn, &msg.proof_height) {
        return Err(Error::ProofVerificationFailed);
    }
    let end = ChannelEnd {
        state: State::Open,
        ordering: stored.ordering,
        remote: Counterparty {
            port_id: stored.remote.port_id.duplicate(),
            channel_id: Some(msg.counterparty_channel_id.duplicate()),
        },
        connection_hops: clone_hops(&stored.connection_hops),
        version: msg.counterparty_version.duplicate(),
    };
    Ok((
        log_line("success: channel open ack"),
        ChannelResult {
            port_id: msg.port_id.duplicate(),
            channel_id: msg.channel_id.duplicate(),
            channel_id_state: ChannelIdState::Reused,
            channel_end: end,
        },
    ))
}

/// A reused-identifier result that moves the stored end to `state`.
fn moved_result(port_id: &PortId, channel_id: &ChannelId, stored: &ChannelEnd, state: State, line: &str) -> (r: (Vec<String>, ChannelResult))
    ensures
        r.1.port_id@ == port_id@,
        r.1.channel_id@ == channel_id@,
        r.1.channel_id_state == ChannelIdState::Reused,
        r.1.channel_end.moved_from(stored, state),
        r.0@.len() == 1,
        r.0@[0]@ == line@,
{
    let mut end = stored.duplicate();
    end.state = state;
    (
        log_line(line),
        ChannelResult {
            port_id: port_id.duplicate(),
            channel_id: channel_id.duplicate(),
            channel_id_state: ChannelIdState::Reused,
            channel_end: end,
        },
    )
}

fn open_confirm(ctx: &IbcContext, msg: &MsgChannelOpenConfirm) -> (r: Result<(Vec<String>, ChannelResult), Error>)
    requires
        ctx.wf(),
    ensures
        ({
            let cm = ChannelMsg::ChannelOpenConfirm(*msg);
            match channel_check(ctx, &cm) {
                None => r is Ok && channel_result_matches(ctx, &cm, r->Ok_0.1),
                Some(e) => r == Err::<(Vec<String>, ChannelResult), Error>(e),
            }
        }),
        r is Ok ==> r->Ok_0.0@.len() == 1 && r->Ok_0.0@[0]@ == channel_log_line(&ChannelMsg::ChannelOpenConfirm(*msg)),
{
    let stored = match ctx.channel_end(&msg.port_id, &msg.channel_id) {
        Some(c) => c,
        None => return Err(Error::ChannelNotFound),
    };
    if stored.state != State::TryOpen {
        return Err(Error::InvalidChannelState);
    }
    if stored.remote.channel_id.is_none() {
        return Err(Error::InvalidCounterparty);
    }
    let conn = check_connection(ctx, &stored.connection_hops, false)?;
    if !ctx.verify_proof(conn, &msg.proof_height) {
        return Err(Error::ProofVerificationFailed);
    }
    Ok(moved_result(&msg.port_id, &msg.channel_id, stored, State::Open, "success: channel open confirm"))
}

fn close_init(ctx: &IbcContext, msg: &MsgChannelCloseInit) -> (r: Result<(Vec<String>, ChannelResult), Error>)
    requires
        ctx.wf(),
    ensures
        ({
            let cm = ChannelMsg::ChannelCloseInit(*msg);
            match channel_check(ctx, &cm) {
                None => r is Ok && channel_result_matches(ctx, &cm, r->Ok_0.1),
                Some(e) => r == Err::<(Vec<String>, ChannelResult), Error>(e),
            }
        }),
        r is Ok ==> r->Ok_0.0@.len() == 1 && r->Ok_0.0@[0]@ == channel_log_line(&ChannelMsg::ChannelCloseInit(*msg)),
{
    let stored = match ctx.channel_end(&msg.port_id, &msg.channel_id) {
        Some(c) => c,
        None => return Err(Error::ChannelNotFound),
    };
    if stored.state != State::Open {
        return Err(Error::InvalidChannelState);
    }
    if stored.remote.channel_id.is_none() {
        return Err(Error::InvalidCounterparty);
    }
    check_connection(ctx, &stored.connection_hops, false)?;
    Ok(moved_result(&msg.port_id, &msg.channel_id, stored, State::Closed, "success: channel close init"))
}

fn close_confirm(ctx: &IbcContext, msg: &MsgChannelCloseConfirm) -> (r: Result<(Vec<String>, ChannelResult), Error>)
    requires
        ctx.wf(),
    ensures
        ({
            let cm = ChannelMsg::ChannelCloseConfirm(*msg);
            match channel_check(ctx, &cm) {
                None => r is Ok && channel_result_matches(ctx, &cm, r->Ok_0.1),
                Some(e) => r == Err::<(Vec<String>, ChannelResult), Error>(e),
            }
        }),
        r is Ok ==> r->Ok_0.0@.len() == 1 && r->Ok_0.0@[0]@ == channel_log_line(&ChannelMsg::ChannelCloseConfirm(*msg)),
{
    let stored = match ctx.channel_end(&msg.port_id, &msg.channel_id) {
        Some(c) => c,
        None => return Err(Error::ChannelNotFound),
    };
    if stored.state != State::Open {
        return Err(Error::InvalidChannelState);
    }
    if stored.remote.channel_id.is_none() {
        return Err(Error::InvalidCounterparty);
    }
    let conn = check_connection(ctx, &stored.connection_hops, false)?;
    if !ctx.verify_proof(conn, &msg.proof_height) {
        return Err(Error::ProofVerificationFailed);
    }
    Ok(moved_result(&msg.port_id, &msg.channel_id, stored, State::Closed, "success: channel close confirm"))
}

/// Runs the handler of a channel handshake message. It reads the store and
/// returns the log and the channel end to store; it writes nothing.
pub fn channel_dispatch(ctx: &IbcContext, msg: &ChannelMsg) -> (r: Result<(Vec<String>, ChannelResult), Error>)
    requires
        ctx.wf(),
    ensures
        match channel_check(ctx, msg) {
            None => r is Ok && channel_result_matches(ctx, msg, r->Ok_0.1),
            Some(e) => r == Err::<(Vec<String>, ChannelResult), Error>(e),
        },
        r is Ok ==> r->Ok_0.0@.len() == 1 && r->Ok_0.0@[0]@ == channel_log_line(msg),
{
    match msg {
        ChannelMsg::ChannelOpenInit(m) => open_init(ctx, m),
        ChannelMsg::ChannelOpenTry(m) => open_try(ctx, m),
        ChannelMsg::ChannelOpenAck(m) => open_ack(ctx, m),
        ChannelMsg::ChannelOpenConfirm(m) => open_confirm(ctx, m),
        ChannelMsg::ChannelCloseInit(m) => close_init(ctx, m),
        ChannelMsg::ChannelCloseConfirm(m) => close_confirm(ctx, m),
    }
}

} // verus!
