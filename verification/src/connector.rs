//! The connector itself: both registries, and the life of one call.
//!
//! A call is dispatched, its action is sent, its response is awaited, and it
//! ends resolved, timed out, failed to send, or without a bot; a slot that
//! closes without a value ends it too. The connector decides; its driver
//! sends, waits and reports each event.

use vstd::prelude::*;
use crate::error::WalleError;
use crate::obc::{
    lookup, no_channels, nothing_pending, pending_with, pending_without, route, BotMapInner,
    Dispatch, Echo, EchoMap,
};
use crate::token::{counter_after, token_text};

verus! {

/// Where a call stands.
#[derive(Debug, Clone, Copy, PartialEq, Eq, Structural)]
pub enum CallState {
    /// A token is minted and the slot registered; the enveloped action is to
    /// be sent on the channel.
    Dispatched(Dispatch),
    /// The action is sent; the caller waits on the slot until the deadline.
    Awaiting(Dispatch),
    /// The response arrived in time.
    Resolved,
    /// The deadline passed first.
    TimedOut,
    /// The channel's receiver was gone.
    SendFailed,
    /// The bot has no channel.
    BotNotFound,
    /// The slot closed without a value: no response can arrive any more.
    ReceiveFailed,
}

/// What the driver of a call reports.
#[derive(Debug, Clone, Copy, PartialEq, Eq, Structural)]
pub enum CallEvent {
    /// The channel took the envelope.
    Sent,
    /// The channel refused the envelope.
    SendError,
    /// The slot was fulfilled.
    Response,
    /// The deadline passed.
    Deadline,
    /// The slot closed without having been fulfilled.
    SlotClosed,
}

/// The state that follows `state` on `event`. An event that does not belong
/// to the state changes nothing; a call that has ended stays as it ended.
pub open spec fn next_state(state: CallState, event: CallEvent) -> CallState {
    match (state, event) {
        (CallState::Dispatched(d), CallEvent::Sent) => CallState::Awaiting(d),
        (CallState::Dispatched(_), CallEvent::SendError) => CallState::SendFailed,
        (CallState::Awaiting(_), CallEvent::Response) => CallState::Resolved,
        (CallState::Awaiting(_), CallEvent::Deadline) => CallState::TimedOut,
        (CallState::Awaiting(_), CallEvent::SlotClosed) => CallState::ReceiveFailed,
        _ => state,
    }
}

/// The pending calls after `event` in `state`: a call that fails to send,
/// runs into its deadline or loses its slot leaves the registry.
pub open spec fn pending_after(
    pending: Map<Seq<char>, u64>,
    state: CallState,
    event: CallEvent,
) -> Map<Seq<char>, u64> {
    match (state, event) {
        (CallState::Dispatched(d), CallEvent::SendError) => pending_without(pending, d.slot),
        (CallState::Awaiting(d), CallEvent::Deadline) => pending_without(pending, d.slot),
        (CallState::Awaiting(d), CallEvent::SlotClosed) => pending_without(pending, d.slot),
        _ => pending,
    }
}

/// The message of a call whose slot closed without a value.
pub open spec fn slot_closed_text() -> Seq<char> {
    "channel closed"@
}

/// Whether `outcome` is what the caller of a call in `state` gets: nothing
/// while the call runs, `Ok` once it is resolved, else the error that says
/// how it ended.
pub open spec fn is_outcome_of(outcome: Option<Result<(), WalleError>>, state: CallState) -> bool {
    match state {
        CallState::Dispatched(_) => outcome is None,
        CallState::Awaiting(_) => outcome is None,
        CallState::Resolved => outcome matches Some(Ok(_)),
        CallState::TimedOut => outcome matches Some(Err(WalleError::ResponseTimeout)),
        CallState::SendFailed => outcome matches Some(Err(WalleError::ActionSendError)),
        CallState::BotNotFound => outcome matches Some(Err(WalleError::BotNotExist)),
        CallState::ReceiveFailed => outcome matches Some(Err(WalleError::Other(text))) && text@
            == slot_closed_text(),
    }
}

impl CallState {
    /// Whether the call has ended.
    pub open spec fn ended(self) -> bool {
        !(self is Dispatched) && !(self is Awaiting)
    }

    /// Whether the call has ended.
    pub fn is_ended(&self) -> (ended: bool)
        ensures
            ended == self.ended(),
    {
        match self {
            CallState::Dispatched(_) => false,
            CallState::Awaiting(_) => false,
            _ => true,
        }
    }

    /// What the caller gets: `Ok` for a call that was resolved (the response
    /// itself is on the slot), the error of a call that failed, `None` while
    /// the call runs.
    pub fn outcome(&self) -> (outcome: Option<Result<(), WalleError>>)
        ensures
            is_outcome_of(outcome, *self),
    {
        match self {
            CallState::Dispatched(_) => None,
            CallState::Awaiting(_) => None,
            CallState::Resolved => Some(Ok(())),
            CallState::TimedOut => Some(Err(WalleError::ResponseTimeout)),
            CallState::SendFailed => Some(Err(WalleError::ActionSendError)),
            CallState::BotNotFound => Some(Err(WalleError::BotNotExist)),
            CallState::ReceiveFailed => Some(Err(WalleError::Other("channel closed".to_owned()))),
        }
    }

    /// The state in which a call starts, from what the dispatch gave.
    pub fn begin(dispatched: &Result<Dispatch, WalleError>) -> (state: CallState)
        ensures
            state == match *dispatched {
                Ok(d) => CallState::Dispatched(d),
                Err(_) => CallState::BotNotFound,
            },
    {
        match dispatched {
            Ok(d) => CallState::Dispatched(*d),
            Err(_) => CallState::BotNotFound,
        }
    }
}

/// The application-side connector: the registry of pending calls and the
/// registry of bots.
pub struct AppOBC {
    pub echos: EchoMap,
    pub bots: BotMapInner,
}

impl AppOBC {
    /// A connector without bots and without pending calls.
    pub fn new() -> (obc: AppOBC)
        ensures
            obc.echos@ == nothing_pending(),
            obc.bots@.channels == no_channels(),
            obc.bots@.counter == 0,
    {
        AppOBC { echos: EchoMap::new(), bots: BotMapInner::new() }
    }

    /// Dispatches an action for `bot_id`. For a bot without a channel the
    /// result is `BotNotExist`, and no token is minted and no registry
    /// changes. Otherwise the next token is minted and its slot registered,
    /// and the result names the slot and the first channel of the bot.
    pub fn call(&mut self, bot_id: &str) -> (dispatched: Result<Dispatch, WalleError>)
        ensures
            final(self).bots@.channels == old(self).bots@.channels,
            match route(old(self).bots@.channels, bot_id@) {
                Some(handle) => {
                    &&& dispatched matches Ok(d) && d.slot == old(self).bots@.counter && d.handle
                        == handle
                    &&& final(self).bots@.counter == counter_after(old(self).bots@.counter, 1)
                    &&& final(self).echos@ == pending_with(
                        old(self).echos@,
                        token_text(old(self).bots@.counter),
                        old(self).bots@.counter,
                    )
                },
                None => {
                    &&& dispatched matches Err(WalleError::BotNotExist)
                    &&& final(self).bots@ == old(self).bots@
                    &&& final(self).echos@ == old(self).echos@
                },
            },
    {
        self.bots.handle_action(bot_id, &mut self.echos)
    }

    /// Moves a call on by one event. A call whose send failed, whose deadline
    /// passed or whose slot closed leaves the registry of pending calls, so
    /// that a late response finds nothing to deliver to.
    pub fn advance(&mut self, state: CallState, event: CallEvent) -> (next: CallState)
        ensures
            next == next_state(state, event),
            final(self).echos@ == pending_after(old(self).echos@, state, event),
            final(self).bots@ == old(self).bots@,
    {
        match state {
            CallState::Dispatched(d) => match event {
                CallEvent::Sent => CallState::Awaiting(d),
                CallEvent::SendError => {
                    self.echos.expire(d.slot);
                    CallState::SendFailed
                },
                _ => state,
            },
            CallState::Awaiting(d) => match event {
                CallEvent::Response => CallState::Resolved,
                CallEvent::Deadline => {
                    self.echos.expire(d.slot);
                    CallState::TimedOut
                },
                CallEvent::SlotClosed => {
                    self.echos.expire(d.slot);
                    CallState::ReceiveFailed
                },
                _ => state,
            },
            _ => state,
        }
    }

    /// Routes an envelope that came in. A response whose token a call waits
    /// for is handed out with the slot to deliver it to, and the entry leaves
    /// the registry. Anything else (no token, or a token that nothing waits
    /// for) is not delivered, and the registry stays as it is.
    pub fn deliver<R>(&mut self, incoming: Echo<R>) -> (delivery: Option<(u64, R)>)
        ensures
            final(self).bots@ == old(self).bots@,
            match incoming.echo {
                Some(token) => {
                    &&& final(self).echos@ == old(self).echos@.remove(token@)
                    &&& match lookup(old(self).echos@, token@) {
                        Some(slot) => delivery == Some((slot, incoming.inner)),
                        None => delivery is None,
                    }
                },
                None => delivery is None && final(self).echos@ == old(self).echos@,
            },
    {
        let (value, echo) = incoming.unpack();
        match echo {
            Some(token) => match self.echos.resolve(token.as_str()) {
                Some(slot) => Some((slot, value)),
                None => None,
            },
            None => None,
        }
    }

    /// Routes a response that carries `token`: the slot that waits for it
    /// leaves the registry and is returned, for the response to be delivered
    /// there. Where none waits the response is to be dropped.
    pub fn resolve(&mut self, token: &str) -> (slot: Option<u64>)
        ensures
            slot == lookup(old(self).echos@, token@),
            final(self).echos@ == old(self).echos@.remove(token@),
            final(self).bots@ == old(self).bots@,
    {
        self.echos.resolve(token)
    }
}

impl Default for AppOBC {
    fn default() -> (obc: AppOBC)
        ensures
            obc.echos@ == nothing_pending(),
            obc.bots@.channels == no_channels(),
            obc.bots@.counter == 0,
    {
        AppOBC::new()
    }
}

/// A response is delivered at most once: after a token was resolved, a second
/// response with the same token finds no slot.
pub proof fn lemma_resolved_once(pending: Map<Seq<char>, u64>, token: Seq<char>)
    ensures
        lookup(pending.remove(token), token) is None,
{
}

/// After a call gave up waiting, no response can reach its slot any more:
/// whatever sits under its token then is not that slot.
pub proof fn lemma_expired_unreachable(pending: Map<Seq<char>, u64>, slot: u64)
    ensures
        lookup(pending_without(pending, slot), token_text(slot)) != Some(slot),
{
}

/// A call that runs into its deadline ends as timed out, and from then on a
/// response with its token is not delivered to its slot.
pub proof fn lemma_no_delivery_after_timeout(pending: Map<Seq<char>, u64>, d: Dispatch)
    ensures
        next_state(CallState::Awaiting(d), CallEvent::Deadline) == CallState::TimedOut,
        is_outcome_of(Some(Err(WalleError::ResponseTimeout)), CallState::TimedOut),
        lookup(
            pending_after(pending, CallState::Awaiting(d), CallEvent::Deadline),
            token_text(d.slot),
        ) != Some(d.slot),
{
}

/// A call that has ended stays as it ended, and no event on it touches the
/// pending calls.
pub proof fn lemma_ended_is_final(pending: Map<Seq<char>, u64>, state: CallState, event: CallEvent)
    requires
        state.ended(),
    ensures
        next_state(state, event) == state,
        pending_after(pending, state, event) == pending,
{
}

/// Right after the dispatch of a fresh token, the token leads to the slot of
/// the call, and a response that arrives then is delivered there exactly
/// once.
pub proof fn lemma_dispatch_then_resolve(pending: Map<Seq<char>, u64>, counter: u64)
    requires
        !pending.contains_key(token_text(counter)),
    ensures
        lookup(pending_with(pending, token_text(counter), counter), token_text(counter)) == Some(
            counter,
        ),
        lookup(
            pending_with(pending, token_text(counter), counter).remove(token_text(counter)),
            token_text(counter),
        ) is None,
{
}

/// Registering a slot never takes a pending call away from its token.
pub proof fn lemma_register_keeps_pending(
    pending: Map<Seq<char>, u64>,
    token: Seq<char>,
    slot: u64,
    waiting: Seq<char>,
)
    requires
        pending.contains_key(waiting),
    ensures
        lookup(pending_with(pending, token, slot), waiting) == lookup(pending, waiting),
{
}

} // verus!
