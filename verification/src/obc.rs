//! The connector: the registry of bots and their channels, the registry of
//! pending calls, and the life of one call from dispatch to its outcome.
//!
//! A channel and a completion slot are known here by number. Whoever owns the
//! real endpoints keeps them under those numbers, performs the sends and the
//! waits, and reports back what happened.

use vstd::prelude::*;
use dashmap::DashMap;
use crate::error::WalleError;
use crate::token::{counter_after, render_token, token_text};

verus! {

/// The concurrent map that both registries are kept in.
#[verifier::external_type_specification]
#[verifier::external_body]
#[verifier::reject_recursive_types(K)]
#[verifier::reject_recursive_types(V)]
#[verifier::reject_recursive_types(S)]
pub struct ExDashMap<K, V, S>(DashMap<K, V, S>);

/// What a table of channels holds: for each bot identity the channels
/// registered for it, in the order of registration.
pub uninterp spec fn bot_channels(table: DashMap<String, Vec<u64>>) -> Map<Seq<char>, Seq<u64>>;

/// What a table of pending calls holds: for each token the slot that waits.
pub uninterp spec fn pending_slots(table: DashMap<String, u64>) -> Map<Seq<char>, u64>;

/// `DashMap::new`: a table that holds nothing.
#[verifier::external_body]
fn channel_table_new() -> (table: DashMap<String, Vec<u64>>)
    ensures
        bot_channels(table) == no_channels(),
{
    DashMap::new()
}

/// `DashMap::get`, handing out a copy of the value: the list held under
/// `bot_id`, or `None` where the table has no such key.
#[verifier::external_body]
fn channel_table_get(table: &DashMap<String, Vec<u64>>, bot_id: &str) -> (found: Option<Vec<u64>>)
    ensures
        match found {
            Some(list) => bot_channels(*table).contains_key(bot_id@) && list@ == bot_channels(
                *table,
            )[bot_id@],
            None => !bot_channels(*table).contains_key(bot_id@),
        },
{
    table.get(bot_id).map(|entry| entry.value().clone())
}

/// `DashMap::insert`: afterwards the table holds `list` under `bot_id`, in
/// place of what it held there, and every other key as before.
#[verifier::external_body]
fn channel_table_put(table: &mut DashMap<String, Vec<u64>>, bot_id: String, list: Vec<u64>)
    ensures
        bot_channels(*final(table)) == bot_channels(*old(table)).insert(bot_id@, list@),
{
    table.insert(bot_id, list);
}

/// `DashMap::new`: a table that holds nothing.
#[verifier::external_body]
fn slot_table_new() -> (table: DashMap<String, u64>)
    ensures
        pending_slots(table) == nothing_pending(),
{
    DashMap::new()
}

/// `DashMap::get`, handing out a copy of the value: the slot held under
/// `token`, or `None` where the table has no such key.
#[verifier::external_body]
fn slot_table_get(table: &DashMap<String, u64>, token: &str) -> (found: Option<u64>)
    ensures
        found == lookup(pending_slots(*table), token@),
{
    table.get(token).map(|entry| *entry.value())
}

/// `DashMap::insert`: afterwards the table holds `slot` under `token`; the
/// result is what it held there before.
#[verifier::external_body]
fn slot_table_insert(
    table: &mut DashMap<String, u64>,
    token: String,
    slot: u64,
) -> (displaced: Option<u64>)
    ensures
        pending_slots(*final(table)) == pending_slots(*old(table)).insert(token@, slot),
        displaced == lookup(pending_slots(*old(table)), token@),
{
    table.insert(token, slot)
}

/// `DashMap::remove`: afterwards the table has no key `token`; the result is
/// the slot it held there, if any.
#[verifier::external_body]
fn slot_table_remove(table: &mut DashMap<String, u64>, token: &str) -> (removed: Option<u64>)
    ensures
        pending_slots(*final(table)) == pending_slots(*old(table)).remove(token@),
        removed == lookup(pending_slots(*old(table)), token@),
{
    table.remove(token).map(|pair| pair.1)
}

/// A table of channels without any bot.
pub open spec fn no_channels() -> Map<Seq<char>, Seq<u64>> {
    Map::empty()
}

/// A table of pending calls without any entry.
pub open spec fn nothing_pending() -> Map<Seq<char>, u64> {
    Map::empty()
}

/// The slot that waits under a token, if any.
pub open spec fn lookup(pending: Map<Seq<char>, u64>, token: Seq<char>) -> Option<u64> {
    if pending.contains_key(token) {
        Some(pending[token])
    } else {
        None
    }
}

/// The predicate "is another channel than `tx`".
pub open spec fn other_than(tx: u64) -> spec_fn(u64) -> bool {
    |channel: u64| channel != tx
}

/// The channel that an action for `bot_id` goes to: the first one registered
/// for that identity. There is none where the identity is unknown or its list
/// is empty.
pub open spec fn route(channels: Map<Seq<char>, Seq<u64>>, bot_id: Seq<char>) -> Option<u64> {
    if channels.contains_key(bot_id) && channels[bot_id].len() > 0 {
        Some(channels[bot_id][0])
    } else {
        None
    }
}

/// The table of channels after `tx` was registered for `bot_id`.
pub open spec fn channels_with(
    channels: Map<Seq<char>, Seq<u64>>,
    bot_id: Seq<char>,
    tx: u64,
) -> Map<Seq<char>, Seq<u64>> {
    if channels.contains_key(bot_id) {
        channels.insert(bot_id, channels[bot_id].push(tx))
    } else {
        channels.insert(bot_id, seq![tx])
    }
}

/// The table of channels after `tx` was deregistered for `bot_id`: every
/// occurrence of `tx` leaves the list, the others keep their order, and the
/// identity stays even with an empty list.
pub open spec fn channels_without(
    channels: Map<Seq<char>, Seq<u64>>,
    bot_id: Seq<char>,
    tx: u64,
) -> Map<Seq<char>, Seq<u64>> {
    if channels.contains_key(bot_id) {
        channels.insert(bot_id, channels[bot_id].filter(other_than(tx)))
    } else {
        channels
    }
}

/// The pending calls after `slot` was registered under `token`: a token that
/// is taken keeps the slot it has.
pub open spec fn pending_with(
    pending: Map<Seq<char>, u64>,
    token: Seq<char>,
    slot: u64,
) -> Map<Seq<char>, u64> {
    if pending.contains_key(token) {
        pending
    } else {
        pending.insert(token, slot)
    }
}

/// The pending calls after the call on `slot` gave up waiting: its entry
/// leaves, unless the token has since been taken by another slot.
pub open spec fn pending_without(pending: Map<Seq<char>, u64>, slot: u64) -> Map<Seq<char>, u64> {
    if lookup(pending, token_text(slot)) == Some(slot) {
        pending.remove(token_text(slot))
    } else {
        pending
    }
}

/// Seconds that a call waits for its response.
pub const RESPONSE_DEADLINE_SECS: u64 = 10;

/// The registry of pending calls: from correlation token to the slot that
/// waits for the response.
pub struct EchoMap {
    table: DashMap<String, u64>,
}

impl View for EchoMap {
    type V = Map<Seq<char>, u64>;

    closed spec fn view(&self) -> Map<Seq<char>, u64> {
        pending_slots(self.table)
    }
}

impl EchoMap {
    /// A registry with nothing pending.
    pub fn new() -> (echos: EchoMap)
        ensures
            echos@ == nothing_pending(),
    {
        EchoMap { table: slot_table_new() }
    }

    /// Puts `slot` under `token`, provided that nothing waits under that
    /// token. The result says whether it did: a token that is taken keeps its
    /// slot, which for freshly minted tokens never happens.
    pub fn register(&mut self, token: String, slot: u64) -> (fresh: bool)
        ensures
            fresh == !old(self)@.contains_key(token@),
            final(self)@ == pending_with(old(self)@, token@, slot),
    {
        match slot_table_get(&self.table, token.as_str()) {
            Some(_) => false,
            None => {
                let _ = slot_table_insert(&mut self.table, token, slot);
                true
            },
        }
    }

    /// Takes the slot that waits under `token` out of the registry, for the
    /// response to be delivered to it. Where nothing waits under the token
    /// (never minted, timed out, or already answered) the response is to be
    /// dropped and the registry stays as it is.
    pub fn resolve(&mut self, token: &str) -> (slot: Option<u64>)
        ensures
            slot == lookup(old(self)@, token@),
            final(self)@ == old(self)@.remove(token@),
    {
        slot_table_remove(&mut self.table, token)
    }

    /// The slot that waits under `token`, if any.
    pub fn pending(&self, token: &str) -> (slot: Option<u64>)
        ensures
            slot == lookup(self@, token@),
    {
        slot_table_get(&self.table, token)
    }

    /// Evicts the entry of a call that gave up waiting on `slot`.
    pub fn expire(&mut self, slot: u64)
        ensures
            final(self)@ == pending_without(old(self)@, slot),
    {
        let token = render_token(slot);
        let found = slot_table_get(&self.table, token.as_str());
        match found {
            Some(waiting) => {
                if waiting == slot {
                    let _ = slot_table_remove(&mut self.table, token.as_str());
                }
            },
            None => {},
        }
    }
}

/// What the bot registry holds.
pub ghost struct BotMapView {
    /// For each bot identity its channels, in the order of registration.
    pub channels: Map<Seq<char>, Seq<u64>>,
    /// The counter value that the next token is minted from.
    pub counter: u64,
}

/// A dispatched call: where the action goes and where its response is awaited.
#[derive(Debug, Clone, Copy, PartialEq, Eq, Structural)]
pub struct Dispatch {
    /// The slot on which the caller waits; its decimal text is the token.
    pub slot: u64,
    /// The channel on which the enveloped action is sent.
    pub handle: u64,
}

/// An envelope: a payload with the token that ties an action to its
/// response. Without a token it is an action that expects no response, or an
/// event.
#[derive(Debug, Clone, PartialEq)]
pub struct Echo<I> {
    pub inner: I,
    pub echo: Option<String>,
}

impl<I> Echo<I> {
    /// The payload and the token apart.
    pub fn unpack(self) -> (parts: (I, Option<String>))
        ensures
            parts.0 == self.inner,
            parts.1 == self.echo,
    {
        (self.inner, self.echo)
    }
}

impl Dispatch {
    /// The correlation token that the envelope carries.
    pub fn token(&self) -> (token: String)
        ensures
            token@ == token_text(self.slot),
    {
        render_token(self.slot)
    }

    /// The envelope of the dispatched action: the action with the token.
    pub fn pack<I>(&self, action: I) -> (envelope: Echo<I>)
        ensures
            envelope.inner == action,
            envelope.echo matches Some(token) && token@ == token_text(self.slot),
    {
        Echo { inner: action, echo: Some(self.token()) }
    }
}

/// The registry of bots: the channels of each bot identity and the counter
/// from which tokens are minted.
pub struct BotMapInner {
    table: DashMap<String, Vec<u64>>,
    counter: u64,
}

impl View for BotMapInner {
    type V = BotMapView;

    closed spec fn view(&self) -> BotMapView {
        BotMapView { channels: bot_channels(self.table), counter: self.counter }
    }
}

impl BotMapInner {
    /// A registry without bots, with the counter at zero.
    pub fn new() -> (bots: BotMapInner)
        ensures
            bots@.channels == no_channels(),
            bots@.counter == 0,
    {
        BotMapInner { table: channel_table_new(), counter: 0 }
    }

    /// Mints the next token: the decimal text of the counter, which then
    /// moves on by one, wrapping at the end of its range.
    pub fn next_seg(&mut self) -> (token: String)
        ensures
            token@ == token_text(old(self)@.counter),
            final(self)@.counter == counter_after(old(self)@.counter, 1),
            final(self)@.channels == old(self)@.channels,
    {
        let minted = self.counter;
        self.counter = minted.wrapping_add(1);
        render_token(minted)
    }

    /// The channel that an action for `bot_id` would be sent on.
    pub fn first_handle(&self, bot_id: &str) -> (handle: Option<u64>)
        ensures
            handle == route(self@.channels, bot_id@),
    {
        match channel_table_get(&self.table, bot_id) {
            Some(list) => {
                if list.len() > 0 {
                    Some(list[0])
                } else {
                    None
                }
            },
            None => None,
        }
    }

    /// Dispatches an action for `bot_id`. Where the identity has no channel
    /// the call fails with `BotNotExist`, no token is minted and neither
    /// registry changes. Otherwise a token is minted, the slot of the same
    /// number is registered under it, and the result names the slot and the
    /// first channel registered for the identity. Sending the envelope and
    /// waiting for the response are left to the caller. Where a slot still
    /// sits under the same token, which takes a counter that has gone round,
    /// that slot stays and the new one is not registered.
    pub fn handle_action(
        &mut self,
        bot_id: &str,
        echo_map: &mut EchoMap,
    ) -> (dispatched: Result<Dispatch, WalleError>)
        ensures
            final(self)@.channels == old(self)@.channels,
            match route(old(self)@.channels, bot_id@) {
                Some(handle) => {
                    &&& dispatched matches Ok(d) && d.slot == old(self)@.counter && d.handle == handle
                    &&& final(self)@.counter == counter_after(old(self)@.counter, 1)
                    &&& final(echo_map)@ == pending_with(
                        old(echo_map)@,
                        token_text(old(self)@.counter),
                        old(self)@.counter,
                    )
                },
                None => {
                    &&& dispatched matches Err(WalleError::BotNotExist)
                    &&& final(self)@ == old(self)@
                    &&& final(echo_map)@ == old(echo_map)@
                },
            },
    {
        match self.first_handle(bot_id) {
            Some(handle) => {
                let slot = self.counter;
                let token = self.next_seg();
                let _ = echo_map.register(token, slot);
                Ok(Dispatch { slot, handle })
            },
            None => Err(WalleError::BotNotExist),
        }
    }

    /// Registers the channel `tx` for `bot_id`, behind those already
    /// registered; an unknown identity is created.
    pub fn ensure_tx(&mut self, bot_id: &str, tx: u64)
        ensures
            final(self)@.channels == channels_with(old(self)@.channels, bot_id@, tx),
            final(self)@.counter == old(self)@.counter,
    {
        let mut list = match channel_table_get(&self.table, bot_id) {
            Some(list) => list,
            None => Vec::new(),
        };
        list.push(tx);
        channel_table_put(&mut self.table, bot_id.to_owned(), list);
    }

    /// Deregisters the channel `tx` for `bot_id`. Other channels stay, in
    /// their order; the identity stays even when its list becomes empty; for
    /// an unknown identity, or a channel that is not registered, nothing
    /// changes.
    pub fn remove_bot(&mut self, bot_id: &str, tx: u64)
        ensures
            final(self)@.channels == channels_without(old(self)@.channels, bot_id@, tx),
            final(self)@.counter == old(self)@.counter,
    {
        match channel_table_get(&self.table, bot_id) {
            Some(list) => {
                let kept = without_channel(&list, tx);
                channel_table_put(&mut self.table, bot_id.to_owned(), kept);
            },
            None => {},
        }
    }
}

impl Default for BotMapInner {
    fn default() -> (bots: BotMapInner)
        ensures
            bots@.channels == no_channels(),
            bots@.counter == 0,
    {
        BotMapInner::new()
    }
}

/// Taking a channel out of a list a second time changes nothing.
pub proof fn lemma_filter_twice(list: Seq<u64>, tx: u64)
    ensures
        list.filter(other_than(tx)).filter(other_than(tx)) == list.filter(other_than(tx)),
    decreases list.len(),
{
    reveal(Seq::filter);
    if list.len() > 0 {
        lemma_filter_twice(list.drop_last(), tx);
        let kept = list.drop_last().filter(other_than(tx));
        if list.last() != tx {
            assert(kept.push(list.last()).drop_last() =~= kept);
        }
    }
}

/// Deregistering a channel twice is the same as deregistering it once.
pub proof fn lemma_deregister_twice(channels: Map<Seq<char>, Seq<u64>>, bot_id: Seq<char>, tx: u64)
    ensures
        channels_without(channels_without(channels, bot_id, tx), bot_id, tx) == channels_without(
            channels,
            bot_id,
            tx,
        ),
{
    if channels.contains_key(bot_id) {
        lemma_filter_twice(channels[bot_id], tx);
        assert(channels_without(channels_without(channels, bot_id, tx), bot_id, tx)
            =~= channels_without(channels, bot_id, tx));
    }
}

/// Registering a further channel never changes where the actions of a bot
/// go: the first channel registered stays the one selected, and the new
/// channel is selected only where the bot had none.
pub proof fn lemma_first_channel_stays(
    channels: Map<Seq<char>, Seq<u64>>,
    bot_id: Seq<char>,
    tx: u64,
)
    ensures
        route(channels_with(channels, bot_id, tx), bot_id) == match route(channels, bot_id) {
            Some(first) => Some(first),
            None => Some(tx),
        },
{
}

/// Registering or deregistering a channel for one bot leaves every other
/// bot's channels as they are.
pub proof fn lemma_other_bots_untouched(
    channels: Map<Seq<char>, Seq<u64>>,
    bot_id: Seq<char>,
    other: Seq<char>,
    tx: u64,
)
    requires
        other != bot_id,
    ensures
        route(channels_with(channels, bot_id, tx), other) == route(channels, other),
        route(channels_without(channels, bot_id, tx), other) == route(channels, other),
{
}

/// The channels of `list` other than `tx`, in their order.
pub fn without_channel(list: &Vec<u64>, tx: u64) -> (kept: Vec<u64>)
    ensures
        kept@ == list@.filter(other_than(tx)),
{
    let mut kept: Vec<u64> = Vec::new();
    let mut i: usize = 0;
    proof {
        reveal(Seq::filter);
        assert(list@.take(0) =~= Seq::<u64>::empty());
    }
    while i < list.len()
        invariant
            i <= list.len(),
            kept@ == list@.take(i as int).filter(other_than(tx)),
        decreases list.len() - i,
    {
        proof {
            reveal(Seq::filter);
            assert(list@.take(i + 1).drop_last() =~= list@.take(i as int));
            assert(list@.take(i + 1).last() == list@[i as int]);
        }
        if list[i] != tx {
            kept.push(list[i]);
        }
        i += 1;
    }
    assert(list@.take(i as int) =~= list@);
    kept
}

} // verus!
