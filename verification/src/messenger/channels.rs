//! The in-process channels that carry WebSocket events: one per chat room
//! and one per connected user, each a `tokio` broadcast channel kept under
//! the room's or the user's UUID.

use vstd::prelude::*;
use std::collections::HashMap;
use tokio::sync::broadcast::Sender;
use crate::messenger::dto::WsServerEvent;

verus! {

broadcast use vstd::std_specs::hash::group_hash_axioms;

/// A `tokio` broadcast sender, carried through as it is.
#[verifier::external_type_specification]
#[verifier::external_body]
#[verifier::reject_recursive_types(T)]
pub struct ExBroadcastSender<T>(tokio::sync::broadcast::Sender<T>);

/// How many events a channel buffers for a slow receiver.
pub const CHANNEL_CAPACITY: usize = 512;

/// Opens a channel with `tokio::sync::broadcast::channel(capacity)` and
/// keeps its sender; the first receiver is dropped at once. The crate
/// panics on a capacity of 0 or above `usize::MAX / 2`.
#[verifier::external_body]
fn open_channel(capacity: usize) -> Sender<WsServerEvent>
    requires
        0 < capacity <= usize::MAX / 2,
{
    tokio::sync::broadcast::channel(capacity).0
}

/// `Sender::clone`: another handle on the same channel. A sender is a
/// shared pointer to its channel and the clone shares that pointer, so it is
/// the same value.
#[verifier::external_body]
fn share(tx: &Sender<WsServerEvent>) -> (r: Sender<WsServerEvent>)
    ensures
        r == *tx,
{
    tx.clone()
}

/// `Sender::receiver_count`: how many receivers are subscribed now, which
/// other tasks change at any time.
#[verifier::external_body]
fn subscribers(tx: &Sender<WsServerEvent>) -> usize {
    tx.receiver_count()
}

/// `Sender::send`; the error it gives when nobody listens is ignored.
#[verifier::external_body]
fn deliver(tx: &Sender<WsServerEvent>, event: WsServerEvent) {
    let _ = tx.send(event);
}

/// Whether a channel with `listeners` subscribers has somebody listening.
pub fn online_of(listeners: usize) -> (b: bool)
    ensures
        b == (listeners > 0),
{
    listeners > 0
}

/// What `get_or_create(id)` does, from the channels before to the channels
/// after and the sender it returns: `id` has a channel, an open channel is
/// kept, no other UUID's channel changes, and the sender is the one kept
/// under `id`.
pub open spec fn got_or_created(
    before: Map<u128, Sender<WsServerEvent>>,
    after: Map<u128, Sender<WsServerEvent>>,
    id: u128,
    tx: Sender<WsServerEvent>,
) -> bool {
    &&& after.dom() == before.dom().insert(id)
    &&& before.contains_key(id) ==> after == before
    &&& forall|k: u128| k != id ==> #[trigger] after.contains_key(k) == before.contains_key(k)
        && (before.contains_key(k) ==> after[k] == before[k])
    &&& tx == after[id]
}

/// Two `get_or_create` calls with one UUID, with no other change between
/// them, give handles on one channel.
pub proof fn one_channel_per_id(
    before: Map<u128, Sender<WsServerEvent>>,
    middle: Map<u128, Sender<WsServerEvent>>,
    after: Map<u128, Sender<WsServerEvent>>,
    id: u128,
    first: Sender<WsServerEvent>,
    second: Sender<WsServerEvent>,
)
    requires
        got_or_created(before, middle, id, first),
        got_or_created(middle, after, id, second),
    ensures
        first == second,
        after == middle,
{
}

/// The senders kept under those of `ids` that have a channel, in the order
/// of `ids` and once per occurrence; a UUID without a channel adds nothing.
pub open spec fn senders_of(
    channels: Map<u128, Sender<WsServerEvent>>,
    ids: Seq<u128>,
) -> Seq<Sender<WsServerEvent>>
    decreases ids.len(),
{
    if ids.len() == 0 {
        Seq::empty()
    } else if channels.contains_key(ids.last()) {
        senders_of(channels, ids.drop_last()).push(channels[ids.last()])
    } else {
        senders_of(channels, ids.drop_last())
    }
}

/// The channels an event for `ids` goes to are those of the listed UUIDs
/// that have one, taken in the order of `ids` and once per occurrence:
/// `ids` with the UUIDs without a channel left out, each replaced by its
/// channel. In particular one UUID gives its own channel, or none.
pub proof fn senders_follow_ids(channels: Map<u128, Sender<WsServerEvent>>, ids: Seq<u128>, id: u128)
    ensures
        senders_of(channels, ids) == ids.filter(|i: u128| channels.contains_key(i)).map_values(|i: u128| channels[i]),
        senders_of(channels, seq![id]) == (if channels.contains_key(id) {
            seq![channels[id]]
        } else {
            Seq::<Sender<WsServerEvent>>::empty()
        }),
    decreases ids.len(),
{
    reveal(Seq::filter);
    let pred = |i: u128| channels.contains_key(i);
    let f = |i: u128| channels[i];
    if ids.len() > 0 {
        senders_follow_ids(channels, ids.drop_last(), id);
        let rest = ids.drop_last().filter(pred);
        if pred(ids.last()) {
            assert(rest.push(ids.last()).map_values(f) =~= rest.map_values(f).push(f(ids.last())));
        }
    } else {
        assert(ids.filter(pred).map_values(f) =~= Seq::<Sender<WsServerEvent>>::empty());
    }
    assert(seq![id].drop_last() =~= Seq::<u128>::empty());
    assert(seq![id].last() == id);
    assert(senders_of(channels, Seq::<u128>::empty()) == Seq::<Sender<WsServerEvent>>::empty());
    if channels.contains_key(id) {
        assert(Seq::<Sender<WsServerEvent>>::empty().push(channels[id]) =~= seq![channels[id]]);
    }
}

/// The channels of the chat rooms, or of the connected users, by UUID.
pub struct ChannelRegistry {
    channels: HashMap<u128, Sender<WsServerEvent>>,
}

impl View for ChannelRegistry {
    type V = Map<u128, Sender<WsServerEvent>>;

    /// The channel kept under each UUID.
    closed spec fn view(&self) -> Map<u128, Sender<WsServerEvent>> {
        self.channels@
    }
}

impl ChannelRegistry {
    /// No channels.
    pub fn new() -> (r: Self)
        ensures
            r@ == Map::<u128, Sender<WsServerEvent>>::empty(),
    {
        ChannelRegistry { channels: HashMap::new() }
    }

    /// A handle on the channel of `id`, opened when there is none: an open
    /// channel is never replaced, no other UUID's channel changes, and the
    /// handle is the channel kept under `id`.
    pub fn get_or_create(&mut self, id: u128) -> (tx: Sender<WsServerEvent>)
        ensures
            got_or_created(old(self)@, final(self)@, id, tx),
    {
        match self.channels.get(&id) {
            Some(tx) => {
                assert(self.channels@.contains_key(id) && self.channels@[id] == *tx);
                assert(self.channels@.dom().insert(id) =~= self.channels@.dom());
                return share(tx);
            },
            None => {},
        }
        let tx = open_channel(CHANNEL_CAPACITY);
        let handle = share(&tx);
        self.channels.insert(id, tx);
        handle
    }

    /// Forgets the channel of `id` when `listeners`, the number of its
    /// subscribers, is 0; every other channel stays.
    pub fn remove_if_idle(&mut self, id: u128, listeners: usize)
        ensures
            final(self)@ == (if old(self)@.contains_key(id) && listeners == 0 {
                old(self)@.remove(id)
            } else {
                old(self)@
            }),
    {
        if listeners == 0 && self.channels.contains_key(&id) {
            self.channels.remove(&id);
        }
    }

    /// Forgets the channel of `id` when nobody listens to it any more;
    /// every other channel stays. How many listen is up to other tasks, so
    /// the contract does not say whether the channel goes.
    pub fn cleanup(&mut self, id: u128)
        ensures
            final(self)@ == old(self)@ || final(self)@ == old(self)@.remove(id),
            !old(self)@.contains_key(id) ==> final(self)@ == old(self)@,
    {
        let listeners = match self.channels.get(&id) {
            Some(tx) => subscribers(tx),
            None => return,
        };
        self.remove_if_idle(id, listeners);
    }

    /// The channel kept under `id`, if there is one.
    pub fn channel_of(&self, id: u128) -> (r: Option<Sender<WsServerEvent>>)
        ensures
            r == (if self@.contains_key(id) { Some(self@[id]) } else { None }),
    {
        match self.channels.get(&id) {
            Some(tx) => Some(share(tx)),
            None => None,
        }
    }

    /// The channels that an event for `ids` goes to: the one kept under
    /// each UUID of `ids` that has one, in order and once per occurrence;
    /// UUIDs without a channel are skipped.
    pub fn recipients(&self, ids: &Vec<u128>) -> (r: Vec<Sender<WsServerEvent>>)
        ensures
            r@ == senders_of(self@, ids@),
    {
        let mut r: Vec<Sender<WsServerEvent>> = Vec::new();
        let mut i: usize = 0;
        while i < ids.len()
            invariant
                i <= ids@.len(),
                r@ == senders_of(self@, ids@.take(i as int)),
            decreases ids@.len() - i,
        {
            assert(ids@.take(i as int + 1).drop_last() == ids@.take(i as int));
            match self.channels.get(&ids[i]) {
                Some(tx) => r.push(share(tx)),
                None => {},
            }
            i = i + 1;
        }
        assert(ids@.take(ids@.len() as int) == ids@);
        r
    }

    /// Sends an event on [`ChannelRegistry::channel_of`] `id`, and nothing
    /// when `id` has no channel. No channel is created.
    pub fn send_to(&self, id: u128, event: WsServerEvent) {
        match self.channel_of(id) {
            Some(tx) => deliver(&tx, event),
            None => {},
        }
    }

    /// Sends an event once on each of [`ChannelRegistry::recipients`]
    /// `ids`. No channel is created.
    pub fn send_to_each(&self, ids: &Vec<u128>, event: &WsServerEvent) {
        let targets = self.recipients(ids);
        let mut i: usize = 0;
        while i < targets.len()
            invariant
                i <= targets@.len(),
            decreases targets@.len() - i,
        {
            deliver(&targets[i], event.clone());
            i = i + 1;
        }
    }

    /// Whether somebody listens on the channel of `id`: never when it has
    /// no channel, else [`online_of`] the number of its subscribers. That
    /// number is up to other tasks, so the contract does not give it.
    pub fn is_online(&self, id: u128) -> (b: bool)
        ensures
            b ==> self@.contains_key(id),
            !self@.contains_key(id) ==> !b,
    {
        match self.channels.get(&id) {
            Some(tx) => online_of(subscribers(tx)),
            None => false,
        }
    }
}

} // verus!
