//! Watches: standing subscriptions to the latest value of a message of a
//! station.
//!
//! The registry is a map in two levels: for each address at which something
//! is watched, the ids watched there, and for each of them the value that was
//! notified last. A new subscriber is given that value at once, and every
//! subscriber is given each update.

use std::collections::HashMap;
use std::collections::hash_map::Entry;
use vstd::prelude::*;
use vstd::std_specs::hash::*;
use vstd::std_specs::iter::IteratorSpec;
use crate::message::convert::{IsMessage, decode};
use crate::packet::{Address, Message, MessageId, MessageNumber, Value};
use crate::wire::{be32, be32_bytes, u32_from_be, u32_to_be};

verus! {

broadcast use group_hash_axioms;

/// What is watched at one address: the value notified last for each id.
pub type Watched = Map<MessageId, Option<Value>>;

/// What is watched, address by address.
pub type Watches = Map<Address, Watched>;

/// Someone watches `id` at `address`.
pub open spec fn watched(registry: Watches, address: Address, id: MessageId) -> bool {
    registry.contains_key(address) && registry[address].contains_key(id)
}

/// The value notified last for `id` at `address`; none where nobody watches
/// the pair or nothing was notified yet.
pub open spec fn latest(registry: Watches, address: Address, id: MessageId) -> Option<Value> {
    if watched(registry, address, id) {
        registry[address][id]
    } else {
        None
    }
}

/// The registry after `message` was notified by `sender`: the pair, if
/// someone watches it, holds the value of the message.
pub open spec fn notified(registry: Watches, sender: Address, message: Message) -> Watches {
    if watched(registry, sender, message.number) {
        registry.insert(sender, registry[sender].insert(message.number, Some(message.value)))
    } else {
        registry
    }
}

/// The registry after `messages` were notified by `sender`, one after the
/// other.
pub open spec fn notified_all(registry: Watches, sender: Address, messages: Seq<Message>)
    -> Watches
    decreases messages.len(),
{
    if messages.len() == 0 {
        registry
    } else {
        notified(notified_all(registry, sender, messages.drop_last()), sender, messages.last())
    }
}

/// The messages among `messages` that someone watches at `sender`, in order:
/// the updates that the subscribers are given.
pub open spec fn updates(registry: Watches, sender: Address, messages: Seq<Message>) -> Seq<
    Message,
>
    decreases messages.len(),
{
    if messages.len() == 0 {
        Seq::empty()
    } else if watched(registry, sender, messages.last().number) {
        updates(registry, sender, messages.drop_last()).push(messages.last())
    } else {
        updates(registry, sender, messages.drop_last())
    }
}

/// The registry after someone subscribed to `id` at `address`: a pair that
/// nobody watched yet is there with no value, and one that was watched is as
/// it was.
pub open spec fn subscribed(registry: Watches, address: Address, id: MessageId) -> Watches {
    if watched(registry, address, id) {
        registry
    } else if registry.contains_key(address) {
        registry.insert(address, registry[address].insert(id, None))
    } else {
        registry.insert(address, Map::<MessageId, Option<Value>>::empty().insert(id, None))
    }
}

/// `list` names all that is watched: each address at which something is
/// watched once, and with it each id watched there once. The order is open.
pub open spec fn lists(list: Seq<(Address, Seq<MessageId>)>, registry: Watches) -> bool {
    &&& forall|i: int, j: int| 0 <= i < j < list.len() ==> list[i].0 != list[j].0
    &&& forall|i: int|
        0 <= i < list.len() ==> {
            &&& registry.contains_key(#[trigger] list[i].0)
            &&& list[i].1.no_duplicates()
            &&& list[i].1.to_set() == registry[list[i].0].dom()
        }
    &&& forall|address: Address| #[trigger]
        registry.contains_key(address) ==> exists|i: int|
            0 <= i < list.len() && (#[trigger] list[i]).0 == address
}

/// The values of a list of watches.
pub open spec fn watches_view(list: Seq<(Address, Vec<MessageId>)>) -> Seq<
    (Address, Seq<MessageId>),
> {
    Seq::new(list.len(), |i: int| (list[i].0, list[i].1@))
}

/// Notifying a message keeps the watched pairs as they are.
pub proof fn lemma_notified_keeps_pairs(
    registry: Watches,
    sender: Address,
    message: Message,
    address: Address,
    id: MessageId,
)
    ensures
        watched(notified(registry, sender, message), address, id) <==> watched(
            registry,
            address,
            id,
        ),
{
}

/// After a message was notified, the pair that it belongs to holds its
/// value where someone watches the pair, and every other pair holds what it
/// held before.
pub proof fn lemma_notified_latest(
    registry: Watches,
    sender: Address,
    message: Message,
    address: Address,
    id: MessageId,
)
    ensures
        latest(notified(registry, sender, message), address, id) == if address == sender && id
            == message.number && watched(registry, address, id) {
            Some(message.value)
        } else {
            latest(registry, address, id)
        },
{
}

/// After someone subscribed to a pair it is watched, every pair that was
/// watched still is, and no pair holds another value than before.
pub proof fn lemma_subscribed_latest(
    registry: Watches,
    sender: Address,
    subscribed_id: MessageId,
    address: Address,
    id: MessageId,
)
    ensures
        watched(subscribed(registry, sender, subscribed_id), sender, subscribed_id),
        watched(subscribed(registry, sender, subscribed_id), address, id) <==> watched(
            registry,
            address,
            id,
        ) || (address == sender && id == subscribed_id),
        latest(subscribed(registry, sender, subscribed_id), address, id) == latest(
            registry,
            address,
            id,
        ),
{
}

/// The number under which `address` is kept: its three bytes, the class first.
spec fn address_key(address: Address) -> u32 {
    be32(0, address.class, address.channel, address.address)
}

/// The address that is kept under `key`.
spec fn key_address(key: u32) -> Address {
    Address::of_bytes(be32_bytes(key).skip(1))
}

/// An address is found again from its key.
proof fn lemma_key_round_trip(address: Address)
    ensures
        key_address(address_key(address)) == address,
        address_key(address) < 0x100_0000,
{
}

/// A key that is short enough is found again from its address.
proof fn lemma_address_round_trip(key: u32)
    requires
        key < 0x100_0000,
    ensures
        address_key(key_address(key)) == key,
{
}

/// What is kept under the numbers of ids, id by id.
spec fn by_id(table: Map<u16, Option<Value>>) -> Watched {
    Map::new(|id: MessageId| table.contains_key(id.0), |id: MessageId| table[id.0])
}

fn key_of(address: Address) -> (key: u32)
    ensures
        key == address_key(address),
{
    u32_from_be([0, address.class, address.channel, address.address])
}

fn address_at(key: u32) -> (address: Address)
    ensures
        address == key_address(key),
{
    let bytes = u32_to_be(key);
    Address { class: bytes[1], channel: bytes[2], address: bytes[3] }
}

/// The ids that `table` holds, each once.
fn ids_of(table: &HashMap<u16, Option<Value>>) -> (ids: Vec<MessageId>)
    ensures
        ids@.no_duplicates(),
        ids@.to_set() == by_id(table@).dom(),
{
    let mut ids: Vec<MessageId> = Vec::new();
    for number in it: table.keys()
        invariant
            ids.len() == it.index(),
            it.seq() == table.keys().remaining(),
            forall|i: int| 0 <= i < ids.len() ==> ids@[i] == MessageNumber(*it.seq()[i]),
    {
        ids.push(MessageNumber(*number));
    }
    proof {
        let numbers = table.keys().remaining().unref();
        assert(numbers.to_set() == table@.dom());
        assert forall|id: MessageId| ids@.contains(id) <==> table@.contains_key(id.0) by {
            if ids@.contains(id) {
                let i = choose|i: int| 0 <= i < ids@.len() && ids@[i] == id;
                assert(numbers[i] == id.0);
                assert(numbers.to_set().contains(id.0));
            }
            if table@.contains_key(id.0) {
                assert(numbers.to_set().contains(id.0));
                let i = choose|i: int| 0 <= i < numbers.len() && numbers[i] == id.0;
                assert(ids@[i] == id);
            }
        }
        assert(ids@.to_set() =~= by_id(table@).dom());
        assert forall|i: int, j: int| 0 <= i < ids@.len() && 0 <= j < ids@.len() && i != j implies
            ids@[i] != ids@[j] by {
            assert(numbers[i] != numbers[j]);
        }
    }
    ids
}

/// The registry of watches.
#[derive(Debug)]
pub struct WatchRegistry {
    watches: HashMap<u32, HashMap<u16, Option<Value>>>,
}

impl Default for WatchRegistry {
    fn default() -> (registry: Self)
        ensures
            registry@ == Map::<Address, Watched>::empty(),
            registry.wf(),
    {
        WatchRegistry::new()
    }
}

impl WatchRegistry {
    /// What is watched, and the value notified last for each watched pair.
    pub closed spec fn view(&self) -> Watches {
        Map::new(
            |address: Address| self.watches@.contains_key(address_key(address)),
            |address: Address| by_id(self.watches@[address_key(address)]@),
        )
    }

    /// Every key is the key of an address.
    pub closed spec fn wf(&self) -> bool {
        forall|key: u32| #[trigger] self.watches@.contains_key(key) ==> key < 0x100_0000
    }

    pub fn new() -> (registry: Self)
        ensures
            registry@ == Map::<Address, Watched>::empty(),
            registry.wf(),
    {
        let registry = WatchRegistry { watches: HashMap::new() };
        assert(registry@ =~= Map::<Address, Watched>::empty());
        registry
    }

    /// Takes in one message that `sender` notified: where someone watches
    /// it, its value is kept as the latest of its pair.
    fn keep(&mut self, sender: Address, message: Message) -> (kept: bool)
        requires
            old(self).wf(),
        ensures
            final(self).wf(),
            kept == watched(old(self)@, sender, message.number),
            final(self)@ == notified(old(self)@, sender, message),
    {
        let key = key_of(sender);
        let kept = match self.watches.entry(key) {
            Entry::Occupied(mut at) => {
                let table = at.get_mut();
                if table.contains_key(&message.number.0) {
                    table.insert(message.number.0, Some(message.value));
                    true
                } else {
                    false
                }
            },
            Entry::Vacant(_) => false,
        };
        proof {
            lemma_key_round_trip(sender);
            let after = notified(old(self)@, sender, message);
            assert forall|address: Address| self@.contains_key(address) implies #[trigger]
                self@[address] =~= after[address] by {
                lemma_key_round_trip(address);
            }
            assert forall|address: Address|
                self@.contains_key(address) <==> after.contains_key(address) by {
                lemma_key_round_trip(address);
            }
            assert(self@ =~~= after);
        }
        kept
    }

    /// Takes in the messages that `sender` notified. The value of each
    /// message that someone watches is kept as the latest of its pair.
    /// Returns the messages that someone watches, in order: these are the
    /// updates for the subscribers.
    pub fn notify(&mut self, sender: Address, messages: &[Message]) -> (sent: Vec<Message>)
        requires
            old(self).wf(),
        ensures
            final(self).wf(),
            final(self)@ == notified_all(old(self)@, sender, messages@),
            sent@ == updates(old(self)@, sender, messages@),
    {
        let mut sent: Vec<Message> = Vec::new();
        let mut k: usize = 0;
        proof {
            assert(messages@.take(0) =~= Seq::<Message>::empty());
        }
        while k < messages.len()
            invariant
                k <= messages.len(),
                self.wf(),
                self@ == notified_all(old(self)@, sender, messages@.take(k as int)),
                sent@ == updates(old(self)@, sender, messages@.take(k as int)),
                forall|id: MessageId|
                    watched(self@, sender, id) <==> watched(old(self)@, sender, id),
            decreases messages.len() - k,
        {
            let message = messages[k];
            proof {
                let taken = messages@.take(k as int + 1);
                assert(taken.drop_last() =~= messages@.take(k as int));
                assert(taken.last() == message);
            }
            if self.keep(sender, message) {
                sent.push(message);
            }
            k = k + 1;
        }
        proof {
            assert(messages@.take(k as int) =~= messages@);
        }
        sent
    }

    /// Adds a subscriber to `id` at `sender`. The pair is registered if it
    /// was not. Returns the value that the subscriber is given at once: the
    /// latest value of the pair, if it has one.
    pub fn subscribe(&mut self, sender: Address, id: MessageId) -> (current: Option<Value>)
        requires
            old(self).wf(),
        ensures
            final(self).wf(),
            final(self)@ == subscribed(old(self)@, sender, id),
            current == latest(old(self)@, sender, id),
    {
        let key = key_of(sender);
        let table = self.watches.entry(key).or_insert(HashMap::new());
        let current = match table.get(&id.0) {
            Some(value) => *value,
            None => {
                table.insert(id.0, None);
                None
            },
        };
        proof {
            lemma_key_round_trip(sender);
            let after = subscribed(old(self)@, sender, id);
            assert forall|address: Address| self@.contains_key(address) implies #[trigger]
                self@[address] =~= after[address] by {
                lemma_key_round_trip(address);
            }
            assert forall|address: Address|
                self@.contains_key(address) <==> after.contains_key(address) by {
                lemma_key_round_trip(address);
            }
            assert(self@ =~~= after);
        }
        current
    }

    /// All that is watched: for each address, the ids watched there.
    pub fn all_watches(&self) -> (list: Vec<(Address, Vec<MessageId>)>)
        requires
            self.wf(),
        ensures
            lists(watches_view(list@), self@),
    {
        let mut list: Vec<(Address, Vec<MessageId>)> = Vec::new();
        for key in it: self.watches.keys()
            invariant
                list.len() == it.index(),
                it.seq() == self.watches.keys().remaining(),
                forall|i: int|
                    0 <= i < list.len() ==> {
                        &&& (#[trigger] list@[i]).0 == key_address(*it.seq()[i])
                        &&& list@[i].1@.no_duplicates()
                        &&& list@[i].1@.to_set() == by_id(self.watches@[*it.seq()[i]]@).dom()
                    },
        {
            proof {
                let keys = self.watches.keys().remaining().unref();
                assert(keys.to_set().contains(keys[it.index()]));
            }
            // every key that the walk gives is in the map
            if let Some(table) = self.watches.get(key) {
                list.push((address_at(*key), ids_of(table)));
            }
        }
        proof {
            let keys = self.watches.keys().remaining().unref();
            let watches = watches_view(list@);
            assert(keys.to_set() == self.watches@.dom());
            assert forall|i: int| 0 <= i < keys.len() implies self.watches@.contains_key(
                #[trigger] keys[i],
            ) by {
                assert(keys.to_set().contains(keys[i]));
            }
            assert forall|i: int, j: int| 0 <= i < j < watches.len() implies watches[i].0
                != watches[j].0 by {
                lemma_address_round_trip(keys[i]);
                lemma_address_round_trip(keys[j]);
            }
            assert forall|i: int| 0 <= i < watches.len() implies {
                &&& self@.contains_key(#[trigger] watches[i].0)
                &&& watches[i].1.no_duplicates()
                &&& watches[i].1.to_set() == self@[watches[i].0].dom()
            } by {
                lemma_address_round_trip(keys[i]);
            }
            assert forall|address: Address| #[trigger] self@.contains_key(address) implies exists|
                i: int,
            |
                0 <= i < watches.len() && (#[trigger] watches[i]).0 == address by {
                let key = address_key(address);
                lemma_key_round_trip(address);
                assert(keys.to_set().contains(key));
                let i = choose|i: int| 0 <= i < keys.len() && keys[i] == key;
                assert(watches[i].0 == address);
            }
        }
        list
    }
}

/// What a subscriber to the typed message `M` is given for an update: the
/// typed value, where the update decodes as one.
pub fn typed_update<M: IsMessage>(value: Value) -> (typed: Option<M::Value>)
    ensures
        typed == decode::<M::Value>(value),
{
    let message = Message { number: M::number(), value };
    M::get(&message)
}

} // verus!
