//! The decisions of the broker, which owns the bus and fans its traffic out.
//!
//! Every peer, the bus and each client, hands in the packets it receives. A
//! packet goes out to every peer but the one it came from. A peer whose
//! outbound queue is full misses the packet; a peer whose queue is closed is
//! removed.

use vstd::prelude::*;
use crate::packet::{Packet, SerializePacketError};
use crate::serialize::serialize_frame_spec;
use crate::frame::MAX_FRAME_SIZE;
use crate::transport::{serialize_frame, shared_bytes};

verus! {

/// How many frames can wait in the outbound queue of a peer.
pub const OUTBOUND_QUEUE: usize = 8;

/// What a peer is.
#[derive(Debug, Clone, Copy, PartialEq, Eq, Structural)]
pub enum PeerLabel {
    Bus,
    Client,
}

/// A peer of the broker: what it is, and the handle through which the
/// caller reaches it.
#[derive(Debug)]
pub struct Peer<P> {
    pub label: PeerLabel,
    pub io: P,
}

/// What an attempt to put a frame in the outbound queue of a peer gave.
#[derive(Debug, Clone, Copy, PartialEq, Eq, Structural)]
pub enum SendOutcome {
    /// The frame is in the queue.
    Sent,
    /// The queue is full: the peer misses this frame.
    Full,
    /// The queue is closed: its writer is gone.
    Closed,
}

/// The places of all peers but the one at `from`, in ascending order, among
/// `count` peers.
pub open spec fn others(count: nat, from: int) -> Seq<usize> {
    Seq::new(
        if 0 <= from < count {
            (count - 1) as nat
        } else {
            count
        },
        |k: int|
            if 0 <= from <= k {
                (k + 1) as usize
            } else {
                k as usize
            },
    )
}

/// The peers after the one at `index` was removed: the last peer takes its
/// place.
pub open spec fn swap_removed<T>(peers: Seq<T>, index: int) -> Seq<T> {
    peers.update(index, peers.last()).drop_last()
}

/// The peers after a fan-out from the peer at `from` among `count` peers was
/// settled from outcome `first` on: each peer whose outcome is `Closed` is
/// removed, those at the higher places first.
pub open spec fn settled<T>(
    peers: Seq<T>,
    count: nat,
    from: int,
    outcomes: Seq<SendOutcome>,
    first: int,
) -> Seq<T>
    decreases outcomes.len() - first,
{
    if first >= outcomes.len() {
        peers
    } else {
        let later = settled(peers, count, from, outcomes, first + 1);
        if outcomes[first] == SendOutcome::Closed {
            swap_removed(later, others(count, from)[first] as int)
        } else {
            later
        }
    }
}

/// The peers that a fan-out from the peer at `from` among `count` peers finds
/// with a closed queue, from outcome `first` on, those at the higher places
/// first.
pub open spec fn closed<T>(
    peers: Seq<T>,
    count: nat,
    from: int,
    outcomes: Seq<SendOutcome>,
    first: int,
) -> Seq<T>
    decreases outcomes.len() - first,
{
    if first >= outcomes.len() {
        Seq::empty()
    } else {
        let later = closed(peers, count, from, outcomes, first + 1);
        if outcomes[first] == SendOutcome::Closed {
            later.push(peers[others(count, from)[first] as int])
        } else {
            later
        }
    }
}

/// The places that are polled, in order, among `count` peers when polling
/// starts at `start`: one round over all peers.
pub open spec fn round(count: nat, start: int) -> Seq<usize> {
    Seq::new(count, |k: int| wrap(start + k, count) as usize)
}

/// The place that `place` stands for among `count` places, where counting
/// goes on from the first place after the last.
pub open spec fn wrap(place: int, count: nat) -> int {
    if place >= count {
        place - count
    } else {
        place
    }
}

/// The peer at `place` is among those that a packet from the peer at `from`
/// goes to.
pub open spec fn is_target(count: nat, from: int, place: int) -> bool {
    exists|k: int| 0 <= k < others(count, from).len() && #[trigger] others(count, from)[k] == place
}

/// No packet is forwarded to the peer that sent it, and it is forwarded to
/// every other peer exactly once.
pub proof fn lemma_never_reflected(count: nat, from: int)
    requires
        0 <= from < count <= usize::MAX,
    ensures
        !is_target(count, from, from),
        forall|place: int|
            0 <= place < count && place != from ==> #[trigger] is_target(count, from, place),
        forall|k: int| 0 <= k < others(count, from).len() ==> others(count, from)[k] < count,
        forall|j: int, k: int|
            0 <= j < k < others(count, from).len() ==> others(count, from)[j] < others(
                count,
                from,
            )[k],
{
    assert forall|place: int| 0 <= place < count && place != from implies #[trigger] is_target(
        count,
        from,
        place,
    ) by {
        let k = if place < from {
            place
        } else {
            place - 1
        };
        assert(others(count, from)[k] == place);
    }
}

/// A round of polling comes to every peer, and to each once.
pub proof fn lemma_round_reaches_all(count: nat, start: int)
    requires
        0 <= start < count <= usize::MAX,
    ensures
        round(count, start).len() == count,
        round(count, start)[0] == start,
        forall|k: int| 0 <= k < count ==> round(count, start)[k] < count,
        forall|place: int|
            0 <= place < count ==> round(count, start)[#[trigger] wrap(
                place + count - start,
                count,
            )] == place,
        forall|j: int, k: int|
            0 <= j < k < count ==> round(count, start)[j] != round(count, start)[k],
{
}

/// Removing the peer at `index` takes that peer away and no other.
pub proof fn lemma_swap_removed<T>(peers: Seq<T>, index: int)
    requires
        0 <= index < peers.len(),
    ensures
        swap_removed(peers, index).len() == peers.len() - 1,
        swap_removed(peers, index).to_multiset().insert(peers[index]) =~= peers.to_multiset(),
        forall|i: int| 0 <= i < index ==> swap_removed(peers, index)[i] == peers[i],
{
    broadcast use vstd::seq_lib::group_to_multiset_ensures;

    let last = peers.len() - 1;
    let after = swap_removed(peers, index);
    assert(peers.drop_last() =~= peers.remove(last));
    if index == last {
        assert(after =~= peers.remove(last));
        assert(peers.contains(peers[last]));
        assert(after.to_multiset() == peers.to_multiset().remove(peers[last]));
        assert(after.to_multiset().insert(peers[index]) =~= peers.to_multiset());
    } else {
        let x = peers[last];
        assert(after[index] == x);
        assert(after.remove(index) =~= peers.drop_last().remove(index));
        assert(peers.drop_last()[index] == peers[index]);
        // what is left without the two is the same on both sides
        let rest = after.remove(index).to_multiset();
        assert(rest == after.to_multiset().remove(x));
        assert(rest == peers.to_multiset().remove(x).remove(peers[index]));
        assert(peers.to_multiset().count(x) > 0) by {
            assert(peers.contains(x));
        }
        assert(peers.to_multiset().remove(x).count(peers[index]) > 0) by {
            assert(peers.drop_last().contains(peers[index]));
        }
        assert(after.to_multiset().count(x) > 0) by {
            assert(after.contains(x));
        }
        let a = after.to_multiset();
        let p = peers.to_multiset();
        let y = peers[index];
        assert forall|v: T| #[trigger] a.insert(y).count(v) == p.count(v) by {
            assert(rest.count(v) == a.remove(x).count(v));
            assert(rest.count(v) == p.remove(x).remove(y).count(v));
        }
        assert(a.insert(y) =~= p);
    }
}

/// Settling a fan-out loses no peer and makes none twice: every peer is
/// afterwards either still a peer or among those that were removed.
pub proof fn lemma_settled_keeps_the_rest<T>(
    peers: Seq<T>,
    from: int,
    outcomes: Seq<SendOutcome>,
    first: int,
)
    requires
        0 <= from < peers.len() <= usize::MAX,
        outcomes.len() == peers.len() - 1,
        0 <= first <= outcomes.len(),
    ensures
        settled(peers, peers.len(), from, outcomes, first).to_multiset().add(
            closed(peers, peers.len(), from, outcomes, first).to_multiset(),
        ) =~= peers.to_multiset(),
        first < outcomes.len() ==> settled(peers, peers.len(), from, outcomes, first).len()
            >= others(peers.len(), from)[first],
        forall|i: int|
            0 <= i < settled(peers, peers.len(), from, outcomes, first).len() && (first
                < outcomes.len() ==> i < others(peers.len(), from)[first]) ==> settled(
                peers,
                peers.len(),
                from,
                outcomes,
                first,
            )[i] == peers[i],
    decreases outcomes.len() - first,
{
    broadcast use vstd::seq_lib::group_to_multiset_ensures;

    let count = peers.len();
    if first < outcomes.len() {
        lemma_settled_keeps_the_rest(peers, from, outcomes, first + 1);
        let later = settled(peers, count, from, outcomes, first + 1);
        let gone = closed(peers, count, from, outcomes, first + 1);
        let place = others(count, from)[first] as int;
        if first + 1 < outcomes.len() {
            assert(place < others(count, from)[first + 1]);
        } else {
            assert(later == peers);
        }
        if outcomes[first] == SendOutcome::Closed {
            lemma_swap_removed(later, place);
            assert(later[place] == peers[place]);
            assert(swap_removed(later, place).to_multiset().add(
                gone.push(peers[place]).to_multiset(),
            ) =~= later.to_multiset().add(gone.to_multiset()));
        }
    } else {
        assert(Seq::<T>::empty().to_multiset() =~= vstd::multiset::Multiset::<T>::empty());
    }
}

/// What goes out for a packet that came in.
#[derive(Debug)]
pub struct Forward {
    /// The frame of the packet.
    pub frame: bytes::Bytes,
    /// The places of the peers that the frame goes to.
    pub targets: Vec<usize>,
}

/// The peers of the broker.
#[derive(Debug)]
pub struct Broker<P> {
    peers: Vec<Peer<P>>,
    start: usize,
}

impl<P> Broker<P> {
    /// The peers, each at its place.
    pub closed spec fn view(&self) -> Seq<Peer<P>> {
        self.peers@
    }

    /// The place at which the next round of polling starts.
    pub closed spec fn poll_start(&self) -> int {
        self.start as int
    }

    /// Polling starts at the place of a peer.
    pub open spec fn wf(&self) -> bool {
        0 <= self.poll_start() && (self.poll_start() < self@.len() || self.poll_start() == 0)
    }

    /// A broker whose only peer is the bus.
    pub fn new(bus: P) -> (broker: Self)
        ensures
            broker.wf(),
            broker@ == seq![Peer { label: PeerLabel::Bus, io: bus }],
            broker.poll_start() == 0,
    {
        let mut peers: Vec<Peer<P>> = Vec::new();
        peers.push(Peer { label: PeerLabel::Bus, io: bus });
        assert(peers@ =~= seq![Peer { label: PeerLabel::Bus, io: bus }]);
        Broker { peers, start: 0 }
    }

    /// Takes in a client that connected: it becomes the last peer.
    pub fn accept(&mut self, client: P)
        requires
            old(self).wf(),
        ensures
            final(self).wf(),
            final(self)@ == old(self)@.push(Peer { label: PeerLabel::Client, io: client }),
            final(self).poll_start() == old(self).poll_start(),
    {
        self.peers.push(Peer { label: PeerLabel::Client, io: client });
    }

    pub fn len(&self) -> (count: usize)
        ensures
            count == self@.len(),
    {
        self.peers.len()
    }

    /// The peer at `place`.
    pub fn peer(&self, place: usize) -> (peer: &Peer<P>)
        requires
            place < self@.len(),
        ensures
            *peer == self@[place as int],
    {
        &self.peers[place]
    }

    /// The handle of the peer at `place`, to be used in place.
    pub fn io_mut(&mut self, place: usize) -> (io: &mut P)
        requires
            place < old(self)@.len(),
        ensures
            *io == old(self)@[place as int].io,
            final(self)@ == old(self)@.update(
                place as int,
                Peer { label: old(self)@[place as int].label, io: *final(io) },
            ),
            final(self).poll_start() == old(self).poll_start(),
    {
        &mut self.peers[place].io
    }

    /// Whether the bus is among the peers. Once it is not, the broker has
    /// nothing left to do.
    pub fn has_bus(&self) -> (found: bool)
        ensures
            found <==> exists|i: int| 0 <= i < self@.len() && (#[trigger] self@[i]).label
                == PeerLabel::Bus,
    {
        let mut i: usize = 0;
        while i < self.peers.len()
            invariant
                i <= self.peers.len(),
                forall|j: int| 0 <= j < i ==> (#[trigger] self@[j]).label != PeerLabel::Bus,
            decreases self.peers.len() - i,
        {
            match self.peers[i].label {
                PeerLabel::Bus => {
                    return true;
                },
                PeerLabel::Client => {},
            }
            i = i + 1;
        }
        false
    }

    /// The places to poll, in order: one round over all peers that starts
    /// behind the peer that handed in the last packet, so that no peer is
    /// passed over for ever.
    pub fn poll_order(&self) -> (order: Vec<usize>)
        requires
            self.wf(),
        ensures
            order@ == round(self@.len(), self.poll_start()),
    {
        let count = self.peers.len();
        let mut order: Vec<usize> = Vec::new();
        let mut k: usize = 0;
        let mut place = self.start;
        while k < count
            invariant
                k <= count,
                count == self@.len(),
                0 <= self.start < count || count == 0,
                place < count || count == 0,
                k < count ==> place == wrap(self.start + k, count as nat),
                order@.len() == k,
                forall|j: int|
                    0 <= j < k ==> order@[j] == round(count as nat, self.start as int)[j],
            decreases count - k,
        {
            order.push(place);
            place = if place + 1 == count {
                0
            } else {
                place + 1
            };
            k = k + 1;
        }
        assert(order@ =~= round(count as nat, self.start as int));
        order
    }

    /// Takes note that the peer at `place` handed in a packet: the next
    /// round of polling starts behind it.
    pub fn received(&mut self, place: usize)
        requires
            old(self).wf(),
            place < old(self)@.len(),
        ensures
            final(self).wf(),
            final(self)@ == old(self)@,
            final(self).poll_start() == wrap(place + 1, old(self)@.len()),
    {
        let count = self.peers.len();
        self.start = if place + 1 == count {
            0
        } else {
            place + 1
        };
    }

    /// Removes the peer at `place`, whose inbound stream has ended, and
    /// returns it. The last peer takes its place.
    pub fn close(&mut self, place: usize) -> (peer: Peer<P>)
        requires
            old(self).wf(),
            place < old(self)@.len(),
        ensures
            final(self).wf(),
            peer == old(self)@[place as int],
            final(self)@ == swap_removed(old(self)@, place as int),
            final(self).poll_start() == if old(self).poll_start() < final(self)@.len() {
                old(self).poll_start()
            } else {
                0
            },
    {
        let peer = self.peers.swap_remove(place);
        if self.start >= self.peers.len() {
            self.start = 0;
        }
        peer
    }

    /// The places of the peers that a packet from the peer at `from` goes
    /// to: all but `from`.
    pub fn targets(&self, from: usize) -> (targets: Vec<usize>)
        requires
            from < self@.len(),
        ensures
            targets@ == others(self@.len(), from as int),
            forall|k: int| 0 <= k < targets@.len() ==> targets@[k] != from,
    {
        let count = self.peers.len();
        let mut targets: Vec<usize> = Vec::new();
        let mut place: usize = 0;
        while place < count
            invariant
                place <= count,
                from < count,
                count == self@.len(),
                targets@.len() == if place <= from {
                    place as int
                } else {
                    place - 1
                },
                forall|k: int| 0 <= k < targets@.len() ==> targets@[k] == others(
                    count as nat,
                    from as int,
                )[k],
            decreases count - place,
        {
            // don't reflect packets back where they came:
            if place != from {
                targets.push(place);
            }
            place = place + 1;
        }
        assert(targets@ =~= others(count as nat, from as int));
        targets
    }

    /// Makes the frame that goes out for `packet`, which the peer at `from`
    /// handed in, and says where it goes. A packet that cannot be written as
    /// a frame goes nowhere.
    pub fn forward(&self, from: usize, packet: &Packet) -> (r: Result<
        Forward,
        SerializePacketError,
    >)
        requires
            from < self@.len(),
        ensures
            match r {
                Ok(forward) => serialize_frame_spec(packet@, MAX_FRAME_SIZE as nat) == Ok::<
                    Seq<u8>,
                    SerializePacketError,
                >(shared_bytes(forward.frame)) && forward.targets@ == others(
                    self@.len(),
                    from as int,
                ),
                Err(err) => serialize_frame_spec(packet@, MAX_FRAME_SIZE as nat) == Err::<
                    Seq<u8>,
                    SerializePacketError,
                >(err),
            },
    {
        let frame = serialize_frame(packet)?;
        Ok(Forward { frame, targets: self.targets(from) })
    }

    /// Settles a fan-out from the peer at `from`: `outcomes` holds, for each
    /// target in order, what the attempt to queue the frame gave. The peers
    /// whose queue is closed are removed, those at the higher places first,
    /// and returned in that order.
    pub fn settle(&mut self, from: usize, outcomes: &[SendOutcome]) -> (dead: Vec<Peer<P>>)
        requires
            old(self).wf(),
            from < old(self)@.len(),
            outcomes@.len() == old(self)@.len() - 1,
        ensures
            final(self).wf(),
            final(self)@ == settled(old(self)@, old(self)@.len(), from as int, outcomes@, 0),
            dead@ == closed(old(self)@, old(self)@.len(), from as int, outcomes@, 0),
            final(self)@.len() + dead@.len() == old(self)@.len(),
    {
        let count = self.peers.len();
        let mut dead: Vec<Peer<P>> = Vec::new();
        let mut k: usize = outcomes.len();
        while k > 0
            invariant
                k <= outcomes@.len(),
                outcomes@.len() == count - 1,
                from < count,
                count == old(self)@.len(),
                self@ == settled(old(self)@, count as nat, from as int, outcomes@, k as int),
                dead@ == closed(old(self)@, count as nat, from as int, outcomes@, k as int),
                self@.len() + dead@.len() == count,
                k < outcomes@.len() ==> self@.len() >= others(count as nat, from as int)[k as int],
                k == outcomes@.len() ==> self@.len() == count,
                forall|i: int|
                    0 <= i < self@.len() && (k < outcomes@.len() ==> i < others(
                        count as nat,
                        from as int,
                    )[k as int]) ==> self@[i] == old(self)@[i],
                self.start < self@.len() || self.start == 0,
            decreases k,
        {
            k = k - 1;
            let place = if k < from {
                k
            } else {
                k + 1
            };
            assert(place == others(count as nat, from as int)[k as int]);
            match outcomes[k] {
                SendOutcome::Closed => {
                    let peer = self.peers.swap_remove(place);
                    dead.push(peer);
                    if self.start >= self.peers.len() {
                        self.start = 0;
                    }
                },
                _ => {},
            }
        }
        dead
    }
}

} // verus!
