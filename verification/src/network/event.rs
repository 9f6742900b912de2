use vstd::prelude::*;
use crate::cli::Role;
use crate::codec::utf8_lossy_of;
use crate::comms::message::{Message, SUBMISSION_MARKER};
use vstd::utf8::encode_utf8;

verus! {

/// One entry of the routing table: a peer, the addresses it was seen at,
/// and a freshness marker from the coordinator's event clock. Entries are
/// never removed here; eviction is the DHT collaborator's business.
pub struct RoutingEntry {
    pub peer: String,
    pub addresses: Vec<String>,
    pub freshness: u64,
}

/// The classified outcome of an asynchronous DHT query, reported back to
/// the coordinator as a later event.
#[derive(Debug)]
pub enum DhtOutcome {
    RecordFound { key: Vec<u8>, value: Vec<u8> },
    RecordError { detail: String },
    PutAcknowledged { key: Vec<u8> },
    PutFailed { detail: String },
    ProviderAcknowledged { key: Vec<u8> },
    ProviderFailed { detail: String },
}

/// How many replicas must acknowledge a DHT write.
#[derive(Clone, Copy, Debug, PartialEq, Eq, Structural)]
pub enum Quorum {
    One,
    Majority,
    All,
}

/// Why a gossip publication failed. No reachable subscriber on the topic
/// is the expected steady-state failure; it is reported, never fatal.
#[derive(Debug)]
pub enum PublishError {
    NoPeers,
    Other(String),
}

/// An event the coordinator reacts to: exactly one is handled at a time.
pub enum NodeEvent {
    ConnectionEstablished { peer: String, address: String },
    ConnectionClosed { peer: String, cause: String },
    PeersDiscovered { peers: Vec<(String, String)> },
    GossipDelivered { source: String, body: Vec<u8> },
    OperatorInput { line: String },
    DhtProgress { outcome: DhtOutcome },
    PublishCompleted { result: Result<u64, PublishError> },
}

/// What the coordinator records about an event; handed to the logging
/// sink as an action.
#[derive(Debug)]
pub enum LogEvent {
    ConnectionClosed { peer: String, cause: String },
    MessageReceived { message: Message },
    DhtOutcome { outcome: DhtOutcome },
    Published { message_id: u64 },
    PublishFailed { error: PublishError },
}

/// What the coordinator asks its collaborators to do in response to one
/// event. All of it is fire-and-forget: completions come back as later
/// events.
#[derive(Debug)]
pub enum Action {
    RegisterAddress { peer: String, address: String },
    PutRecord { query: u64, key: Vec<u8>, value: Vec<u8>, quorum: Quorum },
    FindClosestPeers { query: u64, key: Vec<u8> },
    Publish { topic: String, payload: Vec<u8> },
    Log { entry: LogEvent },
}

/// The fixed record key under which delivered gossip bodies are stored:
/// the ASCII bytes of "key". A known simplification of this design.
pub open spec fn spec_record_key() -> Seq<u8> {
    seq![107u8, 101u8, 121u8]
}

pub fn record_key() -> (r: Vec<u8>)
    ensures
        r@ == spec_record_key(),
{
    let mut v: Vec<u8> = Vec::new();
    v.push(107);
    v.push(101);
    v.push(121);
    proof {
        assert(v@ =~= spec_record_key());
    }
    v
}

/// The successor of a counter value, wrapping at the top so that the
/// next value always differs from the current one.
pub open spec fn bump(c: u64) -> u64 {
    if c < u64::MAX {
        (c + 1) as u64
    } else {
        0
    }
}

/// Whether some entry of the routing table names the peer.
pub open spec fn routing_has(rt: Seq<RoutingEntry>, peer: Seq<char>) -> bool {
    exists|i: int| 0 <= i < rt.len() && (#[trigger] rt[i]).peer@ == peer
}

/// No peer has two entries.
pub open spec fn routing_distinct(rt: Seq<RoutingEntry>) -> bool {
    forall|i: int, j: int|
        0 <= i < j < rt.len() ==> (#[trigger] rt[i]).peer@ != (#[trigger] rt[j]).peer@
}

/// Whether the address list holds the address.
pub open spec fn addr_in(addrs: Seq<String>, a: Seq<char>) -> bool {
    exists|i: int| 0 <= i < addrs.len() && (#[trigger] addrs[i])@ == a
}

/// One address was appended; the rest is as it was.
pub open spec fn addrs_appended(pre: Seq<String>, post: Seq<String>, a: Seq<char>) -> bool {
    &&& post.len() == pre.len() + 1
    &&& (forall|i: int| 0 <= i < pre.len() ==> post[i] == pre[i])
    &&& post[pre.len() as int]@ == a
}

/// How a connection-established event changes the routing table:
/// idempotent registration. A known peer keeps its one entry, with its
/// freshness marker renewed and the address recorded if it is new; an
/// unknown peer gains exactly one entry.
pub open spec fn register_post(
    pre: Seq<RoutingEntry>,
    post: Seq<RoutingEntry>,
    peer: Seq<char>,
    addr: Seq<char>,
    now: u64,
) -> bool {
    if routing_has(pre, peer) {
        &&& post.len() == pre.len()
        &&& (forall|i: int|
            0 <= i < pre.len() && (#[trigger] pre[i]).peer@ != peer ==> post[i] == pre[i])
        &&& (forall|i: int|
            0 <= i < pre.len() && (#[trigger] pre[i]).peer@ == peer ==> {
                &&& post[i].peer@ == peer
                &&& post[i].freshness == now
                &&& (addr_in(pre[i].addresses@, addr) ==> post[i].addresses@
                    == pre[i].addresses@)
                &&& (!addr_in(pre[i].addresses@, addr) ==> addrs_appended(
                    pre[i].addresses@,
                    post[i].addresses@,
                    addr,
                ))
            })
    } else {
        &&& post.len() == pre.len() + 1
        &&& (forall|i: int| 0 <= i < pre.len() ==> post[i] == pre[i])
        &&& post[pre.len() as int].peer@ == peer
        &&& post[pre.len() as int].freshness == now
        &&& post[pre.len() as int].addresses@.len() == 1
        &&& post[pre.len() as int].addresses@[0]@ == addr
    }
}

/// The coordinator: the single sequential reactive loop's state. It is
/// the sole owner and writer of the routing table and the subscribed
/// topic; collaborators only see the actions it emits.
pub struct Coordinator {
    pub role: Role,
    pub topic: String,
    pub routing: Vec<RoutingEntry>,
    pub next_query_id: u64,
    pub clock: u64,
}

fn find_peer(rt: &Vec<RoutingEntry>, peer: &String) -> (r: Option<usize>)
    ensures
        r matches Some(i) ==> i < rt@.len() && rt@[i as int].peer@ == peer@,
        r is None ==> !routing_has(rt@, peer@),
{
    let mut i: usize = 0;
    while i < rt.len()
        invariant
            i <= rt@.len(),
            forall|j: int| 0 <= j < i ==> (#[trigger] rt@[j]).peer@ != peer@,
        decreases rt@.len() - i,
    {
        if rt[i].peer == *peer {
            return Some(i);
        }
        i += 1;
    }
    None
}

fn addr_member(addrs: &Vec<String>, a: &String) -> (r: bool)
    ensures
        r == addr_in(addrs@, a@),
{
    let mut i: usize = 0;
    while i < addrs.len()
        invariant
            i <= addrs@.len(),
            forall|j: int| 0 <= j < i ==> (#[trigger] addrs@[j])@ != a@,
        decreases addrs@.len() - i,
    {
        if addrs[i] == *a {
            return true;
        }
        i += 1;
    }
    false
}

impl Coordinator {
    /// The coordinator's one invariant: at most one routing entry per
    /// peer.
    pub open spec fn wf(&self) -> bool {
        routing_distinct(self.routing@)
    }

    /// A fresh coordinator for the given role, subscribed to the given
    /// topic, with an empty routing table.
    pub fn new(role: Role, topic: String) -> (r: Coordinator)
        ensures
            r.role == role,
            r.topic@ == topic@,
            r.routing@.len() == 0,
            r.next_query_id == 0,
            r.clock == 0,
            r.wf(),
    {
        Coordinator { role, topic, routing: Vec::new(), next_query_id: 0, clock: 0 }
    }

    fn tick_clock(&mut self)
        ensures
            final(self).clock == bump(old(self).clock),
            final(self).role == old(self).role,
            final(self).topic == old(self).topic,
            final(self).routing == old(self).routing,
            final(self).next_query_id == old(self).next_query_id,
    {
        if self.clock < u64::MAX {
            self.clock = self.clock + 1;
        } else {
            self.clock = 0;
        }
    }

    fn register_peer(&mut self, peer: String, address: String)
        requires
            old(self).wf(),
        ensures
            final(self).wf(),
            register_post(
                old(self).routing@,
                final(self).routing@,
                peer@,
                address@,
                old(self).clock,
            ),
            final(self).role == old(self).role,
            final(self).topic == old(self).topic,
            final(self).clock == old(self).clock,
            final(self).next_query_id == old(self).next_query_id,
    {
        let ghost pre = self.routing@;
        match find_peer(&self.routing, &peer) {
            Some(i) => {
                let mut e = self.routing.remove(i);
                e.freshness = self.clock;
                if !addr_member(&e.addresses, &address) {
                    e.addresses.push(address);
                }
                self.routing.insert(i, e);
                proof {
                    assert(self.routing@ =~= pre.update(i as int, self.routing@[i as int]));
                    assert forall|a: int, b: int|
                        0 <= a < b < self.routing@.len() implies (#[trigger] self.routing@[a]).peer@
                        != (#[trigger] self.routing@[b]).peer@ by {
                        assert(pre[a].peer@ == self.routing@[a].peer@);
                        assert(pre[b].peer@ == self.routing@[b].peer@);
                    }
                }
            },
            None => {
                let mut addrs: Vec<String> = Vec::new();
                addrs.push(address);
                self.routing.push(
                    RoutingEntry { peer, addresses: addrs, freshness: self.clock },
                );
                proof {
                    assert forall|a: int, b: int|
                        0 <= a < b < self.routing@.len() implies (#[trigger] self.routing@[a]).peer@
                        != (#[trigger] self.routing@[b]).peer@ by {
                        if b < pre.len() {
                            assert(pre[a].peer@ != pre[b].peer@);
                        } else {
                            assert(!routing_has(pre, self.routing@[b].peer@));
                        }
                    }
                }
            },
        }
    }

    /// How many routing entries name the peer.
    pub fn count_entries(&self, peer: &String) -> (n: usize)
        ensures
            n as int == count_matching(self.routing@, peer@),
    {
        let mut i: usize = 0;
        let mut n: usize = 0;
        while i < self.routing.len()
            invariant
                i <= self.routing@.len(),
                n <= i,
                n as int == count_matching(self.routing@.take(i as int), peer@),
            decreases self.routing@.len() - i,
        {
            proof {
                assert(self.routing@.take(i + 1).drop_last() =~= self.routing@.take(i as int));
                assert(self.routing@.take(i + 1).last() == self.routing@[i as int]);
            }
            if self.routing[i].peer == *peer {
                n = n + 1;
            }
            i += 1;
        }
        proof {
            assert(self.routing@.take(self.routing@.len() as int) =~= self.routing@);
        }
        n
    }

    /// Reacts to one event: the single place where the node's state
    /// changes and its collaborators are asked to act. Every event is
    /// survivable; the loop never ends from within.
    pub fn handle_event(&mut self, event: NodeEvent) -> (r: Vec<Action>)
        requires
            old(self).wf(),
        ensures
            final(self).wf(),
            final(self).role == old(self).role,
            final(self).topic == old(self).topic,
            final(self).clock == bump(old(self).clock),
            event matches NodeEvent::ConnectionEstablished { peer, address } ==> {
                &&& register_post(
                    old(self).routing@,
                    final(self).routing@,
                    peer@,
                    address@,
                    bump(old(self).clock),
                )
                &&& final(self).next_query_id == old(self).next_query_id
                &&& r@.len() == 0
            },
            event matches NodeEvent::ConnectionClosed { peer, cause } ==> {
                &&& final(self).routing == old(self).routing
                &&& final(self).next_query_id == old(self).next_query_id
                &&& r@.len() == 1
                &&& r@[0] matches Action::Log {
                    entry: LogEvent::ConnectionClosed { peer: p, cause: c },
                } && p@ == peer@ && c@ == cause@
            },
            event matches NodeEvent::PeersDiscovered { peers } ==> {
                &&& final(self).routing == old(self).routing
                &&& final(self).next_query_id == old(self).next_query_id
                &&& r@.len() == peers@.len()
                &&& (forall|j: int|
                    0 <= j < peers@.len() ==> ((#[trigger] r@[j])
                        matches Action::RegisterAddress { peer, address } && peer@
                        == peers@[j].0@ && address@ == peers@[j].1@))
            },
            event matches NodeEvent::GossipDelivered { source, body } ==> {
                &&& final(self).routing == old(self).routing
                &&& final(self).next_query_id == bump(bump(old(self).next_query_id))
                &&& r@.len() == 3
                &&& r@[0] matches Action::Log {
                    entry: LogEvent::MessageReceived { message },
                } && {
                    &&& (message is Transaction) == (utf8_lossy_of(body@) == SUBMISSION_MARKER@)
                    &&& (message matches Message::Comms(s) ==> s@ == utf8_lossy_of(body@))
                    &&& (message matches Message::Transaction(inner) ==> ((*inner)
                        matches Message::Comms(s) && s@ == utf8_lossy_of(body@)))
                }
                &&& r@[1] matches Action::PutRecord { query, key, value, quorum } && {
                    &&& query == old(self).next_query_id
                    &&& key@ == spec_record_key()
                    &&& value@ == body@
                    &&& quorum is All
                }
                &&& r@[2] matches Action::FindClosestPeers { query, key } && {
                    &&& query == bump(old(self).next_query_id)
                    &&& query != old(self).next_query_id
                    &&& key@ == spec_record_key()
                }
            },
            event matches NodeEvent::OperatorInput { line } ==> {
                &&& final(self).routing == old(self).routing
                &&& final(self).next_query_id == old(self).next_query_id
                &&& (old(self).role is Sender ==> {
                    &&& r@.len() == 1
                    &&& r@[0] matches Action::Publish { topic, payload } && topic@ == old(
                        self,
                    ).topic@ && payload@ == encode_utf8(line@)
                })
                &&& (old(self).role is BootstapNode ==> r@.len() == 0)
            },
            event matches NodeEvent::DhtProgress { outcome } ==> {
                &&& final(self).routing == old(self).routing
                &&& final(self).next_query_id == old(self).next_query_id
                &&& r@.len() == 1
                &&& r@[0] matches Action::Log { entry: LogEvent::DhtOutcome { outcome: o } } && o
                    == outcome
            },
            event matches NodeEvent::PublishCompleted { result } ==> {
                &&& final(self).routing == old(self).routing
                &&& final(self).next_query_id == old(self).next_query_id
                &&& r@.len() == 1
                &&& (result matches Ok(id) ==> r@[0] matches Action::Log {
                    entry: LogEvent::Published { message_id },
                } && message_id == id)
                &&& (result matches Err(e) ==> r@[0] matches Action::Log {
                    entry: LogEvent::PublishFailed { error },
                } && error == e)
            },
    {
        self.tick_clock();
        match event {
            NodeEvent::ConnectionEstablished { peer, address } => {
                self.register_peer(peer, address);
                Vec::new()
            },
            NodeEvent::ConnectionClosed { peer, cause } => {
                let mut actions: Vec<Action> = Vec::new();
                actions.push(Action::Log { entry: LogEvent::ConnectionClosed { peer, cause } });
                actions
            },
            NodeEvent::PeersDiscovered { peers } => {
                let mut actions: Vec<Action> = Vec::new();
                let mut i: usize = 0;
                while i < peers.len()
                    invariant
                        i <= peers@.len(),
                        actions@.len() == i,
                        forall|j: int|
                            0 <= j < i ==> ((#[trigger] actions@[j])
                                matches Action::RegisterAddress { peer, address } && peer@
                                == peers@[j].0@ && address@ == peers@[j].1@),
                    decreases peers@.len() - i,
                {
                    let p = peers[i].0.clone();
                    let a = peers[i].1.clone();
                    actions.push(Action::RegisterAddress { peer: p, address: a });
                    i += 1;
                }
                actions
            },
            NodeEvent::GossipDelivered { source: _, body } => {
                let msg = Message::from_wire(&body);
                let q1 = self.next_query_id;
                let q2 = if q1 < u64::MAX {
                    q1 + 1
                } else {
                    0
                };
                self.next_query_id = if q2 < u64::MAX {
                    q2 + 1
                } else {
                    0
                };
                let mut actions: Vec<Action> = Vec::new();
                actions.push(Action::Log { entry: LogEvent::MessageReceived { message: msg } });
                actions.push(
                    Action::PutRecord {
                        query: q1,
                        key: record_key(),
                        value: body,
                        quorum: Quorum::All,
                    },
                );
                actions.push(Action::FindClosestPeers { query: q2, key: record_key() });
                actions
            },
            NodeEvent::OperatorInput { line } => {
                let mut actions: Vec<Action> = Vec::new();
                if self.role == Role::Sender {
                    let payload = line.as_str().as_bytes_vec();
                    actions.push(Action::Publish { topic: self.topic.clone(), payload });
                }
                actions
            },
            NodeEvent::DhtProgress { outcome } => {
                let mut actions: Vec<Action> = Vec::new();
                actions.push(Action::Log { entry: LogEvent::DhtOutcome { outcome } });
                actions
            },
            NodeEvent::PublishCompleted { result } => {
                let mut actions: Vec<Action> = Vec::new();
                match result {
                    Ok(id) => actions.push(
                        Action::Log { entry: LogEvent::Published { message_id: id } },
                    ),
                    Err(e) => actions.push(
                        Action::Log { entry: LogEvent::PublishFailed { error: e } },
                    ),
                }
                actions
            },
        }
    }
}

/// How many routing entries name the peer.
pub open spec fn count_matching(rt: Seq<RoutingEntry>, peer: Seq<char>) -> int
    decreases rt.len(),
{
    if rt.len() == 0 {
        0
    } else {
        count_matching(rt.drop_last(), peer) + if rt.last().peer@ == peer {
            1int
        } else {
            0int
        }
    }
}

/// In a table with at most one entry per peer, the count of entries for
/// a peer is one exactly when the peer is present.
pub proof fn lemma_count_distinct(rt: Seq<RoutingEntry>, peer: Seq<char>)
    requires
        routing_distinct(rt),
    ensures
        count_matching(rt, peer) == if routing_has(rt, peer) {
            1int
        } else {
            0int
        },
    decreases rt.len(),
{
    if rt.len() == 0 {
    } else {
        let prefix = rt.drop_last();
        assert(routing_distinct(prefix)) by {
            assert forall|i: int, j: int|
                0 <= i < j < prefix.len() implies (#[trigger] prefix[i]).peer@
                != (#[trigger] prefix[j]).peer@ by {
                assert(rt[i].peer@ != rt[j].peer@);
            }
        }
        lemma_count_distinct(prefix, peer);
        if rt.last().peer@ == peer {
            assert(!routing_has(prefix, peer)) by {
                if routing_has(prefix, peer) {
                    let i = choose|i: int|
                        0 <= i < prefix.len() && (#[trigger] prefix[i]).peer@ == peer;
                    assert(rt[i].peer@ != rt[rt.len() - 1].peer@);
                }
            }
            assert(routing_has(rt, peer));
        } else {
            assert(routing_has(rt, peer) == routing_has(prefix, peer)) by {
                if routing_has(rt, peer) {
                    let i = choose|i: int| 0 <= i < rt.len() && (#[trigger] rt[i]).peer@ == peer;
                    assert(prefix[i] == rt[i]);
                }
                if routing_has(prefix, peer) {
                    let i = choose|i: int|
                        0 <= i < prefix.len() && (#[trigger] prefix[i]).peer@ == peer;
                    assert(rt[i] == prefix[i]);
                }
            }
        }
    }
}

/// Registration leaves the peer present.
pub proof fn lemma_register_present(
    pre: Seq<RoutingEntry>,
    post: Seq<RoutingEntry>,
    peer: Seq<char>,
    addr: Seq<char>,
    now: u64,
)
    requires
        register_post(pre, post, peer, addr, now),
    ensures
        routing_has(post, peer),
{
    if routing_has(pre, peer) {
        let i = choose|i: int| 0 <= i < pre.len() && (#[trigger] pre[i]).peer@ == peer;
        assert(post[i].peer@ == peer);
    } else {
        assert(post[pre.len() as int].peer@ == peer);
    }
}

/// Registration keeps the table free of duplicates.
pub proof fn lemma_register_distinct(
    pre: Seq<RoutingEntry>,
    post: Seq<RoutingEntry>,
    peer: Seq<char>,
    addr: Seq<char>,
    now: u64,
)
    requires
        routing_distinct(pre),
        register_post(pre, post, peer, addr, now),
    ensures
        routing_distinct(post),
{
    if routing_has(pre, peer) {
        assert forall|a: int, b: int| 0 <= a < b < post.len() implies (#[trigger] post[a]).peer@
            != (#[trigger] post[b]).peer@ by {
            assert(post[a].peer@ == pre[a].peer@);
            assert(post[b].peer@ == pre[b].peer@);
            assert(pre[a].peer@ != pre[b].peer@);
        }
    } else {
        assert forall|a: int, b: int| 0 <= a < b < post.len() implies (#[trigger] post[a]).peer@
            != (#[trigger] post[b]).peer@ by {
            if b < pre.len() {
                assert(pre[a].peer@ != pre[b].peer@);
            } else {
                assert(post[a] == pre[a]);
                assert(!routing_has(pre, peer));
            }
        }
    }
}

/// Idempotent registration: a connection-established event for a peer,
/// followed at once by a second one for the same peer, leaves exactly
/// one routing entry for that peer.
pub proof fn lemma_register_idempotent(
    rt0: Seq<RoutingEntry>,
    rt1: Seq<RoutingEntry>,
    rt2: Seq<RoutingEntry>,
    peer: Seq<char>,
    a1: Seq<char>,
    a2: Seq<char>,
    t1: u64,
    t2: u64,
)
    requires
        routing_distinct(rt0),
        register_post(rt0, rt1, peer, a1, t1),
        register_post(rt1, rt2, peer, a2, t2),
    ensures
        routing_distinct(rt2),
        count_matching(rt2, peer) == 1,
{
    lemma_register_distinct(rt0, rt1, peer, a1, t1);
    lemma_register_distinct(rt1, rt2, peer, a2, t2);
    lemma_register_present(rt1, rt2, peer, a2, t2);
    lemma_count_distinct(rt2, peer);
}

} // verus!
