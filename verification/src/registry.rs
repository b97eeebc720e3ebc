//! The registry of devices: one record for each device address, made when
//! the device is first heard from and kept up to date from then on.

use std::collections::HashMap;
use vstd::prelude::*;
use crate::device::{
    due_requests, fits, handle_message, handled, BulbInfo, InboundError, InboundMessage,
    SocketAddress,
};
use crate::ident::{is_token, random_token};
use crate::staleness::RefreshRequest;
use crate::wire::{datagram_of, decode};

verus! {

/// The UDP port of the lamps' protocol.
pub const LIFX_PORT: u16 = 56700;

/// The tag by which the lamps know this gateway.
pub const SOURCE: u32 = 0x72757374;

/// The position of the first record with the given device address, or the
/// number of records where there is none.
pub open spec fn position(bulbs: Seq<BulbInfo>, target: u64) -> int
    decreases bulbs.len(),
{
    if bulbs.len() == 0 || bulbs[0].target == target {
        0
    } else {
        1 + position(bulbs.drop_first(), target)
    }
}

/// `position` lies within the records or just behind them; inside, it
/// points at a record of the address, and nothing before it is one.
pub proof fn lemma_position(bulbs: Seq<BulbInfo>, target: u64)
    ensures
        0 <= position(bulbs, target) <= bulbs.len(),
        position(bulbs, target) < bulbs.len() ==> bulbs[position(bulbs, target)].target == target,
        forall|k: int| 0 <= k < position(bulbs, target) ==> (#[trigger] bulbs[k]).target != target,
    decreases bulbs.len(),
{
    if bulbs.len() == 0 || bulbs[0].target == target {
    } else {
        let rest = bulbs.drop_first();
        lemma_position(rest, target);
        assert forall|k: int| 0 <= k < position(bulbs, target) implies (#[trigger] bulbs[k]).target
            != target by {
            if k > 0 {
                assert(bulbs[k] == rest[k - 1]);
            }
        }
    }
}

/// A place that holds the first record of the address, or lies behind the
/// records where there is none, is `position`.
pub proof fn lemma_position_unique(bulbs: Seq<BulbInfo>, target: u64, i: int)
    requires
        0 <= i <= bulbs.len(),
        forall|k: int| 0 <= k < i ==> (#[trigger] bulbs[k]).target != target,
        i < bulbs.len() ==> bulbs[i].target == target,
    ensures
        position(bulbs, target) == i,
{
    lemma_position(bulbs, target);
    let j = position(bulbs, target);
    if j < i {
        assert(bulbs[j].target == target);
    } else if j > i {
        assert(bulbs[i].target == target);
    }
}

/// No two records have the same device address.
pub open spec fn distinct_targets(bulbs: Seq<BulbInfo>) -> bool {
    forall|i: int, j: int|
        0 <= i < bulbs.len() && 0 <= j < bulbs.len() && i != j ==> (#[trigger] bulbs[i]).target != (
        #[trigger] bulbs[j]).target
}

/// Are `n` the records `o` after a packet from the device `target` has
/// come from `addr` at time `now`?  A device that has a record keeps it,
/// with the new address and time; a device without one gets a fresh
/// record, with new random identifiers, behind the others.
pub open spec fn upserted(
    o: Seq<BulbInfo>,
    n: Seq<BulbInfo>,
    source: u32,
    target: u64,
    addr: SocketAddress,
    now: u64,
) -> bool {
    let i = position(o, target);
    if i < o.len() {
        n == o.update(i, BulbInfo { last_seen: now, addr, ..o[i] })
    } else {
        &&& n.len() == o.len() + 1
        &&& n.drop_last() == o
        &&& n.last().is_fresh(source, target, addr, n.last().id, n.last().uuid, now)
        &&& is_token(n.last().id@, 12)
        &&& is_token(n.last().uuid@, 30)
    }
}

/// What the receiving socket has handed over.
#[derive(Debug)]
pub enum Datagram {
    /// A datagram without a byte.
    Empty,
    /// Bytes that are no protocol message.
    Undecodable,
    /// A protocol message from the device `target`.
    Message { target: u64, message: InboundMessage },
}

/// What became of a datagram.
#[derive(Clone, Copy, Debug, PartialEq, Eq, Structural)]
pub enum IngestOutcome {
    /// The datagram was empty and was passed over.
    SkippedEmpty,
    /// The datagram could not be decoded and was passed over.
    SkippedUndecodable,
    /// The message bore the address of no device and was passed over.
    SkippedBroadcast,
    /// The message was applied to the record of its device.
    Applied,
    /// The device was noted, but the message did not fit its record.
    Dropped(InboundError),
}

/// A refresh request that is due, with the device it goes to.
#[derive(Clone, Copy, Debug, PartialEq, Eq, Structural)]
pub struct RefreshOrder {
    pub target: u64,
    pub source: u32,
    pub addr: SocketAddress,
    pub request: RefreshRequest,
}

/// The refresh requests that are due at `now`, device by device in the
/// order of the registry.
pub open spec fn refresh_orders(bulbs: Seq<BulbInfo>, now: u64) -> Seq<RefreshOrder>
    decreases bulbs.len(),
{
    if bulbs.len() == 0 {
        Seq::empty()
    } else {
        refresh_orders(bulbs.drop_last(), now) + due_requests(bulbs.last(), now).map_values(
            |r: RefreshRequest|
                RefreshOrder {
                    target: bulbs.last().target,
                    source: bulbs.last().source,
                    addr: bulbs.last().addr,
                    request: r,
                },
        )
    }
}

/// A network interface of the host.
#[derive(Clone, Copy, Debug, PartialEq, Eq, Structural)]
pub enum Interface {
    /// An IPv4 interface with its address and, where it has one, its
    /// broadcast address.
    V4 { ip: u32, broadcast: Option<u32> },
    /// An interface of another kind.
    Other,
}

/// Is the IPv4 address one of the loopback addresses, 127.0.0.0/8?
pub open spec fn is_loopback(ip: u32) -> bool {
    ip / 0x100_0000 == 127
}

/// Where discovery is broadcast to: the broadcast address of every IPv4
/// interface that has one and is not the loopback, at the protocol's port.
pub open spec fn discovery_targets(interfaces: Seq<Interface>) -> Seq<SocketAddress>
    decreases interfaces.len(),
{
    if interfaces.len() == 0 {
        Seq::empty()
    } else {
        let head = discovery_targets(interfaces.drop_last());
        match interfaces.last() {
            Interface::V4 { ip, broadcast: Some(b) } => if is_loopback(ip) {
                head
            } else {
                head.push(SocketAddress { ip: b, port: 56700 })
            },
            _ => head,
        }
    }
}

/// Does `index` give for each device address the place of its record among
/// `bulbs`, and hold nothing else?
pub open spec fn is_index_of(index: Map<u64, usize>, bulbs: Seq<BulbInfo>) -> bool {
    &&& forall|k: int|
        0 <= k < bulbs.len() ==> index.contains_key((#[trigger] bulbs[k]).target)
            && index[bulbs[k].target] == k
    &&& forall|t: u64|
        #[trigger] index.contains_key(t) ==> index[t] < bulbs.len() && bulbs[index[t] as int].target
            == t
}

/// The registry of devices and what the gateway needs to talk to them.
/// The records stand in the order in which their devices were first heard
/// from; a map from device address to place finds the record of a device.
#[derive(Debug)]
pub struct Manager {
    bulbs: Vec<BulbInfo>,
    index: HashMap<u64, usize>,
    last_discovery: u64,
    source: u32,
}

impl Manager {
    /// The invariant of the registry: no two records are of the same
    /// device, and the map of places agrees with the records.
    pub closed spec fn wf(self) -> bool {
        &&& distinct_targets(self.bulbs@)
        &&& is_index_of(self.index@, self.bulbs@)
    }

    /// The records of the registry, in the order in which their devices
    /// were first heard from.
    pub closed spec fn records(self) -> Seq<BulbInfo> {
        self.bulbs@
    }

    /// The time of the last discovery broadcast.
    pub closed spec fn discovered_at(self) -> u64 {
        self.last_discovery
    }

    /// The tag by which the lamps know this gateway.
    pub closed spec fn source_tag(self) -> u32 {
        self.source
    }

    /// The time of the last discovery broadcast.
    pub fn last_discovery(&self) -> (r: u64)
        ensures
            r == self.discovered_at(),
    {
        self.last_discovery
    }

    /// The tag by which the lamps know this gateway.
    pub fn source(&self) -> (r: u32)
        ensures
            r == self.source_tag(),
    {
        self.source
    }

    /// A registry without a record.
    pub fn new(now: u64) -> (r: Manager)
        ensures
            r.wf(),
            r.records() == Seq::<BulbInfo>::empty(),
            r.discovered_at() == now,
            r.source_tag() == SOURCE,
    {
        Manager { bulbs: Vec::new(), index: HashMap::new(), last_discovery: now, source: SOURCE }
    }

    /// The records of the registry; no two are of the same device.
    pub fn bulbs(&self) -> (r: &Vec<BulbInfo>)
        ensures
            r@ == self.records(),
            self.wf() ==> distinct_targets(r@),
    {
        &self.bulbs
    }

    fn find(&self, target: u64) -> (i: usize)
        requires
            self.wf(),
        ensures
            i == position(self.records(), target),
            i <= self.records().len(),
    {
        match self.index.get(&target) {
            Some(place) => {
                proof {
                    assert(self.index@.contains_key(target));
                    lemma_position_unique(self.bulbs@, target, *place as int);
                }
                *place
            },
            None => {
                proof {
                    assert(!self.index@.contains_key(target));
                    lemma_position_unique(self.bulbs@, target, self.bulbs@.len() as int);
                }
                self.bulbs.len()
            },
        }
    }

    /// The record of the device with the given address, if it has one.
    pub fn get(&self, target: u64) -> (r: Option<&BulbInfo>)
        requires
            self.wf(),
        ensures
            r.is_some() == (position(self.records(), target) < self.records().len()),
            r.is_some() ==> *r.unwrap() == self.records()[position(self.records(), target)],
    {
        let i: usize = self.find(target);
        if i < self.bulbs.len() {
            Some(&self.bulbs[i])
        } else {
            None
        }
    }
}


impl Manager {
    /// Notes that the device `target` was heard from at `now`, from
    /// `addr`: its record is brought up to date, or made if it has none.
    /// The result is the place of the record.
    pub fn upsert(&mut self, target: u64, addr: SocketAddress, now: u64) -> (i: usize)
        requires
            old(self).wf(),
        ensures
            final(self).wf(),
            upserted(
                old(self).records(),
                final(self).records(),
                old(self).source_tag(),
                target,
                addr,
                now,
            ),
            i == position(old(self).records(), target),
            i < final(self).records().len(),
            final(self).records()[i as int].target == target,
            final(self).source_tag() == old(self).source_tag(),
            final(self).discovered_at() == old(self).discovered_at(),
    {
        proof {
            lemma_position(self.bulbs@, target);
        }
        let i: usize = self.find(target);
        if i < self.bulbs.len() {
            let ghost before = self.bulbs@;
            self.bulbs[i].update(addr, now);
            proof {
                assert(self.bulbs@ =~= before.update(
                    i as int,
                    BulbInfo { last_seen: now, addr, ..before[i as int] },
                ));
                assert forall|a: int, b: int|
                    0 <= a < self.bulbs@.len() && 0 <= b < self.bulbs@.len() && a != b implies (
                #[trigger] self.bulbs@[a]).target != (#[trigger] self.bulbs@[b]).target by {
                    assert(self.bulbs@[a].target == before[a].target);
                    assert(self.bulbs@[b].target == before[b].target);
                }
                assert(is_index_of(self.index@, self.bulbs@)) by {
                    assert forall|k: int|
                        0 <= k < self.bulbs@.len() implies self.index@.contains_key(
                        (#[trigger] self.bulbs@[k]).target,
                    ) && self.index@[self.bulbs@[k].target] == k by {
                        assert(self.bulbs@[k].target == before[k].target);
                    }
                    assert forall|t: u64| #[trigger]
                        self.index@.contains_key(t) implies self.index@[t] < self.bulbs@.len()
                        && self.bulbs@[self.index@[t] as int].target == t by {
                        let place = self.index@[t] as int;
                        assert(self.bulbs@[place].target == before[place].target);
                    }
                }
            }
        } else {
            let ghost before = self.bulbs@;
            let id: String = random_token(12);
            let uuid: String = random_token(30);
            let fresh = BulbInfo::new(self.source, target, addr, id, uuid, now);
            self.bulbs.push(fresh);
            let ghost places = self.index@;
            self.index.insert(target, i);
            proof {
                assert(is_index_of(self.index@, self.bulbs@)) by {
                    assert(self.index@ == places.insert(target, i));
                    assert forall|k: int|
                        0 <= k < self.bulbs@.len() implies self.index@.contains_key(
                        (#[trigger] self.bulbs@[k]).target,
                    ) && self.index@[self.bulbs@[k].target] == k by {
                        if k < before.len() {
                            assert(self.bulbs@[k] == before[k]);
                            assert(before[k].target != target);
                        }
                    }
                    assert forall|t: u64| #[trigger]
                        self.index@.contains_key(t) implies self.index@[t] < self.bulbs@.len()
                        && self.bulbs@[self.index@[t] as int].target == t by {
                        if t != target {
                            assert(places.contains_key(t));
                            assert(self.bulbs@[places[t] as int] == before[places[t] as int]);
                        }
                    }
                }
                assert(self.bulbs@.drop_last() =~= before);
                assert forall|a: int, b: int|
                    0 <= a < self.bulbs@.len() && 0 <= b < self.bulbs@.len() && a != b implies (
                #[trigger] self.bulbs@[a]).target != (#[trigger] self.bulbs@[b]).target by {
                    if a < before.len() {
                        assert(self.bulbs@[a] == before[a]);
                    }
                    if b < before.len() {
                        assert(self.bulbs@[b] == before[b]);
                    }
                }
            }
        }
        i
    }
}


/// Are `n` the records `o` after the datagram was taken in at time `now`,
/// and is `outcome` what became of it?  An empty or undecodable datagram
/// and a message without a device address change nothing.  Any other
/// message first brings the record of its device up to date, or makes it,
/// and is then applied to that record alone.
pub open spec fn ingested(
    o: Seq<BulbInfo>,
    n: Seq<BulbInfo>,
    source: u32,
    datagram: Datagram,
    addr: SocketAddress,
    now: u64,
    outcome: IngestOutcome,
) -> bool {
    match datagram {
        Datagram::Empty => n == o && outcome == IngestOutcome::SkippedEmpty,
        Datagram::Undecodable => n == o && outcome == IngestOutcome::SkippedUndecodable,
        Datagram::Message { target, message } => if target == 0 {
            n == o && outcome == IngestOutcome::SkippedBroadcast
        } else {
            exists|m: Seq<BulbInfo>|
                {
                    let i = position(o, target);
                    &&& #[trigger] upserted(o, m, source, target, addr, now)
                    &&& 0 <= i < m.len()
                    &&& n == m.update(i, n[i])
                    &&& handled(m[i], n[i], message, now)
                    &&& outcome == (if fits(m[i], message) {
                        IngestOutcome::Applied
                    } else {
                        IngestOutcome::Dropped(InboundError::ZoneOutOfRange)
                    })
                }
        },
    }
}

impl Manager {
    /// Takes in what the receiving socket has handed over.
    pub fn ingest(&mut self, addr: SocketAddress, datagram: Datagram, now: u64) -> (outcome:
        IngestOutcome)
        requires
            old(self).wf(),
        ensures
            final(self).wf(),
            ingested(
                old(self).records(),
                final(self).records(),
                old(self).source_tag(),
                datagram,
                addr,
                now,
                outcome,
            ),
            final(self).source_tag() == old(self).source_tag(),
            final(self).discovered_at() == old(self).discovered_at(),
    {
        match datagram {
            Datagram::Empty => IngestOutcome::SkippedEmpty,
            Datagram::Undecodable => IngestOutcome::SkippedUndecodable,
            Datagram::Message { target, message } => {
                if target == 0 {
                    return IngestOutcome::SkippedBroadcast;
                }
                let i: usize = self.upsert(target, addr, now);
                let ghost mid = self.bulbs@;
                let r = handle_message(message, &mut self.bulbs[i], now);
                proof {
                    assert(self.bulbs@ =~= mid.update(i as int, self.bulbs@[i as int]));
                    assert(self.bulbs@[i as int].target == mid[i as int].target);
                    assert forall|a: int, b: int|
                        0 <= a < self.bulbs@.len() && 0 <= b < self.bulbs@.len() && a
                            != b implies (#[trigger] self.bulbs@[a]).target != (
                    #[trigger] self.bulbs@[b]).target by {
                        assert(self.bulbs@[a].target == mid[a].target);
                        assert(self.bulbs@[b].target == mid[b].target);
                    }
                    assert(is_index_of(self.index@, self.bulbs@)) by {
                        assert forall|k: int|
                            0 <= k < self.bulbs@.len() implies self.index@.contains_key(
                            (#[trigger] self.bulbs@[k]).target,
                        ) && self.index@[self.bulbs@[k].target] == k by {
                            assert(self.bulbs@[k].target == mid[k].target);
                        }
                        assert forall|t: u64| #[trigger]
                            self.index@.contains_key(t) implies self.index@[t] < self.bulbs@.len()
                            && self.bulbs@[self.index@[t] as int].target == t by {
                            let place = self.index@[t] as int;
                            assert(self.bulbs@[place].target == mid[place].target);
                        }
                    }
                    assert(upserted(
                        old(self).records(),
                        mid,
                        old(self).source_tag(),
                        target,
                        addr,
                        now,
                    ));
                }
                match r {
                    Ok(_) => IngestOutcome::Applied,
                    Err(e) => IngestOutcome::Dropped(e),
                }
            },
        }
    }

    /// The refresh requests that are due at `now`: for each device, one
    /// for each of its attributes that has to be asked for again.
    pub fn refresh(&self, now: u64) -> (r: Vec<RefreshOrder>)
        ensures
            r@ == refresh_orders(self.records(), now),
    {
        let mut out: Vec<RefreshOrder> = Vec::new();
        let mut i: usize = 0;
        assert(self.bulbs@.subrange(0, 0) =~= Seq::<BulbInfo>::empty());
        while i < self.bulbs.len()
            invariant
                i <= self.bulbs.len(),
                out@ == refresh_orders(self.bulbs@.subrange(0, i as int), now),
            decreases self.bulbs.len() - i,
        {
            let bulb: &BulbInfo = &self.bulbs[i];
            let due: Vec<RefreshRequest> = bulb.query_for_missing_info(now);
            let ghost done = out@;
            proof {
                let longer = self.bulbs@.subrange(0, i + 1);
                assert(longer.drop_last() =~= self.bulbs@.subrange(0, i as int));
                assert(longer.last() == self.bulbs@[i as int]);
            }
            let mut j: usize = 0;
            while j < due.len()
                invariant
                    j <= due.len(),
                    out@.len() == done.len() + j,
                    forall|k: int| 0 <= k < done.len() ==> out@[k] == done[k],
                    forall|k: int|
                        0 <= k < j ==> out@[done.len() + k] == (RefreshOrder {
                            target: bulb.target,
                            source: bulb.source,
                            addr: bulb.addr,
                            request: due@[k],
                        }),
                decreases due.len() - j,
            {
                out.push(
                    RefreshOrder {
                        target: bulb.target,
                        source: bulb.source,
                        addr: bulb.addr,
                        request: due[j],
                    },
                );
                j += 1;
            }
            proof {
                let tail = due@.map_values(
                    |r: RefreshRequest|
                        RefreshOrder {
                            target: bulb.target,
                            source: bulb.source,
                            addr: bulb.addr,
                            request: r,
                        },
                );
                assert(out@ =~= done + tail);
            }
            i += 1;
        }
        assert(self.bulbs@.subrange(0, i as int) =~= self.bulbs@);
        out
    }

    /// Starts a discovery at time `now`: the result tells where the
    /// discovery request is to be broadcast.
    pub fn discover(&mut self, interfaces: &Vec<Interface>, now: u64) -> (r: Vec<SocketAddress>)
        ensures
            r@ == discovery_targets(interfaces@),
            final(self).discovered_at() == now,
            final(self).records() == old(self).records(),
            final(self).source_tag() == old(self).source_tag(),
            final(self).wf() == old(self).wf(),
    {
        let mut out: Vec<SocketAddress> = Vec::new();
        let mut i: usize = 0;
        assert(interfaces@.subrange(0, 0) =~= Seq::<Interface>::empty());
        while i < interfaces.len()
            invariant
                i <= interfaces.len(),
                out@ == discovery_targets(interfaces@.subrange(0, i as int)),
            decreases interfaces.len() - i,
        {
            proof {
                let longer = interfaces@.subrange(0, i + 1);
                assert(longer.drop_last() =~= interfaces@.subrange(0, i as int));
                assert(longer.last() == interfaces@[i as int]);
            }
            match interfaces[i] {
                Interface::V4 { ip, broadcast: Some(b) } => {
                    if ip / 0x100_0000 != 127 {
                        out.push(SocketAddress { ip: b, port: LIFX_PORT });
                    }
                },
                _ => {},
            }
            i += 1;
        }
        assert(interfaces@.subrange(0, i as int) =~= interfaces@);
        self.last_discovery = now;
        out
    }
}


impl Manager {
    /// Takes in the bytes that the receiving socket has handed over: they
    /// are decoded, and the datagram that they are is taken in as `ingest`
    /// says.
    pub fn ingest_datagram(&mut self, addr: SocketAddress, bytes: &[u8], now: u64) -> (outcome:
        IngestOutcome)
        requires
            old(self).wf(),
        ensures
            final(self).wf(),
            ingested(
                old(self).records(),
                final(self).records(),
                old(self).source_tag(),
                datagram_of(bytes@),
                addr,
                now,
                outcome,
            ),
            final(self).source_tag() == old(self).source_tag(),
            final(self).discovered_at() == old(self).discovered_at(),
    {
        let datagram: Datagram = decode(bytes);
        self.ingest(addr, datagram, now)
    }
}

} // verus!
