//! Pub/sub broker: topic-keyed delivery channels with prefix-match fan-out.
//!
//! A topic is a byte string; the empty topic matches every publish. The
//! broker stores subscriptions in order and never removes one; a channel is
//! named by the index at which its subscription was stored. `publish`
//! computes one delivery — a serialized copy of the message — for every
//! subscription whose topic is a prefix of the publish topic, in
//! subscription order; the caller performs the writes, so a slow channel
//! backpressures the caller, not the broker.

use crate::msg::{spec_wire_bytes, Msg};
use vstd::prelude::*;

verus! {

/// One stored subscription: a topic and the channel it feeds.
pub struct Subscription {
    pub topic: Vec<u8>,
    pub channel: u64,
}

/// The topic-keyed subscription table.
pub struct Broker {
    subs: Vec<Subscription>,
}

/// One computed delivery: the serialized message owed to a channel.
pub struct Delivery {
    pub channel: u64,
    pub bytes: Vec<u8>,
}

/// Whether `p` is a prefix of `t`; the empty topic is a prefix of every
/// topic.
pub open spec fn spec_is_prefix(p: Seq<u8>, t: Seq<u8>) -> bool {
    p.len() <= t.len() && p == t.subrange(0, p.len() as int)
}

/// The channels owed a delivery: the channel of every subscription whose
/// topic is a prefix of the publish topic, in subscription order.
pub open spec fn spec_matching_channels(subs: Seq<Subscription>, topic: Seq<u8>) -> Seq<u64>
    decreases subs.len(),
{
    if subs.len() == 0 {
        seq![]
    } else {
        let init = spec_matching_channels(subs.drop_last(), topic);
        if spec_is_prefix(subs.last().topic@, topic) {
            init.push(subs.last().channel)
        } else {
            init
        }
    }
}

/// A broker is well formed when each stored channel is the index of its
/// subscription: channel names are dense and never reused.
pub open spec fn spec_broker_wf(subs: Seq<Subscription>) -> bool {
    forall|i: int| 0 <= i < subs.len() ==> #[trigger] subs[i].channel == i
}

/// Whether `p` is a prefix of `t`.
pub fn is_prefix(p: &Vec<u8>, t: &Vec<u8>) -> (r: bool)
    ensures
        r == spec_is_prefix(p@, t@),
{
    if p.len() > t.len() {
        return false;
    }
    let mut i: usize = 0;
    while i < p.len()
        invariant
            i <= p@.len() <= t@.len(),
            forall|j: int| 0 <= j < i ==> p@[j] == t@[j],
        decreases p@.len() - i,
    {
        if p[i] != t[i] {
            assert(p@ != t@.subrange(0, p@.len() as int));
            return false;
        }
        i += 1;
    }
    proof {
        assert(p@ =~= t@.subrange(0, p@.len() as int));
    }
    true
}

impl Broker {
    /// The stored subscriptions, in subscription order.
    pub closed spec fn subs(self) -> Seq<Subscription> {
        self.subs@
    }

    /// Well-formedness: channel names equal subscription indices.
    pub open spec fn wf(self) -> bool {
        spec_broker_wf(self.subs())
    }

    /// An empty subscription table.
    pub fn new() -> (b: Broker)
        ensures
            b.wf(),
            b.subs() =~= Seq::<Subscription>::empty(),
    {
        Broker { subs: Vec::new() }
    }

    /// Store a new subscription on `topic` and return the channel that will
    /// receive its deliveries. Subscriptions are never removed.
    pub fn subscribe(&mut self, topic: Vec<u8>) -> (ch: u64)
        requires
            old(self).wf(),
            old(self).subs().len() < 0xFFFF_FFFF_FFFF_FFFF,
        ensures
            final(self).wf(),
            ch == old(self).subs().len(),
            final(self).subs().len() == old(self).subs().len() + 1,
            final(self).subs().last().topic@ == topic@,
            final(self).subs().last().channel == ch,
            final(self).subs().drop_last() == old(self).subs(),
    {
        let ch = self.subs.len() as u64;
        self.subs.push(Subscription { topic, channel: ch });
        proof {
            assert(final(self).subs().drop_last() =~= old(self).subs());
        }
        ch
    }

    /// Compute the fan-out of one publish: a delivery carrying the
    /// serialized message for every subscription whose topic is a prefix of
    /// `topic`, in subscription order.
    pub fn publish(&self, topic: &Vec<u8>, msg: &Msg) -> (dels: Vec<Delivery>)
        ensures
            dels@.map_values(|d: Delivery| d.channel) == spec_matching_channels(
                self.subs(),
                topic@,
            ),
            forall|i: int| 0 <= i < dels@.len() ==> #[trigger] dels@[i].bytes@ == spec_wire_bytes(
                msg.addr,
                msg.fcnt,
                msg.payload@,
            ),
    {
        let mut dels: Vec<Delivery> = Vec::new();
        let mut i: usize = 0;
        while i < self.subs.len()
            invariant
                i <= self.subs().len(),
                dels@.map_values(|d: Delivery| d.channel) == spec_matching_channels(
                    self.subs().subrange(0, i as int),
                    topic@,
                ),
                forall|k: int| 0 <= k < dels@.len() ==> #[trigger] dels@[k].bytes@
                    == spec_wire_bytes(msg.addr, msg.fcnt, msg.payload@),
            decreases self.subs().len() - i,
        {
            let ghost prev = self.subs().subrange(0, i as int);
            let ghost cur = self.subs().subrange(0, i + 1);
            proof {
                assert(cur.drop_last() =~= prev);
                assert(cur.last() == self.subs()[i as int]);
            }
            if is_prefix(&self.subs[i].topic, topic) {
                let bytes = match msg.serialize() {
                    Ok(b) => b,
                    Err(_) => Vec::new(),
                };
                dels.push(Delivery { channel: self.subs[i].channel, bytes });
                proof {
                    assert(dels@.map_values(|d: Delivery| d.channel) =~= spec_matching_channels(
                        cur,
                        topic@,
                    ));
                }
            } else {
                proof {
                    assert(dels@.map_values(|d: Delivery| d.channel) =~= spec_matching_channels(
                        cur,
                        topic@,
                    ));
                }
            }
            i += 1;
        }
        proof {
            assert(self.subs().subrange(0, self.subs().len() as int) =~= self.subs());
        }
        dels
    }
}

} // verus!
