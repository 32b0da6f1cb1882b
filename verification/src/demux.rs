//! Demultiplexer: the coordination point between the lifecycle controller
//! and the broker.
//!
//! `dispatch` ensures a destination executor exists for the message's
//! address, then computes the fan-out of publishing the message on the
//! device's topic. The caller performs the returned actions: spawn the
//! executor, if one was requested, and write each delivery to its channel.

use crate::broker::{spec_matching_channels, Broker, Delivery};
use crate::msg::{spec_wire_bytes, Msg};
use crate::vdctrl::{spec_device_topic, SpawnRequest, VirtDevCtrl};
use vstd::prelude::*;

verus! {

/// The router: a lifecycle controller and the broker it subscribes on.
pub struct Demux {
    vdctrl: VirtDevCtrl,
    broker: Broker,
}

impl Demux {
    /// The broker held by this router.
    pub closed spec fn broker(self) -> Broker {
        self.broker
    }

    /// The lifecycle controller held by this router.
    pub closed spec fn vdctrl(self) -> VirtDevCtrl {
        self.vdctrl
    }

    /// Assemble a router from a broker and a lifecycle controller.
    pub fn new(broker: Broker, vdctrl: VirtDevCtrl) -> (d: Demux)
        ensures
            d.broker() == broker,
            d.vdctrl() == vdctrl,
    {
        Demux { broker, vdctrl }
    }

    /// Route one decoded message: ensure an executor exists for its
    /// address, then compute the deliveries of publishing the message on
    /// the device's topic. A first contact also returns the spawn request;
    /// its fresh subscription is stored before the publish, so the new
    /// channel is owed this first message too.
    pub fn dispatch(&mut self, msg: &Msg) -> (r: (Option<SpawnRequest>, Vec<Delivery>))
        requires
            old(self).broker().wf(),
            old(self).broker().subs().len() < 0xFFFF_FFFF_FFFF_FFFF,
        ensures
            final(self).broker().wf(),
            ({
                let (spawn, dels) = r;
                &&& old(self).vdctrl().registry().contains_key(msg.addr) ==> {
                    &&& spawn is None
                    &&& final(self).vdctrl().registry() == old(self).vdctrl().registry()
                    &&& final(self).broker().subs() == old(self).broker().subs()
                }
                &&& !old(self).vdctrl().registry().contains_key(msg.addr) ==> (spawn matches Some(
                    req,
                ) && {
                    &&& req.deveui == msg.addr
                    &&& req.channel == old(self).broker().subs().len()
                    &&& final(self).vdctrl().registry() == old(self).vdctrl().registry().insert(
                        msg.addr,
                        req.channel,
                    )
                    &&& final(self).broker().subs().len() == old(self).broker().subs().len() + 1
                    &&& final(self).broker().subs().drop_last() == old(self).broker().subs()
                    &&& final(self).broker().subs().last().topic@ == spec_device_topic(msg.addr)
                })
                &&& dels@.map_values(|d: Delivery| d.channel) == spec_matching_channels(
                    final(self).broker().subs(),
                    spec_device_topic(msg.addr),
                )
                &&& forall|i: int| 0 <= i < dels@.len() ==> #[trigger] dels@[i].bytes@
                    == spec_wire_bytes(msg.addr, msg.fcnt, msg.payload@)
            }),
    {
        let spawn = self.vdctrl.instantiate_if_new(&mut self.broker, msg.addr);
        let topic = crate::vdctrl::device_topic(msg.addr);
        let dels = self.broker.publish(&topic, msg);
        (spawn, dels)
    }
}

} // verus!
