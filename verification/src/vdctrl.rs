//! Device lifecycle controller: the mapping from device address to its
//! running isolated executor.
//!
//! The controller decides; the caller acts. `instantiate_if_new` records a
//! first-seen address, subscribes a fresh channel on the device's topic and
//! hands back a spawn request naming the executor image to run against that
//! channel; for a known address it does nothing. An entry, once made, is
//! never removed or replaced, so each address gets at most one executor for
//! the life of the process.

use crate::broker::Broker;
use std::collections::HashMap;
use vstd::prelude::*;

verus! {

broadcast use vstd::std_specs::hash::group_hash_axioms;

/// The work the caller owes after a first contact: run the executor image
/// for `deveui`, fed from `channel`.
pub struct SpawnRequest {
    pub deveui: u64,
    pub channel: u64,
    pub image_locator: String,
}

/// The registry of running executors, keyed by device address; the value is
/// the channel that feeds the executor.
pub struct VirtDevCtrl {
    registry: HashMap<u64, u64>,
}

/// The ASCII code of the lowercase hex digit for `v`.
pub open spec fn spec_hex_digit(v: u64) -> u8 {
    if v < 10 {
        (0x30 + v) as u8
    } else {
        (0x57 + v) as u8
    }
}

/// The lowercase hex digits of `v`, most significant first; empty for zero.
pub open spec fn spec_hex_digits(v: u64) -> Seq<u8>
    decreases v via spec_hex_digits_decreases
{
    if v == 0 {
        seq![]
    } else {
        spec_hex_digits(v / 16).push(spec_hex_digit(v % 16))
    }
}

#[via_fn]
proof fn spec_hex_digits_decreases(v: u64) {
    if v > 0 {
        vstd::arithmetic::div_mod::lemma_div_decreases(v as int, 16);
    }
}

/// The per-device topic: the address in lowercase hex, zero-padded on the
/// left to at least eight digits.
pub open spec fn spec_device_topic(addr: u64) -> Seq<u8> {
    let ds = spec_hex_digits(addr);
    if ds.len() >= 8 {
        ds
    } else {
        Seq::new((8 - ds.len()) as nat, |i: int| 0x30u8) + ds
    }
}

/// Format a device address as its topic: lowercase hex, zero-padded on the
/// left to at least eight digits.
#[verifier::loop_isolation(false)]
pub fn device_topic(addr: u64) -> (t: Vec<u8>)
    ensures
        t@ == spec_device_topic(addr),
{
    let mut rev: Vec<u8> = Vec::new();
    let mut v: u64 = addr;
    while v > 0
        invariant
            spec_hex_digits(addr) == spec_hex_digits(v) + rev@.reverse(),
        decreases v,
    {
        let d: u8 = (v % 16) as u8;
        let c: u8 = if d < 10 {
            0x30 + d
        } else {
            0x57 + d
        };
        let ghost old_rev = rev@;
        let ghost old_v = v;
        rev.push(c);
        v = v / 16;
        proof {
            vstd::arithmetic::div_mod::lemma_div_decreases(old_v as int, 16);
            assert(c == spec_hex_digit(old_v % 16));
            assert(rev@.reverse() =~= seq![c] + old_rev.reverse());
            assert(spec_hex_digits(old_v) == spec_hex_digits(old_v / 16).push(
                spec_hex_digit(old_v % 16),
            ));
            assert(spec_hex_digits(v) + rev@.reverse() =~= spec_hex_digits(old_v)
                + old_rev.reverse());
        }
    }
    proof {
        assert(spec_hex_digits(addr) =~= rev@.reverse());
    }
    let digits = rev.len();
    let mut t: Vec<u8> = Vec::new();
    let mut pad: usize = if digits >= 8 {
        0
    } else {
        8 - digits
    };
    let ghost total_pad = pad as int;
    while pad > 0
        invariant
            0 <= pad <= total_pad,
            t@.len() == total_pad - pad,
            forall|j: int| 0 <= j < t@.len() ==> t@[j] == 0x30u8,
        decreases pad,
    {
        t.push(0x30);
        pad = pad - 1;
    }
    let mut i: usize = digits;
    while i > 0
        invariant
            i <= digits == rev@.len(),
            t@.len() == total_pad + (digits - i),
            forall|j: int| 0 <= j < total_pad ==> t@[j] == 0x30u8,
            forall|j: int| total_pad <= j < t@.len() ==> t@[j] == rev@.reverse()[j - total_pad],
        decreases i,
    {
        i = i - 1;
        let ghost t_before = t@;
        t.push(rev[i]);
        proof {
            let k = t@.len() - 1 - total_pad;
            assert(rev@.len() > 0);
            assert(rev@.reverse()[k] == rev@[rev@.len() - 1 - k]);
            assert(rev@.len() - 1 - k == i as int);
            assert forall|j: int| total_pad <= j < t@.len() implies t@[j] == rev@.reverse()[j
                - total_pad] by {
                if j < t@.len() - 1 {
                    assert(t@[j] == t_before[j]);
                } else {
                    assert(t@[j] == rev@[i as int]);
                }
            }
        }
    }
    proof {
        assert(t@ =~= spec_device_topic(addr));
    }
    t
}

impl VirtDevCtrl {
    /// The recorded devices: address to feeding channel.
    pub closed spec fn registry(self) -> Map<u64, u64> {
        self.registry@
    }

    /// An empty registry.
    pub fn new() -> (c: VirtDevCtrl)
        ensures
            c.registry() =~= Map::<u64, u64>::empty(),
    {
        VirtDevCtrl { registry: HashMap::new() }
    }

    /// Whether an executor is already recorded for `deveui`.
    pub fn has_device(&self, deveui: u64) -> (r: bool)
        ensures
            r == self.registry().contains_key(deveui),
    {
        self.registry.contains_key(&deveui)
    }

    /// How many executors have been created.
    pub fn device_count(&self) -> (n: usize)
        ensures
            n == self.registry().len(),
    {
        self.registry.len()
    }

    /// Resolve the executor image locator for a device through the
    /// discovery collaborator. Discovery is a black box: nothing is
    /// promised of the locator it returns.
    fn discover_service(&self, _deveui: u64) -> String {
        "./target/wasm32-wasi/release/virt_dev.wasm".to_owned()
    }

    /// Ensure an executor is recorded for `deveui`.
    ///
    /// For a first-seen address: resolves the image locator, subscribes a
    /// fresh channel on the device's topic, records the mapping, and
    /// returns the spawn request the caller must run. For a known address:
    /// a no-op returning nothing. At most one entry and one subscription
    /// ever exist per address.
    pub fn instantiate_if_new(&mut self, broker: &mut Broker, deveui: u64) -> (r: Option<
        SpawnRequest,
    >)
        requires
            old(broker).wf(),
            old(broker).subs().len() < 0xFFFF_FFFF_FFFF_FFFF,
        ensures
            final(broker).wf(),
            old(self).registry().contains_key(deveui) ==> {
                &&& r is None
                &&& final(self).registry() == old(self).registry()
                &&& final(broker).subs() == old(broker).subs()
            },
            !old(self).registry().contains_key(deveui) ==> (r matches Some(req) && {
                &&& req.deveui == deveui
                &&& req.channel == old(broker).subs().len()
                &&& final(self).registry() == old(self).registry().insert(deveui, req.channel)
                &&& final(broker).subs().len() == old(broker).subs().len() + 1
                &&& final(broker).subs().drop_last() == old(broker).subs()
                &&& final(broker).subs().last().topic@ == spec_device_topic(deveui)
                &&& final(broker).subs().last().channel == req.channel
            }),
    {
        if self.registry.contains_key(&deveui) {
            return None;
        }
        let image_locator = self.discover_service(deveui);
        let channel = broker.subscribe(device_topic(deveui));
        self.registry.insert(deveui, channel);
        Some(SpawnRequest { deveui, channel, image_locator })
    }
}

/// Lazy creation is idempotent per address and independent across
/// addresses: recording a first-seen address grows the registry by exactly
/// one entry that the recorded address then owns — so a second call for the
/// same address finds the entry and changes nothing — and recording two
/// distinct first-seen addresses yields two entries, each keeping its own
/// channel.
pub proof fn lemma_registry_growth(m: Map<u64, u64>, a: u64, b: u64, ch_a: u64, ch_b: u64)
    requires
        m.dom().finite(),
        !m.contains_key(a),
    ensures
        m.insert(a, ch_a).contains_key(a),
        m.insert(a, ch_a).len() == m.len() + 1,
        m.insert(a, ch_a)[a] == ch_a,
        a != b && !m.contains_key(b) ==> {
            &&& m.insert(a, ch_a).insert(b, ch_b).len() == m.len() + 2
            &&& m.insert(a, ch_a).insert(b, ch_b)[a] == ch_a
            &&& m.insert(a, ch_a).insert(b, ch_b)[b] == ch_b
        },
{
    broadcast use vstd::set::axiom_set_insert_len;

    assert(m.insert(a, ch_a).dom() =~= m.dom().insert(a));
    if a != b && !m.contains_key(b) {
        assert(m.insert(a, ch_a).insert(b, ch_b).dom() =~= m.dom().insert(a).insert(b));
    }
}

} // verus!
