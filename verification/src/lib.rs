//! Gateway core for a long-range radio link: register-level codec and driver
//! for the SX1276-family transceiver, the fixed wire-message codec, and the
//! message-routing / device-lifecycle subsystem.

pub mod broker;
pub mod demux;
pub mod driver;
pub mod gateway;
pub mod msg;
pub mod opcodes;
pub mod vdctrl;

use vstd::prelude::*;

verus! {

/// Appending to a frame log keeps every earlier log as a prefix.
pub broadcast proof fn lemma_log_prefix_push(a: Seq<Seq<u8>>, x: Seq<u8>)
    ensures
        a.is_prefix_of(#[trigger] a.push(x)),
{
    assert(a =~= a.push(x).subrange(0, a.len() as int));
}

/// Being a prefix of a frame log is transitive.
pub broadcast proof fn lemma_log_prefix_chain(a: Seq<Seq<u8>>, b: Seq<Seq<u8>>, c: Seq<Seq<u8>>)
    requires
        #[trigger] a.is_prefix_of(b),
        #[trigger] b.is_prefix_of(c),
    ensures
        a.is_prefix_of(c),
{
    assert forall|i: int| 0 <= i < a.len() implies a[i] == c[i] by {
        assert(a[i] == b.subrange(0, a.len() as int)[i]);
        assert(b[i] == c.subrange(0, b.len() as int)[i]);
    }
    assert(a =~= c.subrange(0, a.len() as int));
}

/// An entry of a frame log is unchanged in any log it is a prefix of.
pub broadcast proof fn lemma_log_prefix_index(a: Seq<Seq<u8>>, b: Seq<Seq<u8>>, i: int)
    requires
        a.is_prefix_of(b),
    ensures
        #![trigger a.is_prefix_of(b), b[i]]
        0 <= i < a.len() ==> a[i] == b[i],
{
    if 0 <= i < a.len() {
        assert(a[i] == b.subrange(0, a.len() as int)[i]);
    }
}

} // verus!
