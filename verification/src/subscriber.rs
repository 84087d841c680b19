//! What happens on each notification packet: decode it, publish the result,
//! ask the display to refresh.

use crate::decoder::{decode, decoded};
use crate::publisher::{after_publishing, lemma_last_write_wins, written, SharedValue};
use vstd::prelude::*;

verus! {

/// The wake-up handed to the display after a write. It carries nothing: the
/// display reads the slot again when it is woken.
#[derive(Clone, Copy, Debug, PartialEq, Eq, Structural)]
pub struct RefreshSignal;

/// Handles one notification packet: the slot then holds what the packet
/// decodes to, and the display is due a refresh. It does no I/O and takes no
/// lock, so the transport's delivery thread is never held up.
pub fn on_notification(slot: &mut SharedValue, payload: &[u8]) -> (signal: RefreshSignal)
    ensures
        final(slot)@ == written(old(slot)@, decoded(payload@)),
{
    slot.publish(decode(payload));
    RefreshSignal
}

/// The heart rates that a run of packets decodes to, packet by packet.
pub open spec fn decoded_all(payloads: Seq<Seq<u8>>) -> Seq<u8> {
    payloads.map_values(|payload: Seq<u8>| decoded(payload))
}

/// Handles a run of packets in the order in which they arrived.
pub fn drain(slot: &mut SharedValue, payloads: &Vec<Vec<u8>>)
    ensures
        final(slot)@ == after_publishing(old(slot)@, decoded_all(payloads.deep_view())),
{
    let ghost before = slot@;
    let ghost all = decoded_all(payloads.deep_view());
    let mut i: usize = 0;
    while i < payloads.len()
        invariant
            i <= payloads@.len(),
            all == decoded_all(payloads.deep_view()),
            all.len() == payloads@.len(),
            slot@ == after_publishing(before, all.take(i as int)),
        decreases payloads@.len() - i,
    {
        proof {
            let upto = all.take(i as int + 1);
            assert(upto.drop_last() == all.take(i as int));
            assert(upto.last() == decoded(payloads.deep_view()[i as int]));
            assert(payloads.deep_view()[i as int] == payloads@[i as int]@);
        }
        on_notification(slot, payloads[i].as_slice());
        i = i + 1;
    }
    assert(all.take(i as int) == all);
}

/// After a run of packets the slot shows what the last packet decodes to,
/// whatever came before it; after an empty run it shows what it showed.
pub proof fn lemma_drain_shows_last_packet(before: u8, payloads: Seq<Seq<u8>>)
    ensures
        payloads.len() == 0 ==> after_publishing(before, decoded_all(payloads)) == before,
        payloads.len() > 0 ==> after_publishing(before, decoded_all(payloads)) == decoded(
            payloads.last(),
        ),
{
    lemma_last_write_wins(before, decoded_all(payloads));
}

} // verus!
