//! Taking in a data packet on the shared-state path: the expected sequence number and the
//! list of lost ones.
use vstd::prelude::*;

verus! {

/// Takes in a data packet with sequence number `seqnum`: when it is not the expected one, the
/// expected one is recorded as lost; the received number leaves the lost list; and the
/// expected number advances by one, wrapping around.
pub fn handle_data(seqnum: u32, client_sequence_number: &mut u32, lost_packets: &mut Vec<u32>)
    ensures
        *final(client_sequence_number) == vstd::wrapping::u32_specs::wrapping_add(*old(client_sequence_number), 1),
        final(lost_packets)@ == (if *old(client_sequence_number) != seqnum {
            old(lost_packets)@.push(*old(client_sequence_number))
        } else {
            old(lost_packets)@
        }).filter(|s: u32| s != seqnum),
{
    let expected = *client_sequence_number;
    if expected != seqnum {
        lost_packets.push(expected);
    }
    let ghost all = lost_packets@;
    let mut kept: Vec<u32> = Vec::new();
    let mut i: usize = 0;
    while i < lost_packets.len()
        invariant
            i <= lost_packets@.len(),
            lost_packets@ == all,
            kept@ == all.take(i as int).filter(|s: u32| s != seqnum),
        decreases lost_packets@.len() - i,
    {
        let s = lost_packets[i];
        proof {
            assert(all.take(i + 1).drop_last() =~= all.take(i as int));
            reveal(Seq::filter);
        }
        if s != seqnum {
            kept.push(s);
        }
        i = i + 1;
    }
    proof {
        assert(all.take(i as int) =~= all);
    }
    *lost_packets = kept;
    *client_sequence_number = expected.wrapping_add(1);
}

} // verus!
