use vstd::prelude::*;
use crate::records::{has_sense, sense_bit, sense_set, ALL_SENSES, SENSE_COUNT};

verus! {

/// The six senses, as a set of ids.
pub open spec fn every_sense() -> Set<u32> {
    Set::new(|sense_id: u32| sense_id < SENSE_COUNT)
}

proof fn bit_of_mark(senses: u32, marked: u32, asked: u32)
    by (bit_vector)
    requires
        marked < 6,
        asked < 6,
    ensures
        ((senses | (1u32 << marked)) & (1u32 << asked) != 0) == (asked == marked || senses & (1u32
            << asked) != 0),
{
}

proof fn mark_stays_in_range(senses: u32, marked: u32)
    by (bit_vector)
    requires
        marked < 6,
        senses <= 0x3f,
    ensures
        senses | (1u32 << marked) <= 0x3f,
        senses | (1u32 << marked) >= senses,
{
}

proof fn full_means_every_bit(senses: u32)
    by (bit_vector)
    requires
        senses <= 0x3f,
    ensures
        (senses == 0x3f) == (senses & (1u32 << 0u32) != 0 && senses & (1u32 << 1u32) != 0 && senses
            & (1u32 << 2u32) != 0 && senses & (1u32 << 3u32) != 0 && senses & (1u32 << 4u32) != 0
            && senses & (1u32 << 5u32) != 0),
{
}

proof fn empty_has_no_bit(asked: u32)
    by (bit_vector)
    requires
        asked < 6,
    ensures
        0u32 & (1u32 << asked) == 0,
{
}

/// A fresh bit set holds no sense.
pub proof fn nothing_recorded_at_first()
    ensures
        sense_set(0) == Set::<u32>::empty(),
{
    assert forall|sense_id: u32| !has_sense(0, sense_id) by {
        if sense_id < SENSE_COUNT {
            empty_has_no_bit(sense_id);
        }
    }
    assert(sense_set(0) =~= Set::<u32>::empty());
}

/// Setting the bit of a sense adds that sense to the set and no other, and
/// keeps the set among the six.
pub proof fn marking_adds_one_sense(senses: u32, sense_id: u32)
    requires
        senses <= ALL_SENSES,
        sense_id < SENSE_COUNT,
    ensures
        senses | sense_bit(sense_id) <= ALL_SENSES,
        sense_set(senses | sense_bit(sense_id)) == sense_set(senses).insert(sense_id),
{
    mark_stays_in_range(senses, sense_id);
    let after = senses | sense_bit(sense_id);
    assert forall|asked: u32|
        has_sense(after, asked) == (asked == sense_id || has_sense(senses, asked)) by {
        if asked < SENSE_COUNT {
            bit_of_mark(senses, sense_id, asked);
        }
    }
    assert(sense_set(after) =~= sense_set(senses).insert(sense_id));
}

/// A bit set is the full one exactly when it holds each of the six senses.
pub proof fn full_set_holds_every_sense(senses: u32)
    requires
        senses <= ALL_SENSES,
    ensures
        (senses == ALL_SENSES) == (sense_set(senses) == every_sense()),
{
    full_means_every_bit(senses);
    if senses == ALL_SENSES {
        assert forall|asked: u32| has_sense(senses, asked) == (asked < SENSE_COUNT) by {
            if asked < SENSE_COUNT {
                assert(asked == 0 || asked == 1 || asked == 2 || asked == 3 || asked == 4 || asked
                    == 5);
            }
        }
        assert(sense_set(senses) =~= every_sense());
    }
    if sense_set(senses) == every_sense() {
        assert(every_sense().contains(0u32) && every_sense().contains(1u32)
            && every_sense().contains(2u32) && every_sense().contains(3u32)
            && every_sense().contains(4u32) && every_sense().contains(5u32));
        assert(has_sense(senses, 0) && has_sense(senses, 1) && has_sense(senses, 2) && has_sense(
            senses,
            3,
        ) && has_sense(senses, 4) && has_sense(senses, 5));
    }
}

} // verus!
