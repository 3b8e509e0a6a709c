//! Whether a room is free over a range of nights, given its stays.

use crate::calendar::CalendarDate;
use vstd::prelude::*;

verus! {

/// A stay from its check-in date up to (not including) its check-out date.
pub type Stay = (CalendarDate, CalendarDate);

/// The stay shares at least one night with the range that starts on `from`
/// and ends on `to`: it checks in before `to` and checks out after `from`.
pub open spec fn stay_blocks(stay: Stay, from: CalendarDate, to: CalendarDate) -> bool {
    &&& stay.0.day_number() < to.day_number()
    &&& stay.1.day_number() > from.day_number()
}

/// No stay of `stays` blocks the range from `from` to `to`.
pub open spec fn range_is_free(stays: Seq<Stay>, from: CalendarDate, to: CalendarDate) -> bool {
    forall|i: int| 0 <= i < stays.len() ==> !stay_blocks(#[trigger] stays[i], from, to)
}

/// Whether the room whose stays are `bookings` is free from `data_from`
/// to `data_to`: true exactly when no stay overlaps that range. A stay
/// that checks out on the day the range begins, or checks in on the day
/// it ends, does not overlap it.
pub fn rooms_available(bookings: &[Stay], data_from: CalendarDate, data_to: CalendarDate) -> (res:
    bool)
    ensures
        res == range_is_free(bookings@, data_from, data_to),
        res <==> forall|i: int|
            0 <= i < bookings@.len() ==> !(#[trigger] bookings@[i].0.day_number()
                < data_to.day_number() && bookings@[i].1.day_number() > data_from.day_number()),
{
    let n = bookings.len();
    for i in 0..n
        invariant
            n == bookings@.len(),
            range_is_free(bookings@.take(i as int), data_from, data_to),
    {
        let (check_in, check_out) = bookings[i];
        if check_in.is_before(&data_to) && data_from.is_before(&check_out) {
            assert(stay_blocks(bookings@[i as int], data_from, data_to));
            return false;
        }
        assert(bookings@.take(i + 1) =~= bookings@.take(i as int).push(bookings@[i as int]));
    }
    assert(bookings@.take(n as int) =~= bookings@);
    true
}

/// A room with no stays is free over every range.
pub proof fn lemma_no_stays_is_free(from: CalendarDate, to: CalendarDate)
    ensures
        range_is_free(Seq::<Stay>::empty(), from, to),
{
}

/// Adding one stay keeps a range free exactly when the range was free
/// before and the new stay does not block it.
pub proof fn lemma_add_stay(stays: Seq<Stay>, stay: Stay, from: CalendarDate, to: CalendarDate)
    ensures
        range_is_free(stays.push(stay), from, to) == (range_is_free(stays, from, to) && !stay_blocks(
            stay,
            from,
            to,
        )),
{
    if range_is_free(stays.push(stay), from, to) {
        assert(stays.push(stay)[stays.len() as int] == stay);
        assert forall|i: int| 0 <= i < stays.len() implies !stay_blocks(
            #[trigger] stays[i],
            from,
            to,
        ) by {
            assert(stays.push(stay)[i] == stays[i]);
        }
    }
}

/// Freedom depends only on which stays there are, not on their order or
/// grouping: the stays of two lists together leave a range free exactly
/// when each list does.
pub proof fn lemma_free_over_concatenation(
    first: Seq<Stay>,
    second: Seq<Stay>,
    from: CalendarDate,
    to: CalendarDate,
)
    ensures
        range_is_free(first + second, from, to) == (range_is_free(first, from, to)
            && range_is_free(second, from, to)),
{
    let all = first + second;
    if range_is_free(all, from, to) {
        assert forall|i: int| 0 <= i < first.len() implies !stay_blocks(
            #[trigger] first[i],
            from,
            to,
        ) by {
            assert(all[i] == first[i]);
        }
        assert forall|i: int| 0 <= i < second.len() implies !stay_blocks(
            #[trigger] second[i],
            from,
            to,
        ) by {
            assert(all[first.len() + i] == second[i]);
        }
    }
    if range_is_free(first, from, to) && range_is_free(second, from, to) {
        assert forall|i: int| 0 <= i < all.len() implies !stay_blocks(#[trigger] all[i], from, to) by {
            if i < first.len() {
                assert(all[i] == first[i]);
            } else {
                assert(all[i] == second[i - first.len()]);
            }
        }
    }
}

/// Overlap is symmetric: a stay from `a` to `b` blocks the range from `c`
/// to `d` exactly when a stay from `c` to `d` would block the range from
/// `a` to `b`.
pub proof fn lemma_blocking_is_symmetric(
    a: CalendarDate,
    b: CalendarDate,
    c: CalendarDate,
    d: CalendarDate,
)
    ensures
        stay_blocks((a, b), c, d) == stay_blocks((c, d), a, b),
{
}

/// Back-to-back stays never collide: a stay that checks out on the day a
/// range begins, or checks in on the day it ends, does not block it.
pub proof fn lemma_back_to_back_does_not_block(stay: Stay, from: CalendarDate, to: CalendarDate)
    requires
        stay.1 == from || stay.0 == to,
    ensures
        !stay_blocks(stay, from, to),
{
}

/// A range that is free stays free when it is narrowed.
pub proof fn lemma_free_range_narrowed(
    stays: Seq<Stay>,
    from: CalendarDate,
    to: CalendarDate,
    inner_from: CalendarDate,
    inner_to: CalendarDate,
)
    requires
        range_is_free(stays, from, to),
        from.day_number() <= inner_from.day_number(),
        inner_to.day_number() <= to.day_number(),
    ensures
        range_is_free(stays, inner_from, inner_to),
{
    assert forall|i: int| 0 <= i < stays.len() implies !stay_blocks(
        #[trigger] stays[i],
        inner_from,
        inner_to,
    ) by {
        assert(!stay_blocks(stays[i], from, to));
    }
}

/// A stay that checks in before the range ends and checks out after it
/// begins makes the range busy, whatever its own length and whatever the
/// range's.
pub proof fn lemma_overlapping_stay_makes_range_busy(
    stays: Seq<Stay>,
    i: int,
    from: CalendarDate,
    to: CalendarDate,
)
    requires
        0 <= i < stays.len(),
        stays[i].0.day_number() < to.day_number(),
        stays[i].1.day_number() > from.day_number(),
    ensures
        !range_is_free(stays, from, to),
{
    assert(stay_blocks(stays[i], from, to));
}

/// A range is free exactly when every stay checks in no earlier than the
/// range ends or checks out no later than it begins.
pub proof fn lemma_free_means_every_stay_outside(stays: Seq<Stay>, from: CalendarDate, to: CalendarDate)
    ensures
        range_is_free(stays, from, to) <==> forall|i: int|
            0 <= i < stays.len() ==> (#[trigger] stays[i].0.day_number() >= to.day_number()
                || stays[i].1.day_number() <= from.day_number()),
{
    if range_is_free(stays, from, to) {
        assert forall|i: int| 0 <= i < stays.len() implies (#[trigger] stays[i].0.day_number()
            >= to.day_number() || stays[i].1.day_number() <= from.day_number()) by {
            assert(!stay_blocks(stays[i], from, to));
        }
    }
}

} // verus!
