//! The stored users and bookings as the service's statements read and
//! write them, and what its decisions keep true of them.

use crate::bookings::{cancelled_status, confirmed_status, effective_count, overlap_verdict};
use crate::calendar::Timestamp;
use crate::credentials::RegisterAction;
use vstd::prelude::*;

verus! {

/// No username is stored twice.
pub open spec fn names_distinct(names: Seq<Seq<char>>) -> bool {
    forall|i: int, j: int|
        0 <= i < names.len() && 0 <= j < names.len() && i != j ==> names[i] != names[j]
}

/// Registration keeps usernames distinct: a registration inserts its name
/// only when the name check did not report the name as taken, and when
/// that check answers truthfully the name was not stored yet. (When the
/// check returns no answer the insert goes ahead and only the database's
/// unique key, answered as a conflict, keeps the names distinct.)
pub proof fn lemma_registration_keeps_names_distinct(
    names: Seq<Seq<char>>,
    name: Seq<char>,
    answer: Option<bool>,
)
    requires
        names_distinct(names),
        answer == Some(names.contains(name)),
        answer != Some(true),
    ensures
        names_distinct(names.push(name)),
{
    let all = names.push(name);
    assert forall|i: int, j: int|
        0 <= i < all.len() && 0 <= j < all.len() && i != j implies all[i] != all[j] by {
        if i < names.len() && j < names.len() {
            assert(all[i] == names[i] && all[j] == names[j]);
        } else if i < names.len() {
            assert(all[i] == names[i]);
        } else {
            assert(all[j] == names[j]);
        }
    }
}

/// The stored usernames after the database carries out a registration's
/// action: an insert adds its name, unless the users table's unique key
/// refuses it because the name is stored already (an answer that
/// `register_insert_outcome` turns into a conflict); any other action
/// leaves the names as they are.
pub open spec fn names_after(names: Seq<Seq<char>>, action: RegisterAction) -> Seq<Seq<char>> {
    match action {
        RegisterAction::InsertUser { username, .. } => if names.contains(username@) {
            names
        } else {
            names.push(username@)
        },
        _ => names,
    }
}

/// Whatever a registration step asks for, carrying it out keeps the stored
/// usernames distinct: a fresh name is added, a taken one is refused by the
/// unique key. This holds whether or not the name check answered (see
/// `lemma_registration_keeps_names_distinct` for a check that answers
/// truthfully, where the unique key is never needed).
pub broadcast proof fn lemma_register_action_keeps_names_distinct(
    names: Seq<Seq<char>>,
    action: RegisterAction,
)
    requires
        names_distinct(names),
    ensures
        #[trigger] names_distinct(names_after(names, action)),
{
    match action {
        RegisterAction::InsertUser { username, .. } => {
            if !names.contains(username@) {
                lemma_registration_keeps_names_distinct(names, username@, Some(false));
            }
        },
        _ => {},
    }
}

/// A stored booking as the overlap count reads it.
pub struct StoredBooking {
    pub room_id: int,
    pub start: Timestamp,
    pub end: Timestamp,
    pub status: Seq<char>,
}

/// A booking that still holds its room: any not cancelled.
pub open spec fn is_live(b: StoredBooking) -> bool {
    b.status != cancelled_status()
}

/// The stored booking is one that the overlap count counts for a request
/// of `room_id` from `start` to `end`: live, of the same room, starting
/// before the request ends and ending after it starts.
pub open spec fn counted_against(b: StoredBooking, room_id: int, start: Timestamp, end: Timestamp) -> bool {
    &&& is_live(b)
    &&& b.room_id == room_id
    &&& b.start.earlier_than(end)
    &&& start.earlier_than(b.end)
}

/// What the overlap count returns over the stored bookings.
pub open spec fn overlap_count(rows: Seq<StoredBooking>, room_id: int, start: Timestamp, end: Timestamp) -> int
    decreases rows.len(),
{
    if rows.len() == 0 {
        0
    } else {
        overlap_count(rows.drop_last(), room_id, start, end) + if counted_against(
            rows.last(),
            room_id,
            start,
            end,
        ) {
            1int
        } else {
            0
        }
    }
}

/// Two live bookings of the same room share some time.
pub open spec fn clash(a: StoredBooking, b: StoredBooking) -> bool {
    is_live(a) && counted_against(b, a.room_id, a.start, a.end)
}

/// No two live bookings of a room share any time.
pub open spec fn no_live_overlaps(rows: Seq<StoredBooking>) -> bool {
    forall|i: int, j: int|
        0 <= i < rows.len() && 0 <= j < rows.len() && i != j ==> !clash(rows[i], rows[j])
}

/// A count of zero means no stored booking is counted against the request.
proof fn lemma_zero_count_means_no_collision(
    rows: Seq<StoredBooking>,
    room_id: int,
    start: Timestamp,
    end: Timestamp,
)
    ensures
        overlap_count(rows, room_id, start, end) >= 0,
        overlap_count(rows, room_id, start, end) == 0 ==> forall|i: int|
            0 <= i < rows.len() ==> !counted_against(#[trigger] rows[i], room_id, start, end),
    decreases rows.len(),
{
    if rows.len() > 0 {
        let rest = rows.drop_last();
        lemma_zero_count_means_no_collision(rest, room_id, start, end);
        if overlap_count(rows, room_id, start, end) == 0 {
            assert forall|i: int| 0 <= i < rows.len() implies !counted_against(
                #[trigger] rows[i],
                room_id,
                start,
                end,
            ) by {
                if i < rest.len() {
                    assert(rows[i] == rest[i]);
                }
            }
        }
    }
}

/// Overlap protection: when no two live bookings of a room overlap and the
/// overlap count for a request lets it through, inserting the request as a
/// confirmed booking keeps it so.
pub proof fn lemma_booking_keeps_rooms_free_of_overlaps(
    rows: Seq<StoredBooking>,
    room_id: i32,
    start: Timestamp,
    end: Timestamp,
    count: i64,
)
    requires
        no_live_overlaps(rows),
        count == overlap_count(rows, room_id as int, start, end),
        overlap_verdict(Some(count)) is Ok,
    ensures
        no_live_overlaps(
            rows.push(StoredBooking { room_id: room_id as int, start, end, status: confirmed_status() }),
        ),
{
    let added = StoredBooking { room_id: room_id as int, start, end, status: confirmed_status() };
    let all = rows.push(added);
    lemma_zero_count_means_no_collision(rows, room_id as int, start, end);
    assert(effective_count(Some(count)) < 1);
    reveal_strlit("Confirmed");
    reveal_strlit("Cancelled");
    assert(confirmed_status()[1] != cancelled_status()[1]);
    assert(is_live(added));
    assert forall|i: int, j: int|
        0 <= i < all.len() && 0 <= j < all.len() && i != j implies !clash(all[i], all[j]) by {
        if i < rows.len() && j < rows.len() {
            assert(all[i] == rows[i] && all[j] == rows[j]);
        } else if i < rows.len() {
            assert(all[i] == rows[i]);
            assert(!counted_against(rows[i], room_id as int, start, end));
        } else {
            assert(all[j] == rows[j]);
            assert(!counted_against(rows[j], room_id as int, start, end));
        }
    }
}

/// A stored booking as the cancellation reads and writes it.
pub struct StoredStatus {
    pub booking_id: int,
    pub user_id: int,
    pub status: Seq<char>,
}

/// The cancellation turns this row: the caller's booking of that id, still
/// confirmed.
pub open spec fn cancel_hits(row: StoredStatus, booking_id: int, user_id: int) -> bool {
    row.booking_id == booking_id && row.user_id == user_id && row.status == confirmed_status()
}

/// The rows after the cancellation has turned its rows to cancelled.
pub open spec fn after_cancel(rows: Seq<StoredStatus>, booking_id: int, user_id: int) -> Seq<
    StoredStatus,
> {
    rows.map_values(
        |r: StoredStatus|
            if cancel_hits(r, booking_id, user_id) {
                StoredStatus { booking_id: r.booking_id, user_id: r.user_id, status: cancelled_status() }
            } else {
                r
            },
    )
}

/// How many rows the cancellation turns: what it reports as affected.
pub open spec fn cancel_count(rows: Seq<StoredStatus>, booking_id: int, user_id: int) -> int
    decreases rows.len(),
{
    if rows.len() == 0 {
        0
    } else {
        cancel_count(rows.drop_last(), booking_id, user_id) + if cancel_hits(
            rows.last(),
            booking_id,
            user_id,
        ) {
            1int
        } else {
            0
        }
    }
}

/// No row is one the cancellation turns, so it reports none.
proof fn lemma_no_hits_count_zero(rows: Seq<StoredStatus>, booking_id: int, user_id: int)
    requires
        forall|i: int| 0 <= i < rows.len() ==> !cancel_hits(#[trigger] rows[i], booking_id, user_id),
    ensures
        cancel_count(rows, booking_id, user_id) == 0,
    decreases rows.len(),
{
    if rows.len() > 0 {
        let rest = rows.drop_last();
        assert forall|i: int| 0 <= i < rest.len() implies !cancel_hits(
            #[trigger] rest[i],
            booking_id,
            user_id,
        ) by {
            assert(rest[i] == rows[i]);
        }
        lemma_no_hits_count_zero(rest, booking_id, user_id);
    }
}

/// Cancelling twice is cancelling once: after a cancellation, the same
/// cancellation turns no row (so `cancel_outcome` answers it as not found)
/// and leaves the rows as they were.
pub proof fn lemma_second_cancel_changes_nothing(
    rows: Seq<StoredStatus>,
    booking_id: int,
    user_id: int,
)
    ensures
        cancel_count(after_cancel(rows, booking_id, user_id), booking_id, user_id) == 0,
        after_cancel(after_cancel(rows, booking_id, user_id), booking_id, user_id) == after_cancel(
            rows,
            booking_id,
            user_id,
        ),
{
    reveal_strlit("Confirmed");
    reveal_strlit("Cancelled");
    assert(confirmed_status()[1] != cancelled_status()[1]);
    let once = after_cancel(rows, booking_id, user_id);
    assert forall|i: int| 0 <= i < once.len() implies !cancel_hits(
        #[trigger] once[i],
        booking_id,
        user_id,
    ) by {
        assert(once[i] == (if cancel_hits(rows[i], booking_id, user_id) {
            StoredStatus {
                booking_id: rows[i].booking_id,
                user_id: rows[i].user_id,
                status: cancelled_status(),
            }
        } else {
            rows[i]
        }));
    }
    lemma_no_hits_count_zero(once, booking_id, user_id);
    let twice = after_cancel(once, booking_id, user_id);
    assert(twice =~= once) by {
        assert forall|i: int| 0 <= i < once.len() implies twice[i] == once[i] by {
            assert(!cancel_hits(once[i], booking_id, user_id));
        }
    }
}

} // verus!
