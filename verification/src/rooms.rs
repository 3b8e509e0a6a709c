//! Decisions taken while answering which rooms are free over a range of
//! dates.

use crate::availability::{range_is_free, rooms_available, stay_blocks, Stay};
use crate::calendar::{utc_day_of, CalendarDate, Timestamp};
use crate::errors::{result_view, AppError, AppErrorView};
use crate::models::{DbError, GetRoom, RoomAvailability};
use vstd::prelude::*;

verus! {

/// A booking's stored start and end instants.
pub type BookedTimes = (Timestamp, Timestamp);

pub open spec fn past_start_message() -> Seq<char> {
    "date_from must be today"@
}

pub open spec fn empty_range_message() -> Seq<char> {
    "date_to must be after date_from"@
}

pub open spec fn available_status() -> Seq<char> {
    "available"@
}

pub open spec fn occupied_status() -> Seq<char> {
    "occupied"@
}

/// The verdict on a room query made on `today`.
pub open spec fn check_room_verdict(query: GetRoom, today: CalendarDate) -> Result<(), AppErrorView> {
    if query.date_from.day_number() < today.day_number() {
        Err(AppErrorView::BadRequest(past_start_message()))
    } else if query.date_to.day_number() <= query.date_from.day_number() {
        Err(AppErrorView::BadRequest(empty_range_message()))
    } else {
        Ok(())
    }
}

/// A room query must not start before `today` and must end after it
/// starts; the start is checked first.
pub fn check_room_query(query: &GetRoom, today: CalendarDate) -> (res: Result<(), AppError>)
    ensures
        result_view(res) == check_room_verdict(*query, today),
        query.date_from.day_number() < today.day_number() ==> (res matches Err(e) && e@
            == AppErrorView::BadRequest(past_start_message())),
        today.day_number() <= query.date_from.day_number() && query.date_to.day_number()
            <= query.date_from.day_number() ==> (res matches Err(e) && e@ == AppErrorView::BadRequest(
            empty_range_message(),
        )),
        res is Ok <==> (today.day_number() <= query.date_from.day_number()
            && query.date_from.day_number() < query.date_to.day_number()),
{
    if query.date_from.is_before(&today) {
        return Err(AppError::BadRequest("date_from must be today".to_owned()));
    }
    if !query.date_from.is_before(&query.date_to) {
        return Err(AppError::BadRequest("date_to must be after date_from".to_owned()));
    }
    Ok(())
}

/// The stay that a booking's instants cover: from the UTC date of its
/// start to the UTC date of its end.
pub open spec fn stay_covers(stay: Stay, times: BookedTimes) -> bool {
    &&& stay.0.day_number() == utc_day_of(times.0.seconds())
    &&& stay.1.day_number() == utc_day_of(times.1.seconds())
}

/// The stays that bookings cover, in order.
pub fn stays_of(bookings: &[BookedTimes]) -> (res: Vec<Stay>)
    ensures
        res@.len() == bookings@.len(),
        forall|i: int| 0 <= i < bookings@.len() ==> stay_covers(#[trigger] res@[i], bookings@[i]),
{
    let mut out: Vec<Stay> = Vec::new();
    let n = bookings.len();
    for i in 0..n
        invariant
            n == bookings@.len(),
            out@.len() == i,
            forall|j: int| 0 <= j < i ==> stay_covers(#[trigger] out@[j], bookings@[j]),
    {
        let (start, end) = bookings[i];
        out.push((start.date_naive(), end.date_naive()));
    }
    out
}

/// No booking's dates overlap the range from `from` to `to`.
pub open spec fn free_of_bookings(
    bookings: Seq<BookedTimes>,
    from: CalendarDate,
    to: CalendarDate,
) -> bool {
    forall|i: int|
        0 <= i < bookings.len() ==> !(utc_day_of(#[trigger] bookings[i].0.seconds())
            < to.day_number() && utc_day_of(bookings[i].1.seconds()) > from.day_number())
}

/// The status a room with `bookings` has for `query`.
pub open spec fn status_for(bookings: Seq<BookedTimes>, query: GetRoom) -> Seq<char> {
    if free_of_bookings(bookings, query.date_from, query.date_to) {
        available_status()
    } else {
        occupied_status()
    }
}

/// The two status texts differ.
proof fn lemma_room_status_texts_differ()
    ensures
        available_status() != occupied_status(),
{
    reveal_strlit("available");
    reveal_strlit("occupied");
    assert(available_status()[0] != occupied_status()[0]);
}

/// A room's bookings leave it free exactly when the stays they cover leave
/// the range free.
pub proof fn lemma_free_of_bookings_is_range_free(
    bookings: Seq<BookedTimes>,
    stays: Seq<Stay>,
    from: CalendarDate,
    to: CalendarDate,
)
    requires
        stays.len() == bookings.len(),
        forall|i: int| 0 <= i < bookings.len() ==> stay_covers(#[trigger] stays[i], bookings[i]),
    ensures
        free_of_bookings(bookings, from, to) == range_is_free(stays, from, to),
{
    if free_of_bookings(bookings, from, to) {
        assert forall|i: int| 0 <= i < stays.len() implies !stay_blocks(#[trigger] stays[i], from, to) by {
            assert(stay_covers(stays[i], bookings[i]));
        }
    }
    if range_is_free(stays, from, to) {
        assert forall|i: int| 0 <= i < bookings.len() implies !(utc_day_of(
            #[trigger] bookings[i].0.seconds(),
        ) < to.day_number() && utc_day_of(bookings[i].1.seconds()) > from.day_number()) by {
            assert(stay_covers(stays[i], bookings[i]));
            assert(!stay_blocks(stays[i], from, to));
        }
    }
}

/// The status of a room for the queried range, given its bookings:
/// `"available"` when none of their dates overlap the range, otherwise
/// `"occupied"`.
pub fn room_status(room_id: i64, bookings: &[BookedTimes], query: &GetRoom) -> (res:
    RoomAvailability)
    ensures
        res.room_id == room_id,
        res.status@ == status_for(bookings@, *query),
        res.status@ == "available"@ || res.status@ == "occupied"@,
        // A booking blocks the room exactly when its UTC check-in date is
        // before the range's end and its UTC check-out date after the
        // range's start.
        res.status@ == "available"@ <==> forall|i: int|
            0 <= i < bookings@.len() ==> (utc_day_of(#[trigger] bookings@[i].0.seconds())
                >= query.date_to.day_number() || utc_day_of(bookings@[i].1.seconds())
                <= query.date_from.day_number()),
{
    let stays = stays_of(bookings);
    let free = rooms_available(stays.as_slice(), query.date_from, query.date_to);
    assert(free == free_of_bookings(bookings@, query.date_from, query.date_to)) by {
        if free {
            assert forall|i: int| 0 <= i < bookings@.len() implies !(utc_day_of(
                #[trigger] bookings@[i].0.seconds(),
            ) < query.date_to.day_number() && utc_day_of(bookings@[i].1.seconds())
                > query.date_from.day_number()) by {
                assert(stay_covers(stays@[i], bookings@[i]));
                assert(!stay_blocks(stays@[i], query.date_from, query.date_to));
            }
        } else {
            let i = choose|i: int|
                0 <= i < stays@.len() && stay_blocks(#[trigger] stays@[i], query.date_from, query.date_to);
            assert(stay_covers(stays@[i], bookings@[i]));
        }
    }
    proof {
        lemma_room_status_texts_differ();
    }
    let status = if free {
        "available".to_owned()
    } else {
        "occupied".to_owned()
    };
    RoomAvailability { room_id, status }
}

/// A failed room or booking query is answered as an internal error that
/// carries the failure's description.
pub fn room_query_failure(e: DbError) -> (res: AppError)
    ensures
        res@ == AppErrorView::InternalServerError(e.description@),
{
    AppError::InternalServerError(e.description)
}

/// Where a room query stands between database calls.
#[derive(Clone, Copy, Debug)]
pub enum RoomQueryStage {
    Start,
    AwaitRooms,
    AwaitBookings,
    Finished,
}

/// What came back from the last action of a room query.
#[derive(Debug)]
pub enum RoomQueryEvent {
    /// The request arrived on the local date `today`.
    Started { today: CalendarDate },
    /// The ids of all rooms.
    RoomsListed(Result<Vec<i64>, DbError>),
    /// The bookings of the room last asked for.
    BookingsListed(Result<Vec<BookedTimes>, DbError>),
}

/// What a room query asks for next.
#[derive(Debug)]
pub enum RoomQueryAction {
    ListRooms,
    ListBookings { room_id: i64 },
    Respond(Result<Vec<RoomAvailability>, AppError>),
}

/// One query for the rooms free over a range of dates, driven one database
/// answer at a time: the rooms are listed, then the bookings of each room
/// in turn.
pub struct RoomQueryFlow {
    query: GetRoom,
    stage: RoomQueryStage,
    rooms: Vec<i64>,
    report: Vec<RoomAvailability>,
    /// The bookings listed so far, room by room.
    seen: Ghost<Seq<Seq<BookedTimes>>>,
}

impl RoomQueryFlow {

    /// The query being answered.
    pub closed spec fn query(self) -> GetRoom {
        self.query
    }

    /// Where the flow stands.
    pub closed spec fn stage(self) -> RoomQueryStage {
        self.stage
    }

    /// The rooms listed.
    pub closed spec fn rooms(self) -> Seq<i64> {
        self.rooms@
    }

    /// The report built so far.
    pub closed spec fn report(self) -> Seq<RoomAvailability> {
        self.report@
    }

    /// The bookings listed so far, room by room.
    pub closed spec fn seen(self) -> Seq<Seq<BookedTimes>> {
        self.seen@
    }
    /// The flow's report never outgrows the rooms, and until the answer it
    /// matches the bookings listed so far.
    pub open spec fn wf(self) -> bool {
        &&& self.report().len() <= self.rooms().len()
        &&& self.stage() is AwaitBookings ==> self.report().len() < self.rooms().len()
        &&& !(self.stage() is Finished) ==> self.report_matches()
    }

    /// The report holds one entry for each room whose bookings were
    /// listed, in the rooms' order, with the status those bookings give.
    pub open spec fn report_matches(self) -> bool {
        &&& self.report().len() == self.seen().len()
        &&& forall|j: int|
            0 <= j < self.report().len() ==> (#[trigger] self.report()[j]).room_id == self.rooms()[j]
                && self.report()[j].status@ == status_for(self.seen()[j], self.query())
    }

    /// The event that answers the flow's last action.
    pub open spec fn awaits(self, event: RoomQueryEvent) -> bool {
        match self.stage() {
            RoomQueryStage::Start => event is Started,
            RoomQueryStage::AwaitRooms => event is RoomsListed,
            RoomQueryStage::AwaitBookings => event is BookingsListed,
            RoomQueryStage::Finished => false,
        }
    }

    /// Whether `event` answers the flow's last action.
    pub fn is_awaiting(&self, event: &RoomQueryEvent) -> (res: bool)
        ensures
            res == self.awaits(*event),
    {
        match (&self.stage, event) {
            (RoomQueryStage::Start, RoomQueryEvent::Started { .. }) => true,
            (RoomQueryStage::AwaitRooms, RoomQueryEvent::RoomsListed(_)) => true,
            (RoomQueryStage::AwaitBookings, RoomQueryEvent::BookingsListed(_)) => true,
            _ => false,
        }
    }

    /// A query as `query` asks.
    pub fn new(query: GetRoom) -> (res: RoomQueryFlow)
        ensures
            res.query() == query,
            res.stage() is Start,
            res.rooms().len() == 0,
            res.seen().len() == 0,
            res.wf(),
    {
        RoomQueryFlow {
            query,
            stage: RoomQueryStage::Start,
            rooms: Vec::new(),
            report: Vec::new(),
            seen: Ghost(Seq::empty()),
        }
    }

    /// Hands over the report once every room has an entry, or the next
    /// room to ask about.
    fn next_action(&mut self) -> (action: RoomQueryAction)
        requires
            old(self).report_matches(),
            old(self).report().len() <= old(self).rooms().len(),
        ensures
            final(self).wf(),
            final(self).query() == old(self).query(),
            final(self).rooms() == old(self).rooms(),
            final(self).seen() == old(self).seen(),
            old(self).report().len() == old(self).rooms().len() ==> (action matches RoomQueryAction::Respond(
                Ok(list),
            ) && list@ == old(self).report() && final(self).stage() is Finished
                && final(self).report().len() == 0),
            old(self).report().len() < old(self).rooms().len() ==> (action == RoomQueryAction::ListBookings {
                room_id: old(self).rooms()[old(self).report().len() as int],
            } && final(self).stage() is AwaitBookings && final(self).report() == old(self).report()),
    {
        if self.report.len() == self.rooms.len() {
            let mut list: Vec<RoomAvailability> = Vec::new();
            std::mem::swap(&mut list, &mut self.report);
            self.stage = RoomQueryStage::Finished;
            RoomQueryAction::Respond(Ok(list))
        } else {
            self.stage = RoomQueryStage::AwaitBookings;
            RoomQueryAction::ListBookings { room_id: self.rooms[self.report.len()] }
        }
    }

    /// Takes the answer to the last action and says what to do next. The
    /// query must not start before today and must end after it starts;
    /// then every room's bookings are listed in turn and the room reported
    /// `"available"` when none of their dates overlaps the range. A failed
    /// listing ends the query with an internal error that carries its
    /// description.
    pub fn step(&mut self, event: RoomQueryEvent) -> (action: RoomQueryAction)
        requires
            old(self).wf(),
            old(self).awaits(event),
        ensures
            final(self).wf(),
            final(self).query() == old(self).query(),
            (action is Respond) <==> (final(self).stage() is Finished),
            (action is ListRooms) ==> (final(self).stage() is AwaitRooms),
            (action is ListBookings) ==> (final(self).stage() is AwaitBookings),
            old(self).stage() is Start ==> (event matches RoomQueryEvent::Started { today } && match check_room_verdict(
                old(self).query(),
                today,
            ) {
                Ok(()) => action is ListRooms && final(self).stage() is AwaitRooms
                    && final(self).report().len() == 0 && final(self).seen().len() == 0,
                Err(v) => action matches RoomQueryAction::Respond(Err(e)) && e@ == v,
            }),
            old(self).stage() is AwaitRooms ==> match event {
                RoomQueryEvent::RoomsListed(Ok(rooms)) => final(self).rooms() == rooms@
                    && final(self).seen().len() == 0 && (if rooms@.len() == 0 {
                    action matches RoomQueryAction::Respond(Ok(list)) && list@.len() == 0
                } else {
                    action == RoomQueryAction::ListBookings { room_id: rooms@[0] }
                }),
                RoomQueryEvent::RoomsListed(Err(e)) => action matches RoomQueryAction::Respond(
                    Err(err),
                ) && err@ == AppErrorView::InternalServerError(e.description@),
                _ => false,
            },
            old(self).stage() is AwaitBookings ==> match event {
                RoomQueryEvent::BookingsListed(Ok(times)) => final(self).rooms() == old(self).rooms()
                    && final(self).seen() == old(self).seen().push(times@) && (if old(self).seen().len()
                    + 1 == old(self).rooms().len() {
                    action matches RoomQueryAction::Respond(Ok(_))
                } else {
                    action == RoomQueryAction::ListBookings {
                        room_id: old(self).rooms()[old(self).seen().len() + 1int],
                    }
                }),
                RoomQueryEvent::BookingsListed(Err(e)) => action matches RoomQueryAction::Respond(
                    Err(err),
                ) && err@ == AppErrorView::InternalServerError(e.description@),
                _ => false,
            },
            // The answer lists every room once, in the order the rooms came,
            // each with the status that its bookings give.
            action matches RoomQueryAction::Respond(Ok(list)) ==> list@.len() == final(self).rooms().len() && final(self).seen().len() == final(self).rooms().len() && forall|j: int|
                0 <= j < list@.len() ==> (#[trigger] list@[j]).room_id == final(self).rooms()[j]
                    && list@[j].status@ == status_for(final(self).seen()[j], final(self).query()),
    {
        let stage = self.stage;
        match stage {
            RoomQueryStage::Start => {
                match event {
                    RoomQueryEvent::Started { today } => {
                        match check_room_query(&self.query, today) {
                            Ok(()) => {
                                self.stage = RoomQueryStage::AwaitRooms;
                                self.report = Vec::new();
                                self.seen = Ghost(Seq::empty());
                                RoomQueryAction::ListRooms
                            },
                            Err(e) => {
                                self.stage = RoomQueryStage::Finished;
                                RoomQueryAction::Respond(Err(e))
                            },
                        }
                    },
                    _ => {
                        proof {
                            assert(false);
                        }
                        RoomQueryAction::ListRooms
                    },
                }
            },
            RoomQueryStage::AwaitRooms => {
                match event {
                    RoomQueryEvent::RoomsListed(Ok(rooms)) => {
                        self.rooms = rooms;
                        self.report = Vec::new();
                        self.seen = Ghost(Seq::empty());
                        self.next_action()
                    },
                    RoomQueryEvent::RoomsListed(Err(e)) => {
                        self.stage = RoomQueryStage::Finished;
                        RoomQueryAction::Respond(Err(room_query_failure(e)))
                    },
                    _ => {
                        proof {
                            assert(false);
                        }
                        RoomQueryAction::ListRooms
                    },
                }
            },
            RoomQueryStage::AwaitBookings => {
                match event {
                    RoomQueryEvent::BookingsListed(Ok(times)) => {
                        let ghost before = self.report@;
                        let ghost seen_before = self.seen@;
                        let room_id = self.rooms[self.report.len()];
                        let entry = room_status(room_id, times.as_slice(), &self.query);
                        self.report.push(entry);
                        self.seen = Ghost(self.seen@.push(times@));
                        assert forall|j: int| 0 <= j < self.report@.len() implies (
                        #[trigger] self.report@[j]).room_id == self.rooms@[j]
                            && self.report@[j].status@ == status_for(self.seen@[j], self.query) by {
                            if j < before.len() {
                                assert(self.report@[j] == before[j]);
                                assert(self.seen@[j] == seen_before[j]);
                            }
                        }
                        self.next_action()
                    },
                    RoomQueryEvent::BookingsListed(Err(e)) => {
                        self.stage = RoomQueryStage::Finished;
                        RoomQueryAction::Respond(Err(room_query_failure(e)))
                    },
                    _ => {
                        proof {
                            assert(false);
                        }
                        RoomQueryAction::ListRooms
                    },
                }
            },
            RoomQueryStage::Finished => {
                proof {
                    assert(false);
                }
                RoomQueryAction::ListRooms
            },
        }
    }
}

} // verus!
