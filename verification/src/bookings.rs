//! Decisions taken while creating, cancelling and listing bookings.

use crate::calendar::Timestamp;
use crate::errors::{result_view, AppError, AppErrorView};
use crate::models::{BookingRecord, BookingRow, BookingState, CreateBookingRequest, DbError, DB_ERR_OVERLAP};
use crate::text::{contains_text, occurs_in, same_text};
use vstd::prelude::*;

verus! {

/// How many live bookings may overlap a new one: none.
pub const MAX_CAPACITY: i64 = 1;

/// The overlap count assumed when the count query returns no value.
pub const MISSING_COUNT: i64 = 5;

pub open spec fn confirmed_status() -> Seq<char> {
    "Confirmed"@
}

pub open spec fn cancelled_status() -> Seq<char> {
    "Cancelled"@
}

pub open spec fn pending_status() -> Seq<char> {
    "Pending"@
}

/// The state that a stored status reads as: anything but the two known
/// statuses reads as pending.
pub open spec fn state_of_status(status: Seq<char>) -> BookingState {
    if status == confirmed_status() {
        BookingState::Confirmed
    } else if status == cancelled_status() {
        BookingState::Cancelled
    } else {
        BookingState::Pending
    }
}

/// The status text stored for each state.
pub open spec fn status_of_state(state: BookingState) -> Seq<char> {
    match state {
        BookingState::Pending => pending_status(),
        BookingState::Confirmed => confirmed_status(),
        BookingState::Cancelled => cancelled_status(),
    }
}

/// The three stored status texts differ from one another.
pub proof fn lemma_status_texts_differ()
    ensures
        confirmed_status() != cancelled_status(),
        pending_status() != confirmed_status(),
        pending_status() != cancelled_status(),
{
    reveal_strlit("Confirmed");
    reveal_strlit("Cancelled");
    reveal_strlit("Pending");
    assert(pending_status()[0] != confirmed_status()[0]);
    assert(pending_status()[0] != cancelled_status()[0]);
    assert(cancelled_status()[1] != confirmed_status()[1]);
}

impl BookingState {
    /// The state that a stored status text reads as.
    pub fn from_status(status: &str) -> (res: BookingState)
        ensures
            res == state_of_status(status@),
            status@ == confirmed_status() ==> res == BookingState::Confirmed,
            status@ == cancelled_status() ==> res == BookingState::Cancelled,
            status@ != confirmed_status() && status@ != cancelled_status() ==> res
                == BookingState::Pending,
    {
        proof {
            lemma_status_texts_differ();
        }
        if same_text(status, "Confirmed") {
            BookingState::Confirmed
        } else if same_text(status, "Cancelled") {
            BookingState::Cancelled
        } else {
            BookingState::Pending
        }
    }

    /// The status text that the state is stored as.
    pub fn as_status(&self) -> (res: &'static str)
        ensures
            res@ == status_of_state(*self),
            *self == BookingState::Confirmed ==> res@ == "Confirmed"@,
            *self == BookingState::Cancelled ==> res@ == "Cancelled"@,
            *self == BookingState::Pending ==> res@ == "Pending"@,
    {
        match self {
            BookingState::Pending => "Pending",
            BookingState::Confirmed => "Confirmed",
            BookingState::Cancelled => "Cancelled",
        }
    }
}

/// Storing a state and reading its status back gives the same state.
pub proof fn lemma_status_round_trip(state: BookingState)
    ensures
        state_of_status(status_of_state(state)) == state,
{
    reveal_strlit("Confirmed");
    reveal_strlit("Cancelled");
    reveal_strlit("Pending");
    assert(pending_status()[0] != confirmed_status()[0]);
    assert(pending_status()[0] != cancelled_status()[0]);
    assert(cancelled_status()[1] != confirmed_status()[1]);
}

/// The booking that a stored row stands for.
pub open spec fn record_of_row(row: BookingRow) -> BookingRecord {
    BookingRecord {
        booking_id: row.booking_id as i32,
        user_id: row.user_id as i32,
        room_id: row.room_id as i32,
        start_time: row.start_time,
        end_time: row.end_time,
        state: state_of_status(row.status@),
    }
}

/// The booking that a stored row stands for; ids are narrowed to `i32`.
pub fn booking_from_row(row: &BookingRow) -> (res: BookingRecord)
    ensures
        res == record_of_row(*row),
        res.booking_id == row.booking_id as i32,
        res.user_id == row.user_id as i32,
        res.room_id == row.room_id as i32,
        res.start_time == row.start_time,
        res.end_time == row.end_time,
        row.status@ == confirmed_status() ==> res.state == BookingState::Confirmed,
        row.status@ == cancelled_status() ==> res.state == BookingState::Cancelled,
        row.status@ != confirmed_status() && row.status@ != cancelled_status() ==> res.state
            == BookingState::Pending,
{
    BookingRecord {
        booking_id: row.booking_id as i32,
        user_id: row.user_id as i32,
        room_id: row.room_id as i32,
        start_time: row.start_time,
        end_time: row.end_time,
        state: BookingState::from_status(row.status.as_str()),
    }
}

/// The bookings that the stored rows stand for, in the rows' order.
pub fn bookings_from_rows(rows: &[BookingRow]) -> (res: Vec<BookingRecord>)
    ensures
        res@.len() == rows@.len(),
        forall|i: int| 0 <= i < rows@.len() ==> #[trigger] res@[i] == record_of_row(rows@[i]),
        forall|i: int|
            0 <= i < rows@.len() ==> (#[trigger] res@[i]).start_time == rows@[i].start_time
                && res@[i].end_time == rows@[i].end_time && res@[i].booking_id
                == rows@[i].booking_id as i32 && res@[i].user_id == rows@[i].user_id as i32
                && res@[i].room_id == rows@[i].room_id as i32,
{
    let mut out: Vec<BookingRecord> = Vec::new();
    let n = rows.len();
    for i in 0..n
        invariant
            n == rows@.len(),
            out@.len() == i,
            forall|j: int| 0 <= j < i ==> #[trigger] out@[j] == record_of_row(rows@[j]),
    {
        out.push(booking_from_row(&rows[i]));
    }
    out
}

pub open spec fn cancel_refused_message() -> Seq<char> {
    "Booking not found, already cancelled, or unauthorized"@
}

/// The outcome of a cancellation, given how many confirmed bookings of the
/// caller with that id the update turned to cancelled: none means there
/// was no such booking to cancel.
pub fn cancel_outcome(rows_affected: u64) -> (res: Result<(), AppError>)
    ensures
        rows_affected == 0 ==> (res matches Err(e) && e@ == AppErrorView::NotFound(
            cancel_refused_message(),
        )),
        rows_affected != 0 ==> res is Ok,
{
    if rows_affected == 0 {
        return Err(
            AppError::NotFound("Booking not found, already cancelled, or unauthorized".to_owned()),
        );
    }
    Ok(())
}

pub open spec fn invalid_duration_message() -> Seq<char> {
    "Invalid duration"@
}

/// The verdict on a booking request's times: it must end after it starts.
pub open spec fn duration_verdict(req: CreateBookingRequest) -> Result<(), AppErrorView> {
    if req.start_time.earlier_than(req.end_time) {
        Ok(())
    } else {
        Err(AppErrorView::BadRequest(invalid_duration_message()))
    }
}

/// A booking request must end after it starts.
pub fn check_duration(req: &CreateBookingRequest) -> (res: Result<(), AppError>)
    ensures
        result_view(res) == duration_verdict(*req),
        res is Ok <==> req.start_time.earlier_than(req.end_time),
        req.start_time.seconds() < req.end_time.seconds() ==> res is Ok,
        req.end_time.seconds() < req.start_time.seconds() ==> res is Err,
{
    if !req.start_time.is_before(&req.end_time) {
        return Err(AppError::BadRequest("Invalid duration".to_owned()));
    }
    Ok(())
}

pub open spec fn overlap_message() -> Seq<char> {
    "
        booking time overlap with an existing booking"@
}

/// The number of overlapping live bookings that the count query reports
/// is taken as is; a missing count is taken as several.
pub open spec fn effective_count(count: Option<i64>) -> int {
    match count {
        Some(c) => c as int,
        None => MISSING_COUNT as int,
    }
}

/// The verdict of the overlap check.
pub open spec fn overlap_verdict(count: Option<i64>) -> Result<(), AppErrorView> {
    if effective_count(count) < MAX_CAPACITY {
        Ok(())
    } else {
        Err(AppErrorView::Conflict(overlap_message()))
    }
}

/// The outcome of the overlap check: the booking may go ahead only when
/// no live booking of the room overlaps it.
pub fn overlap_outcome(count: Option<i64>) -> (res: Result<(), AppError>)
    ensures
        result_view(res) == overlap_verdict(count),
        res is Ok <==> effective_count(count) < MAX_CAPACITY,
        count is None ==> res is Err,
        count matches Some(c) ==> (res is Ok <==> c < 1),
{
    let count = match count {
        Some(c) => c,
        None => MISSING_COUNT,
    };
    if count >= MAX_CAPACITY {
        return Err(
            AppError::Conflict(
                "
        booking time overlap with an existing booking".to_owned(),
            ),
        );
    }
    Ok(())
}

pub open spec fn room_not_free_message() -> Seq<char> {
    "This room is not free"@
}

/// The database refused an insert with its overlap guard.
pub open spec fn is_overlap_refusal(e: DbError) -> bool {
    e.database_message matches Some(m) && occurs_in(DB_ERR_OVERLAP@, m@)
}

/// The view of the error that a failed booking insert ends in.
pub open spec fn insert_failure_view(e: DbError) -> AppErrorView {
    if is_overlap_refusal(e) {
        AppErrorView::Conflict(room_not_free_message())
    } else {
        AppErrorView::DatabaseError(e@)
    }
}

/// The error that a failed booking insert ends in: a refusal by the
/// database's overlap guard is a conflict; any other failure stays a
/// database error.
pub fn insert_failure(e: DbError) -> (res: AppError)
    ensures
        res@ == insert_failure_view(e),
        !is_overlap_refusal(e) ==> res == AppError::DatabaseError(e),
        e.database_message is None ==> res == AppError::DatabaseError(e),
        e.database_message matches Some(m) ==> (occurs_in("ERR_OVERLAP"@, m@) ==> res@
            == AppErrorView::Conflict("This room is not free"@)),
{
    let refused = match &e.database_message {
        Some(m) => contains_text(m.as_str(), DB_ERR_OVERLAP),
        None => false,
    };
    if refused {
        return AppError::Conflict("This room is not free".to_owned());
    }
    AppError::from(e)
}

/// The booking that a successful insert created: confirmed, for the
/// caller, over the requested room and times.
pub fn confirmed_booking(booking_id: i32, user_id: i32, req: &CreateBookingRequest) -> (res:
    BookingRecord)
    ensures
        res.booking_id == booking_id,
        res.user_id == user_id,
        res.room_id == req.room_id,
        res.start_time == req.start_time,
        res.end_time == req.end_time,
        res.state == BookingState::Confirmed,
{
    BookingRecord {
        booking_id,
        user_id,
        room_id: req.room_id,
        start_time: req.start_time,
        end_time: req.end_time,
        state: BookingState::Confirmed,
    }
}

/// Where a booking creation stands between database calls.
#[derive(Clone, Copy, Debug)]
pub enum CreateBookingStage {
    Start,
    AwaitTransaction,
    AwaitOverlapCount,
    AwaitInsert,
    AwaitCommit { booking_id: i32 },
    Finished,
}

/// What the database answered to the last action of a booking creation.
#[derive(Debug)]
pub enum CreateBookingEvent {
    /// The request arrived.
    Started,
    TransactionOpened(Result<(), DbError>),
    /// The number of live bookings of the room that overlap the request.
    OverlapsCounted(Result<Option<i64>, DbError>),
    /// The id of the inserted booking.
    Inserted(Result<i32, DbError>),
    Committed(Result<(), DbError>),
}

/// What a booking creation asks for next.
#[derive(Debug)]
pub enum CreateBookingAction {
    OpenTransaction,
    /// Count the bookings of `room_id`, not cancelled, that start before
    /// `end` and end after `start`.
    CountOverlaps { room_id: i32, start: Timestamp, end: Timestamp },
    /// Insert a booking with the given status and return its id.
    InsertBooking { user_id: i32, room_id: i32, start: Timestamp, end: Timestamp, status: &'static str },
    Commit,
    Respond(Result<BookingRecord, AppError>),
}

/// The creation of one booking by one user, driven one database answer
/// at a time.
#[derive(Clone, Copy, Debug)]
pub struct CreateBookingFlow {
    user_id: i32,
    request: CreateBookingRequest,
    stage: CreateBookingStage,
}

impl CreateBookingFlow {

    /// The user the booking is for.
    pub closed spec fn user_id(self) -> i32 {
        self.user_id
    }

    /// The request being booked.
    pub closed spec fn request(self) -> CreateBookingRequest {
        self.request
    }

    /// Where the flow stands.
    pub closed spec fn stage(self) -> CreateBookingStage {
        self.stage
    }
    /// Past its first step and before its answer, the flow holds a request
    /// whose times run forward.
    pub open spec fn wf(self) -> bool {
        match self.stage() {
            CreateBookingStage::Start => true,
            CreateBookingStage::Finished => true,
            _ => self.request().start_time.earlier_than(self.request().end_time),
        }
    }

    /// The event that answers the flow's last action.
    pub open spec fn awaits(self, event: CreateBookingEvent) -> bool {
        match self.stage() {
            CreateBookingStage::Start => event is Started,
            CreateBookingStage::AwaitTransaction => event is TransactionOpened,
            CreateBookingStage::AwaitOverlapCount => event is OverlapsCounted,
            CreateBookingStage::AwaitInsert => event is Inserted,
            CreateBookingStage::AwaitCommit { .. } => event is Committed,
            CreateBookingStage::Finished => false,
        }
    }

    /// A flow for `user_id` booking as `request` asks.
    pub fn new(user_id: i32, request: CreateBookingRequest) -> (res: CreateBookingFlow)
        ensures
            res.user_id() == user_id,
            res.request() == request,
            res.stage() is Start,
            res.wf(),
    {
        CreateBookingFlow { user_id, request, stage: CreateBookingStage::Start }
    }

    /// Whether `event` answers the flow's last action.
    pub fn is_awaiting(&self, event: &CreateBookingEvent) -> (res: bool)
        ensures
            res == self.awaits(*event),
    {
        match (&self.stage, event) {
            (CreateBookingStage::Start, CreateBookingEvent::Started) => true,
            (CreateBookingStage::AwaitTransaction, CreateBookingEvent::TransactionOpened(_)) => true,
            (CreateBookingStage::AwaitOverlapCount, CreateBookingEvent::OverlapsCounted(_)) => true,
            (CreateBookingStage::AwaitInsert, CreateBookingEvent::Inserted(_)) => true,
            (CreateBookingStage::AwaitCommit { .. }, CreateBookingEvent::Committed(_)) => true,
            _ => false,
        }
    }

    /// Takes the answer to the last action and says what to do next. The
    /// request's times are checked first; a transaction is then opened, the
    /// overlapping live bookings of the room counted, and the booking
    /// inserted only when there are none; the answer comes once the
    /// transaction is committed. Any database failure ends the flow with a
    /// database error, except a refused insert, which `insert_failure`
    /// classifies.
    pub fn step(&mut self, event: CreateBookingEvent) -> (action: CreateBookingAction)
        requires
            old(self).wf(),
            old(self).awaits(event),
        ensures
            final(self).wf(),
            final(self).user_id() == old(self).user_id(),
            final(self).request() == old(self).request(),
            (action is Respond) <==> (final(self).stage() is Finished),
            old(self).stage() is Start && old(self).request().start_time.seconds() < old(
                self,
            ).request().end_time.seconds() ==> action is OpenTransaction,
            old(self).stage() is Start ==> match duration_verdict(old(self).request()) {
                Ok(()) => action is OpenTransaction && final(self).stage() is AwaitTransaction,
                Err(v) => action matches CreateBookingAction::Respond(Err(e)) && e@ == v,
            },
            old(self).stage() is AwaitTransaction ==> match event {
                CreateBookingEvent::TransactionOpened(Ok(())) => action
                    == (CreateBookingAction::CountOverlaps {
                    room_id: old(self).request().room_id,
                    start: old(self).request().start_time,
                    end: old(self).request().end_time,
                }) && final(self).stage() is AwaitOverlapCount,
                CreateBookingEvent::TransactionOpened(Err(e)) => action
                    == CreateBookingAction::Respond(Err(AppError::DatabaseError(e))),
                _ => false,
            },
            old(self).stage() is AwaitOverlapCount ==> match event {
                CreateBookingEvent::OverlapsCounted(Ok(count)) => match overlap_verdict(count) {
                    Ok(()) => action == (CreateBookingAction::InsertBooking {
                        user_id: old(self).user_id(),
                        room_id: old(self).request().room_id,
                        start: old(self).request().start_time,
                        end: old(self).request().end_time,
                        status: action->status,
                    }) && action->status@ == confirmed_status() && final(self).stage() is AwaitInsert,
                    Err(v) => action matches CreateBookingAction::Respond(Err(e)) && e@ == v,
                },
                CreateBookingEvent::OverlapsCounted(Err(e)) => action
                    == CreateBookingAction::Respond(Err(AppError::DatabaseError(e))),
                _ => false,
            },
            old(self).stage() is AwaitInsert ==> match event {
                CreateBookingEvent::Inserted(Ok(id)) => action is Commit && final(self).stage()
                    == (CreateBookingStage::AwaitCommit { booking_id: id }),
                CreateBookingEvent::Inserted(Err(e)) => action matches CreateBookingAction::Respond(
                    Err(err),
                ) && err@ == insert_failure_view(e),
                _ => false,
            },
            old(self).stage() matches CreateBookingStage::AwaitCommit { booking_id } ==> match event {
                CreateBookingEvent::Committed(Ok(())) => action matches CreateBookingAction::Respond(
                    Ok(rec),
                ) && rec.booking_id == booking_id && rec.user_id == old(self).user_id()
                    && rec.room_id == old(self).request().room_id && rec.start_time == old(self).request().start_time && rec.end_time == old(self).request().end_time && rec.state
                    == BookingState::Confirmed,
                CreateBookingEvent::Committed(Err(e)) => action == CreateBookingAction::Respond(
                    Err(AppError::DatabaseError(e)),
                ),
                _ => false,
            },
            // A booking is inserted only for a request whose times run
            // forward, once the count found no overlapping live booking.
            action is InsertBooking ==> old(self).request().start_time.earlier_than(
                old(self).request().end_time,
            ) && (event matches CreateBookingEvent::OverlapsCounted(Ok(count))
                && effective_count(count) < MAX_CAPACITY),
    {
        let stage = self.stage;
        match stage {
            CreateBookingStage::Start => {
                match check_duration(&self.request) {
                    Ok(()) => {
                        self.stage = CreateBookingStage::AwaitTransaction;
                        CreateBookingAction::OpenTransaction
                    },
                    Err(e) => {
                        self.stage = CreateBookingStage::Finished;
                        CreateBookingAction::Respond(Err(e))
                    },
                }
            },
            CreateBookingStage::AwaitTransaction => {
                match event {
                    CreateBookingEvent::TransactionOpened(Ok(())) => {
                        self.stage = CreateBookingStage::AwaitOverlapCount;
                        CreateBookingAction::CountOverlaps {
                            room_id: self.request.room_id,
                            start: self.request.start_time,
                            end: self.request.end_time,
                        }
                    },
                    CreateBookingEvent::TransactionOpened(Err(e)) => {
                        self.stage = CreateBookingStage::Finished;
                        CreateBookingAction::Respond(Err(AppError::from(e)))
                    },
                    _ => {
                        proof {
                            assert(false);
                        }
                        CreateBookingAction::Commit
                    },
                }
            },
            CreateBookingStage::AwaitOverlapCount => {
                match event {
                    CreateBookingEvent::OverlapsCounted(Ok(count)) => {
                        match overlap_outcome(count) {
                            Ok(()) => {
                                self.stage = CreateBookingStage::AwaitInsert;
                                CreateBookingAction::InsertBooking {
                                    user_id: self.user_id,
                                    room_id: self.request.room_id,
                                    start: self.request.start_time,
                                    end: self.request.end_time,
                                    status: BookingState::Confirmed.as_status(),
                                }
                            },
                            Err(e) => {
                                self.stage = CreateBookingStage::Finished;
                                CreateBookingAction::Respond(Err(e))
                            },
                        }
                    },
                    CreateBookingEvent::OverlapsCounted(Err(e)) => {
                        self.stage = CreateBookingStage::Finished;
                        CreateBookingAction::Respond(Err(AppError::from(e)))
                    },
                    _ => {
                        proof {
                            assert(false);
                        }
                        CreateBookingAction::Commit
                    },
                }
            },
            CreateBookingStage::AwaitInsert => {
                match event {
                    CreateBookingEvent::Inserted(Ok(id)) => {
                        self.stage = CreateBookingStage::AwaitCommit { booking_id: id };
                        CreateBookingAction::Commit
                    },
                    CreateBookingEvent::Inserted(Err(e)) => {
                        self.stage = CreateBookingStage::Finished;
                        CreateBookingAction::Respond(Err(insert_failure(e)))
                    },
                    _ => {
                        proof {
                            assert(false);
                        }
                        CreateBookingAction::Commit
                    },
                }
            },
            CreateBookingStage::AwaitCommit { booking_id } => {
                match event {
                    CreateBookingEvent::Committed(Ok(())) => {
                        self.stage = CreateBookingStage::Finished;
                        CreateBookingAction::Respond(
                            Ok(confirmed_booking(booking_id, self.user_id, &self.request)),
                        )
                    },
                    CreateBookingEvent::Committed(Err(e)) => {
                        self.stage = CreateBookingStage::Finished;
                        CreateBookingAction::Respond(Err(AppError::from(e)))
                    },
                    _ => {
                        proof {
                            assert(false);
                        }
                        CreateBookingAction::Commit
                    },
                }
            },
            CreateBookingStage::Finished => {
                proof {
                    assert(false);
                }
                CreateBookingAction::Commit
            },
        }
    }
}

} // verus!
