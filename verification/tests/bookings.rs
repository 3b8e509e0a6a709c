use booking_api::bookings::{
    booking_from_row, bookings_from_rows, cancel_outcome, check_duration, insert_failure,
    overlap_outcome, CreateBookingAction, CreateBookingEvent, CreateBookingFlow,
};
use booking_api::calendar::Timestamp;
use booking_api::errors::AppError;
use booking_api::models::{BookingRow, BookingState, CreateBookingRequest, DbError};

fn ts(secs: i64) -> Timestamp {
    Timestamp::from_unix(secs, 0).unwrap()
}

fn request(start: i64, end: i64) -> CreateBookingRequest {
    CreateBookingRequest { room_id: 3, start_time: ts(start), end_time: ts(end) }
}

fn db_error(message: Option<&str>) -> DbError {
    DbError {
        description: "db failure".to_string(),
        database_message: message.map(|m| m.to_string()),
        unique_violation: false,
    }
}

#[test]
fn booking_status_texts() {
    assert_eq!(BookingState::from_status("Confirmed"), BookingState::Confirmed);
    assert_eq!(BookingState::from_status("Cancelled"), BookingState::Cancelled);
    assert_eq!(BookingState::from_status("Pending"), BookingState::Pending);
    assert_eq!(BookingState::from_status("confirmed"), BookingState::Pending);
    assert_eq!(BookingState::from_status(""), BookingState::Pending);
    for s in [BookingState::Pending, BookingState::Confirmed, BookingState::Cancelled] {
        assert_eq!(BookingState::from_status(s.as_status()), s);
    }
}

#[test]
fn booking_rows_become_records() {
    let row = BookingRow {
        booking_id: 11,
        user_id: 2,
        room_id: 3,
        start_time: ts(1000),
        end_time: ts(2000),
        status: "Cancelled".to_string(),
    };
    let rec = booking_from_row(&row);
    assert_eq!(rec.booking_id, 11);
    assert_eq!(rec.user_id, 2);
    assert_eq!(rec.room_id, 3);
    assert_eq!(rec.state, BookingState::Cancelled);
    assert_eq!(rec.start_time.unix_seconds(), 1000);
    let wide = BookingRow { booking_id: (1i64 << 32) + 5, ..row.clone() };
    assert_eq!(booking_from_row(&wide).booking_id, 5);
    let recs = bookings_from_rows(&[row.clone(), BookingRow { status: "Confirmed".into(), ..row }]);
    assert_eq!(recs.len(), 2);
    assert_eq!(recs[1].state, BookingState::Confirmed);
}

#[test]
fn cancel_outcomes() {
    assert!(cancel_outcome(1).is_ok());
    match cancel_outcome(0) {
        Err(AppError::NotFound(m)) => {
            assert_eq!(m, "Booking not found, already cancelled, or unauthorized")
        }
        other => panic!("unexpected {:?}", other),
    }
}

#[test]
fn duration_must_run_forward() {
    assert!(check_duration(&request(10, 20)).is_ok());
    for r in [request(20, 20), request(30, 20)] {
        match check_duration(&r) {
            Err(AppError::BadRequest(m)) => assert_eq!(m, "Invalid duration"),
            other => panic!("unexpected {:?}", other),
        }
    }
    let close = CreateBookingRequest {
        room_id: 1,
        start_time: Timestamp::from_unix(10, 1).unwrap(),
        end_time: Timestamp::from_unix(10, 2).unwrap(),
    };
    assert!(check_duration(&close).is_ok());
}

#[test]
fn overlap_counts() {
    assert!(overlap_outcome(Some(0)).is_ok());
    assert!(overlap_outcome(Some(-1)).is_ok());
    for c in [Some(1), Some(4), None] {
        match overlap_outcome(c) {
            Err(AppError::Conflict(m)) => {
                assert_eq!(m, "\n        booking time overlap with an existing booking")
            }
            other => panic!("unexpected {:?}", other),
        }
    }
}

#[test]
fn insert_failures() {
    match insert_failure(db_error(Some("new row violates: ERR_OVERLAP detected"))) {
        AppError::Conflict(m) => assert_eq!(m, "This room is not free"),
        other => panic!("unexpected {:?}", other),
    }
    match insert_failure(db_error(Some("ERR_OVERLA"))) {
        AppError::DatabaseError(e) => assert_eq!(e.description, "db failure"),
        other => panic!("unexpected {:?}", other),
    }
    assert!(matches!(insert_failure(db_error(None)), AppError::DatabaseError(_)));
}

#[test]
fn create_booking_flow_succeeds() {
    let mut flow = CreateBookingFlow::new(9, request(100, 200));
    assert!(flow.is_awaiting(&CreateBookingEvent::Started));
    assert!(matches!(flow.step(CreateBookingEvent::Started), CreateBookingAction::OpenTransaction));
    match flow.step(CreateBookingEvent::TransactionOpened(Ok(()))) {
        CreateBookingAction::CountOverlaps { room_id, start, end } => {
            assert_eq!(room_id, 3);
            assert_eq!(start.unix_seconds(), 100);
            assert_eq!(end.unix_seconds(), 200);
        }
        other => panic!("unexpected {:?}", other),
    }
    match flow.step(CreateBookingEvent::OverlapsCounted(Ok(Some(0)))) {
        CreateBookingAction::InsertBooking { user_id, room_id, status, .. } => {
            assert_eq!(user_id, 9);
            assert_eq!(room_id, 3);
            assert_eq!(status, "Confirmed");
        }
        other => panic!("unexpected {:?}", other),
    }
    assert!(matches!(flow.step(CreateBookingEvent::Inserted(Ok(77))), CreateBookingAction::Commit));
    match flow.step(CreateBookingEvent::Committed(Ok(()))) {
        CreateBookingAction::Respond(Ok(rec)) => {
            assert_eq!(rec.booking_id, 77);
            assert_eq!(rec.user_id, 9);
            assert_eq!(rec.room_id, 3);
            assert_eq!(rec.state, BookingState::Confirmed);
        }
        other => panic!("unexpected {:?}", other),
    }
    assert!(!flow.is_awaiting(&CreateBookingEvent::Started));
}

#[test]
fn create_booking_flow_rejects_backwards_times() {
    let mut flow = CreateBookingFlow::new(9, request(200, 100));
    match flow.step(CreateBookingEvent::Started) {
        CreateBookingAction::Respond(Err(AppError::BadRequest(m))) => assert_eq!(m, "Invalid duration"),
        other => panic!("unexpected {:?}", other),
    }
}

#[test]
fn create_booking_flow_stops_on_overlap() {
    let mut flow = CreateBookingFlow::new(9, request(100, 200));
    flow.step(CreateBookingEvent::Started);
    flow.step(CreateBookingEvent::TransactionOpened(Ok(())));
    match flow.step(CreateBookingEvent::OverlapsCounted(Ok(Some(1)))) {
        CreateBookingAction::Respond(Err(AppError::Conflict(_))) => {}
        other => panic!("unexpected {:?}", other),
    }
}

#[test]
fn create_booking_flow_database_failures() {
    let mut flow = CreateBookingFlow::new(9, request(100, 200));
    flow.step(CreateBookingEvent::Started);
    match flow.step(CreateBookingEvent::TransactionOpened(Err(db_error(None)))) {
        CreateBookingAction::Respond(Err(AppError::DatabaseError(_))) => {}
        other => panic!("unexpected {:?}", other),
    }
    let mut flow = CreateBookingFlow::new(9, request(100, 200));
    flow.step(CreateBookingEvent::Started);
    flow.step(CreateBookingEvent::TransactionOpened(Ok(())));
    flow.step(CreateBookingEvent::OverlapsCounted(Ok(Some(0))));
    match flow.step(CreateBookingEvent::Inserted(Err(db_error(Some("ERR_OVERLAP"))))) {
        CreateBookingAction::Respond(Err(AppError::Conflict(m))) => assert_eq!(m, "This room is not free"),
        other => panic!("unexpected {:?}", other),
    }
}
