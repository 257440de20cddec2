use changweibot::backend::{
    accepts, backend_step, operation_for, response_for, BackendAction, BackendEvent, BackendState,
    Operation, Outcome, StateRequest, StateResponse,
};
use changweibot::json_format::{Vehicles, Weapons};

fn step(state: BackendState, event: BackendEvent) -> (BackendState, BackendAction) {
    assert!(accepts(&state, &event));
    backend_step(state, event)
}

#[test]
fn get_weapons_fetches_then_answers_with_the_weapons() {
    let (state, action) = step(
        BackendState::Idle,
        BackendEvent::Received(StateRequest::GetWeapons { ea_id: "glibc2".to_string() }),
    );
    match &action {
        BackendAction::Perform(Operation::FetchWeapons { ea_id }) => assert_eq!(ea_id, "glibc2"),
        _ => panic!("expected a weapons fetch"),
    }
    assert!(matches!(state, BackendState::Busy(Operation::FetchWeapons { .. })));
    let (state, action) = step(
        state,
        BackendEvent::Finished(Outcome::Weapons(Ok(Weapons { weapons: vec![] }))),
    );
    assert!(matches!(state, BackendState::Idle));
    assert!(matches!(action, BackendAction::Respond(StateResponse::Weapons(_))));
}

#[test]
fn a_failed_fetch_is_a_network_error_with_its_message() {
    let (state, _) = step(
        BackendState::Idle,
        BackendEvent::Received(StateRequest::GetVehicles { ea_id: "p".to_string() }),
    );
    let (state, action) = step(state, BackendEvent::Finished(Outcome::Vehicles(Err("timeout".to_string()))));
    assert!(matches!(state, BackendState::Idle));
    match action {
        BackendAction::Respond(StateResponse::NetworkError(m)) => assert_eq!(m, "timeout"),
        _ => panic!("expected a network error"),
    }
}

#[test]
fn user_store_requests_answer_with_success_user_or_database_error() {
    let (state, action) = step(
        BackendState::Idle,
        BackendEvent::Received(StateRequest::InsertUser {
            user_id: "42".to_string(),
            ea_id: "glibc2".to_string(),
        }),
    );
    match &action {
        BackendAction::Perform(Operation::InsertUser { user_id, ea_id }) => {
            assert_eq!(user_id, "42");
            assert_eq!(ea_id, "glibc2");
        }
        _ => panic!("expected an insert"),
    }
    let (_, action) = step(state, BackendEvent::Finished(Outcome::Inserted(Ok(1))));
    assert!(matches!(action, BackendAction::Respond(StateResponse::Success)));

    let (state, _) = step(
        BackendState::Idle,
        BackendEvent::Received(StateRequest::QueryUser { user_id: "42".to_string() }),
    );
    let (_, action) = step(state, BackendEvent::Finished(Outcome::Queried(Ok("glibc2".to_string()))));
    match action {
        BackendAction::Respond(StateResponse::EaUser(u)) => assert_eq!(u, "glibc2"),
        _ => panic!("expected the bound account"),
    }

    let (state, _) = step(
        BackendState::Idle,
        BackendEvent::Received(StateRequest::DeleteUser { user_id: "42".to_string() }),
    );
    let (_, action) = step(state, BackendEvent::Finished(Outcome::Deleted(Err("locked".to_string()))));
    match action {
        BackendAction::Respond(StateResponse::DatabaseError(m)) => assert_eq!(m, "locked"),
        _ => panic!("expected a database error"),
    }
}

#[test]
fn stop_answers_success_and_stops() {
    let (state, action) = step(BackendState::Idle, BackendEvent::Received(StateRequest::Stop));
    assert!(matches!(state, BackendState::Stopped));
    assert!(matches!(action, BackendAction::Respond(StateResponse::Success)));
    assert!(!accepts(&state, &BackendEvent::Received(StateRequest::Stop)));
    assert!(!accepts(&state, &BackendEvent::Closed));
}

#[test]
fn a_closed_channel_shuts_down() {
    let (state, action) = step(BackendState::Idle, BackendEvent::Closed);
    assert!(matches!(state, BackendState::Stopped));
    assert!(matches!(action, BackendAction::Shutdown));
}

#[test]
fn events_that_do_not_fit_are_refused() {
    assert!(!accepts(&BackendState::Idle, &BackendEvent::Finished(Outcome::Deleted(Ok(0)))));
    let busy = BackendState::Busy(Operation::QueryUser { user_id: "1".to_string() });
    assert!(!accepts(&busy, &BackendEvent::Finished(Outcome::Deleted(Ok(0)))));
    assert!(!accepts(&busy, &BackendEvent::Received(StateRequest::Stop)));
    assert!(accepts(&busy, &BackendEvent::Finished(Outcome::Queried(Ok("x".to_string())))));
}

#[test]
fn operation_for_and_response_for() {
    assert!(operation_for(StateRequest::Stop).is_none());
    assert!(matches!(
        operation_for(StateRequest::GetStats { ea_id: "e".to_string() }),
        Some(Operation::FetchStats { .. })
    ));
    assert!(matches!(
        response_for(Outcome::Vehicles(Ok(Vehicles { vehicles: vec![] }))),
        StateResponse::Vehicles(_)
    ));
    assert!(matches!(response_for(Outcome::Stats(Err("e".to_string()))), StateResponse::NetworkError(_)));
    assert!(matches!(response_for(Outcome::Queried(Err("e".to_string()))), StateResponse::DatabaseError(_)));
}

#[test]
fn requests_are_answered_in_arrival_order() {
    let requests = vec![
        StateRequest::InsertUser { user_id: "1".to_string(), ea_id: "a".to_string() },
        StateRequest::QueryUser { user_id: "1".to_string() },
        StateRequest::DeleteUser { user_id: "1".to_string() },
    ];
    let outcomes = vec![
        Outcome::Inserted(Ok(1)),
        Outcome::Queried(Ok("a".to_string())),
        Outcome::Deleted(Ok(1)),
    ];
    let mut state = BackendState::Idle;
    let mut answers = Vec::new();
    for (request, outcome) in requests.into_iter().zip(outcomes) {
        let (busy, action) = step(state, BackendEvent::Received(request));
        assert!(matches!(action, BackendAction::Perform(_)));
        assert!(!accepts(&busy, &BackendEvent::Received(StateRequest::Stop)));
        let (idle, action) = step(busy, BackendEvent::Finished(outcome));
        match action {
            BackendAction::Respond(r) => answers.push(r),
            _ => panic!("expected an answer"),
        }
        state = idle;
    }
    assert!(matches!(answers[0], StateResponse::Success));
    assert!(matches!(&answers[1], StateResponse::EaUser(u) if u == "a"));
    assert!(matches!(answers[2], StateResponse::Success));
    let (state, action) = step(state, BackendEvent::Received(StateRequest::Stop));
    assert!(matches!(state, BackendState::Stopped));
    assert!(matches!(action, BackendAction::Respond(StateResponse::Success)));
}
