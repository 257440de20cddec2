use changweibot::backend::{StateRequest, StateResponse};
use changweibot::commands::{
    answer_response, message_is_outdated, needs_sender_id, start_answer, AnswerAction,
    AnswerState, Command, StatsKind,
};
use changweibot::json_format::{PlayerStats, Vehicles, Weapons};
use changweibot::utilities::{bound_ea_id, given_ea_id, make_vehicle_keyboard, EA_ID_MISSING};

fn text_of(action: &AnswerAction) -> String {
    match action {
        AnswerAction::SendText(t) => t.clone(),
        _ => panic!("expected a text"),
    }
}

fn stats() -> PlayerStats {
    PlayerStats {
        user_name: "glibc2".to_string(),
        rank_name: "Rank 1".to_string(),
        skill_bits: 0,
        score_per_minute_bits: 0,
        kills_per_minute_bits: 0,
        win_percent: "50%".to_string(),
        accuracy: "20%".to_string(),
        headshots: "10%".to_string(),
        time_played: "1h".to_string(),
        kill_death_bits: 0,
        infantry_kill_death_bits: 0,
        infantry_kills_per_minute_bits: 0,
        kills: 1,
        deaths: 2,
        wins: 3,
        loses: 4,
        longest_head_shot_bits: 0,
        highest_kill_streak: 5,
        rounds_played: 6,
    }
}

#[test]
fn help_sends_the_command_list() {
    let (state, action) = start_answer(Command::Help, false, None);
    assert!(matches!(state, AnswerState::Done));
    assert!(matches!(action, AnswerAction::SendHelp));
}

#[test]
fn weapons_with_a_name_fetches_and_sends_with_a_header() {
    let (state, action) = start_answer(Command::Weapons("glibc2".to_string()), false, None);
    match &action {
        AnswerAction::Request(StateRequest::GetWeapons { ea_id }) => assert_eq!(ea_id, "glibc2"),
        _ => panic!("expected a weapons request"),
    }
    let (state, action) = answer_response(state, StateResponse::Weapons(Weapons { weapons: vec![] }));
    assert!(matches!(state, AnswerState::Done));
    match action {
        AnswerAction::SendWeapons { header, .. } => assert_eq!(header, "Weapons of glibc2:\n"),
        _ => panic!("expected the weapons"),
    }
}

#[test]
fn weapons_fetch_failure_text() {
    let (state, _) = start_answer(Command::Weapons("x".to_string()), true, None);
    let (state, action) = answer_response(state, StateResponse::NetworkError("down".to_string()));
    assert!(matches!(state, AnswerState::Done));
    assert_eq!(
        text_of(&action),
        "Failed to fetch your EA stats, please wait a while and retry or recheck your username."
    );
}

#[test]
fn status_without_a_name_uses_the_bound_account() {
    assert!(needs_sender_id(&Command::Status(String::new()), false));
    let (state, action) = start_answer(Command::Status(String::new()), false, Some("42".to_string()));
    assert!(matches!(state, AnswerState::ResolvingEaId(StatsKind::Status)));
    match &action {
        AnswerAction::Request(StateRequest::QueryUser { user_id }) => assert_eq!(user_id, "42"),
        _ => panic!("expected a lookup"),
    }
    let (state, action) = answer_response(state, StateResponse::EaUser("bound".to_string()));
    match &action {
        AnswerAction::Request(StateRequest::GetStats { ea_id }) => assert_eq!(ea_id, "bound"),
        _ => panic!("expected a stats request"),
    }
    let (state, action) = answer_response(state, StateResponse::Stats(stats()));
    assert!(matches!(state, AnswerState::Done));
    match action {
        AnswerAction::SendStatus { header, stats } => {
            assert_eq!(header, "Status of bound:\n");
            assert_eq!(stats.rounds_played, 6);
        }
        _ => panic!("expected the stats"),
    }
}

#[test]
fn a_missing_binding_is_reported() {
    let (state, _) = start_answer(Command::Vehicles(String::new()), true, Some("7".to_string()));
    let (state, action) = answer_response(state, StateResponse::DatabaseError("no rows".to_string()));
    assert!(matches!(state, AnswerState::Done));
    match action {
        AnswerAction::SendNotice(t) => {
            assert_eq!(t, "Failed to get your EA username, please set it with /bind")
        }
        _ => panic!("expected the missing-account notice"),
    }
}

#[test]
fn vehicles_sends_with_header_or_failure_text() {
    let (state, _) = start_answer(Command::Vehicles("p".to_string()), true, None);
    let (_, action) = answer_response(state, StateResponse::Vehicles(Vehicles { vehicles: vec![] }));
    match action {
        AnswerAction::SendVehicles { header, .. } => assert_eq!(header, "Vehicles of p:\n"),
        _ => panic!("expected the vehicles"),
    }
    let (state, _) = start_answer(Command::Vehicles("p".to_string()), true, None);
    let (_, action) = answer_response(state, StateResponse::Success);
    assert_eq!(text_of(&action), "Failed to fetch your EA stats, please wait a while and retry.");
    let (state, _) = start_answer(Command::Status("p".to_string()), true, None);
    let (_, action) = answer_response(state, StateResponse::Weapons(Weapons { weapons: vec![] }));
    assert_eq!(text_of(&action), "Failed to fetch your EA stats, please wait a while and retry.");
}

#[test]
fn bind_in_a_group_or_without_a_name_is_refused() {
    let (state, action) = start_answer(Command::Bind("p".to_string()), false, Some("1".to_string()));
    assert!(matches!(state, AnswerState::Done));
    assert_eq!(text_of(&action), "Please PM to bind user.");
    let (_, action) = start_answer(Command::Bind(String::new()), true, Some("1".to_string()));
    assert_eq!(text_of(&action), "Please specify a username.");
}

#[test]
fn bind_stores_the_binding() {
    let (state, action) = start_answer(Command::Bind("glibc2".to_string()), true, Some("42".to_string()));
    match &action {
        AnswerAction::Request(StateRequest::InsertUser { user_id, ea_id }) => {
            assert_eq!(user_id, "42");
            assert_eq!(ea_id, "glibc2");
        }
        _ => panic!("expected an insert"),
    }
    let (state, action) = answer_response(state, StateResponse::Success);
    assert!(matches!(state, AnswerState::Done));
    assert_eq!(text_of(&action), "Bind 42 with glibc2.");
    let (state, _) = start_answer(Command::Bind("glibc2".to_string()), true, Some("42".to_string()));
    let (_, action) = answer_response(state, StateResponse::DatabaseError("x".to_string()));
    assert_eq!(text_of(&action), "Failed to bind");
}

#[test]
fn unbind_removes_the_binding() {
    let (_, action) = start_answer(Command::Unbind, false, Some("42".to_string()));
    assert_eq!(text_of(&action), "Please PM to unbind user.");
    let (state, action) = start_answer(Command::Unbind, true, Some("42".to_string()));
    match &action {
        AnswerAction::Request(StateRequest::DeleteUser { user_id }) => assert_eq!(user_id, "42"),
        _ => panic!("expected a delete"),
    }
    let (_, action) = answer_response(state, StateResponse::Success);
    assert_eq!(text_of(&action), "Unbind 42.");
    let (state, _) = start_answer(Command::Unbind, true, Some("42".to_string()));
    let (_, action) = answer_response(state, StateResponse::DatabaseError("x".to_string()));
    assert_eq!(text_of(&action), "Failed to unbind");
}

#[test]
fn sender_id_is_needed_only_where_used() {
    assert!(!needs_sender_id(&Command::Help, true));
    assert!(!needs_sender_id(&Command::Weapons("x".to_string()), true));
    assert!(!needs_sender_id(&Command::Bind("x".to_string()), false));
    assert!(needs_sender_id(&Command::Bind("x".to_string()), true));
    assert!(!needs_sender_id(&Command::Bind(String::new()), true));
    assert!(needs_sender_id(&Command::Unbind, true));
    assert!(!needs_sender_id(&Command::Unbind, false));
}

#[test]
fn outdated_messages() {
    assert!(message_is_outdated((99, 0), (100, 0)));
    assert!(message_is_outdated((100, 0), (100, 5)));
    assert!(!message_is_outdated((100, 5), (100, 5)));
    assert!(!message_is_outdated((101, 0), (100, 999)));
}

#[test]
fn vehicle_keyboard_has_one_row_of_three_types() {
    let k = make_vehicle_keyboard();
    assert_eq!(k.rows.len(), 1);
    let labels: Vec<(String, String)> =
        k.rows[0].iter().map(|b| (b.text.clone(), b.callback_data.clone())).collect();
    assert_eq!(
        labels,
        vec![
            ("Tank".to_string(), "Tank".to_string()),
            ("Plane".to_string(), "Plane".to_string()),
            ("Other".to_string(), "Other".to_string()),
        ]
    );
}

#[test]
fn ea_id_from_command_or_store() {
    assert_eq!(given_ea_id("glibc2".to_string()), Some("glibc2".to_string()));
    assert_eq!(given_ea_id(String::new()), None);
    assert_eq!(bound_ea_id(StateResponse::EaUser("u".to_string())), Ok("u".to_string()));
    assert_eq!(bound_ea_id(StateResponse::Success), Err(EA_ID_MISSING.to_string()));
    assert_eq!(bound_ea_id(StateResponse::DatabaseError("e".to_string())), Err(EA_ID_MISSING.to_string()));
}
