use quizroom::chance::{new_code, random};
use quizroom::directory::Directory;
use quizroom::game::{GameCommand, GamePhase, GameResponse};
use quizroom::join::{
    decide, error_needs_game, explain, get_error, join_game, on_message, on_phase, on_request, Admission, PlayerAction,
};
use quizroom::json::Json;
use quizroom::player::{Player, PlayerCommand};
use quizroom::refusal::Refusal;
use quizroom::socket::Inbound;
use quizroom::state::{State, StateCommand, StateResponse};

fn found() -> Option<StateResponse> {
    Some(StateResponse::Game(Some(7)))
}

fn admission(name: &str) -> Result<Admission, Refusal> {
    Ok(Admission {
        game: 7,
        player: Player { name: name.to_string(), points: 0, curr_answer: None },
        entry: GameCommand::AddPlayer(3),
    })
}

fn no_game() -> Result<Admission, Refusal> {
    Err(Refusal::NotFound("Game not found".to_string()))
}

fn bad_name() -> Result<Admission, Refusal> {
    Err(Refusal::Forbidden("Name is Inappropriate".to_string()))
}

fn text(message: &str) -> Inbound {
    Inbound::Text(message.to_string())
}

fn not_found() -> Vec<PlayerAction> {
    vec![PlayerAction::ToPlayer(PlayerCommand::SendText("{\"error\":\"Command not found\"}".to_string()))]
}

#[test]
fn players_with_good_names_get_in() {
    assert_eq!(join_game(&found(), "Alice".to_string(), 3), admission("Alice"));
    assert_eq!(join_game(&found(), "".to_string(), 3), admission(""));
}

#[test]
fn players_with_bad_names_are_refused() {
    assert_eq!(join_game(&found(), "asshole".to_string(), 3), bad_name());
}

#[test]
fn players_without_a_game_are_refused() {
    assert_eq!(join_game(&Some(StateResponse::Game(None)), "Alice".to_string(), 3), no_game());
    assert_eq!(join_game(&Some(StateResponse::Nothing), "Alice".to_string(), 3), no_game());
    assert_eq!(join_game(&Some(StateResponse::Activity(None)), "Alice".to_string(), 3), no_game());
    assert_eq!(join_game(&None, "Alice".to_string(), 3), no_game());
    assert_eq!(join_game(&None, "asshole".to_string(), 3), no_game());
}

#[test]
fn the_verdict_on_a_name_decides() {
    assert_eq!(decide(&found(), "Alice".to_string(), 3, false), admission("Alice"));
    assert_eq!(decide(&found(), "Alice".to_string(), 3, true), bad_name());
    assert_eq!(decide(&Some(StateResponse::Game(None)), "Alice".to_string(), 3, true), no_game());
}

#[test]
fn errors_are_explained() {
    assert_eq!(explain(true, true), "{\"error\":\"Name is inappropriate\"}");
    assert_eq!(explain(true, false), "{\"error\":\"Name is inappropriate\"}");
    assert_eq!(explain(false, true), "{\"error\":\"Unknown error, try again later\"}");
    assert_eq!(explain(false, false), "{\"error\":\"Game not found, try again later\"}");
}

#[test]
fn refusals_and_explanations_agree() {
    assert_eq!(get_error("asshole", &found()), "{\"error\":\"Name is inappropriate\"}");
    assert_eq!(get_error("Alice", &found()), "{\"error\":\"Unknown error, try again later\"}");
    assert_eq!(
        get_error("Alice", &Some(StateResponse::Game(None))),
        "{\"error\":\"Unknown error, try again later\"}"
    );
    assert_eq!(get_error("Alice", &None), "{\"error\":\"Game not found, try again later\"}");
}

#[test]
fn a_bad_name_needs_no_look_at_the_game() {
    assert!(!error_needs_game("asshole"));
    assert!(error_needs_game("Alice"));
    assert_eq!(get_error("asshole", &None), "{\"error\":\"Name is inappropriate\"}");
}

#[test]
fn the_code_leads_to_the_game() {
    let mut state = State::new(Directory::new());
    let code = new_code();
    let _ = state.handle(StateCommand::CreateGame(code.clone(), 7));
    let reply = state.handle(StateCommand::GetGame(code.clone())).response;
    assert_eq!(join_game(&Some(reply), "Alice".to_string(), 3), admission("Alice"));
    let _ = state.handle(StateCommand::DeleteGame(code.clone()));
    let reply = state.handle(StateCommand::GetGame(code)).response;
    assert_eq!(join_game(&Some(reply), "Alice".to_string(), 3), no_game());
}

#[test]
fn codes_have_four_digits() {
    for _ in 0..200 {
        let code = new_code();
        assert_eq!(code.len(), 4);
        let number: u64 = code.parse().unwrap();
        assert!(number >= 1000 && number <= 9999);
    }
}

#[test]
fn random_texts_are_alphanumeric() {
    assert_eq!(random(0), "");
    let text = random(200);
    assert_eq!(text.len(), 200);
    assert!(text.chars().all(|c| c.is_ascii_alphanumeric()));
    assert_ne!(random(20), random(20));
}

#[test]
fn answers_wait_for_the_phase() {
    assert_eq!(on_message("Ann", text("{\"event\":\"answer\",\"answer\":2}")), vec![PlayerAction::AskPhase(2)]);
    assert_eq!(on_message("Ann", text("{\"event\":\"answer\"}")), vec![]);
    assert_eq!(on_message("Ann", text("{\"event\":\"answer\",\"answer\":-2}")), vec![]);
    assert_eq!(on_message("Ann", text("{\"event\":\"answer\",\"answer\":\"2\"}")), vec![]);
}

#[test]
fn answers_count_while_an_item_is_up() {
    let taken = vec![
        PlayerAction::ToPlayer(PlayerCommand::UpdateAnswer(2)),
        PlayerAction::ToPlayer(PlayerCommand::SendText("{\"answer\":2,\"event\":\"update_answer\"}".to_string())),
    ];
    assert_eq!(on_phase(2, &Some(GameResponse::Phase(GamePhase::OnQuestion(0)))), taken);
    assert_eq!(on_phase(2, &Some(GameResponse::Phase(GamePhase::OnQuestion(9)))), taken);
    assert_eq!(on_phase(2, &Some(GameResponse::Phase(GamePhase::Lobby))), vec![]);
    assert_eq!(on_phase(2, &Some(GameResponse::Nothing)), vec![]);
    assert_eq!(on_phase(2, &None), vec![]);
}

#[test]
fn joining_is_confirmed_and_announced() {
    assert_eq!(
        on_message("Ann", text("{\"event\":\"joined\"}")),
        vec![
            PlayerAction::ToPlayer(PlayerCommand::SendText("joinconfirmed".to_string())),
            PlayerAction::ToGame(GameCommand::SendTextToTeacher(
                "{\"event\":\"playerjoined\",\"player\":{\"name\":\"Ann\"}}".to_string()
            )),
        ]
    );
}

#[test]
fn other_requests_are_not_found() {
    assert_eq!(on_message("Ann", text("{\"event\":\"leave\"}")), not_found());
    assert_eq!(on_message("Ann", text("{\"event\":1}")), not_found());
    assert_eq!(on_message("Ann", text("{}")), not_found());
    assert_eq!(on_message("Ann", text("[]")), not_found());
    assert_eq!(on_message("Ann", text("hello")), not_found());
    assert_eq!(on_message("Ann", text("")), not_found());
    assert_eq!(on_request("Ann", &None), not_found());
    let request = Json::object().with("event", Json::text("answer")).with("answer", Json::unsigned(1));
    assert_eq!(on_request("Ann", &Some(request)), vec![PlayerAction::AskPhase(1)]);
}

#[test]
fn pings_of_players_are_answered_and_binaries_passed_over() {
    assert_eq!(
        on_message("Ann", Inbound::Ping(vec![1, 2])),
        vec![PlayerAction::ToPlayer(PlayerCommand::Pong(vec![1, 2]))]
    );
    assert_eq!(on_message("Ann", Inbound::Binary(vec![1, 2])), vec![]);
    assert_eq!(on_message("Ann", Inbound::Other), vec![]);
}
