use quizroom::activity::{Access, Activity, Config, Question, Response};
use quizroom::catalog::{
    app_url, create_activity, delete_set, file_activity, find_ids, find_kept_ids, get_sets, list_data, list_reply,
    read_request,
    CreateActivity, Fetched, Listing, ID_LENGTH,
};
use quizroom::directory::Directory;
use quizroom::game::{Game, GameCommand};
use quizroom::json::Json;
use quizroom::refusal::Refusal;
use quizroom::socket::{Frame, Inbound};
use quizroom::state::{State, StateCommand, StateEffect, StateResponse};
use quizroom::teacher::{
    find_set, has_access, on_greeting_failed, on_message, on_send_failed, open_game, start_game,
    user_lookup, Opening, Teacher, TeacherAction, TeacherCommand,
};

fn config() -> Config {
    Config::Quiz {
        questions: vec![Question {
            text: "q".to_string(),
            responses: vec![Response { text: "a".to_string(), correct: true }],
        }],
    }
}

fn activity(access: Access) -> Activity {
    Activity { name: "Sums".to_string(), config: config(), access }
}

fn everyone() -> Access {
    Access::All("all".to_string())
}

fn named() -> Access {
    Access::Usernames(vec!["ann".to_string(), "bob".to_string()])
}

fn request() -> CreateActivity {
    CreateActivity { name: "Sums".to_string(), access: everyone(), config: config() }
}

fn opened() -> Result<Opening, Refusal> {
    Ok(Opening {
        game: Game::new(config()),
        entry: StateCommand::CreateGame("1234".to_string(), 9),
        greeting: Frame::Text("{\"event\":\"gamecode\",\"gamecode\":\"1234\"}".to_string()),
    })
}

fn forbidden() -> Result<Opening, Refusal> {
    Err(Refusal::Forbidden("You do not have access to this set".to_string()))
}

#[test]
fn sets_are_found_or_not() {
    assert_eq!(find_set(Some(StateResponse::Activity(Some(activity(named()))))), Ok(activity(named())));
    let missing = Err(Refusal::NotFound("Set not found".to_string()));
    assert_eq!(find_set(Some(StateResponse::Activity(None))), missing);
    assert_eq!(find_set(Some(StateResponse::Nothing)), missing);
    assert_eq!(find_set(None), missing);
}

#[test]
fn only_restricted_sets_need_a_look_up() {
    assert_eq!(user_lookup(&everyone(), "key"), None);
    assert_eq!(
        user_lookup(&named(), "key"),
        Some("https://www.vortice.app/api/apps/key/userdata".to_string())
    );
}

#[test]
fn named_users_may_start() {
    let start = |body: Option<&str>| start_game(activity(named()), &body.map(|b| b.to_string()), "1234", 9);
    assert_eq!(start(Some("{\"username\":\"bob\"}")), opened());
    assert_eq!(start(Some("{\"username\":\"cid\"}")), forbidden());
    assert_eq!(start(Some("{\"username\":7}")), forbidden());
    assert_eq!(start(Some("{}")), forbidden());
    assert_eq!(start(Some("bob")), forbidden());
    assert_eq!(start(None), forbidden());
}

#[test]
fn anyone_may_start_an_open_set() {
    assert_eq!(start_game(activity(everyone()), &None, "1234", 9), opened());
    assert_eq!(start_game(activity(everyone()), &Some("x".to_string()), "1234", 9), opened());
}

#[test]
fn access_goes_by_the_username() {
    assert!(has_access(&named(), &Some(Json::object().with("username", Json::text("ann")))));
    assert!(!has_access(&named(), &Some(Json::object().with("username", Json::text("Ann")))));
    assert!(!has_access(&named(), &None));
    assert!(has_access(&everyone(), &None));
    assert_eq!(open_game(activity(named()), true, "1234", 9), opened());
    assert_eq!(open_game(activity(everyone()), false, "1234", 9), forbidden());
}

#[test]
fn failures_to_send_are_reported() {
    assert_eq!(on_greeting_failed("1234"), StateCommand::DeleteGame("1234".to_string()));
    assert_eq!(on_send_failed(), GameCommand::TeacherDisconnect);
}

#[test]
fn teachers_start_and_continue() {
    assert_eq!(
        on_message("1234", Inbound::Text("gamestart".to_string())),
        Some(TeacherAction::ToState(StateCommand::StartGame("1234".to_string())))
    );
    assert_eq!(
        on_message("1234", Inbound::Text("continue".to_string())),
        Some(TeacherAction::ToGame(GameCommand::Continue))
    );
    assert_eq!(on_message("1234", Inbound::Text("stop".to_string())), None);
    assert_eq!(on_message("1234", Inbound::Text("".to_string())), None);
}

#[test]
fn other_messages_of_teachers_are_sent_back() {
    assert_eq!(
        on_message("1234", Inbound::Binary(vec![1])),
        Some(TeacherAction::Send(Frame::Binary(vec![1])))
    );
    assert_eq!(on_message("1234", Inbound::Ping(vec![2])), Some(TeacherAction::Send(Frame::Pong(vec![2]))));
    assert_eq!(on_message("1234", Inbound::Other), None);
    assert_eq!(Teacher {}.handle(TeacherCommand::SendText("x".to_string())), Frame::Text("x".to_string()));
}

#[test]
fn teachers_start_their_own_game() {
    let mut state = State::new(Directory::new());
    let opening = opened().unwrap();
    let _ = state.handle(opening.entry);
    match on_message("1234", Inbound::Text("gamestart".to_string())) {
        Some(TeacherAction::ToState(command)) => {
            assert_eq!(state.handle(command).effect, Some(StateEffect::Start(9)));
        }
        other => panic!("unexpected action: {:?}", other),
    }
}

#[test]
fn an_unannounced_game_is_gone() {
    let mut state = State::new(Directory::new());
    let opening = start_game(activity(everyone()), &None, "1234", 9).unwrap();
    let _ = state.handle(opening.entry);
    let _ = state.handle(on_greeting_failed("1234"));
    let reply = state.handle(StateCommand::GetGame("1234".to_string())).response;
    assert_eq!(reply, StateResponse::Game(None));
}

#[test]
fn apps_are_addressed_by_key() {
    assert_eq!(app_url("key"), "https://www.vortice.app/api/apps/key");
    assert_eq!(read_request(), "read");
}

#[test]
fn kept_ids_are_found() {
    let ids = |text: &str| -> Vec<String> {
        find_kept_ids(&Json::parse(text).unwrap()).iter().map(|id| id.to_text()).collect()
    };
    assert_eq!(ids("{\"data\":\"{\\\"data\\\":[\\\"a\\\",1]}\"}"), vec!["\"a\"", "1"]);
    assert!(ids("{\"data\":\"{\\\"data\\\":1}\"}").is_empty());
    assert!(ids("{\"data\":\"x\"}").is_empty());
    assert!(ids("{\"data\":[\"a\"]}").is_empty());
    assert!(ids("[]").is_empty());
    assert!(find_ids(&None).is_empty());
    let data = Json::object().with("data", Json::array(vec![Json::text("a")]));
    assert_eq!(find_ids(&Some(data))[0].as_text(), Some("a"));
}

#[test]
fn a_set_is_filed_behind_the_others() {
    let reply = Json::parse("{\"data\":\"{\\\"data\\\":[\\\"a\\\",-1.5]}\"}").unwrap();
    let filing = file_activity(find_kept_ids(&reply), "new".to_string(), request());
    assert_eq!(filing.id, "new");
    assert_eq!(filing.body, "{\"data\":[\"a\",-1.5,\"new\"]}");
    assert_eq!(
        filing.commands,
        vec![
            StateCommand::CreateActivity("new".to_string(), activity(everyone())),
            StateCommand::SaveToFile,
        ]
    );
    assert_eq!(filing.answer, "{\"id\":\"new\",\"status\":\"Success\"}");
}

#[test]
fn sets_are_created_under_fresh_ids() {
    let filing = create_activity(&Some("{}".to_string()), request()).unwrap();
    assert_eq!(ID_LENGTH, 8);
    assert_eq!(filing.id.len(), 8);
    assert!(filing.id.chars().all(|c| c.is_ascii_alphanumeric()));
    assert_eq!(filing.body, format!("{{\"data\":[\"{}\"]}}", filing.id));
    assert_eq!(filing.answer, format!("{{\"id\":\"{}\",\"status\":\"Success\"}}", filing.id));
}

#[test]
fn sets_are_not_created_without_the_app() {
    let failed = Err("{\"error\":\"Error with Vortice services\"}".to_string());
    assert_eq!(create_activity(&None, request()), failed);
    assert_eq!(create_activity(&Some("oops".to_string()), request()), failed);
    assert_eq!(create_activity(&Some("".to_string()), request()), failed);
}

fn text(body: &str) -> Fetched {
    Fetched::Text(body.to_string())
}

fn failure(reason: &str) -> Result<Listing, String> {
    Err(format!("{{\"error\":\"{}\"}}", reason))
}

#[test]
fn listings_fail_with_their_reasons() {
    assert_eq!(get_sets(&Fetched::Unreachable), failure("No response from Vortice Services"));
    assert_eq!(get_sets(&Fetched::Unreadable), failure("Response from Vortice was not formatted"));
    assert_eq!(get_sets(&text("oops")), failure("Response from Vortice was not formatted correctly"));
    assert_eq!(
        get_sets(&text("{\"data\":\"oops\"}")),
        failure("Response from Vortice Services was not formatted")
    );
    assert_eq!(list_data(&None), failure("Response from Vortice Services was not formatted"));
    assert_eq!(list_reply(&None), failure("Response from Vortice was not formatted correctly"));
}

#[test]
fn empty_listings_are_empty() {
    for body in ["", "{}", "{\"data\":1}", "{\"data\":\"{}\"}", "{\"data\":\"{\\\"data\\\":[]}\"}"] {
        let listing = get_sets(&text(body)).unwrap();
        assert_eq!(listing.ask(), None);
        assert_eq!(listing.answer(), "[]");
    }
}

fn run(mut listing: Listing, state: &mut State) -> String {
    while let Some(command) = listing.ask() {
        let reply = state.handle(command).response;
        listing.take(Some(reply));
    }
    listing.answer()
}

#[test]
fn listings_have_what_the_state_knows() {
    let mut state = State::new(Directory::new());
    let plain = Activity {
        name: "N".to_string(),
        config: Config::Slides(vec![]),
        access: everyone(),
    };
    let _ = state.handle(StateCommand::CreateActivity("a".to_string(), plain.clone()));
    let _ = state.handle(StateCommand::CreateActivity("c".to_string(), plain));
    let listing = get_sets(&text("{\"data\":\"{\\\"data\\\":[\\\"c\\\",\\\"b\\\",1,\\\"a\\\"]}\"}")).unwrap();
    assert_eq!(listing.ask(), Some(StateCommand::GetActivity("c".to_string())));
    assert_eq!(
        run(listing, &mut state),
        "[{\"config\":{\"Slides\":[]},\"id\":\"c\",\"name\":\"N\"},{\"config\":{\"Slides\":[]},\"id\":\"a\",\"name\":\"N\"}]"
    );
    let mut unanswered = Listing::new(vec!["a".to_string()]);
    unanswered.take(None);
    unanswered.take(Some(StateResponse::Nothing));
    assert_eq!(unanswered.ask(), None);
    assert_eq!(unanswered.answer(), "[]");
}

#[test]
fn a_created_set_is_listed() {
    let mut state = State::new(Directory::new());
    let first = Json::parse("{\"data\":\"{\\\"data\\\":[\\\"a\\\"]}\"}").unwrap();
    let filing = file_activity(find_kept_ids(&first), "new".to_string(), request());
    for command in filing.commands {
        let _ = state.handle(command);
    }
    let later = Json::object().with("data", Json::text(filing.body.as_str())).to_text();
    let listing = get_sets(&text(later.as_str())).unwrap();
    assert_eq!(listing, Listing::new(vec!["a".to_string(), "new".to_string()]));
    assert_eq!(
        run(listing, &mut state),
        "[{\"config\":{\"Quiz\":{\"questions\":[{\"responses\":[{\"correct\":true,\"text\":\"a\"}],\"text\":\"q\"}]}},\"id\":\"new\",\"name\":\"Sums\"}]"
    );
}

#[test]
fn the_next_listing_ends_with_the_set() {
    let mut state = State::new(Directory::new());
    let old = Activity { name: "Old".to_string(), config: Config::Slides(vec![]), access: everyone() };
    let _ = state.handle(StateCommand::CreateActivity("a".to_string(), old));
    let first = Json::parse("{\"data\":\"{\\\"data\\\":[1.5,\\\"gone\\\",-1e300,\\\"a\\\"]}\"}").unwrap();
    let data = CreateActivity { name: "New".to_string(), access: everyone(), config: Config::Slides(vec![]) };
    let filing = file_activity(find_kept_ids(&first), "new".to_string(), data);
    for command in filing.commands {
        let _ = state.handle(command);
    }
    let later = Json::object().with("data", Json::text(filing.body.as_str())).to_text();
    assert_eq!(
        run(get_sets(&text(later.as_str())).unwrap(), &mut state),
        "[{\"config\":{\"Slides\":[]},\"id\":\"a\",\"name\":\"Old\"},{\"config\":{\"Slides\":[]},\"id\":\"new\",\"name\":\"New\"}]"
    );
}

#[test]
fn listings_hide_who_may_start() {
    let list = |access: Access| -> String {
        let mut state = State::new(Directory::new());
        let _ = state.handle(StateCommand::CreateActivity("a".to_string(), activity(access)));
        run(Listing::new(vec!["a".to_string()]), &mut state)
    };
    assert_eq!(list(everyone()), list(named()));
}

#[test]
fn ids_that_were_read_are_read_again() {
    let mut deep = Json::text("x");
    for _ in 0..125 {
        deep = Json::array(vec![deep]);
    }
    let data = Json::object().with("data", Json::array(vec![deep, Json::text("a")]));
    let reply = Json::object().with("data", Json::text(data.to_text().as_str())).to_text();
    let filing = create_activity(&Some(reply), request()).unwrap();
    let later = Json::object().with("data", Json::text(filing.body.as_str())).to_text();
    assert_eq!(get_sets(&text(later.as_str())), Ok(Listing::new(vec!["a".to_string(), filing.id])));
}

#[test]
fn nothing_is_deleted() {
    assert_eq!(delete_set(), "Hello, World!");
}
