use quizroom::activity::{Access, Activity, Config};
use quizroom::directory::Directory;
use quizroom::state::{State, StateCommand, StateEffect, StateReaction, StateResponse};

fn activity(name: &str) -> Activity {
    Activity {
        name: name.to_string(),
        config: Config::Quiz { questions: vec![] },
        access: Access::All("".to_string()),
    }
}

fn nothing() -> StateReaction {
    StateReaction { response: StateResponse::Nothing, effect: None }
}

fn game(state: &mut State, code: &str) -> Option<u64> {
    match state.handle(StateCommand::GetGame(code.to_string())).response {
        StateResponse::Game(game) => game,
        other => panic!("unexpected response: {:?}", other),
    }
}

fn kept(state: &mut State, id: &str) -> Option<Activity> {
    match state.handle(StateCommand::GetActivity(id.to_string())).response {
        StateResponse::Activity(activity) => activity,
        other => panic!("unexpected response: {:?}", other),
    }
}

#[test]
fn games_are_found_until_deleted() {
    let mut state = State::new(Directory::new());
    assert_eq!(game(&mut state, "1234"), None);
    assert_eq!(state.handle(StateCommand::CreateGame("1234".to_string(), 1)), nothing());
    assert_eq!(state.handle(StateCommand::CreateGame("5678".to_string(), 2)), nothing());
    assert_eq!(game(&mut state, "1234"), Some(1));
    assert_eq!(game(&mut state, "5678"), Some(2));
    assert_eq!(state.handle(StateCommand::CreateGame("1234".to_string(), 3)), nothing());
    assert_eq!(game(&mut state, "1234"), Some(3));
    assert_eq!(state.handle(StateCommand::DeleteGame("1234".to_string())), nothing());
    assert_eq!(game(&mut state, "1234"), None);
    assert_eq!(game(&mut state, "5678"), Some(2));
    assert_eq!(state.handle(StateCommand::DeleteGame("1234".to_string())), nothing());
}

#[test]
fn only_games_that_are_there_start() {
    let mut state = State::new(Directory::new());
    let _ = state.handle(StateCommand::CreateGame("1234".to_string(), 9));
    assert_eq!(
        state.handle(StateCommand::StartGame("1234".to_string())),
        StateReaction { response: StateResponse::Nothing, effect: Some(StateEffect::Start(9)) }
    );
    assert_eq!(state.handle(StateCommand::StartGame("4321".to_string())), nothing());
}

#[test]
fn activities_are_kept_and_saved() {
    let mut loaded = Directory::new();
    loaded.insert("old".to_string(), activity("Old"));
    let mut state = State::new(loaded);
    assert_eq!(kept(&mut state, "old"), Some(activity("Old")));
    assert_eq!(kept(&mut state, "new"), None);
    assert_eq!(state.handle(StateCommand::CreateActivity("new".to_string(), activity("New"))), nothing());
    assert_eq!(kept(&mut state, "new"), Some(activity("New")));
    let reaction = state.handle(StateCommand::SaveToFile);
    assert_eq!(reaction.response, StateResponse::Nothing);
    match reaction.effect {
        Some(StateEffect::Save(saved)) => {
            assert_eq!(saved.entries().len(), 2);
            assert_eq!(saved.get("old"), Some(&activity("Old")));
            assert_eq!(saved.get("new"), Some(&activity("New")));
        }
        other => panic!("unexpected effect: {:?}", other),
    }
}

#[test]
fn an_activity_replaces_the_one_with_its_id() {
    let mut state = State::new(Directory::new());
    let _ = state.handle(StateCommand::CreateActivity("a".to_string(), activity("One")));
    let _ = state.handle(StateCommand::CreateActivity("a".to_string(), activity("Two")));
    let _ = state.handle(StateCommand::CreateGame("a".to_string(), 1));
    let _ = state.handle(StateCommand::DeleteGame("a".to_string()));
    assert_eq!(kept(&mut state, "a"), Some(activity("Two")));
}

#[test]
fn directories_file_each_key_once() {
    let mut directory: Directory<u64> = Directory::new();
    directory.insert("a".to_string(), 1);
    directory.insert("b".to_string(), 2);
    directory.insert("a".to_string(), 3);
    assert_eq!(directory.entries().len(), 2);
    assert_eq!(directory.get("a"), Some(&3));
    let copy = directory.copy();
    directory.remove("a");
    directory.remove("z");
    assert_eq!(directory.get("a"), None);
    assert_eq!(directory.get("b"), Some(&2));
    assert_eq!(copy.get("a"), Some(&3));
}
