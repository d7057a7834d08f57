use quizroom::activity::{Config, Question, Response, Slide, SlideKind, SlideStyle, SlidesItem};
use quizroom::game::{
    Advance, Game, GameCommand, GameEffect, GamePhase, GameResponse, ADVANCE_DELAY_SECS,
};
use quizroom::player::PlayerCommand;
use quizroom::round::Round;
use quizroom::start::{can_follow_up, follow_up, opening};
use quizroom::teacher::TeacherCommand;

const FIRST: &str = "{\"event\":\"new_question\",\"question\":{\"responses\":[{\"text\":\"yes\"}],\"text\":\"one\"}}";
const FIRST_NUMBERED: &str = "{\"event\":\"new_question\",\"question\":{\"number\":0,\"responses\":[{\"text\":\"yes\"}],\"text\":\"one\"}}";
const SECOND: &str = "{\"event\":\"new_question\",\"question\":{\"responses\":[{\"text\":\"yes\"}],\"text\":\"two\"}}";
const SLIDE: &str = "{\"event\":\"new_slide\",\"slide\":{\"kind\":{\"Title\":[\"T\",{\"color\":\"c\",\"font_color\":\"f\"}]}}}";

fn asked(text: &str) -> Question {
    Question {
        text: text.to_string(),
        responses: vec![Response { text: "yes".to_string(), correct: true }],
    }
}

fn title() -> SlidesItem {
    SlidesItem::Slide(Slide {
        kind: SlideKind::Title(
            "T".to_string(),
            SlideStyle { color: "c".to_string(), font_color: "f".to_string() },
        ),
    })
}

fn two_questions() -> Config {
    Config::Quiz { questions: vec![asked("one"), asked("two")] }
}

fn slide_then_question() -> Config {
    Config::Slides(vec![title(), SlidesItem::Question(asked("two")), title()])
}

fn game_with_players(config: Config) -> Game {
    let mut game = Game::new(config);
    let _ = game.handle(GameCommand::AddPlayer(4));
    let _ = game.handle(GameCommand::AddPlayer(5));
    game
}

fn to_player(number: u64, text: &str) -> GameEffect {
    GameEffect::ToPlayer(number, PlayerCommand::SendText(text.to_string()))
}

fn to_teacher(text: &str) -> GameEffect {
    GameEffect::ToTeacher(TeacherCommand::SendText(text.to_string()))
}

fn advance_of(game: &mut Game) -> Advance {
    let mut effects = game.handle(GameCommand::Continue).effects;
    assert_eq!(effects.len(), 2);
    match effects.remove(1) {
        GameEffect::AdvanceLater(advance) => advance,
        other => panic!("unexpected effect: {:?}", other),
    }
}

#[test]
fn a_new_game_is_in_the_lobby() {
    let mut game = Game::new(two_questions());
    assert_eq!(game.handle(GameCommand::GetPhase).response, GameResponse::Phase(GamePhase::Lobby));
    assert_eq!(game.handle(GameCommand::GetConfig).response, GameResponse::Config(two_questions()));
    let _ = game.handle(GameCommand::SetPhase(GamePhase::OnQuestion(3)));
    assert_eq!(game.handle(GameCommand::GetPhase).response, GameResponse::Phase(GamePhase::OnQuestion(3)));
}

#[test]
fn texts_reach_every_player_or_the_teacher() {
    let mut game = game_with_players(two_questions());
    let reaction = game.handle(GameCommand::SendTextToPlayers("hi".to_string()));
    assert_eq!(reaction.response, GameResponse::Nothing);
    assert_eq!(reaction.effects, vec![to_player(4, "hi"), to_player(5, "hi")]);
    let reaction = game.handle(GameCommand::SendTextToTeacher("hi".to_string()));
    assert_eq!(reaction.effects, vec![to_teacher("hi")]);
    let reaction = game.handle(GameCommand::TeacherDisconnect);
    assert_eq!(reaction.effects, vec![to_player(4, "teacherdisconnect"), to_player(5, "teacherdisconnect")]);
}

#[test]
fn a_start_shows_the_first_item_to_the_teacher() {
    assert_eq!(game_with_players(two_questions()).handle(GameCommand::StartGame).effects, vec![to_teacher(FIRST)]);
    assert_eq!(
        game_with_players(slide_then_question()).handle(GameCommand::StartGame).effects,
        vec![to_teacher(SLIDE)]
    );
}

#[test]
fn an_empty_game_cannot_start() {
    let game = Game::new(Config::Quiz { questions: vec![] });
    assert!(!game.accepts(&GameCommand::StartGame));
    assert!(game.accepts(&GameCommand::Continue));
    let mut empty = game_with_players(Config::Quiz { questions: vec![] });
    let reaction = empty.handle(GameCommand::StartGame);
    assert_eq!(reaction.response, GameResponse::Nothing);
    assert_eq!(reaction.effects, vec![]);
    assert_eq!(empty, game_with_players(Config::Quiz { questions: vec![] }));
    assert!(Game::new(two_questions()).accepts(&GameCommand::StartGame));
}

#[test]
fn a_leaderboard_is_made_for_the_players_and_the_item() {
    let mut game = game_with_players(two_questions());
    let _ = game.handle(GameCommand::SetPhase(GamePhase::OnQuestion(1)));
    assert_eq!(
        game.handle(GameCommand::GenLeaderboard).effects,
        vec![GameEffect::RunRound(Round::new(vec![4, 5], GamePhase::OnQuestion(1), two_questions()))]
    );
}

#[test]
fn continuing_in_the_lobby_only_shows_the_leaderboard() {
    let mut game = game_with_players(two_questions());
    assert_eq!(
        game.handle(GameCommand::Continue).effects,
        vec![GameEffect::ToGame(GameCommand::GenLeaderboard)]
    );
}

#[test]
fn continuing_moves_on_to_the_next_question() {
    let mut game = game_with_players(two_questions());
    let _ = game.handle(GameCommand::SetPhase(GamePhase::OnQuestion(0)));
    let advance = advance_of(&mut game);
    assert_eq!(ADVANCE_DELAY_SECS, 5);
    assert_eq!(advance.move_on(), GameCommand::SetPhase(GamePhase::OnQuestion(1)));
    assert!(advance.has_next());
    assert_eq!(advance.deliver(), vec![to_player(4, SECOND), to_player(5, SECOND), to_teacher(SECOND)]);
}

#[test]
fn slides_are_for_the_teacher_alone() {
    let mut game = game_with_players(slide_then_question());
    let _ = game.handle(GameCommand::SetPhase(GamePhase::OnQuestion(0)));
    assert_eq!(
        advance_of(&mut game).deliver(),
        vec![to_player(4, SECOND), to_player(5, SECOND), to_teacher(SECOND)]
    );
    let _ = game.handle(GameCommand::SetPhase(GamePhase::OnQuestion(1)));
    assert_eq!(advance_of(&mut game).deliver(), vec![to_teacher(SLIDE)]);
}

#[test]
fn there_is_nothing_behind_the_last_item() {
    let mut game = game_with_players(two_questions());
    let _ = game.handle(GameCommand::SetPhase(GamePhase::OnQuestion(1)));
    let advance = advance_of(&mut game);
    assert!(!advance.has_next());
    assert!(advance.can_move());
    assert_eq!(advance.move_on(), GameCommand::SetPhase(GamePhase::OnQuestion(2)));
    let _ = game.handle(GameCommand::SetPhase(GamePhase::OnQuestion(u64::MAX)));
    assert!(!advance_of(&mut game).has_next());
    assert!(!advance_of(&mut game).can_move());
}

#[test]
fn continuing_twice_skips_nothing() {
    let mut game = game_with_players(two_questions());
    let _ = game.handle(GameCommand::SetPhase(GamePhase::OnQuestion(0)));
    assert_eq!(advance_of(&mut game), advance_of(&mut game));
}

#[test]
fn latecomers_miss_an_advance_that_was_asked_for() {
    let mut game = game_with_players(two_questions());
    let _ = game.handle(GameCommand::SetPhase(GamePhase::OnQuestion(0)));
    let advance = advance_of(&mut game);
    let _ = game.handle(GameCommand::AddPlayer(6));
    assert_eq!(advance.deliver().len(), 3);
    assert_eq!(advance_of(&mut game).deliver().len(), 4);
}

fn run_start(game: &mut Game) -> Vec<GameEffect> {
    let mut effects = Vec::new();
    for command in opening() {
        effects.extend(game.handle(command).effects);
    }
    let reply = Some(game.handle(GameCommand::GetConfig).response);
    assert!(can_follow_up(&reply));
    for command in follow_up(&reply) {
        effects.extend(game.handle(command).effects);
    }
    effects
}

#[test]
fn a_quiz_starts_with_its_first_question() {
    let mut game = game_with_players(two_questions());
    let effects = run_start(&mut game);
    assert_eq!(
        effects,
        vec![
            to_player(4, "gamestart"),
            to_player(5, "gamestart"),
            to_player(4, FIRST_NUMBERED),
            to_player(5, FIRST_NUMBERED),
            to_teacher(FIRST),
        ]
    );
    assert_eq!(game.handle(GameCommand::GetPhase).response, GameResponse::Phase(GamePhase::OnQuestion(0)));
}

#[test]
fn a_slide_show_starts_with_its_first_slide() {
    let mut game = game_with_players(slide_then_question());
    assert_eq!(
        run_start(&mut game),
        vec![to_player(4, "gamestart"), to_player(5, "gamestart"), to_teacher(SLIDE)]
    );
}

#[test]
fn a_start_without_reply_still_tells_the_teacher() {
    assert_eq!(
        opening(),
        vec![
            GameCommand::SetPhase(GamePhase::OnQuestion(0)),
            GameCommand::SendTextToPlayers("gamestart".to_string()),
        ]
    );
    assert!(can_follow_up(&None));
    assert_eq!(follow_up(&None), vec![GameCommand::StartGame]);
    assert_eq!(follow_up(&Some(GameResponse::Nothing)), vec![GameCommand::StartGame]);
    assert!(!can_follow_up(&Some(GameResponse::Config(Config::Slides(vec![])))));
}

#[test]
fn marks_stay_hidden_throughout_a_game() {
    let marked = |correct: bool| -> Config {
        let questions = ["one", "two"]
            .iter()
            .map(|text| Question {
                text: text.to_string(),
                responses: vec![Response { text: "yes".to_string(), correct }],
            })
            .collect();
        Config::Quiz { questions }
    };
    let mut right = game_with_players(marked(true));
    let mut wrong = game_with_players(marked(false));
    assert_eq!(run_start(&mut right), run_start(&mut wrong));
    assert_eq!(advance_of(&mut right).deliver(), advance_of(&mut wrong).deliver());
}

#[test]
fn items_come_in_order() {
    let texts = ["one", "two", "three"];
    let config = Config::Quiz { questions: texts.iter().map(|t| asked(t)).collect() };
    let mut game = game_with_players(config);
    let _ = run_start(&mut game);
    for text in &texts[1..] {
        let advance = advance_of(&mut game);
        let shown = advance.deliver();
        match &shown[2] {
            GameEffect::ToTeacher(TeacherCommand::SendText(message)) => assert!(message.contains(text)),
            other => panic!("unexpected effect: {:?}", other),
        }
        let _ = game.handle(advance.move_on());
    }
    assert!(!advance_of(&mut game).has_next());
}
