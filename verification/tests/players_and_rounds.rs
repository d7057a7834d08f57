use quizroom::activity::{Config, Question, Response, Slide, SlideKind, SlideStyle, SlidesItem};
use quizroom::game::GamePhase;
use quizroom::player::{Player, PlayerCommand, PlayerReaction, PlayerResponse, QUESTION_POINTS};
use quizroom::ranking::rank;
use quizroom::round::{check_answer, Ask, Round};
use quizroom::socket::Frame;
use quizroom::wire::Standing;

fn two_choices(text: &str, right: usize) -> Question {
    Question {
        text: text.to_string(),
        responses: vec![
            Response { text: "a".to_string(), correct: right == 0 },
            Response { text: "b".to_string(), correct: right == 1 },
        ],
    }
}

fn slide_item() -> SlidesItem {
    SlidesItem::Slide(Slide {
        kind: SlideKind::OnlyText(
            "x".to_string(),
            SlideStyle { color: "c".to_string(), font_color: "f".to_string() },
        ),
    })
}

fn said(response: PlayerResponse) -> PlayerReaction {
    PlayerReaction { response, frame: None }
}

fn standing(name: &str, points: u64) -> Standing {
    Standing { name: name.to_string(), points }
}

#[test]
fn a_new_player_has_nothing() {
    let mut player = Player::new("Ann".to_string());
    assert_eq!(player.handle(PlayerCommand::GetCurrAnswer), said(PlayerResponse::CurrentAnswer(None)));
    assert_eq!(
        player.handle(PlayerCommand::GetLeaderboardData),
        said(PlayerResponse::LeaderboardData("Ann".to_string(), 0))
    );
}

#[test]
fn a_correct_answer_counts_once() {
    let mut player = Player::new("Ann".to_string());
    assert_eq!(player.handle(PlayerCommand::UpdateAnswer(1)), said(PlayerResponse::Nothing));
    assert_eq!(player.handle(PlayerCommand::UpdateAnswer(2)), said(PlayerResponse::Nothing));
    assert_eq!(player.handle(PlayerCommand::GetCurrAnswer), said(PlayerResponse::CurrentAnswer(Some(2))));
    assert_eq!(player.handle(PlayerCommand::QuestionCorrect), said(PlayerResponse::Nothing));
    assert_eq!(player.handle(PlayerCommand::GetCurrAnswer), said(PlayerResponse::CurrentAnswer(None)));
    assert_eq!(player.handle(PlayerCommand::QuestionCorrect), said(PlayerResponse::Nothing));
    assert_eq!(QUESTION_POINTS, 600);
    assert_eq!(
        player.handle(PlayerCommand::GetLeaderboardData),
        said(PlayerResponse::LeaderboardData("Ann".to_string(), 1200))
    );
}

#[test]
fn points_have_a_limit() {
    let player = Player { name: "Ann".to_string(), points: u64::MAX - 600, curr_answer: None };
    assert!(player.can_score());
    let full = Player { name: "Ann".to_string(), points: u64::MAX - 599, curr_answer: None };
    assert!(!full.can_score());
}

#[test]
fn texts_and_pongs_go_out_on_the_socket() {
    let mut player = Player::new("Ann".to_string());
    assert_eq!(
        player.handle(PlayerCommand::SendText("hello".to_string())),
        PlayerReaction { response: PlayerResponse::Nothing, frame: Some(Frame::Text("hello".to_string())) }
    );
    assert_eq!(
        player.handle(PlayerCommand::Pong(vec![1, 2])),
        PlayerReaction { response: PlayerResponse::Nothing, frame: Some(Frame::Pong(vec![1, 2])) }
    );
}

#[test]
fn ranking_descends_and_keeps_ties_in_order() {
    let standings = vec![
        standing("a", 600),
        standing("b", 1200),
        standing("c", 600),
        standing("d", 0),
        standing("e", 1200),
    ];
    let ranked = rank(&standings);
    let names: Vec<&str> = ranked.iter().map(|s| s.name.as_str()).collect();
    assert_eq!(names, vec!["b", "e", "a", "c", "d"]);
    assert_eq!(rank(&ranked), ranked);
    assert_eq!(rank(&vec![]), vec![]);
}

#[test]
fn answers_are_checked_against_the_item() {
    let quiz = Config::Quiz { questions: vec![two_choices("p", 0), two_choices("q", 1)] };
    assert!(check_answer(&quiz, GamePhase::OnQuestion(0), 0));
    assert!(!check_answer(&quiz, GamePhase::OnQuestion(0), 1));
    assert!(check_answer(&quiz, GamePhase::OnQuestion(1), 1));
    assert!(!check_answer(&quiz, GamePhase::Lobby, 0));
    let show = Config::Slides(vec![slide_item(), SlidesItem::Question(two_choices("q", 1))]);
    assert!(!check_answer(&show, GamePhase::OnQuestion(0), 5));
    assert!(check_answer(&show, GamePhase::OnQuestion(1), 1));
}

#[test]
fn a_round_asks_everyone_and_publishes() {
    let quiz = Config::Quiz { questions: vec![two_choices("q", 1)] };
    let mut round = Round::new(vec![7, 8, 9], GamePhase::OnQuestion(0), quiz);
    assert_eq!(round.ask(), Ask::Answer(7));
    assert_eq!(round.take(Some(PlayerResponse::CurrentAnswer(Some(1)))), Some(7));
    assert_eq!(round.ask(), Ask::Answer(8));
    assert_eq!(round.take(Some(PlayerResponse::CurrentAnswer(Some(0)))), None);
    assert_eq!(round.ask(), Ask::Answer(9));
    assert_eq!(round.take(Some(PlayerResponse::CurrentAnswer(None))), None);
    assert_eq!(round.ask(), Ask::Standing(7));
    assert_eq!(round.take(Some(PlayerResponse::LeaderboardData("Ann".to_string(), 600))), None);
    assert_eq!(round.ask(), Ask::Standing(8));
    assert_eq!(round.take(None), None);
    assert_eq!(round.ask(), Ask::Standing(9));
    assert_eq!(round.take(Some(PlayerResponse::LeaderboardData("Cid".to_string(), 1200))), None);
    assert_eq!(round.ask(), Ask::Publish);
    assert_eq!(
        round.publish(),
        "{\"event\":\"leaderboard\",\"leaderboard\":[{\"name\":\"Cid\",\"points\":1200},{\"name\":\"Ann\",\"points\":600}]}"
    );
}

#[test]
fn a_round_without_players_publishes_at_once() {
    let quiz = Config::Quiz { questions: vec![] };
    let round = Round::new(vec![], GamePhase::Lobby, quiz);
    assert_eq!(round.ask(), Ask::Publish);
    assert_eq!(round.publish(), "{\"event\":\"leaderboard\",\"leaderboard\":[]}");
}

#[test]
fn a_round_refuses_answers_that_are_not_offered() {
    let quiz = Config::Quiz { questions: vec![two_choices("q", 1)] };
    let round = Round::new(vec![7], GamePhase::OnQuestion(0), quiz.clone());
    assert!(round.accepts(&Some(PlayerResponse::CurrentAnswer(Some(1)))));
    assert!(!round.accepts(&Some(PlayerResponse::CurrentAnswer(Some(2)))));
    assert!(round.accepts(&Some(PlayerResponse::CurrentAnswer(None))));
    assert!(round.accepts(&None));
    let past_the_end = Round::new(vec![7], GamePhase::OnQuestion(1), quiz.clone());
    assert!(!past_the_end.accepts(&Some(PlayerResponse::CurrentAnswer(Some(0)))));
    let lobby = Round::new(vec![7], GamePhase::Lobby, quiz);
    assert!(lobby.accepts(&Some(PlayerResponse::CurrentAnswer(Some(9)))));
}

fn run_round(players: &mut Vec<Player>, quiz: Config) -> (String, Vec<u64>) {
    let mut all_credited = Vec::new();
    let mut round = Round::new(vec![0, 1], GamePhase::OnQuestion(0), quiz);
    loop {
        let (number, command) = match round.ask() {
            Ask::Answer(n) => (n, PlayerCommand::GetCurrAnswer),
            Ask::Standing(n) => (n, PlayerCommand::GetLeaderboardData),
            Ask::Publish => return (round.publish(), all_credited),
        };
        let reply = players[number as usize].handle(command).response;
        if let Some(credited) = round.take(Some(reply)) {
            all_credited.push(credited);
            let _ = players[credited as usize].handle(PlayerCommand::QuestionCorrect);
        }
    }
}

fn answering_players() -> Vec<Player> {
    let mut players = vec![Player::new("Ann".to_string()), Player::new("Bob".to_string())];
    let _ = players[0].handle(PlayerCommand::UpdateAnswer(0));
    let _ = players[1].handle(PlayerCommand::UpdateAnswer(1));
    players
}

#[test]
fn a_second_leaderboard_is_the_same() {
    let quiz = Config::Quiz { questions: vec![two_choices("q", 1)] };
    let mut players = answering_players();
    let (first, credited) = run_round(&mut players, quiz.clone());
    assert_eq!(credited, vec![1]);
    let (second, credited) = run_round(&mut players, quiz);
    assert!(credited.is_empty());
    assert_eq!(first, second);
}

#[test]
fn the_leaderboard_includes_the_round() {
    let quiz = Config::Quiz { questions: vec![two_choices("q", 1)] };
    let mut players = answering_players();
    let (text, _) = run_round(&mut players, quiz);
    assert_eq!(
        text,
        "{\"event\":\"leaderboard\",\"leaderboard\":[{\"name\":\"Bob\",\"points\":600},{\"name\":\"Ann\",\"points\":0}]}"
    );
    assert_eq!(players[0].curr_answer, Some(0));
    assert_eq!(players[1].curr_answer, None);
}
