//! Players: their points and their current answer.
use crate::socket::{Frame, FrameView};
use vstd::prelude::*;

verus! {

/// What a correct answer is worth.
pub const QUESTION_POINTS: u64 = 600;

/// A player of a game.
#[derive(Debug, PartialEq, Eq)]
pub struct Player {
    pub name: String,
    pub points: u64,
    pub curr_answer: Option<u64>,
}

pub struct PlayerView {
    pub name: Seq<char>,
    pub points: u64,
    pub curr_answer: Option<u64>,
}

impl View for Player {
    type V = PlayerView;

    open spec fn view(&self) -> PlayerView {
        PlayerView { name: self.name@, points: self.points, curr_answer: self.curr_answer }
    }
}

/// What a player can be told or asked.
#[derive(Debug, PartialEq, Eq)]
pub enum PlayerCommand {
    SendText(String),
    QuestionCorrect,
    UpdateAnswer(u64),
    GetCurrAnswer,
    Pong(Vec<u8>),
    GetLeaderboardData,
}

pub enum PlayerCommandView {
    SendText(Seq<char>),
    QuestionCorrect,
    UpdateAnswer(u64),
    GetCurrAnswer,
    Pong(Seq<u8>),
    GetLeaderboardData,
}

impl View for PlayerCommand {
    type V = PlayerCommandView;

    open spec fn view(&self) -> PlayerCommandView {
        match self {
            PlayerCommand::SendText(text) => PlayerCommandView::SendText(text@),
            PlayerCommand::QuestionCorrect => PlayerCommandView::QuestionCorrect,
            PlayerCommand::UpdateAnswer(answer) => PlayerCommandView::UpdateAnswer(*answer),
            PlayerCommand::GetCurrAnswer => PlayerCommandView::GetCurrAnswer,
            PlayerCommand::Pong(bytes) => PlayerCommandView::Pong(bytes@),
            PlayerCommand::GetLeaderboardData => PlayerCommandView::GetLeaderboardData,
        }
    }
}

/// What a player answers.
#[derive(Debug, PartialEq, Eq)]
pub enum PlayerResponse {
    CurrentAnswer(Option<u64>),
    LeaderboardData(String, u64),
    Nothing,
}

pub enum PlayerResponseView {
    CurrentAnswer(Option<u64>),
    LeaderboardData(Seq<char>, u64),
    Nothing,
}

impl View for PlayerResponse {
    type V = PlayerResponseView;

    open spec fn view(&self) -> PlayerResponseView {
        match self {
            PlayerResponse::CurrentAnswer(answer) => PlayerResponseView::CurrentAnswer(*answer),
            PlayerResponse::LeaderboardData(name, points) => PlayerResponseView::LeaderboardData(
                name@,
                *points,
            ),
            PlayerResponse::Nothing => PlayerResponseView::Nothing,
        }
    }
}

/// A player's answer, and what goes out on the player's socket.
#[derive(Debug, PartialEq, Eq)]
pub struct PlayerReaction {
    pub response: PlayerResponse,
    pub frame: Option<Frame>,
}

impl PlayerView {
    /// A player who has just joined.
    pub open spec fn fresh(name: Seq<char>) -> PlayerView {
        PlayerView { name, points: 0, curr_answer: None }
    }

    /// Whether one more correct answer can be counted.
    pub open spec fn can_score(self) -> bool {
        self.points + QUESTION_POINTS <= u64::MAX
    }

    /// The player after a command. A correct answer is counted and taken back; a wrong one stays.
    pub open spec fn after(self, command: PlayerCommandView) -> PlayerView {
        match command {
            PlayerCommandView::QuestionCorrect => PlayerView {
                points: (self.points + QUESTION_POINTS) as u64,
                curr_answer: None,
                ..self
            },
            PlayerCommandView::UpdateAnswer(answer) => PlayerView {
                curr_answer: Some(answer),
                ..self
            },
            _ => self,
        }
    }

    /// What the player answers to a command.
    pub open spec fn response(self, command: PlayerCommandView) -> PlayerResponseView {
        match command {
            PlayerCommandView::GetCurrAnswer => PlayerResponseView::CurrentAnswer(self.curr_answer),
            PlayerCommandView::GetLeaderboardData => PlayerResponseView::LeaderboardData(
                self.name,
                self.points,
            ),
            _ => PlayerResponseView::Nothing,
        }
    }

    /// The player after several commands.
    pub open spec fn after_all(self, commands: Seq<PlayerCommandView>) -> PlayerView
        decreases commands.len(),
    {
        if commands.len() == 0 {
            self
        } else {
            self.after_all(commands.drop_last()).after(commands.last())
        }
    }
}

/// What goes out on a player's socket because of a command.
pub open spec fn player_frame(command: PlayerCommandView) -> Option<FrameView> {
    match command {
        PlayerCommandView::SendText(text) => Some(FrameView::Text(text)),
        PlayerCommandView::Pong(bytes) => Some(FrameView::Pong(bytes)),
        _ => None,
    }
}

impl Player {
    /// A player who has just joined.
    pub fn new(name: String) -> (player: Player)
        ensures
            player@ == PlayerView::fresh(name@),
    {
        Player { name, points: 0, curr_answer: None }
    }

    /// Whether one more correct answer can be counted.
    pub fn can_score(&self) -> (result: bool)
        ensures
            result == self@.can_score(),
    {
        self.points <= u64::MAX - QUESTION_POINTS
    }

    /// Carries out a command.
    pub fn handle(&mut self, msg: PlayerCommand) -> (reaction: PlayerReaction)
        requires
            msg is QuestionCorrect ==> old(self)@.can_score(),
        ensures
            final(self)@ == old(self)@.after(msg@),
            reaction.response@ == old(self)@.response(msg@),
            match reaction.frame {
                Some(frame) => player_frame(msg@) == Some(frame@),
                None => player_frame(msg@) is None,
            },
    {
        match msg {
            PlayerCommand::SendText(text) => PlayerReaction {
                response: PlayerResponse::Nothing,
                frame: Some(Frame::Text(text)),
            },
            PlayerCommand::QuestionCorrect => {
                self.points = self.points + QUESTION_POINTS;
                self.curr_answer = None;
                PlayerReaction { response: PlayerResponse::Nothing, frame: None }
            },
            PlayerCommand::GetCurrAnswer => PlayerReaction {
                response: PlayerResponse::CurrentAnswer(self.curr_answer),
                frame: None,
            },
            PlayerCommand::GetLeaderboardData => PlayerReaction {
                response: PlayerResponse::LeaderboardData(self.name.clone(), self.points),
                frame: None,
            },
            PlayerCommand::UpdateAnswer(answer) => {
                self.curr_answer = Some(answer);
                PlayerReaction { response: PlayerResponse::Nothing, frame: None }
            },
            PlayerCommand::Pong(bytes) => PlayerReaction {
                response: PlayerResponse::Nothing,
                frame: Some(Frame::Pong(bytes)),
            },
        }
    }
}

/// How many of `commands` count a correct answer.
pub open spec fn correct_count(commands: Seq<PlayerCommandView>) -> nat
    decreases commands.len(),
{
    if commands.len() == 0 {
        0
    } else if commands.last() is QuestionCorrect {
        correct_count(commands.drop_last()) + 1
    } else {
        correct_count(commands.drop_last())
    }
}

/// The answer that a player gave last, unless it has been counted since.
pub open spec fn open_answer(commands: Seq<PlayerCommandView>) -> Option<u64>
    decreases commands.len(),
{
    if commands.len() == 0 {
        None
    } else {
        match commands.last() {
            PlayerCommandView::UpdateAnswer(answer) => Some(answer),
            PlayerCommandView::QuestionCorrect => None,
            _ => open_answer(commands.drop_last()),
        }
    }
}

/// Whatever a new player is told: the points are 600 for each correct answer that was counted, the
/// current answer is the last one that was given and not counted since, and the name stays.
pub proof fn law_player_history(name: Seq<char>, commands: Seq<PlayerCommandView>)
    requires
        QUESTION_POINTS * correct_count(commands) <= u64::MAX,
    ensures
        PlayerView::fresh(name).after_all(commands) == (PlayerView {
            name,
            points: (QUESTION_POINTS * correct_count(commands)) as u64,
            curr_answer: open_answer(commands),
        }),
    decreases commands.len(),
{
    if commands.len() > 0 {
        law_player_history(name, commands.drop_last());
    }
}

/// A player reports an answer until it is counted or replaced.
pub proof fn law_answer_is_kept(
    player: PlayerView,
    answer: u64,
    later: Seq<PlayerCommandView>,
)
    requires
        forall|i: int|
            0 <= i < later.len() ==> !((#[trigger] later[i]) is QuestionCorrect)
                && !(later[i] is UpdateAnswer),
    ensures
        player.after(PlayerCommandView::UpdateAnswer(answer)).after_all(later).response(
            PlayerCommandView::GetCurrAnswer,
        ) == PlayerResponseView::CurrentAnswer(Some(answer)),
    decreases later.len(),
{
    if later.len() > 0 {
        assert(later.last() == later[later.len() - 1]);
        law_answer_is_kept(player, answer, later.drop_last());
    }
}

/// An answer is counted once: after it was, the player has none.
pub proof fn law_counted_answer_is_gone(player: PlayerView)
    ensures
        player.after(PlayerCommandView::QuestionCorrect).response(PlayerCommandView::GetCurrAnswer)
            == PlayerResponseView::CurrentAnswer(None),
{
}

/// What a command does to a player: only a correct answer gives points, 600 of them, and it takes
/// the answer back; only a new answer is put in place of the old one; the name stays. The player
/// reports the answer, and the name with the points, as they are, and nothing else.
pub proof fn law_what_a_command_does_to_a_player(player: PlayerView, command: PlayerCommandView)
    requires
        command is QuestionCorrect ==> player.points + 600 <= u64::MAX,
    ensures
        player.after(command).name == player.name,
        player.after(command).points == player.points + if command is QuestionCorrect {
            600int
        } else {
            0
        },
        player.after(command).curr_answer == match command {
            PlayerCommandView::QuestionCorrect => None,
            PlayerCommandView::UpdateAnswer(answer) => Some(answer),
            _ => player.curr_answer,
        },
        command is GetCurrAnswer ==> player.response(command)
            == PlayerResponseView::CurrentAnswer(player.curr_answer),
        command is GetLeaderboardData ==> player.response(command)
            == PlayerResponseView::LeaderboardData(player.name, player.points),
        !(command is GetCurrAnswer) && !(command is GetLeaderboardData) ==> player.response(command)
            == PlayerResponseView::Nothing,
{
}

/// A player can score exactly as long as the points do not overflow.
pub proof fn law_room_for_points(player: PlayerView)
    ensures
        player.can_score() <==> player.points + 600 <= u64::MAX,
{
}

/// Whoever joins has the given name, no points and no answer.
pub proof fn law_newcomer_starts_with_nothing(name: Seq<char>)
    ensures
        PlayerView::fresh(name).name == name,
        PlayerView::fresh(name).points == 0,
        PlayerView::fresh(name).curr_answer is None,
{
}

/// A text and a pong go out on the player's socket unaltered; nothing else goes out.
pub proof fn law_what_goes_out_to_a_player(command: PlayerCommandView)
    ensures
        match command {
            PlayerCommandView::SendText(text) => player_frame(command) == Some(
                FrameView::Text(text),
            ),
            PlayerCommandView::Pong(bytes) => player_frame(command) == Some(FrameView::Pong(bytes)),
            _ => player_frame(command) is None,
        },
{
}

/// Players, commands and responses are seen whole.
pub proof fn law_players_are_viewed_whole(
    player: Player,
    command: PlayerCommand,
    response: PlayerResponse,
)
    ensures
        player@.name == player.name@,
        player@.points == player.points,
        player@.curr_answer == player.curr_answer,
        match command {
            PlayerCommand::SendText(text) => command@ == PlayerCommandView::SendText(text@),
            PlayerCommand::QuestionCorrect => command@ is QuestionCorrect,
            PlayerCommand::UpdateAnswer(answer) => command@ == PlayerCommandView::UpdateAnswer(
                answer,
            ),
            PlayerCommand::GetCurrAnswer => command@ is GetCurrAnswer,
            PlayerCommand::Pong(bytes) => command@ == PlayerCommandView::Pong(bytes@),
            PlayerCommand::GetLeaderboardData => command@ is GetLeaderboardData,
        },
        match response {
            PlayerResponse::CurrentAnswer(answer) => response@
                == PlayerResponseView::CurrentAnswer(answer),
            PlayerResponse::LeaderboardData(name, points) => response@
                == PlayerResponseView::LeaderboardData(name@, points),
            PlayerResponse::Nothing => response@ is Nothing,
        },
{
}

} // verus!
