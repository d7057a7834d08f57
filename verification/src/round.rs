//! The end of a question: each player is asked for the answer, correct answers are counted, then
//! each player is asked for the points, and the leaderboard is made up.
use crate::activity::{
    Config, ConfigView, Question, QuestionView, Shown, SlidesItem, SlidesItemView,
};
use crate::game::GamePhase;
use crate::json::{parsed, rendered};
use crate::player::{PlayerCommandView, PlayerResponse, PlayerResponseView, PlayerView};
use crate::ranking::{rank, ranking};
use crate::wire::{Standing, StandingView, leaderboard, leaderboard_text, standing_views};
use vstd::prelude::*;

verus! {

/// The making of a leaderboard. The players are asked one after the other, and one question is
/// open at a time.
#[derive(Debug, PartialEq, Eq)]
pub struct Round {
    players: Vec<u64>,
    phase: GamePhase,
    config: Config,
    graded: usize,
    polled: usize,
    standings: Vec<Standing>,
}

pub struct RoundView {
    /// The players, in the order in which they are asked.
    pub players: Seq<u64>,
    pub phase: GamePhase,
    pub config: ConfigView,
    /// How many players have been asked for their answers.
    pub graded: nat,
    /// How many players have been asked for their points.
    pub polled: nat,
    /// The standings that have come in.
    pub standings: Seq<StandingView>,
}

impl View for Round {
    type V = RoundView;

    closed spec fn view(&self) -> RoundView {
        RoundView {
            players: self.players@,
            phase: self.phase,
            config: self.config@,
            graded: self.graded as nat,
            polled: self.polled as nat,
            standings: standing_views(self.standings@),
        }
    }
}

/// What is to be done next.
#[derive(Debug, PartialEq, Eq, Clone, Copy, Structural)]
pub enum Ask {
    /// Ask this player for the current answer.
    Answer(u64),
    /// Ask this player for name and points.
    Standing(u64),
    /// Publish the leaderboard: all players have been asked.
    Publish,
}

/// Whether a response of a question is marked as correct.
pub open spec fn marked_correct(question: QuestionView, answer: u64) -> bool {
    question.responses[answer as int].correct
}

/// Whether an answer in a phase is correct. In the lobby and on a slide none is.
pub open spec fn is_correct(config: ConfigView, phase: GamePhase, answer: u64) -> bool {
    match phase {
        GamePhase::Lobby => false,
        GamePhase::OnQuestion(n) => match config.item(n as int) {
            SlidesItemView::Question(question) => marked_correct(question, answer),
            SlidesItemView::Slide(_) => false,
        },
    }
}

/// Whether an answer in a phase can be looked up: the item is there, and where it is a question,
/// it offers the response.
pub open spec fn answerable(config: ConfigView, phase: GamePhase, answer: u64) -> bool {
    match phase {
        GamePhase::Lobby => true,
        GamePhase::OnQuestion(n) => {
            &&& n < config.len()
            &&& match config.item(n as int) {
                SlidesItemView::Question(question) => answer < question.responses.len(),
                SlidesItemView::Slide(_) => true,
            }
        },
    }
}

/// Tells whether an answer in a phase can be looked up.
fn can_answer(config: &Config, phase: GamePhase, answer: u64) -> (result: bool)
    ensures
        result == answerable(config@, phase, answer),
{
    match phase {
        GamePhase::Lobby => true,
        GamePhase::OnQuestion(n) => config.has_item(n) && match config.item(n) {
            Shown::Question(question) => answer < question.responses.len() as u64,
            Shown::Slide(_) => true,
        },
    }
}

/// Looks up whether an answer in a phase is correct.
pub fn check_answer(config: &Config, phase: GamePhase, answer: u64) -> (result: bool)
    requires
        answerable(config@, phase, answer),
    ensures
        result == is_correct(config@, phase, answer),
{
    match phase {
        GamePhase::Lobby => false,
        GamePhase::OnQuestion(n) => match config.item(n) {
            Shown::Question(question) => {
                assert(answer < question.responses.len());
                question.responses[answer as usize].correct
            },
            Shown::Slide(_) => false,
        },
    }
}

/// The reply of a player, where there is one.
pub open spec fn reply_view(reply: Option<PlayerResponse>) -> Option<PlayerResponseView> {
    match reply {
        Some(response) => Some(response@),
        None => None,
    }
}

/// The answer in a reply, where the player was reached and has one.
pub open spec fn answer_in(reply: Option<PlayerResponseView>) -> Option<u64> {
    match reply {
        Some(PlayerResponseView::CurrentAnswer(answer)) => answer,
        _ => None,
    }
}

/// The standing in a reply, where the player was reached.
pub open spec fn standing_in(reply: Option<PlayerResponseView>) -> Option<StandingView> {
    match reply {
        Some(PlayerResponseView::LeaderboardData(name, points)) => Some(
            StandingView { name, points },
        ),
        _ => None,
    }
}

impl RoundView {
    /// A round that has not begun.
    pub open spec fn fresh(players: Seq<u64>, phase: GamePhase, config: ConfigView) -> RoundView {
        RoundView { players, phase, config, graded: 0, polled: 0, standings: Seq::empty() }
    }

    /// What is to be done next: first all answers, then all standings, then the leaderboard.
    pub open spec fn ask(self) -> Ask {
        if self.graded < self.players.len() {
            Ask::Answer(self.players[self.graded as int])
        } else if self.polled < self.players.len() {
            Ask::Standing(self.players[self.polled as int])
        } else {
            Ask::Publish
        }
    }

    /// Whether a reply can be dealt with: an answer must be one that can be looked up.
    pub open spec fn accepts(self, reply: Option<PlayerResponseView>) -> bool {
        match (self.ask(), answer_in(reply)) {
            (Ask::Answer(_), Some(answer)) => answerable(self.config, self.phase, answer),
            _ => true,
        }
    }

    /// The player whose answer counts because of a reply, where one does.
    pub open spec fn credited(self, reply: Option<PlayerResponseView>) -> Option<u64> {
        match (self.ask(), answer_in(reply)) {
            (Ask::Answer(player), Some(answer)) => if is_correct(self.config, self.phase, answer) {
                Some(player)
            } else {
                None
            },
            _ => None,
        }
    }

    /// The round after a reply to what was asked.
    pub open spec fn after(self, reply: Option<PlayerResponseView>) -> RoundView {
        match self.ask() {
            Ask::Answer(_) => RoundView { graded: self.graded + 1, ..self },
            Ask::Standing(_) => RoundView {
                polled: self.polled + 1,
                standings: match standing_in(reply) {
                    Some(standing) => self.standings.push(standing),
                    None => self.standings,
                },
                ..self
            },
            Ask::Publish => self,
        }
    }
}

impl Round {
    /// A round for these players, on the item that the phase names.
    pub fn new(players: Vec<u64>, phase: GamePhase, config: Config) -> (round: Round)
        ensures
            round@ == RoundView::fresh(players@, phase, config@),
    {
        let round = Round { players, phase, config, graded: 0, polled: 0, standings: Vec::new() };
        assert(round@.standings =~= Seq::<StandingView>::empty());
        round
    }

    /// What is to be done next.
    pub fn ask(&self) -> (ask: Ask)
        ensures
            ask == self@.ask(),
    {
        if self.graded < self.players.len() {
            Ask::Answer(self.players[self.graded])
        } else if self.polled < self.players.len() {
            Ask::Standing(self.players[self.polled])
        } else {
            Ask::Publish
        }
    }

    /// Whether a reply can be dealt with.
    pub fn accepts(&self, reply: &Option<PlayerResponse>) -> (result: bool)
        ensures
            result == self@.accepts(reply_view(*reply)),
    {
        match (self.ask(), reply) {
            (Ask::Answer(_), Some(PlayerResponse::CurrentAnswer(Some(answer)))) => can_answer(
                &self.config,
                self.phase,
                *answer,
            ),
            _ => true,
        }
    }

    /// Takes the reply to what was asked; there is none where the player was not reached. Gives the
    /// player whose answer is now to be counted.
    pub fn take(&mut self, reply: Option<PlayerResponse>) -> (credited: Option<u64>)
        requires
            old(self)@.accepts(reply_view(reply)),
        ensures
            final(self)@ == old(self)@.after(reply_view(reply)),
            credited == old(self)@.credited(reply_view(reply)),
    {
        match self.ask() {
            Ask::Answer(player) => {
                assert(self.graded < self.players.len());
                self.graded = self.graded + 1;
                match reply {
                    Some(PlayerResponse::CurrentAnswer(Some(answer))) => {
                        if check_answer(&self.config, self.phase, answer) {
                            Some(player)
                        } else {
                            None
                        }
                    },
                    _ => None,
                }
            },
            Ask::Standing(_) => {
                assert(self.polled < self.players.len());
                self.polled = self.polled + 1;
                match reply {
                    Some(PlayerResponse::LeaderboardData(name, points)) => {
                        let ghost before = standing_views(self.standings@);
                        let standing = Standing { name, points };
                        self.standings.push(standing);
                        assert(standing_views(self.standings@) =~= before.push(standing@));
                    },
                    _ => {},
                }
                None
            },
            Ask::Publish => None,
        }
    }

    /// The text of the leaderboard, of the standings that have come in.
    pub fn publish(&self) -> (text: String)
        requires
            self@.ask() is Publish,
        ensures
            text@ == rendered(leaderboard(ranking(self@.standings))),
            parsed(text@) == Some(leaderboard(ranking(self@.standings))),
    {
        leaderboard_text(&rank(&self.standings))
    }
}

// ---- A round from its beginning to its end ----

impl RoundView {
    /// The round after several replies.
    pub open spec fn after_all(self, replies: Seq<Option<PlayerResponseView>>) -> RoundView
        decreases replies.len(),
    {
        if replies.len() == 0 {
            self
        } else {
            self.after_all(replies.drop_last()).after(replies.last())
        }
    }

    /// The players whose answers count because of several replies, in the order of the replies.
    pub open spec fn credited_all(self, replies: Seq<Option<PlayerResponseView>>) -> Seq<u64>
        decreases replies.len(),
    {
        if replies.len() == 0 {
            Seq::empty()
        } else {
            let before = self.credited_all(replies.drop_last());
            match self.after_all(replies.drop_last()).credited(replies.last()) {
                Some(player) => before.push(player),
                None => before,
            }
        }
    }
}

/// Those of `players` whose answers are correct, in their order. The replies are in the order of
/// the players.
pub open spec fn correct_players(
    players: Seq<u64>,
    phase: GamePhase,
    config: ConfigView,
    answers: Seq<Option<PlayerResponseView>>,
) -> Seq<u64>
    decreases answers.len(),
{
    if answers.len() == 0 {
        Seq::empty()
    } else {
        let before = correct_players(players, phase, config, answers.drop_last());
        match answer_in(answers.last()) {
            Some(answer) => if is_correct(config, phase, answer) {
                before.push(players[answers.len() - 1])
            } else {
                before
            },
            None => before,
        }
    }
}

/// The standings in several replies, in their order.
pub open spec fn standings_in(replies: Seq<Option<PlayerResponseView>>) -> Seq<StandingView>
    decreases replies.len(),
{
    if replies.len() == 0 {
        Seq::empty()
    } else {
        let before = standings_in(replies.drop_last());
        match standing_in(replies.last()) {
            Some(standing) => before.push(standing),
            None => before,
        }
    }
}

/// The first half of a round: the answers.
proof fn lemma_grading(
    players: Seq<u64>,
    phase: GamePhase,
    config: ConfigView,
    answers: Seq<Option<PlayerResponseView>>,
)
    requires
        answers.len() <= players.len(),
    ensures
        RoundView::fresh(players, phase, config).after_all(answers) == (RoundView {
            graded: answers.len(),
            ..RoundView::fresh(players, phase, config)
        }),
        RoundView::fresh(players, phase, config).credited_all(answers) == correct_players(
            players,
            phase,
            config,
            answers,
        ),
    decreases answers.len(),
{
    if answers.len() > 0 {
        lemma_grading(players, phase, config, answers.drop_last());
    }
}

/// The second half of a round: the standings.
proof fn lemma_polling(
    players: Seq<u64>,
    phase: GamePhase,
    config: ConfigView,
    answers: Seq<Option<PlayerResponseView>>,
    polls: Seq<Option<PlayerResponseView>>,
)
    requires
        answers.len() == players.len(),
        polls.len() <= players.len(),
    ensures
        RoundView::fresh(players, phase, config).after_all(answers + polls) == (RoundView {
            graded: players.len(),
            polled: polls.len(),
            standings: standings_in(polls),
            ..RoundView::fresh(players, phase, config)
        }),
        RoundView::fresh(players, phase, config).credited_all(answers + polls) == correct_players(
            players,
            phase,
            config,
            answers,
        ),
    decreases polls.len(),
{
    if polls.len() == 0 {
        assert(answers + polls =~= answers);
        lemma_grading(players, phase, config, answers);
    } else {
        assert((answers + polls).drop_last() =~= answers + polls.drop_last());
        assert((answers + polls).last() == polls.last());
        lemma_polling(players, phase, config, answers, polls.drop_last());
    }
}

/// A round comes to its end after two replies of each player. Exactly those players have been
/// credited whose answers are correct, each once, and the leaderboard is made of exactly the
/// standings that came in.
pub proof fn law_round(
    players: Seq<u64>,
    phase: GamePhase,
    config: ConfigView,
    answers: Seq<Option<PlayerResponseView>>,
    polls: Seq<Option<PlayerResponseView>>,
)
    requires
        answers.len() == players.len(),
        polls.len() == players.len(),
    ensures
        ({
            let round = RoundView::fresh(players, phase, config);
            &&& round.after_all(answers + polls).ask() is Publish
            &&& round.after_all(answers + polls).standings == standings_in(polls)
            &&& round.credited_all(answers + polls) == correct_players(
                players,
                phase,
                config,
                answers,
            )
        }),
{
    lemma_polling(players, phase, config, answers, polls);
}

/// A round does not end early: until each player has replied twice, someone is still to be asked.
pub proof fn law_round_asks_everyone(
    players: Seq<u64>,
    phase: GamePhase,
    config: ConfigView,
    replies: Seq<Option<PlayerResponseView>>,
)
    requires
        replies.len() < 2 * players.len(),
    ensures
        ({
            let round = RoundView::fresh(players, phase, config);
            let n = replies.len() as int;
            round.after_all(replies).ask() == if n < players.len() {
                Ask::Answer(players[n])
            } else {
                Ask::Standing(players[n - players.len()])
            }
        }),
{
    let n = players.len() as int;
    if replies.len() < n {
        lemma_grading(players, phase, config, replies);
    } else {
        assert(replies =~= replies.take(n) + replies.skip(n));
        lemma_polling(players, phase, config, replies.take(n), replies.skip(n));
    }
}

/// The players after the answers have been counted.
pub open spec fn scored(
    players: Seq<PlayerView>,
    phase: GamePhase,
    config: ConfigView,
) -> Seq<PlayerView> {
    Seq::new(
        players.len(),
        |i: int|
            match players[i].curr_answer {
                Some(answer) => if is_correct(config, phase, answer) {
                    players[i].after(PlayerCommandView::QuestionCorrect)
                } else {
                    players[i]
                },
                None => players[i],
            },
    )
}

/// The replies of players to a question, in their order.
pub open spec fn replies_of(
    players: Seq<PlayerView>,
    command: PlayerCommandView,
) -> Seq<Option<PlayerResponseView>> {
    Seq::new(players.len(), |i: int| Some(players[i].response(command)))
}

/// Where players stand, in their order.
pub open spec fn standings_of(players: Seq<PlayerView>) -> Seq<StandingView> {
    Seq::new(
        players.len(),
        |i: int| StandingView { name: players[i].name, points: players[i].points },
    )
}

/// Players who are all reached have all their standings come in.
proof fn lemma_standings_of(players: Seq<PlayerView>)
    ensures
        standings_in(replies_of(players, PlayerCommandView::GetLeaderboardData)) == standings_of(
            players,
        ),
    decreases players.len(),
{
    let replies = replies_of(players, PlayerCommandView::GetLeaderboardData);
    if players.len() > 0 {
        lemma_standings_of(players.drop_last());
        assert(replies.drop_last() =~= replies_of(
            players.drop_last(),
            PlayerCommandView::GetLeaderboardData,
        ));
        assert(standings_of(players) =~= standings_of(players.drop_last()).push(
            StandingView { name: players.last().name, points: players.last().points },
        ));
    } else {
        assert(standings_of(players) =~= Seq::<StandingView>::empty());
    }
}

/// Where every player is reached, and those who are credited have it counted before they are asked
/// for their points, the leaderboard shows every player with the points that include this round.
pub proof fn law_leaderboard_includes_round(
    numbers: Seq<u64>,
    players: Seq<PlayerView>,
    phase: GamePhase,
    config: ConfigView,
)
    requires
        numbers.len() == players.len(),
    ensures
        ({
            let counted = scored(players, phase, config);
            RoundView::fresh(numbers, phase, config).after_all(
                replies_of(players, PlayerCommandView::GetCurrAnswer) + replies_of(
                    counted,
                    PlayerCommandView::GetLeaderboardData,
                ),
            ).standings == standings_of(counted)
        }),
{
    let counted = scored(players, phase, config);
    lemma_standings_of(counted);
    law_round(
        numbers,
        phase,
        config,
        replies_of(players, PlayerCommandView::GetCurrAnswer),
        replies_of(counted, PlayerCommandView::GetLeaderboardData),
    );
}

/// Where no answer is correct, no one is credited.
proof fn lemma_no_one_correct(
    players: Seq<u64>,
    phase: GamePhase,
    config: ConfigView,
    answers: Seq<Option<PlayerResponseView>>,
)
    requires
        forall|i: int|
            0 <= i < answers.len() ==> match answer_in(#[trigger] answers[i]) {
                Some(answer) => !is_correct(config, phase, answer),
                None => true,
            },
    ensures
        correct_players(players, phase, config, answers) == Seq::<u64>::empty(),
    decreases answers.len(),
{
    if answers.len() > 0 {
        assert(answers.last() == answers[answers.len() - 1]);
        lemma_no_one_correct(players, phase, config, answers.drop_last());
    }
}

/// A second leaderboard, with nothing said in between, credits no one, leaves every player as they
/// are, and shows what the first one showed.
pub proof fn law_second_leaderboard_is_the_same(
    numbers: Seq<u64>,
    players: Seq<PlayerView>,
    phase: GamePhase,
    config: ConfigView,
)
    requires
        numbers.len() == players.len(),
    ensures
        ({
            let counted = scored(players, phase, config);
            let again = scored(counted, phase, config);
            let round = RoundView::fresh(numbers, phase, config);
            let first = replies_of(players, PlayerCommandView::GetCurrAnswer) + replies_of(
                counted,
                PlayerCommandView::GetLeaderboardData,
            );
            let second = replies_of(counted, PlayerCommandView::GetCurrAnswer) + replies_of(
                again,
                PlayerCommandView::GetLeaderboardData,
            );
            &&& again == counted
            &&& round.credited_all(second) == Seq::<u64>::empty()
            &&& round.after_all(second).standings == round.after_all(first).standings
        }),
{
    let counted = scored(players, phase, config);
    let again = scored(counted, phase, config);
    assert(again =~= counted);
    law_leaderboard_includes_round(numbers, players, phase, config);
    law_leaderboard_includes_round(numbers, counted, phase, config);
    let answers = replies_of(counted, PlayerCommandView::GetCurrAnswer);
    lemma_no_one_correct(numbers, phase, config, answers);
    law_round(
        numbers,
        phase,
        config,
        answers,
        replies_of(again, PlayerCommandView::GetLeaderboardData),
    );
}

// ---- What an answer is worth ----

/// The question that is shown at a position of what is played, where a question is shown there.
proof fn lemma_question_at(config: Config, n: int)
    ensures
        match config {
            Config::Quiz { questions } => 0 <= n < questions@.len() ==> config@.item(n)
                == SlidesItemView::Question(questions@[n]@),
            Config::Slides(items) => 0 <= n < items@.len() ==> match items@[n] {
                SlidesItem::Question(question) => config@.item(n) == SlidesItemView::Question(
                    question@,
                ),
                SlidesItem::Slide(slide) => config@.item(n) == SlidesItemView::Slide(slide@),
            },
        },
{
}

/// An answer to a question is correct exactly where the response at its place carries the mark,
/// however many responses there are. On a slide and in the lobby no answer is correct.
pub proof fn law_answer_is_correct_by_its_mark(config: Config, n: u64, answer: u64)
    ensures
        !is_correct(config@, GamePhase::Lobby, answer),
        match config {
            Config::Quiz { questions } => n < questions@.len() && answer
                < questions@[n as int].responses@.len() ==> is_correct(
                config@,
                GamePhase::OnQuestion(n),
                answer,
            ) == questions@[n as int].responses@[answer as int].correct,
            Config::Slides(items) => n < items@.len() ==> match items@[n as int] {
                SlidesItem::Question(question) => answer < question.responses@.len()
                    ==> is_correct(config@, GamePhase::OnQuestion(n), answer)
                    == question.responses@[answer as int].correct,
                SlidesItem::Slide(_) => !is_correct(config@, GamePhase::OnQuestion(n), answer),
            },
        },
{
    lemma_question_at(config, n as int);
}

/// An answer can be looked up exactly where the item is there and, if it is a question, has a
/// response at that place. In the lobby there is nothing to look up.
pub proof fn law_which_answers_can_be_looked_up(config: Config, n: u64, answer: u64)
    ensures
        answerable(config@, GamePhase::Lobby, answer),
        match config {
            Config::Quiz { questions } => answerable(config@, GamePhase::OnQuestion(n), answer) <==> (
            n < questions@.len() && answer < questions@[n as int].responses@.len()),
            Config::Slides(items) => answerable(config@, GamePhase::OnQuestion(n), answer) <==> (n
                < items@.len() && match items@[n as int] {
                SlidesItem::Question(question) => answer < question.responses@.len(),
                SlidesItem::Slide(_) => true,
            }),
        },
{
    lemma_question_at(config, n as int);
}

/// The player who is asked is credited exactly where the response that they picked carries the mark;
/// then they have 600 points more and no answer, and else they stay as they are.
pub proof fn law_credit_goes_by_the_mark(
    round: RoundView,
    config: Config,
    questions: Seq<Question>,
    n: u64,
    number: u64,
    player: PlayerView,
    answer: u64,
)
    requires
        config matches Config::Quiz { questions: all } && all@ == questions,
        round.config == config@,
        round.phase == GamePhase::OnQuestion(n),
        round.graded < round.players.len(),
        round.players[round.graded as int] == number,
        n < questions.len(),
        answer < questions[n as int].responses@.len(),
        player.curr_answer == Some(answer),
        player.points + 600 <= u64::MAX,
    ensures
        ({
            let reply = Some(PlayerResponseView::CurrentAnswer(player.curr_answer));
            let counted = scored(seq![player], round.phase, round.config)[0];
            let marked = questions[n as int].responses@[answer as int].correct;
            &&& round.ask() == Ask::Answer(number)
            &&& round.accepts(reply)
            &&& round.credited(reply) == if marked {
                Some(number)
            } else {
                None
            }
            &&& counted.points == player.points + if marked {
                600int
            } else {
                0
            }
            &&& counted.curr_answer == if marked {
                None
            } else {
                player.curr_answer
            }
        }),
{
    law_answer_is_correct_by_its_mark(config, n, answer);
    law_which_answers_can_be_looked_up(config, n, answer);
}

/// A player who has no answer, or who is not reached, is not credited; and no one is credited for
/// saying where they stand.
pub proof fn law_no_credit_without_an_answer(
    round: RoundView,
    reply: Option<PlayerResponseView>,
)
    requires
        forall|answer: u64| reply != Some(PlayerResponseView::CurrentAnswer(Some(answer)))
            || round.graded >= round.players.len(),
    ensures
        round.credited(reply) is None,
        round.accepts(reply),
{
    if answer_in(reply) is Some {
        assert(reply == Some(PlayerResponseView::CurrentAnswer(Some(answer_in(reply)->0))));
    }
}

/// A new round has asked no one. Each reply is taken as the reply of the player who was asked: first
/// all are asked for their answers, then all for where they stand, in the order of the players. Who
/// says where they stand is put behind the others with that name and those points; who is not
/// reached is left out.
pub proof fn law_each_reply_is_taken_once(round: RoundView, reply: Option<PlayerResponseView>)
    requires
        round.graded <= round.players.len(),
        round.polled <= round.players.len(),
    ensures
        RoundView::fresh(round.players, round.phase, round.config) == (RoundView {
            graded: 0,
            polled: 0,
            standings: Seq::empty(),
            ..round
        }),
        round.graded < round.players.len() ==> {
            &&& round.ask() == Ask::Answer(round.players[round.graded as int])
            &&& round.after(reply) == (RoundView { graded: round.graded + 1, ..round })
        },
        round.graded == round.players.len() && round.polled < round.players.len() ==> {
            &&& round.ask() == Ask::Standing(round.players[round.polled as int])
            &&& round.after(reply) == (RoundView {
                polled: round.polled + 1,
                standings: match reply {
                    Some(PlayerResponseView::LeaderboardData(name, points)) => round.standings.push(
                        StandingView { name, points },
                    ),
                    _ => round.standings,
                },
                ..round
            })
        },
        round.graded == round.players.len() && round.polled == round.players.len() ==> {
            &&& round.ask() is Publish
            &&& round.after(reply) == round
        },
{
}

/// A reply that came is seen as what it is, and one that did not come as nothing.
pub proof fn law_player_reply_is_seen_where_it_is(response: PlayerResponse)
    ensures
        reply_view(Some(response)) == Some(response@),
        reply_view(None) is None,
{
}

/// While answers are asked for, a reply with an answer can be dealt with exactly where the answer can
/// be looked up.
pub proof fn law_replies_that_can_be_dealt_with(round: RoundView, answer: u64)
    requires
        round.graded < round.players.len(),
    ensures
        round.accepts(Some(PlayerResponseView::CurrentAnswer(Some(answer)))) <==> answerable(
            round.config,
            round.phase,
            answer,
        ),
{
}

/// Whatever is played and whoever is asked, the player is credited exactly where the answer is
/// correct.
pub proof fn law_credit_is_for_correct_answers(round: RoundView, answer: u64)
    requires
        round.graded < round.players.len(),
    ensures
        ({
            let reply = Some(PlayerResponseView::CurrentAnswer(Some(answer)));
            &&& is_correct(round.config, round.phase, answer) ==> round.credited(reply) == Some(
                round.players[round.graded as int],
            )
            &&& !is_correct(round.config, round.phase, answer) ==> round.credited(reply) is None
        }),
{
}

} // verus!
