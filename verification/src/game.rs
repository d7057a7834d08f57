//! Games: who plays, what is shown, and who is told about it.
use crate::activity::{
    Config, ConfigView, QuestionView, Shown, SlideView, SlidesItemView, lemma_config_len,
};
use crate::json::rendered;
use crate::player::{PlayerCommand, PlayerCommandView};
use crate::round::{Round, RoundView};
use crate::teacher::{TeacherCommand, TeacherCommandView};
use crate::wire::{
    law_marks_stay_hidden, new_question, new_question_text, new_slide, new_slide_text,
};
use vstd::prelude::*;

verus! {

/// Where a game stands: before its start, or on an item.
#[derive(Debug, Clone, Copy, PartialEq, Eq, Structural)]
pub enum GamePhase {
    Lobby,
    OnQuestion(u64),
}

/// A game. Its players are known by numbers, which whoever runs the game gives out.
#[derive(Debug, PartialEq, Eq)]
pub struct Game {
    players: Vec<u64>,
    phase: GamePhase,
    config: Config,
}

pub struct GameView {
    /// The players, in the order in which they joined.
    pub players: Seq<u64>,
    pub phase: GamePhase,
    pub config: ConfigView,
}

impl View for Game {
    type V = GameView;

    closed spec fn view(&self) -> GameView {
        GameView { players: self.players@, phase: self.phase, config: self.config@ }
    }
}

/// What a game can be told or asked.
#[derive(Debug, PartialEq, Eq)]
pub enum GameCommand {
    AddPlayer(u64),
    TeacherDisconnect,
    GetPhase,
    Continue,
    GetConfig,
    SetPhase(GamePhase),
    SendTextToTeacher(String),
    SendTextToPlayers(String),
    StartGame,
    GenLeaderboard,
}

pub enum GameCommandView {
    AddPlayer(u64),
    TeacherDisconnect,
    GetPhase,
    Continue,
    GetConfig,
    SetPhase(GamePhase),
    SendTextToTeacher(Seq<char>),
    SendTextToPlayers(Seq<char>),
    StartGame,
    GenLeaderboard,
}

impl View for GameCommand {
    type V = GameCommandView;

    open spec fn view(&self) -> GameCommandView {
        match self {
            GameCommand::AddPlayer(player) => GameCommandView::AddPlayer(*player),
            GameCommand::TeacherDisconnect => GameCommandView::TeacherDisconnect,
            GameCommand::GetPhase => GameCommandView::GetPhase,
            GameCommand::Continue => GameCommandView::Continue,
            GameCommand::GetConfig => GameCommandView::GetConfig,
            GameCommand::SetPhase(phase) => GameCommandView::SetPhase(*phase),
            GameCommand::SendTextToTeacher(text) => GameCommandView::SendTextToTeacher(text@),
            GameCommand::SendTextToPlayers(text) => GameCommandView::SendTextToPlayers(text@),
            GameCommand::StartGame => GameCommandView::StartGame,
            GameCommand::GenLeaderboard => GameCommandView::GenLeaderboard,
        }
    }
}

/// The views of `commands`, in their order.
pub open spec fn game_commands(commands: Seq<GameCommand>) -> Seq<GameCommandView> {
    Seq::new(commands.len(), |i: int| commands[i]@)
}

/// What a game answers.
#[derive(Debug, PartialEq, Eq)]
pub enum GameResponse {
    Phase(GamePhase),
    Config(Config),
    Nothing,
}

pub enum GameResponseView {
    Phase(GamePhase),
    Config(ConfigView),
    Nothing,
}

impl View for GameResponse {
    type V = GameResponseView;

    open spec fn view(&self) -> GameResponseView {
        match self {
            GameResponse::Phase(phase) => GameResponseView::Phase(*phase),
            GameResponse::Config(config) => GameResponseView::Config(config@),
            GameResponse::Nothing => GameResponseView::Nothing,
        }
    }
}

/// The reply of a game, where there is one.
pub open spec fn game_reply(reply: Option<GameResponse>) -> Option<GameResponseView> {
    match reply {
        Some(response) => Some(response@),
        None => None,
    }
}

/// What a game has others do.
#[derive(Debug, PartialEq, Eq)]
pub enum GameEffect {
    /// Pass a command to a player.
    ToPlayer(u64, PlayerCommand),
    /// Pass a command to the teacher.
    ToTeacher(TeacherCommand),
    /// Pass a command to the game itself, behind those that wait already.
    ToGame(GameCommand),
    /// Make up a leaderboard.
    RunRound(Round),
    /// Move on to the next item, once the leaderboard has been up for a while.
    AdvanceLater(Advance),
}

pub enum GameEffectView {
    ToPlayer(u64, PlayerCommandView),
    ToTeacher(TeacherCommandView),
    ToGame(GameCommandView),
    RunRound(RoundView),
    AdvanceLater(AdvanceView),
}

impl View for GameEffect {
    type V = GameEffectView;

    open spec fn view(&self) -> GameEffectView {
        match self {
            GameEffect::ToPlayer(player, command) => GameEffectView::ToPlayer(*player, command@),
            GameEffect::ToTeacher(command) => GameEffectView::ToTeacher(command@),
            GameEffect::ToGame(command) => GameEffectView::ToGame(command@),
            GameEffect::RunRound(round) => GameEffectView::RunRound(round@),
            GameEffect::AdvanceLater(advance) => GameEffectView::AdvanceLater(advance@),
        }
    }
}

/// The views of `effects`, in their order.
pub open spec fn game_effects(effects: Seq<GameEffect>) -> Seq<GameEffectView> {
    Seq::new(effects.len(), |i: int| effects[i]@)
}

/// A game's answer, and what the game has others do, in this order.
#[derive(Debug, PartialEq, Eq)]
pub struct GameReaction {
    pub response: GameResponse,
    pub effects: Vec<GameEffect>,
}

/// A text for each player, in the order in which they joined.
pub open spec fn broadcast_effects(players: Seq<u64>, text: Seq<char>) -> Seq<GameEffectView> {
    Seq::new(
        players.len(),
        |i: int| GameEffectView::ToPlayer(players[i], PlayerCommandView::SendText(text)),
    )
}

/// A text for the teacher.
pub open spec fn teacher_effect(text: Seq<char>) -> GameEffectView {
    GameEffectView::ToTeacher(TeacherCommandView::SendText(text))
}

/// The text that shows an item to the teacher.
pub open spec fn item_text(item: SlidesItemView) -> Seq<char> {
    match item {
        SlidesItemView::Question(question) => rendered(new_question(question, None)),
        SlidesItemView::Slide(slide) => rendered(new_slide(slide)),
    }
}

/// What shows an item: players see questions, the teacher sees everything.
pub open spec fn item_effects(players: Seq<u64>, item: SlidesItemView) -> Seq<GameEffectView> {
    match item {
        SlidesItemView::Question(_) => broadcast_effects(players, item_text(item)).push(
            teacher_effect(item_text(item)),
        ),
        SlidesItemView::Slide(_) => seq![teacher_effect(item_text(item))],
    }
}

impl GameView {
    /// A game that waits for its players.
    pub open spec fn fresh(config: ConfigView) -> GameView {
        GameView { players: Seq::empty(), phase: GamePhase::Lobby, config }
    }

    /// Whether a command finds what it needs: a start needs something to show.
    pub open spec fn accepts(self, command: GameCommandView) -> bool {
        command is StartGame ==> self.config.len() > 0
    }

    /// The game after a command.
    pub open spec fn after(self, command: GameCommandView) -> GameView {
        match command {
            GameCommandView::AddPlayer(player) => GameView {
                players: self.players.push(player),
                ..self
            },
            GameCommandView::SetPhase(phase) => GameView { phase, ..self },
            _ => self,
        }
    }

    /// What the game answers to a command.
    pub open spec fn response(self, command: GameCommandView) -> GameResponseView {
        match command {
            GameCommandView::GetPhase => GameResponseView::Phase(self.phase),
            GameCommandView::GetConfig => GameResponseView::Config(self.config),
            _ => GameResponseView::Nothing,
        }
    }

    /// What the game has others do because of a command. A start with nothing to show reaches no one.
    pub open spec fn effects(self, command: GameCommandView) -> Seq<GameEffectView> {
        match command {
            GameCommandView::SendTextToTeacher(text) => seq![teacher_effect(text)],
            GameCommandView::SendTextToPlayers(text) => broadcast_effects(self.players, text),
            GameCommandView::TeacherDisconnect => broadcast_effects(
                self.players,
                "teacherdisconnect"@,
            ),
            GameCommandView::GenLeaderboard => seq![
                GameEffectView::RunRound(
                    RoundView::fresh(self.players, self.phase, self.config),
                ),
            ],
            GameCommandView::Continue => match self.phase {
                GamePhase::Lobby => seq![GameEffectView::ToGame(GameCommandView::GenLeaderboard)],
                GamePhase::OnQuestion(n) => seq![
                    GameEffectView::ToGame(GameCommandView::GenLeaderboard),
                    GameEffectView::AdvanceLater(
                        AdvanceView { players: self.players, current: n, config: self.config },
                    ),
                ],
            },
            GameCommandView::StartGame => if self.config.len() > 0 {
                seq![teacher_effect(item_text(self.config.item(0)))]
            } else {
                Seq::empty()
            },
            _ => Seq::empty(),
        }
    }

    /// The game after several commands.
    pub open spec fn after_all(self, commands: Seq<GameCommandView>) -> GameView
        decreases commands.len(),
    {
        if commands.len() == 0 {
            self
        } else {
            self.after_all(commands.drop_last()).after(commands.last())
        }
    }

    /// What the game has others do because of several commands, in this order.
    pub open spec fn effects_all(self, commands: Seq<GameCommandView>) -> Seq<GameEffectView>
        decreases commands.len(),
    {
        if commands.len() == 0 {
            Seq::empty()
        } else {
            self.effects_all(commands.drop_last()) + self.after_all(commands.drop_last()).effects(
                commands.last(),
            )
        }
    }
}

/// Makes out the effects that pass a text to each player.
fn broadcast_text(players: &Vec<u64>, text: &str) -> (effects: Vec<GameEffect>)
    ensures
        game_effects(effects@) == broadcast_effects(players@, text@),
{
    let mut effects: Vec<GameEffect> = Vec::new();
    for i in 0..players.len()
        invariant
            effects@.len() == i,
            forall|j: int|
                0 <= j < i ==> (#[trigger] effects@[j])@ == broadcast_effects(players@, text@)[j],
    {
        effects.push(GameEffect::ToPlayer(players[i], PlayerCommand::SendText(text.to_owned())));
    }
    assert(game_effects(effects@) =~= broadcast_effects(players@, text@));
    effects
}

/// Writes the text that shows an item to the teacher.
fn write_item(item: &Shown<'_>) -> (text: String)
    ensures
        text@ == item_text(item@),
{
    match item {
        Shown::Question(question) => new_question_text(question, None),
        Shown::Slide(slide) => new_slide_text(slide),
    }
}

/// A list of one effect.
fn single(effect: GameEffect) -> (effects: Vec<GameEffect>)
    ensures
        game_effects(effects@) == seq![effect@],
{
    let effects = vec![effect];
    assert(game_effects(effects@) =~= seq![effect@]);
    effects
}

impl Game {
    /// A game that waits for its players.
    pub fn new(config: Config) -> (game: Game)
        ensures
            game@ == GameView::fresh(config@),
    {
        let game = Game { players: Vec::new(), phase: GamePhase::Lobby, config };
        assert(game@.players =~= Seq::<u64>::empty());
        game
    }

    /// Whether a command finds what it needs.
    pub fn accepts(&self, msg: &GameCommand) -> (result: bool)
        ensures
            result == self@.accepts(msg@),
    {
        match msg {
            GameCommand::StartGame => self.config.has_item(0),
            _ => true,
        }
    }

    /// Carries out a command.
    pub fn handle(&mut self, msg: GameCommand) -> (reaction: GameReaction)
        ensures
            final(self)@ == old(self)@.after(msg@),
            reaction.response@ == old(self)@.response(msg@),
            game_effects(reaction.effects@) == old(self)@.effects(msg@),
    {
        let mut response = GameResponse::Nothing;
        let mut effects: Vec<GameEffect> = Vec::new();
        proof {
            assert(game_effects(effects@) =~= Seq::<GameEffectView>::empty());
        }
        match msg {
            GameCommand::AddPlayer(player) => {
                self.players.push(player);
            },
            GameCommand::SendTextToTeacher(text) => {
                effects = single(GameEffect::ToTeacher(TeacherCommand::SendText(text)));
            },
            GameCommand::SendTextToPlayers(text) => {
                effects = broadcast_text(&self.players, text.as_str());
            },
            GameCommand::SetPhase(phase) => {
                self.phase = phase;
            },
            GameCommand::TeacherDisconnect => {
                effects = broadcast_text(&self.players, "teacherdisconnect");
            },
            GameCommand::GetPhase => {
                response = GameResponse::Phase(self.phase);
            },
            GameCommand::GetConfig => {
                response = GameResponse::Config(self.config.clone());
            },
            GameCommand::GenLeaderboard => {
                let round = Round::new(self.players.clone(), self.phase, self.config.clone());
                effects = single(GameEffect::RunRound(round));
            },
            GameCommand::Continue => {
                effects = single(GameEffect::ToGame(GameCommand::GenLeaderboard));
                match self.phase {
                    GamePhase::Lobby => {},
                    GamePhase::OnQuestion(n) => {
                        let advance = Advance {
                            players: self.players.clone(),
                            current: n,
                            config: self.config.clone(),
                        };
                        let ghost before = game_effects(effects@);
                        let effect = GameEffect::AdvanceLater(advance);
                        effects.push(effect);
                        assert(game_effects(effects@) =~= before.push(effect@));
                        assert(game_effects(effects@) =~= old(self)@.effects(msg@));
                    },
                }
            },
            GameCommand::StartGame => {
                if self.config.has_item(0) {
                    let text = write_item(&self.config.item(0));
                    effects = single(GameEffect::ToTeacher(TeacherCommand::SendText(text)));
                }
            },
        }
        GameReaction { response, effects }
    }
}

/// How long a leaderboard stays up before the game moves on, in seconds.
pub const ADVANCE_DELAY_SECS: u64 = 5;

/// The move to the next item, as it was asked for: for the players who were there, from the item
/// that was shown.
#[derive(Debug, PartialEq, Eq)]
pub struct Advance {
    players: Vec<u64>,
    current: u64,
    config: Config,
}

pub struct AdvanceView {
    pub players: Seq<u64>,
    pub current: u64,
    pub config: ConfigView,
}

impl View for Advance {
    type V = AdvanceView;

    closed spec fn view(&self) -> AdvanceView {
        AdvanceView { players: self.players@, current: self.current, config: self.config@ }
    }
}

impl AdvanceView {
    /// What the game is told first: it moves on by one, whether or not there is an item.
    pub open spec fn move_on(self) -> GameCommandView {
        GameCommandView::SetPhase(GamePhase::OnQuestion((self.current + 1) as u64))
    }

    /// Whether there is an item to move on to.
    pub open spec fn has_next(self) -> bool {
        self.current + 1 < self.config.len()
    }

    /// What shows the next item.
    pub open spec fn effects(self) -> Seq<GameEffectView> {
        item_effects(self.players, self.config.item(self.current + 1))
    }
}

impl Advance {
    /// Whether the next item can be counted.
    pub fn can_move(&self) -> (result: bool)
        ensures
            result == (self@.current < u64::MAX),
    {
        self.current < u64::MAX
    }

    /// What the game is told first: it moves on by one, whether or not there is an item.
    pub fn move_on(&self) -> (command: GameCommand)
        requires
            self@.current < u64::MAX,
        ensures
            command@ == self@.move_on(),
    {
        GameCommand::SetPhase(GamePhase::OnQuestion(self.current + 1))
    }

    /// Whether there is an item to move on to.
    pub fn has_next(&self) -> (result: bool)
        ensures
            result == self@.has_next(),
    {
        proof {
            lemma_config_len(&self.config);
        }
        self.current < u64::MAX && self.config.has_item(self.current + 1)
    }

    /// Shows the next item.
    pub fn deliver(&self) -> (effects: Vec<GameEffect>)
        requires
            self@.has_next(),
        ensures
            game_effects(effects@) == self@.effects(),
    {
        proof {
            lemma_config_len(&self.config);
        }
        let item = self.config.item(self.current + 1);
        let text = write_item(&item);
        match item {
            Shown::Question(_) => {
                let mut effects = broadcast_text(&self.players, text.as_str());
                let ghost before = game_effects(effects@);
                let last = GameEffect::ToTeacher(TeacherCommand::SendText(text));
                effects.push(last);
                assert(game_effects(effects@) =~= before.push(last@));
                effects
            },
            Shown::Slide(_) => single(GameEffect::ToTeacher(TeacherCommand::SendText(text))),
        }
    }
}

// ---- What holds of every game ----

/// The players that `commands` let in, in this order.
pub open spec fn joined(commands: Seq<GameCommandView>) -> Seq<u64>
    decreases commands.len(),
{
    if commands.len() == 0 {
        Seq::empty()
    } else {
        match commands.last() {
            GameCommandView::AddPlayer(player) => joined(commands.drop_last()).push(player),
            _ => joined(commands.drop_last()),
        }
    }
}

/// The phase that `commands` set last; the lobby where none is set.
pub open spec fn last_phase(commands: Seq<GameCommandView>) -> GamePhase
    decreases commands.len(),
{
    if commands.len() == 0 {
        GamePhase::Lobby
    } else {
        match commands.last() {
            GameCommandView::SetPhase(phase) => phase,
            _ => last_phase(commands.drop_last()),
        }
    }
}

/// A command changes what it names and nothing else: what is played never changes, only a newcomer
/// changes the players, only a new phase changes the phase. The game answers the two questions, and
/// to any other command it answers nothing.
pub proof fn law_command_changes_what_it_names(game: GameView, command: GameCommandView)
    ensures
        ({
            let now = game.after(command);
            &&& now.config == game.config
            &&& now.players == match command {
                GameCommandView::AddPlayer(player) => game.players.push(player),
                _ => game.players,
            }
            &&& now.phase == match command {
                GameCommandView::SetPhase(phase) => phase,
                _ => game.phase,
            }
            &&& game.response(command) == match command {
                GameCommandView::GetPhase => GameResponseView::Phase(game.phase),
                GameCommandView::GetConfig => GameResponseView::Config(game.config),
                _ => GameResponseView::Nothing,
            }
        }),
{
}

/// Whatever a new game is told: its players are those who were let in, in the order in which they
/// came, its phase is the one that was set last, and what is played never changes.
pub proof fn law_game_history(config: ConfigView, commands: Seq<GameCommandView>)
    ensures
        GameView::fresh(config).after_all(commands) == (GameView {
            players: joined(commands),
            phase: last_phase(commands),
            config,
        }),
    decreases commands.len(),
{
    if commands.len() > 0 {
        law_game_history(config, commands.drop_last());
    }
}

/// A text for the players goes to each of them once, in the order in which they joined, and to no
/// one else.
pub proof fn law_text_reaches_every_player(game: GameView, text: Seq<char>)
    ensures
        ({
            let effects = game.effects(GameCommandView::SendTextToPlayers(text));
            &&& effects.len() == game.players.len()
            &&& forall|i: int|
                0 <= i < game.players.len() ==> #[trigger] effects[i] == GameEffectView::ToPlayer(
                    game.players[i],
                    PlayerCommandView::SendText(text),
                )
        }),
{
}

/// A question is shown to every player and to the teacher, with the same text.
pub proof fn law_question_is_shown_to_all(advance: AdvanceView)
    requires
        advance.has_next(),
        advance.config.item(advance.current + 1) is Question,
    ensures
        ({
            let item = advance.config.item(advance.current + 1);
            let n = advance.players.len() as int;
            &&& advance.effects().len() == n + 1
            &&& advance.effects()[n] == teacher_effect(item_text(item))
            &&& forall|i: int|
                0 <= i < n ==> #[trigger] advance.effects()[i] == GameEffectView::ToPlayer(
                    advance.players[i],
                    PlayerCommandView::SendText(item_text(item)),
                )
        }),
{
}

/// A slide is shown to the teacher alone.
pub proof fn law_slide_is_for_the_teacher(advance: AdvanceView, i: int)
    requires
        advance.has_next(),
        advance.config.item(advance.current + 1) is Slide,
        0 <= i < advance.effects().len(),
    ensures
        advance.effects()[i] is ToTeacher,
{
}

/// A teacher who goes on has the leaderboard made up of the item that is shown, for the players
/// who are there, and then the item that follows it shown to the same players.
pub proof fn law_continue(game: GameView, n: u64)
    requires
        game.phase == GamePhase::OnQuestion(n),
    ensures
        ({
            let effects = game.effects(GameCommandView::Continue);
            &&& effects.len() == 2
            &&& effects[0] == GameEffectView::ToGame(GameCommandView::GenLeaderboard)
            &&& game.after(GameCommandView::Continue).effects(GameCommandView::GenLeaderboard)
                == seq![
                GameEffectView::RunRound(RoundView::fresh(game.players, game.phase, game.config)),
            ]
            &&& effects[1] matches GameEffectView::AdvanceLater(advance) && {
                &&& advance.players == game.players
                &&& n < u64::MAX ==> game.after(advance.move_on()).phase == GamePhase::OnQuestion(
                    (n + 1) as u64,
                )
                &&& advance.has_next() == (n + 1 < game.config.len())
                &&& advance.effects() == item_effects(game.players, game.config.item(n + 1))
            }
        }),
{
}

/// A teacher who goes on in the lobby gets a leaderboard, and nothing is shown after it.
pub proof fn law_continue_in_the_lobby(game: GameView)
    requires
        game.phase is Lobby,
    ensures
        game.effects(GameCommandView::Continue) == seq![
            GameEffectView::ToGame(GameCommandView::GenLeaderboard),
        ],
{
}

/// A teacher who goes on twice before the game has moved on skips nothing: both times the game
/// moves on to the same item.
pub proof fn law_nothing_is_skipped(game: GameView)
    ensures
        game.after(GameCommandView::Continue).effects(GameCommandView::Continue) == game.effects(
            GameCommandView::Continue,
        ),
{
}

/// The game once its teacher has gone on and the game has moved on, where it had begun.
pub open spec fn moved_on(game: GameView) -> GameView {
    let effects = game.effects(GameCommandView::Continue);
    match effects.last() {
        GameEffectView::AdvanceLater(advance) => game.after(GameCommandView::Continue).after(
            advance.move_on(),
        ),
        _ => game,
    }
}

/// The game once it has moved on several times.
pub open spec fn moved_on_times(game: GameView, times: nat) -> GameView
    decreases times,
{
    if times == 0 {
        game
    } else {
        moved_on(moved_on_times(game, (times - 1) as nat))
    }
}

/// A game goes through its items one by one: a game on its first item that has moved on `n` times is
/// on item `n`, with the same players, and shows the item behind it next.
pub proof fn law_items_come_in_order(game: GameView, n: u64)
    requires
        game.phase == GamePhase::OnQuestion(0),
    ensures
        ({
            let now = moved_on_times(game, n as nat);
            &&& now == (GameView { phase: GamePhase::OnQuestion(n), ..game })
            &&& now.effects(GameCommandView::Continue)[1] == GameEffectView::AdvanceLater(
                AdvanceView { players: game.players, current: n, config: game.config },
            )
        }),
    decreases n,
{
    if n > 0 {
        law_items_come_in_order(game, (n - 1) as u64);
    }
}

/// Items that differ in their marks alone are shown alike.
proof fn lemma_items_shown_alike(one: SlidesItemView, other: SlidesItemView)
    requires
        one.same_but_marks(other),
    ensures
        item_text(one) == item_text(other),
{
    match (one, other) {
        (SlidesItemView::Question(a), SlidesItemView::Question(b)) => {
            law_marks_stay_hidden(a, b, None);
        },
        _ => {},
    }
}

/// The move to the next item does not show which responses are correct: whatever the marks, players
/// and teacher are sent the same.
pub proof fn law_next_item_hides_marks(players: Seq<u64>, current: u64, one: ConfigView, other: ConfigView)
    requires
        one.same_but_marks(other),
        current + 1 < one.len(),
    ensures
        (AdvanceView { players, current, config: one }).effects() == (AdvanceView {
            players,
            current,
            config: other,
        }).effects(),
{
    assert(one.item(current + 1).same_but_marks(other.item(current + 1)));
    lemma_items_shown_alike(one.item(current + 1), other.item(current + 1));
}

/// What a game sends does not show which responses are correct: whatever the marks, a command has the
/// same texts sent to the same people. This leaves out the two commands that send nothing themselves
/// and pass on what is played: to the making of a leaderboard, and to the move to the next item.
pub proof fn law_game_hides_marks(
    players: Seq<u64>,
    phase: GamePhase,
    one: ConfigView,
    other: ConfigView,
    command: GameCommandView,
)
    requires
        one.same_but_marks(other),
        !(command is GenLeaderboard),
        !(command is Continue),
    ensures
        (GameView { players, phase, config: one }).effects(command) == (GameView {
            players,
            phase,
            config: other,
        }).effects(command),
{
    if one.len() > 0 {
        assert(one.item(0).same_but_marks(other.item(0)));
        lemma_items_shown_alike(one.item(0), other.item(0));
    }
}

/// The text that shows an item is the announcement of the question, without a number, or the message
/// with the slide.
pub proof fn law_item_is_shown_by_its_message(question: QuestionView, slide: SlideView)
    ensures
        item_text(SlidesItemView::Question(question)) == rendered(new_question(question, None)),
        item_text(SlidesItemView::Slide(slide)) == rendered(new_slide(slide)),
{
}

/// A text for all players stands once for each of them, in the order in which they joined.
pub proof fn law_text_for_all_players(players: Seq<u64>, text: Seq<char>)
    ensures
        broadcast_effects(players, text).len() == players.len(),
        forall|i: int|
            0 <= i < players.len() ==> #[trigger] broadcast_effects(players, text)[i]
                == GameEffectView::ToPlayer(players[i], PlayerCommandView::SendText(text)),
        teacher_effect(text) == GameEffectView::ToTeacher(TeacherCommandView::SendText(text)),
{
}

/// What a game has others do: a text for the teacher goes to the teacher; a text for the players, and
/// the word that the teacher is gone, go to each player; a leaderboard is made up from the beginning,
/// for all players, on the item that is up; going on asks for a leaderboard and, on an item, for the
/// move to the next one; a start shows the first item to the teacher. The other commands send
/// nothing.
pub proof fn law_what_a_game_has_others_do(game: GameView, command: GameCommandView)
    ensures
        match command {
            GameCommandView::SendTextToTeacher(text) => game.effects(command) == seq![
                GameEffectView::ToTeacher(TeacherCommandView::SendText(text)),
            ],
            GameCommandView::SendTextToPlayers(text) => {
                &&& game.effects(command).len() == game.players.len()
                &&& forall|i: int|
                    0 <= i < game.players.len() ==> #[trigger] game.effects(command)[i]
                        == GameEffectView::ToPlayer(
                        game.players[i],
                        PlayerCommandView::SendText(text),
                    )
            },
            GameCommandView::TeacherDisconnect => {
                &&& game.effects(command).len() == game.players.len()
                &&& forall|i: int|
                    0 <= i < game.players.len() ==> #[trigger] game.effects(command)[i]
                        == GameEffectView::ToPlayer(
                        game.players[i],
                        PlayerCommandView::SendText("teacherdisconnect"@),
                    )
            },
            GameCommandView::GenLeaderboard => game.effects(command) == seq![
                GameEffectView::RunRound(
                    RoundView {
                        players: game.players,
                        phase: game.phase,
                        config: game.config,
                        graded: 0,
                        polled: 0,
                        standings: Seq::empty(),
                    },
                ),
            ],
            GameCommandView::Continue => match game.phase {
                GamePhase::Lobby => game.effects(command) == seq![
                    GameEffectView::ToGame(GameCommandView::GenLeaderboard),
                ],
                GamePhase::OnQuestion(n) => game.effects(command) == seq![
                    GameEffectView::ToGame(GameCommandView::GenLeaderboard),
                    GameEffectView::AdvanceLater(
                        AdvanceView { players: game.players, current: n, config: game.config },
                    ),
                ],
            },
            GameCommandView::StartGame => if game.config.len() == 0 {
                game.effects(command).len() == 0
            } else {
                match game.config.item(0) {
                    SlidesItemView::Question(question) => game.effects(command) == seq![
                        GameEffectView::ToTeacher(
                            TeacherCommandView::SendText(rendered(new_question(question, None))),
                        ),
                    ],
                    SlidesItemView::Slide(slide) => game.effects(command) == seq![
                        GameEffectView::ToTeacher(
                            TeacherCommandView::SendText(rendered(new_slide(slide))),
                        ),
                    ],
                }
            },
            _ => game.effects(command).len() == 0,
        },
        game.accepts(command) <==> !(command is StartGame && game.config.len() == 0),
{
}

/// The move to the next item goes on by one. A question goes to each player, and then to the
/// teacher; a slide goes to the teacher.
pub proof fn law_what_a_move_does(advance: AdvanceView)
    ensures
        advance.current < u64::MAX ==> advance.move_on() == GameCommandView::SetPhase(
            GamePhase::OnQuestion((advance.current + 1) as u64),
        ),
        advance.has_next() <==> advance.current + 1 < advance.config.len(),
        match advance.config.item(advance.current + 1) {
            SlidesItemView::Question(question) => {
                let text = rendered(new_question(question, None));
                let n = advance.players.len() as int;
                &&& advance.effects().len() == n + 1
                &&& forall|i: int|
                    0 <= i < n ==> #[trigger] advance.effects()[i] == GameEffectView::ToPlayer(
                        advance.players[i],
                        PlayerCommandView::SendText(text),
                    )
                &&& advance.effects()[n] == GameEffectView::ToTeacher(
                    TeacherCommandView::SendText(text),
                )
            },
            SlidesItemView::Slide(slide) => advance.effects() == seq![
                GameEffectView::ToTeacher(
                    TeacherCommandView::SendText(rendered(new_slide(slide))),
                ),
            ],
        },
{
}

/// A new game plays what it was given, all of it, and waits in the lobby without players.
pub proof fn law_new_game_plays_what_it_was_given(config: ConfigView, n: int)
    ensures
        GameView::fresh(config).config == config,
        GameView::fresh(config).config.len() == config.len(),
        GameView::fresh(config).config.item(n) == config.item(n),
        GameView::fresh(config).phase is Lobby,
        GameView::fresh(config).players.len() == 0,
{
}

/// Commands, responses and effects of a game are seen whole.
pub proof fn law_game_messages_are_viewed_whole(
    command: GameCommand,
    response: GameResponse,
    effect: GameEffect,
)
    ensures
        match command {
            GameCommand::AddPlayer(player) => command@ == GameCommandView::AddPlayer(player),
            GameCommand::TeacherDisconnect => command@ is TeacherDisconnect,
            GameCommand::GetPhase => command@ is GetPhase,
            GameCommand::Continue => command@ is Continue,
            GameCommand::GetConfig => command@ is GetConfig,
            GameCommand::SetPhase(phase) => command@ == GameCommandView::SetPhase(phase),
            GameCommand::SendTextToTeacher(text) => command@
                == GameCommandView::SendTextToTeacher(text@),
            GameCommand::SendTextToPlayers(text) => command@
                == GameCommandView::SendTextToPlayers(text@),
            GameCommand::StartGame => command@ is StartGame,
            GameCommand::GenLeaderboard => command@ is GenLeaderboard,
        },
        match response {
            GameResponse::Phase(phase) => response@ == GameResponseView::Phase(phase),
            GameResponse::Config(config) => response@ == GameResponseView::Config(config@),
            GameResponse::Nothing => response@ is Nothing,
        },
        game_reply(Some(response)) == Some(response@),
        game_reply(None) is None,
        match effect {
            GameEffect::ToPlayer(player, told) => effect@ == GameEffectView::ToPlayer(
                player,
                told@,
            ),
            GameEffect::ToTeacher(told) => effect@ == GameEffectView::ToTeacher(told@),
            GameEffect::ToGame(told) => effect@ == GameEffectView::ToGame(told@),
            GameEffect::RunRound(round) => effect@ == GameEffectView::RunRound(round@),
            GameEffect::AdvanceLater(advance) => effect@ == GameEffectView::AdvanceLater(advance@),
        },
{
}

/// The views of lists of commands and effects have one item for each, in the same place.
pub proof fn law_game_lists_are_viewed_whole(commands: Seq<GameCommand>, effects: Seq<GameEffect>)
    ensures
        game_commands(commands).len() == commands.len(),
        forall|i: int|
            0 <= i < commands.len() ==> #[trigger] game_commands(commands)[i] == commands[i]@,
        game_effects(effects).len() == effects.len(),
        forall|i: int| 0 <= i < effects.len() ==> #[trigger] game_effects(effects)[i] == effects[i]@,
{
}

} // verus!
