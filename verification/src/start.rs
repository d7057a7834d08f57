//! The start of a game: what the game is told, in turn.
use crate::activity::{ConfigView, Shown, SlidesItemView};
use crate::game::{
    GameCommand, GameCommandView, GameEffectView, GamePhase, GameResponse, GameResponseView, GameView,
    broadcast_effects, game_commands, game_reply, item_text, teacher_effect,
};
use crate::json::rendered;
use crate::wire::{law_marks_stay_hidden, new_question, new_question_text};
use vstd::prelude::*;

verus! {

/// What a game is told first.
pub open spec fn opening_commands() -> Seq<GameCommandView> {
    seq![
        GameCommandView::SetPhase(GamePhase::OnQuestion(0)),
        GameCommandView::SendTextToPlayers("gamestart"@),
    ]
}

/// What a game is told first: that the first item is up, and to announce the start.
pub fn opening() -> (commands: Vec<GameCommand>)
    ensures
        game_commands(commands@) == opening_commands(),
{
    let commands = vec![
        GameCommand::SetPhase(GamePhase::OnQuestion(0)),
        GameCommand::SendTextToPlayers("gamestart".to_owned()),
    ];
    assert(game_commands(commands@) =~= opening_commands());
    commands
}

/// What a game is told once it has said what is played: the players get the first item where it is
/// a question, with its number, and the teacher gets it in any case.
pub open spec fn follow_up_commands(reply: Option<GameResponseView>) -> Seq<GameCommandView> {
    match reply {
        Some(GameResponseView::Config(config)) => match config.item(0) {
            SlidesItemView::Question(question) => seq![
                GameCommandView::SendTextToPlayers(rendered(new_question(question, Some(0)))),
                GameCommandView::StartGame,
            ],
            SlidesItemView::Slide(_) => seq![GameCommandView::StartGame],
        },
        _ => seq![GameCommandView::StartGame],
    }
}

/// Whether the start can go on: what is played must have a first item.
pub open spec fn can_follow(reply: Option<GameResponseView>) -> bool {
    match reply {
        Some(GameResponseView::Config(config)) => config.len() > 0,
        _ => true,
    }
}

/// Tells whether the start can go on.
pub fn can_follow_up(reply: &Option<GameResponse>) -> (result: bool)
    ensures
        result == can_follow(game_reply(*reply)),
{
    match reply {
        Some(GameResponse::Config(config)) => config.has_item(0),
        _ => true,
    }
}

/// What a game is told once it has said what is played; there is no reply where the game was not
/// reached.
pub fn follow_up(reply: &Option<GameResponse>) -> (commands: Vec<GameCommand>)
    requires
        can_follow(game_reply(*reply)),
    ensures
        game_commands(commands@) == follow_up_commands(game_reply(*reply)),
{
    let mut commands: Vec<GameCommand> = Vec::new();
    match reply {
        Some(GameResponse::Config(config)) => match config.item(0) {
            Shown::Question(question) => {
                let text = new_question_text(question, Some(0));
                commands.push(GameCommand::SendTextToPlayers(text));
            },
            Shown::Slide(_) => {},
        },
        _ => {},
    }
    commands.push(GameCommand::StartGame);
    assert(game_commands(commands@) =~= follow_up_commands(game_reply(*reply)));
    commands
}

/// A game that is started is on its first item. Its players have been told of the start, and of
/// the first item where it is a question, with the number 0; after that its teacher has been shown
/// the first item.
pub proof fn law_start(game: GameView)
    requires
        game.config.len() > 0,
    ensures
        ({
            let told = opening_commands() + follow_up_commands(
                Some(GameResponseView::Config(game.config)),
            );
            let announced = broadcast_effects(game.players, "gamestart"@);
            let shown = teacher_effect(item_text(game.config.item(0)));
            &&& game.after_all(told) == (GameView { phase: GamePhase::OnQuestion(0), ..game })
            &&& game.effects_all(told) == match game.config.item(0) {
                SlidesItemView::Question(question) => announced + broadcast_effects(
                    game.players,
                    rendered(new_question(question, Some(0))),
                ) + seq![shown],
                SlidesItemView::Slide(_) => announced + seq![shown],
            }
        }),
{
    let opening = opening_commands();
    let follow = follow_up_commands(Some(GameResponseView::Config(game.config)));
    let first = seq![GameCommandView::SetPhase(GamePhase::OnQuestion(0))];
    let told = opening + follow;
    assert(first.drop_last() =~= Seq::<GameCommandView>::empty());
    assert(opening.drop_last() =~= first);
    reveal_with_fuel(GameView::after_all, 2);
    reveal_with_fuel(GameView::effects_all, 2);
    let started = GameView { phase: GamePhase::OnQuestion(0), ..game };
    assert(game.after_all(first) == started);
    assert(game.effects_all(first) =~= Seq::<GameEffectView>::empty());
    assert(game.after_all(opening) == started);
    assert(game.effects_all(opening) =~= broadcast_effects(game.players, "gamestart"@));
    match game.config.item(0) {
        SlidesItemView::Question(question) => {
            assert(told.drop_last() =~= opening.push(follow[0]));
            assert(opening.push(follow[0]).drop_last() =~= opening);
            assert(game.after_all(opening.push(follow[0])) == started);
            assert(game.effects_all(opening.push(follow[0])) =~= broadcast_effects(
                game.players,
                "gamestart"@,
            ) + broadcast_effects(game.players, rendered(new_question(question, Some(0)))));
        },
        SlidesItemView::Slide(_) => {
            assert(told.drop_last() =~= opening);
        },
    }
}

/// The start of a game does not show which responses are correct: whatever the marks, the game is
/// told the same, and players and teacher are sent the same.
pub proof fn law_start_hides_marks(
    players: Seq<u64>,
    phase: GamePhase,
    one: ConfigView,
    other: ConfigView,
)
    requires
        one.same_but_marks(other),
        one.len() > 0,
    ensures
        ({
            let told = opening_commands() + follow_up_commands(Some(GameResponseView::Config(one)));
            &&& told == opening_commands() + follow_up_commands(
                Some(GameResponseView::Config(other)),
            )
            &&& (GameView { players, phase, config: one }).effects_all(told) == (GameView {
                players,
                phase,
                config: other,
            }).effects_all(told)
        }),
{
    assert(one.item(0).same_but_marks(other.item(0)));
    match (one.item(0), other.item(0)) {
        (SlidesItemView::Question(a), SlidesItemView::Question(b)) => {
            law_marks_stay_hidden(a, b, Some(0));
            law_marks_stay_hidden(a, b, None);
        },
        _ => {},
    }
    law_start(GameView { players, phase, config: one });
    law_start(GameView { players, phase, config: other });
}

/// A game that is started is first put on its first item and told to announce the start. Then, where
/// the first item is a question, its players get the question with the number 0; and whatever came
/// back, the game is told to start, last of all and once.
pub proof fn law_what_a_game_is_told_at_the_start(reply: Option<GameResponseView>)
    ensures
        opening_commands().len() == 2,
        opening_commands()[0] == GameCommandView::SetPhase(GamePhase::OnQuestion(0)),
        opening_commands()[1] == GameCommandView::SendTextToPlayers("gamestart"@),
        ({
            let told = follow_up_commands(reply);
            match reply {
                Some(GameResponseView::Config(config)) => match config.item(0) {
                    SlidesItemView::Question(question) => {
                        &&& told.len() == 2
                        &&& told[0] == GameCommandView::SendTextToPlayers(
                            rendered(new_question(question, Some(0))),
                        )
                        &&& told[1] is StartGame
                    },
                    SlidesItemView::Slide(_) => told.len() == 1 && told[0] is StartGame,
                },
                _ => told.len() == 1 && told[0] is StartGame,
            }
        }),
        can_follow(reply) <==> !(reply matches Some(GameResponseView::Config(config))
            && config.len() == 0),
{
}

} // verus!
