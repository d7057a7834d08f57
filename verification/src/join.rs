//! Players who join a game, and what comes in from them.
use crate::game::{GameCommand, GameCommandView, GamePhase, GameResponse, GameResponseView, game_reply};
use crate::json::{Json, JsonView, json_view, parsed, rendered};
use crate::names::{inappropriate, is_inappropriate};
use crate::player::{Player, PlayerCommand, PlayerCommandView, PlayerView};
use crate::refusal::{Refusal, RefusalView};
use crate::socket::{Inbound, InboundView};
use crate::state::{
    StateCommandView, StateResponse, StateResponseView, StateView, lookup, state_reply,
};
use crate::text::same_text;
use crate::wire::{error, player_joined, player_joined_text, ugg, update_answer, update_answer_text};
use vstd::prelude::*;

verus! {

// ---- Joining ----

/// A player who is let in: the game, the player, and what the game is told.
#[derive(Debug, PartialEq, Eq)]
pub struct Admission {
    pub game: u64,
    pub player: Player,
    pub entry: GameCommand,
}

pub struct AdmissionView {
    pub game: u64,
    pub player: PlayerView,
    pub entry: GameCommandView,
}

impl View for Admission {
    type V = AdmissionView;

    open spec fn view(&self) -> AdmissionView {
        AdmissionView { game: self.game, player: self.player@, entry: self.entry@ }
    }
}

/// What becomes of a request to join, by the reply to the search for the game, the name, the
/// number that the player would have, and the verdict on the name. A missing game comes before a
/// bad name.
pub open spec fn admission(
    reply: Option<StateResponseView>,
    name: Seq<char>,
    number: u64,
    bad_name: bool,
) -> Result<AdmissionView, RefusalView> {
    match reply {
        Some(StateResponseView::Game(Some(game))) => if bad_name {
            Err(RefusalView::Forbidden("Name is Inappropriate"@))
        } else {
            Ok(
                AdmissionView {
                    game,
                    player: PlayerView::fresh(name),
                    entry: GameCommandView::AddPlayer(number),
                },
            )
        },
        _ => Err(RefusalView::NotFound("Game not found"@)),
    }
}

/// An outcome by its views.
pub open spec fn outcome(result: Result<Admission, Refusal>) -> Result<AdmissionView, RefusalView> {
    match result {
        Ok(admission) => Ok(admission@),
        Err(refusal) => Err(refusal@),
    }
}

/// Decides on a request to join, given the verdict on the name.
pub fn decide(
    reply: &Option<StateResponse>,
    name: String,
    number: u64,
    bad_name: bool,
) -> (result: Result<Admission, Refusal>)
    ensures
        outcome(result) == admission(state_reply(*reply), name@, number, bad_name),
{
    match reply {
        Some(StateResponse::Game(Some(game))) => {
            if bad_name {
                Err(Refusal::Forbidden("Name is Inappropriate".to_owned()))
            } else {
                Ok(
                    Admission {
                        game: *game,
                        player: Player::new(name),
                        entry: GameCommand::AddPlayer(number),
                    },
                )
            }
        },
        _ => Err(Refusal::NotFound("Game not found".to_owned())),
    }
}

/// Decides on a request to join. The reply is what the state said when it was asked for the game;
/// there is none where it was not reached.
pub fn join_game(reply: &Option<StateResponse>, name: String, number: u64) -> (result: Result<
    Admission,
    Refusal,
>)
    ensures
        outcome(result) == admission(state_reply(*reply), name@, number, inappropriate(name@)),
{
    let bad_name = is_inappropriate(name.as_str());
    decide(reply, name, number, bad_name)
}

/// Why a player could not join, as far as it can be told afterwards.
pub open spec fn join_error(bad_name: bool, reached: bool) -> Seq<char> {
    if bad_name {
        "Name is inappropriate"@
    } else if reached {
        "Unknown error, try again later"@
    } else {
        "Game not found, try again later"@
    }
}

/// Explains why a player could not join, given the verdict on the name and whether the state could
/// be asked for the game.
pub fn explain(bad_name: bool, reached: bool) -> (answer: String)
    ensures
        answer@ == rendered(error(join_error(bad_name, reached))),
        parsed(answer@) == Some(error(join_error(bad_name, reached))),
{
    if bad_name {
        ugg("Name is inappropriate")
    } else if reached {
        ugg("Unknown error, try again later")
    } else {
        ugg("Game not found, try again later")
    }
}

/// Whether the explanation takes a look at the game: it does not where the name explains it all.
pub fn error_needs_game(name: &str) -> (result: bool)
    ensures
        result == !inappropriate(name@),
{
    !is_inappropriate(name)
}

/// Explains why a player could not join. The reply is what the state said when it was asked for the
/// game; there is none where it was not reached.
pub fn get_error(name: &str, reply: &Option<StateResponse>) -> (answer: String)
    ensures
        answer@ == rendered(error(join_error(inappropriate(name@), reply is Some))),
        parsed(answer@) == Some(error(join_error(inappropriate(name@), reply is Some))),
{
    explain(is_inappropriate(name), reply.is_some())
}

// ---- What comes in from a player ----

/// What is to be done about a message of a player.
#[derive(Debug, PartialEq, Eq)]
pub enum PlayerAction {
    /// Pass a command to the player.
    ToPlayer(PlayerCommand),
    /// Pass a command to the game.
    ToGame(GameCommand),
    /// Ask the game for its phase, to see whether it takes this answer.
    AskPhase(u64),
}

pub enum PlayerActionView {
    ToPlayer(PlayerCommandView),
    ToGame(GameCommandView),
    AskPhase(u64),
}

impl View for PlayerAction {
    type V = PlayerActionView;

    open spec fn view(&self) -> PlayerActionView {
        match self {
            PlayerAction::ToPlayer(command) => PlayerActionView::ToPlayer(command@),
            PlayerAction::ToGame(command) => PlayerActionView::ToGame(command@),
            PlayerAction::AskPhase(answer) => PlayerActionView::AskPhase(*answer),
        }
    }
}

/// The views of `actions`, in their order.
pub open spec fn player_actions(actions: Seq<PlayerAction>) -> Seq<PlayerActionView> {
    Seq::new(actions.len(), |i: int| actions[i]@)
}

/// A text for the player.
pub open spec fn tell_player(text: Seq<char>) -> PlayerActionView {
    PlayerActionView::ToPlayer(PlayerCommandView::SendText(text))
}

/// What is done about a request; `None` stands for a text that is not JSON. An answer without a
/// number is passed over.
pub open spec fn request_actions(name: Seq<char>, request: Option<JsonView>) -> Seq<
    PlayerActionView,
> {
    let event = match request {
        Some(json) => json.member("event"@).as_text(),
        None => None,
    };
    if event == Some("answer"@) {
        match request->0.member("answer"@).as_unsigned() {
            Some(answer) => seq![PlayerActionView::AskPhase(answer)],
            None => Seq::empty(),
        }
    } else if event == Some("joined"@) {
        seq![
            tell_player("joinconfirmed"@),
            PlayerActionView::ToGame(
                GameCommandView::SendTextToTeacher(rendered(player_joined(name))),
            ),
        ]
    } else {
        seq![tell_player(rendered(error("Command not found"@)))]
    }
}

/// What is done about a message. Binary messages are passed over.
pub open spec fn message_actions(name: Seq<char>, message: InboundView) -> Seq<PlayerActionView> {
    match message {
        InboundView::Text(text) => request_actions(name, parsed(text)),
        InboundView::Ping(bytes) => seq![
            PlayerActionView::ToPlayer(PlayerCommandView::Pong(bytes)),
        ],
        _ => Seq::empty(),
    }
}

/// What is done about an answer once the game has replied: it counts while an item is up.
pub open spec fn answer_actions(answer: u64, reply: Option<GameResponseView>) -> Seq<
    PlayerActionView,
> {
    match reply {
        Some(GameResponseView::Phase(GamePhase::OnQuestion(_))) => seq![
            PlayerActionView::ToPlayer(PlayerCommandView::UpdateAnswer(answer)),
            tell_player(rendered(update_answer(answer))),
        ],
        _ => Seq::empty(),
    }
}

/// A list of one action.
fn single(action: PlayerAction) -> (actions: Vec<PlayerAction>)
    ensures
        player_actions(actions@) == seq![action@],
{
    let actions = vec![action];
    assert(player_actions(actions@) =~= seq![action@]);
    actions
}

/// A list of two actions.
fn pair(first: PlayerAction, second: PlayerAction) -> (actions: Vec<PlayerAction>)
    ensures
        player_actions(actions@) == seq![first@, second@],
{
    let actions = vec![first, second];
    assert(player_actions(actions@) =~= seq![first@, second@]);
    actions
}

/// A list without actions.
fn no_actions() -> (actions: Vec<PlayerAction>)
    ensures
        player_actions(actions@) == Seq::<PlayerActionView>::empty(),
{
    let actions: Vec<PlayerAction> = Vec::new();
    assert(player_actions(actions@) =~= Seq::<PlayerActionView>::empty());
    actions
}

/// The answer to a request that makes no sense.
fn not_found() -> (actions: Vec<PlayerAction>)
    ensures
        player_actions(actions@) == seq![tell_player(rendered(error("Command not found"@)))],
{
    single(PlayerAction::ToPlayer(PlayerCommand::SendText(ugg("Command not found"))))
}

/// Deals with a request of a player; there is none where the text was not JSON.
pub fn on_request(name: &str, request: &Option<Json>) -> (actions: Vec<PlayerAction>)
    ensures
        player_actions(actions@) == request_actions(name@, json_view(*request)),
{
    proof {
        reveal_strlit("answer");
        reveal_strlit("joined");
        assert("answer"@[0] != "joined"@[0]);
    }
    match request {
        Some(json) => match json.text_at("event") {
            Some(event) => {
                if same_text(event, "answer") {
                    match json.unsigned_at("answer") {
                        Some(answer) => single(PlayerAction::AskPhase(answer)),
                        None => no_actions(),
                    }
                } else if same_text(event, "joined") {
                    let confirmed = PlayerCommand::SendText("joinconfirmed".to_owned());
                    let announced = GameCommand::SendTextToTeacher(player_joined_text(name));
                    pair(PlayerAction::ToPlayer(confirmed), PlayerAction::ToGame(announced))
                } else {
                    not_found()
                }
            },
            None => not_found(),
        },
        None => not_found(),
    }
}

/// Deals with a message of a player.
pub fn on_message(name: &str, message: Inbound) -> (actions: Vec<PlayerAction>)
    ensures
        player_actions(actions@) == message_actions(name@, message@),
{
    match message {
        Inbound::Text(text) => on_request(name, &Json::parse(text.as_str())),
        Inbound::Ping(bytes) => single(PlayerAction::ToPlayer(PlayerCommand::Pong(bytes))),
        _ => no_actions(),
    }
}

/// Deals with an answer once the game has said its phase; there is no reply where the game was not
/// reached.
pub fn on_phase(answer: u64, reply: &Option<GameResponse>) -> (actions: Vec<PlayerAction>)
    ensures
        player_actions(actions@) == answer_actions(answer, game_reply(*reply)),
{
    match reply {
        Some(GameResponse::Phase(GamePhase::OnQuestion(_))) => {
            let confirmed = PlayerCommand::SendText(update_answer_text(answer));
            pair(
                PlayerAction::ToPlayer(PlayerCommand::UpdateAnswer(answer)),
                PlayerAction::ToPlayer(confirmed),
            )
        },
        _ => no_actions(),
    }
}

// ---- What holds of joining ----

/// Whoever has the code of a game gets into that game, until the code is given to another game or
/// deleted, and starts there without points, unless the name is inappropriate.
pub proof fn law_code_leads_to_the_game(
    state: StateView,
    code: Seq<char>,
    game: u64,
    later: Seq<StateCommandView>,
    name: Seq<char>,
    number: u64,
)
    requires
        forall|i: int|
            0 <= i < later.len() ==> match #[trigger] later[i] {
                StateCommandView::CreateGame(other, _) => other != code,
                StateCommandView::DeleteGame(other) => other != code,
                _ => true,
            },
    ensures
        ({
            let now = state.after(StateCommandView::CreateGame(code, game)).after_all(later);
            let reply = now.response(StateCommandView::GetGame(code));
            admission(Some(reply), name, number, inappropriate(name)) == if inappropriate(name) {
                Err(RefusalView::Forbidden("Name is Inappropriate"@))
            } else {
                Ok(
                    AdmissionView {
                        game,
                        player: PlayerView::fresh(name),
                        entry: GameCommandView::AddPlayer(number),
                    },
                )
            }
        }),
{
    crate::state::law_game_is_kept(state, code, game, later);
}

/// No one gets in under a code that no game has, whatever the name.
pub proof fn law_unknown_code_is_refused(
    state: StateView,
    code: Seq<char>,
    name: Seq<char>,
    number: u64,
)
    requires
        lookup(state.games, code) is None,
    ensures
        admission(
            Some(state.response(StateCommandView::GetGame(code))),
            name,
            number,
            inappropriate(name),
        ) == Err::<AdmissionView, _>(RefusalView::NotFound("Game not found"@)),
{
}

/// Where the game is there, a name is refused exactly where the error page puts it down to the
/// name.
pub proof fn law_refusal_is_explained(game: u64, name: Seq<char>, number: u64)
    ensures
        admission(
            Some(StateResponseView::Game(Some(game))),
            name,
            number,
            inappropriate(name),
        ) is Err <==> join_error(inappropriate(name), true) == "Name is inappropriate"@,
{
    reveal_strlit("Name is inappropriate");
    reveal_strlit("Unknown error, try again later");
    assert("Name is inappropriate"@.len() != "Unknown error, try again later"@.len());
}

/// An answer changes the player only while an item is up: in the lobby, or where the game is not
/// reached, it is dropped without a word.
pub proof fn law_no_answers_in_the_lobby(answer: u64)
    ensures
        answer_actions(answer, Some(GameResponseView::Phase(GamePhase::Lobby))).len() == 0,
        answer_actions(answer, None).len() == 0,
{
}

/// An answer that the game takes is what the player reports from then on, and the player is told.
pub proof fn law_taken_answer_is_reported(player: PlayerView, answer: u64, n: u64)
    ensures
        ({
            let actions = answer_actions(
                answer,
                Some(GameResponseView::Phase(GamePhase::OnQuestion(n))),
            );
            &&& actions.len() == 2
            &&& actions[0] matches PlayerActionView::ToPlayer(command) && player.after(
                command,
            ).curr_answer == Some(answer)
            &&& actions[1] == tell_player(rendered(update_answer(answer)))
        }),
{
}

/// Every answer is taken, whatever its number, from 0 on: a request with the event `answer` and an
/// unsigned integer under `answer` asks for the phase with that number and does nothing else. Where
/// an item is up, the player's current answer becomes that number, and the player is told.
pub proof fn law_every_answer_is_taken(
    name: Seq<char>,
    members: Map<Seq<char>, JsonView>,
    answer: u64,
    n: u64,
    player: PlayerView,
)
    requires
        members.contains_key("event"@),
        members["event"@] == JsonView::Text("answer"@),
        members.contains_key("answer"@),
        members["answer"@] == JsonView::Unsigned(answer),
    ensures
        request_actions(name, Some(JsonView::Object(members))) == seq![
            PlayerActionView::AskPhase(answer),
        ],
        ({
            let then = answer_actions(
                answer,
                Some(GameResponseView::Phase(GamePhase::OnQuestion(n))),
            );
            &&& then.len() == 2
            &&& then[0] is ToPlayer
            &&& player.after(then[0]->ToPlayer_0).curr_answer == Some(answer)
            &&& player.after(then[0]->ToPlayer_0).points == player.points
            &&& then[1] == PlayerActionView::ToPlayer(
                PlayerCommandView::SendText(
                    rendered(
                        JsonView::Object(
                            map![
                                "event"@ => JsonView::Text("update_answer"@),
                                "answer"@ => JsonView::Unsigned(answer),
                            ],
                        ),
                    ),
                ),
            )
        }),
{
}

/// An answer that comes without an unsigned integer is passed over.
pub proof fn law_answer_without_a_number_is_passed_over(
    name: Seq<char>,
    members: Map<Seq<char>, JsonView>,
)
    requires
        members.contains_key("event"@),
        members["event"@] == JsonView::Text("answer"@),
        members.contains_key("answer"@) ==> !(members["answer"@] is Unsigned),
    ensures
        request_actions(name, Some(JsonView::Object(members))).len() == 0,
{
}

/// A player who says that they joined is told so, and the teacher is told the player's name; whatever
/// else the request holds.
pub proof fn law_joining_is_announced(name: Seq<char>, members: Map<Seq<char>, JsonView>)
    requires
        members.contains_key("event"@),
        members["event"@] == JsonView::Text("joined"@),
    ensures
        request_actions(name, Some(JsonView::Object(members))) == seq![
            PlayerActionView::ToPlayer(PlayerCommandView::SendText("joinconfirmed"@)),
            PlayerActionView::ToGame(
                GameCommandView::SendTextToTeacher(
                    rendered(
                        JsonView::Object(
                            map![
                                "event"@ => JsonView::Text("playerjoined"@),
                                "player"@ => JsonView::Object(map!["name"@ => JsonView::Text(name)]),
                            ],
                        ),
                    ),
                ),
            ),
        ],
{
    reveal_strlit("answer");
    reveal_strlit("joined");
    assert("answer"@[0] != "joined"@[0]);
}

/// Anything else is refused with a word: what is not JSON, what is no object, and an object without
/// one of the two events.
pub proof fn law_other_requests_are_refused(name: Seq<char>, request: Option<JsonView>)
    requires
        request matches Some(JsonView::Object(members)) ==> !(members.contains_key("event"@) && (
        members["event"@] == JsonView::Text("answer"@) || members["event"@] == JsonView::Text(
            "joined"@,
        ))),
    ensures
        request_actions(name, request) == seq![
            PlayerActionView::ToPlayer(
                PlayerCommandView::SendText(
                    rendered(
                        JsonView::Object(
                            map!["error"@ => JsonView::Text("Command not found"@)],
                        ),
                    ),
                ),
            ),
        ],
{
}

/// What comes in from a player: a text is taken as the JSON that it is, a ping is answered with the
/// same bytes, and everything else is passed over.
pub proof fn law_what_comes_in_from_a_player(name: Seq<char>, text: Seq<char>, bytes: Seq<u8>)
    ensures
        message_actions(name, InboundView::Text(text)) == request_actions(name, parsed(text)),
        message_actions(name, InboundView::Ping(bytes)) == seq![
            PlayerActionView::ToPlayer(PlayerCommandView::Pong(bytes)),
        ],
        message_actions(name, InboundView::Binary(bytes)).len() == 0,
        message_actions(name, InboundView::Other).len() == 0,
{
}

/// An answer counts on every item and nowhere else.
pub proof fn law_answers_count_on_items_alone(answer: u64, reply: Option<GameResponseView>)
    ensures
        answer_actions(answer, reply).len() > 0 <==> reply is Some && reply->0 is Phase
            && reply->0->Phase_0 is OnQuestion,
{
}

/// A player gets in exactly where the search came back with a game and the name is not bad: into that
/// game, under that name and that number. A missing game is named first, then a bad name.
pub proof fn law_who_gets_in(
    reply: Option<StateResponseView>,
    name: Seq<char>,
    number: u64,
    bad_name: bool,
    game: u64,
)
    ensures
        ({
            let result = admission(reply, name, number, bad_name);
            let there = reply == Some(StateResponseView::Game(Some(game)));
            &&& there && !bad_name ==> {
                &&& result is Ok
                &&& result->Ok_0.game == game
                &&& result->Ok_0.player == (PlayerView { name, points: 0, curr_answer: None })
                &&& result->Ok_0.entry == GameCommandView::AddPlayer(number)
            }
            &&& there && bad_name ==> result == Err::<AdmissionView, _>(
                RefusalView::Forbidden("Name is Inappropriate"@),
            )
            &&& !(reply matches Some(StateResponseView::Game(Some(_)))) ==> result == Err::<
                AdmissionView,
                _,
            >(RefusalView::NotFound("Game not found"@))
        }),
{
}

/// Why a player could not join: the name where it is bad, else an unknown reason where the state was
/// reached, else the game.
pub proof fn law_reasons_for_not_joining(reached: bool)
    ensures
        join_error(true, reached) == "Name is inappropriate"@,
        join_error(false, true) == "Unknown error, try again later"@,
        join_error(false, false) == "Game not found, try again later"@,
{
}

/// Admissions and what is done about messages are seen whole.
pub proof fn law_joining_is_viewed_whole(
    admitted: Admission,
    refusal: Refusal,
    action: PlayerAction,
    actions: Seq<PlayerAction>,
)
    ensures
        admitted@.game == admitted.game,
        admitted@.player == admitted.player@,
        admitted@.entry == admitted.entry@,
        outcome(Ok(admitted)) == Ok::<_, RefusalView>(admitted@),
        outcome(Err(refusal)) == Err::<AdmissionView, _>(refusal@),
        match action {
            PlayerAction::ToPlayer(command) => action@ == PlayerActionView::ToPlayer(command@),
            PlayerAction::ToGame(command) => action@ == PlayerActionView::ToGame(command@),
            PlayerAction::AskPhase(answer) => action@ == PlayerActionView::AskPhase(answer),
        },
        player_actions(actions).len() == actions.len(),
        forall|i: int|
            0 <= i < actions.len() ==> #[trigger] player_actions(actions)[i] == actions[i]@,
{
}

} // verus!
