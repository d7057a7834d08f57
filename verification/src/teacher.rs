//! Teachers: they host a game from their own socket.
use crate::activity::{
    Access, AccessView, Activity, ActivityView, Config, SlidesItem, SlidesItemView, law_config_is_viewed_whole,
};
use crate::game::{Game, GameCommand, GameCommandView, GameView};
use crate::json::{Json, JsonView, json_view, parsed, rendered};
use crate::refusal::{Refusal, RefusalView};
use crate::socket::{Frame, FrameView, Inbound, InboundView};
use crate::state::{
    StateCommand, StateCommandView, StateResponse, StateResponseView, StateView, lookup, state_reply,
};
use crate::text::{contains_text, same_text};
use crate::wire::{game_code, game_code_text};
use vstd::prelude::*;

verus! {

/// What a teacher can be told.
#[derive(Debug, PartialEq, Eq)]
pub enum TeacherCommand {
    SendText(String),
}

pub enum TeacherCommandView {
    SendText(Seq<char>),
}

impl View for TeacherCommand {
    type V = TeacherCommandView;

    open spec fn view(&self) -> TeacherCommandView {
        match self {
            TeacherCommand::SendText(text) => TeacherCommandView::SendText(text@),
        }
    }
}

/// The teacher of a game. All there is to a teacher is the socket.
#[derive(Debug, PartialEq, Eq)]
pub struct Teacher {}

impl Teacher {
    /// Carries out a command: the text goes out on the teacher's socket.
    pub fn handle(&self, msg: TeacherCommand) -> (frame: Frame)
        ensures
            match msg@ {
                TeacherCommandView::SendText(text) => frame@ == FrameView::Text(text),
            },
    {
        match msg {
            TeacherCommand::SendText(text) => Frame::Text(text),
        }
    }
}

// ---- Starting a game ----

/// What becomes of the search for a set, by the reply of the state.
pub open spec fn set_found(reply: Option<StateResponseView>) -> Result<ActivityView, RefusalView> {
    match reply {
        Some(StateResponseView::Activity(Some(activity))) => Ok(activity),
        _ => Err(RefusalView::NotFound("Set not found"@)),
    }
}

/// Takes the reply of the state to the search for a set; there is none where the state was not
/// reached.
pub fn find_set(reply: Option<StateResponse>) -> (result: Result<Activity, Refusal>)
    ensures
        match result {
            Ok(activity) => set_found(state_reply(reply)) == Ok::<_, RefusalView>(activity@),
            Err(refusal) => set_found(state_reply(reply)) == Err::<ActivityView, _>(refusal@),
        },
{
    match reply {
        Some(StateResponse::Activity(Some(activity))) => Ok(activity),
        _ => Err(Refusal::NotFound("Set not found".to_owned())),
    }
}

/// Where the data on the user of an app key is found.
pub open spec fn userdata_url(app_key: Seq<char>) -> Seq<char> {
    "https://www.vortice.app/api/apps/"@ + app_key + "/userdata"@
}

/// Where to look up who the teacher is, where it matters: a set that is open to all needs no
/// look-up.
pub fn user_lookup(access: &Access, app_key: &str) -> (url: Option<String>)
    ensures
        match url {
            Some(url) => access@ is Usernames && url@ == userdata_url(app_key@),
            None => access@ is All,
        },
{
    match access {
        Access::All(_) => None,
        Access::Usernames(_) => {
            let mut url = "https://www.vortice.app/api/apps/".to_owned();
            url.append(app_key);
            url.append("/userdata");
            Some(url)
        },
    }
}

/// Whether a teacher may start a set, by the data on the teacher; `None` stands for data that did
/// not come or was not JSON.
pub open spec fn may_start(access: AccessView, userdata: Option<JsonView>) -> bool {
    match access {
        AccessView::All(_) => true,
        AccessView::Usernames(names) => match userdata {
            Some(json) => match json.member("username"@).as_text() {
                Some(username) => names.contains(username),
                None => false,
            },
            None => false,
        },
    }
}

/// Tells whether a teacher may start a set, by the data on the teacher.
pub fn has_access(access: &Access, userdata: &Option<Json>) -> (result: bool)
    ensures
        result == may_start(access@, json_view(*userdata)),
{
    match access {
        Access::All(_) => true,
        Access::Usernames(names) => match userdata {
            Some(json) => match json.text_at("username") {
                Some(username) => contains_text(names, username),
                None => false,
            },
            None => false,
        },
    }
}

/// The JSON in the data on a user, where the data came.
pub open spec fn userdata_json(body: Option<String>) -> Option<JsonView> {
    match body {
        Some(text) => parsed(text@),
        None => None,
    }
}

/// A game that is set up: the game itself, what the state is told, and what the teacher is told.
#[derive(Debug, PartialEq, Eq)]
pub struct Opening {
    pub game: Game,
    pub entry: StateCommand,
    pub greeting: Frame,
}

pub struct OpeningView {
    pub game: GameView,
    pub entry: StateCommandView,
    pub greeting: FrameView,
}

impl View for Opening {
    type V = OpeningView;

    open spec fn view(&self) -> OpeningView {
        OpeningView { game: self.game@, entry: self.entry@, greeting: self.greeting@ }
    }
}

/// What becomes of a request to start a set, by whether the teacher may: a game in the lobby, filed
/// under its code, and the code for the teacher.
pub open spec fn opening(
    activity: ActivityView,
    granted: bool,
    code: Seq<char>,
    number: u64,
) -> Result<OpeningView, RefusalView> {
    if granted {
        Ok(
            OpeningView {
                game: GameView::fresh(activity.config),
                entry: StateCommandView::CreateGame(code, number),
                greeting: FrameView::Text(rendered(game_code(code))),
            },
        )
    } else {
        Err(RefusalView::Forbidden("You do not have access to this set"@))
    }
}

/// An outcome by its views.
pub open spec fn outcome(result: Result<Opening, Refusal>) -> Result<OpeningView, RefusalView> {
    match result {
        Ok(opening) => Ok(opening@),
        Err(refusal) => Err(refusal@),
    }
}

/// Sets up a game, given whether the teacher may.
pub fn open_game(activity: Activity, granted: bool, code: &str, number: u64) -> (result: Result<
    Opening,
    Refusal,
>)
    ensures
        outcome(result) == opening(activity@, granted, code@, number),
{
    if granted {
        Ok(
            Opening {
                game: Game::new(activity.config),
                entry: StateCommand::CreateGame(code.to_owned(), number),
                greeting: Frame::Text(game_code_text(code)),
            },
        )
    } else {
        Err(Refusal::Forbidden("You do not have access to this set".to_owned()))
    }
}

/// Decides on a request to start a set, and sets up the game under this code and number. `body` is
/// the data on the teacher, where it was looked up and came.
pub fn start_game(activity: Activity, body: &Option<String>, code: &str, number: u64) -> (result:
    Result<Opening, Refusal>)
    ensures
        outcome(result) == opening(
            activity@,
            may_start(activity@.access, userdata_json(*body)),
            code@,
            number,
        ),
{
    let userdata = match body {
        Some(text) => Json::parse(text.as_str()),
        None => None,
    };
    let granted = has_access(&activity.access, &userdata);
    open_game(activity, granted, code, number)
}

/// What the state is told where the teacher could not be given the code.
pub fn on_greeting_failed(code: &str) -> (command: StateCommand)
    ensures
        command@ == StateCommandView::DeleteGame(code@),
{
    StateCommand::DeleteGame(code.to_owned())
}

// ---- What comes in from a teacher ----

/// What is to be done about a message of a teacher.
#[derive(Debug, PartialEq, Eq)]
pub enum TeacherAction {
    /// Pass a command to the state.
    ToState(StateCommand),
    /// Pass a command to the game.
    ToGame(GameCommand),
    /// Send this back on the teacher's socket.
    Send(Frame),
}

pub enum TeacherActionView {
    ToState(StateCommandView),
    ToGame(GameCommandView),
    Send(FrameView),
}

impl View for TeacherAction {
    type V = TeacherActionView;

    open spec fn view(&self) -> TeacherActionView {
        match self {
            TeacherAction::ToState(command) => TeacherActionView::ToState(command@),
            TeacherAction::ToGame(command) => TeacherActionView::ToGame(command@),
            TeacherAction::Send(frame) => TeacherActionView::Send(frame@),
        }
    }
}

/// What is done about a message of the teacher of the game with this code. Texts other than the two
/// commands are passed over; binary messages are sent back.
pub open spec fn message_action(code: Seq<char>, message: InboundView) -> Option<
    TeacherActionView,
> {
    match message {
        InboundView::Text(text) => if text == "gamestart"@ {
            Some(TeacherActionView::ToState(StateCommandView::StartGame(code)))
        } else if text == "continue"@ {
            Some(TeacherActionView::ToGame(GameCommandView::Continue))
        } else {
            None
        },
        InboundView::Binary(bytes) => Some(TeacherActionView::Send(FrameView::Binary(bytes))),
        InboundView::Ping(bytes) => Some(TeacherActionView::Send(FrameView::Pong(bytes))),
        InboundView::Other => None,
    }
}

/// Deals with a message of the teacher of the game with this code.
pub fn on_message(code: &str, message: Inbound) -> (action: Option<TeacherAction>)
    ensures
        match action {
            Some(action) => message_action(code@, message@) == Some(action@),
            None => message_action(code@, message@) is None,
        },
{
    match message {
        Inbound::Text(text) => {
            if same_text(text.as_str(), "gamestart") {
                Some(TeacherAction::ToState(StateCommand::StartGame(code.to_owned())))
            } else if same_text(text.as_str(), "continue") {
                Some(TeacherAction::ToGame(GameCommand::Continue))
            } else {
                None
            }
        },
        Inbound::Binary(bytes) => Some(TeacherAction::Send(Frame::Binary(bytes))),
        Inbound::Ping(bytes) => Some(TeacherAction::Send(Frame::Pong(bytes))),
        Inbound::Other => None,
    }
}

/// What the game is told where something could not be sent back to its teacher.
pub fn on_send_failed() -> (command: GameCommand)
    ensures
        command@ == GameCommandView::TeacherDisconnect,
{
    GameCommand::TeacherDisconnect
}

// ---- What holds of teachers ----

/// A set that names its users is started by no one else: whoever is let in has sent data with one
/// of the names.
pub proof fn law_only_named_users_start(
    activity: ActivityView,
    names: Seq<Seq<char>>,
    userdata: Option<JsonView>,
    code: Seq<char>,
    number: u64,
)
    requires
        activity.access == AccessView::Usernames(names),
    ensures
        opening(activity, may_start(activity.access, userdata), code, number) is Ok <==> exists|
            i: int,
        |
            0 <= i < names.len() && userdata is Some && userdata->0.member("username"@).as_text()
                == Some(#[trigger] names[i]),
{
    if userdata is Some && userdata->0.member("username"@).as_text() is Some {
        let username = userdata->0.member("username"@).as_text()->0;
        if names.contains(username) {
            let i = choose|i: int| 0 <= i < names.len() && #[trigger] names[i] == username;
            assert(names[i] == username);
        }
    }
}

/// A set that is open to all is started by anyone, with or without data.
pub proof fn law_open_set_is_started_by_anyone(
    activity: ActivityView,
    userdata: Option<JsonView>,
    code: Seq<char>,
    number: u64,
)
    requires
        activity.access is All,
    ensures
        opening(activity, may_start(activity.access, userdata), code, number) is Ok,
{
}

/// The code that a teacher is given is the one under which the game is found and started, and the
/// teacher's word starts that game.
pub proof fn law_teacher_starts_own_game(
    state: StateView,
    activity: ActivityView,
    code: Seq<char>,
    number: u64,
)
    ensures
        ({
            let opened = opening(activity, true, code, number)->Ok_0;
            let now = state.after(opened.entry);
            &&& opened.greeting == FrameView::Text(rendered(game_code(code)))
            &&& now.response(StateCommandView::GetGame(code)) == StateResponseView::Game(
                Some(number),
            )
            &&& message_action(code, InboundView::Text("gamestart"@)) matches Some(
                TeacherActionView::ToState(command),
            ) && now.effect(command) == Some(crate::state::StateEffectView::Start(number))
        }),
{
}

/// Where the teacher could not be given the code, no one finds the game under it.
pub proof fn law_unannounced_game_is_gone(
    state: StateView,
    activity: ActivityView,
    code: Seq<char>,
    number: u64,
)
    ensures
        lookup(
            state.after(opening(activity, true, code, number)->Ok_0.entry).after(
                StateCommandView::DeleteGame(code),
            ).games,
            code,
        ) is None,
{
}

/// A game that is opened for an activity plays what the activity holds: as many items, and at each
/// position the item that the activity has there. It waits in the lobby, without players, under the
/// code and the number that it was given, and the teacher is sent that code.
pub proof fn law_game_plays_the_whole_set(
    activity: Activity,
    code: Seq<char>,
    number: u64,
    n: int,
)
    ensures
        ({
            let opened = opening(activity@, true, code, number)->Ok_0;
            let played = opened.game.config;
            &&& opening(activity@, true, code, number) is Ok
            &&& opened.game.phase is Lobby
            &&& opened.game.players.len() == 0
            &&& match activity.config {
                Config::Quiz { questions } => {
                    &&& played is Quiz
                    &&& played.len() == questions@.len()
                    &&& 0 <= n < questions@.len() ==> played.item(n) == SlidesItemView::Question(
                        questions@[n]@,
                    )
                },
                Config::Slides(items) => {
                    &&& played is Slides
                    &&& played.len() == items@.len()
                    &&& 0 <= n < items@.len() ==> match items@[n] {
                        SlidesItem::Slide(slide) => played.item(n) == SlidesItemView::Slide(slide@),
                        SlidesItem::Question(question) => played.item(n)
                            == SlidesItemView::Question(question@),
                    }
                },
            }
            &&& opened.entry == StateCommandView::CreateGame(code, number)
            &&& opened.greeting == FrameView::Text(
                rendered(
                    JsonView::Object(
                        map![
                            "event"@ => JsonView::Text("gamecode"@),
                            "gamecode"@ => JsonView::Text(code),
                        ],
                    ),
                ),
            )
        }),
{
    law_config_is_viewed_whole(activity.config);
}

/// A game that was opened for an activity, when asked what is played, names what the activity holds.
pub proof fn law_opened_game_names_the_set(activity: Activity, code: Seq<char>, number: u64)
    ensures
        opening(activity@, true, code, number)->Ok_0.game.response(GameCommandView::GetConfig)
            == crate::game::GameResponseView::Config(activity.config@),
{
}

/// A teacher who may not start a set is told so, and nothing is opened.
pub proof fn law_refused_teacher_opens_nothing(
    activity: ActivityView,
    code: Seq<char>,
    number: u64,
)
    ensures
        opening(activity, false, code, number) == Err::<OpeningView, _>(
            RefusalView::Forbidden("You do not have access to this set"@),
        ),
{
}

/// A set is found exactly where the state came back with an activity, and it is that activity; else
/// the request is refused.
pub proof fn law_set_is_found_where_it_is(reply: Option<StateResponseView>, activity: ActivityView)
    ensures
        set_found(reply) == Ok::<_, RefusalView>(activity) <==> reply == Some(
            StateResponseView::Activity(Some(activity)),
        ),
        set_found(reply) is Err ==> set_found(reply) == Err::<ActivityView, _>(
            RefusalView::NotFound("Set not found"@),
        ),
{
}

/// The data on a user is looked for under the app key, the whole of it and nothing else.
pub proof fn law_userdata_stands_under_the_key(app_key: Seq<char>)
    ensures
        ({
            let before = "https://www.vortice.app/api/apps/"@;
            let behind = "/userdata"@;
            let url = userdata_url(app_key);
            &&& url.len() == before.len() + app_key.len() + behind.len()
            &&& url.take(before.len() as int) == before
            &&& url.skip(before.len() as int).take(app_key.len() as int) == app_key
            &&& url.skip(before.len() as int).skip(app_key.len() as int) == behind
        }),
{
    let before = "https://www.vortice.app/api/apps/"@;
    let behind = "/userdata"@;
    let url = userdata_url(app_key);
    assert(url.take(before.len() as int) =~= before);
    assert(url.skip(before.len() as int).take(app_key.len() as int) =~= app_key);
    assert(url.skip(before.len() as int).skip(app_key.len() as int) =~= behind);
}

/// A teacher's data is the JSON in what came, where anything came.
pub proof fn law_userdata_is_read_where_it_came(body: String)
    ensures
        userdata_json(Some(body)) == parsed(body@),
        userdata_json(None) is None,
{
}

/// What a teacher's message does: one word starts the game with the teacher's code, one word goes on,
/// any other text does nothing; bytes come back as they are, a ping as a pong with the same bytes.
pub proof fn law_what_a_teacher_can_say(code: Seq<char>, text: Seq<char>, bytes: Seq<u8>)
    ensures
        message_action(code, InboundView::Text("gamestart"@)) == Some(
            TeacherActionView::ToState(StateCommandView::StartGame(code)),
        ),
        message_action(code, InboundView::Text("continue"@)) == Some(
            TeacherActionView::ToGame(GameCommandView::Continue),
        ),
        text != "gamestart"@ && text != "continue"@ ==> message_action(
            code,
            InboundView::Text(text),
        ) is None,
        message_action(code, InboundView::Binary(bytes)) == Some(
            TeacherActionView::Send(FrameView::Binary(bytes)),
        ),
        message_action(code, InboundView::Ping(bytes)) == Some(
            TeacherActionView::Send(FrameView::Pong(bytes)),
        ),
        message_action(code, InboundView::Other) is None,
{
    reveal_strlit("gamestart");
    reveal_strlit("continue");
    assert("gamestart"@.len() != "continue"@.len());
}

/// What teachers are told, what they do, and games that are set up are seen whole.
pub proof fn law_teacher_messages_are_viewed_whole(
    text: String,
    opening: Opening,
    refusal: Refusal,
    action: TeacherAction,
)
    ensures
        TeacherCommand::SendText(text)@ == TeacherCommandView::SendText(text@),
        opening@.game == opening.game@,
        opening@.entry == opening.entry@,
        opening@.greeting == opening.greeting@,
        outcome(Ok(opening)) == Ok::<_, RefusalView>(opening@),
        outcome(Err(refusal)) == Err::<OpeningView, _>(refusal@),
        match action {
            TeacherAction::ToState(command) => action@ == TeacherActionView::ToState(command@),
            TeacherAction::ToGame(command) => action@ == TeacherActionView::ToGame(command@),
            TeacherAction::Send(frame) => action@ == TeacherActionView::Send(frame@),
        },
{
}

} // verus!
