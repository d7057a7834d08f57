//! The state of the server: the games that run and the activities that are kept.
use crate::activity::{Activity, ActivityView};
use crate::directory::Directory;
use vstd::prelude::*;

verus! {

/// The games, under their codes, and the activities, under their ids. Games are known by numbers,
/// which whoever runs them gives out.
#[derive(Debug, PartialEq, Eq)]
pub struct State {
    games: Directory<u64>,
    activities: Directory<Activity>,
}

pub struct StateView {
    pub games: Map<Seq<char>, u64>,
    pub activities: Map<Seq<char>, ActivityView>,
}

impl View for State {
    type V = StateView;

    closed spec fn view(&self) -> StateView {
        StateView { games: self.games@, activities: self.activities@ }
    }
}

/// What the state can be told or asked.
#[derive(Debug, PartialEq, Eq)]
pub enum StateCommand {
    StartGame(String),
    GetGame(String),
    GetActivity(String),
    CreateGame(String, u64),
    DeleteGame(String),
    CreateActivity(String, Activity),
    SaveToFile,
}

pub enum StateCommandView {
    StartGame(Seq<char>),
    GetGame(Seq<char>),
    GetActivity(Seq<char>),
    CreateGame(Seq<char>, u64),
    DeleteGame(Seq<char>),
    CreateActivity(Seq<char>, ActivityView),
    SaveToFile,
}

impl View for StateCommand {
    type V = StateCommandView;

    open spec fn view(&self) -> StateCommandView {
        match self {
            StateCommand::StartGame(code) => StateCommandView::StartGame(code@),
            StateCommand::GetGame(code) => StateCommandView::GetGame(code@),
            StateCommand::GetActivity(id) => StateCommandView::GetActivity(id@),
            StateCommand::CreateGame(code, game) => StateCommandView::CreateGame(code@, *game),
            StateCommand::DeleteGame(code) => StateCommandView::DeleteGame(code@),
            StateCommand::CreateActivity(id, activity) => StateCommandView::CreateActivity(
                id@,
                activity@,
            ),
            StateCommand::SaveToFile => StateCommandView::SaveToFile,
        }
    }
}

/// The views of `commands`, in their order.
pub open spec fn state_commands(commands: Seq<StateCommand>) -> Seq<StateCommandView> {
    Seq::new(commands.len(), |i: int| commands[i]@)
}

/// What the state answers.
#[derive(Debug, PartialEq, Eq)]
pub enum StateResponse {
    Game(Option<u64>),
    Activity(Option<Activity>),
    Nothing,
}

pub enum StateResponseView {
    Game(Option<u64>),
    Activity(Option<ActivityView>),
    Nothing,
}

impl View for StateResponse {
    type V = StateResponseView;

    open spec fn view(&self) -> StateResponseView {
        match self {
            StateResponse::Game(game) => StateResponseView::Game(*game),
            StateResponse::Activity(Some(activity)) => StateResponseView::Activity(Some(activity@)),
            StateResponse::Activity(None) => StateResponseView::Activity(None),
            StateResponse::Nothing => StateResponseView::Nothing,
        }
    }
}

/// The reply of the state, where there is one.
pub open spec fn state_reply(reply: Option<StateResponse>) -> Option<StateResponseView> {
    match reply {
        Some(response) => Some(response@),
        None => None,
    }
}

/// What the state has others do.
#[derive(Debug, PartialEq, Eq)]
pub enum StateEffect {
    /// Start this game.
    Start(u64),
    /// Write these activities to the file, in place of what it held.
    Save(Directory<Activity>),
}

pub enum StateEffectView {
    Start(u64),
    Save(Map<Seq<char>, ActivityView>),
}

impl View for StateEffect {
    type V = StateEffectView;

    open spec fn view(&self) -> StateEffectView {
        match self {
            StateEffect::Start(game) => StateEffectView::Start(*game),
            StateEffect::Save(activities) => StateEffectView::Save(activities@),
        }
    }
}

/// An answer of the state, and what the state has others do.
#[derive(Debug, PartialEq, Eq)]
pub struct StateReaction {
    pub response: StateResponse,
    pub effect: Option<StateEffect>,
}

/// What is filed under a key, where anything is.
pub open spec fn lookup<V>(map: Map<Seq<char>, V>, key: Seq<char>) -> Option<V> {
    if map.contains_key(key) {
        Some(map[key])
    } else {
        None
    }
}

impl StateView {
    /// The state after a command.
    pub open spec fn after(self, command: StateCommandView) -> StateView {
        match command {
            StateCommandView::CreateGame(code, game) => StateView {
                games: self.games.insert(code, game),
                ..self
            },
            StateCommandView::DeleteGame(code) => StateView {
                games: self.games.remove(code),
                ..self
            },
            StateCommandView::CreateActivity(id, activity) => StateView {
                activities: self.activities.insert(id, activity),
                ..self
            },
            _ => self,
        }
    }

    /// What the state answers to a command.
    pub open spec fn response(self, command: StateCommandView) -> StateResponseView {
        match command {
            StateCommandView::GetGame(code) => StateResponseView::Game(lookup(self.games, code)),
            StateCommandView::GetActivity(id) => StateResponseView::Activity(
                lookup(self.activities, id),
            ),
            _ => StateResponseView::Nothing,
        }
    }

    /// What the state has others do because of a command. The start of a game that is not there
    /// has no effect.
    pub open spec fn effect(self, command: StateCommandView) -> Option<StateEffectView> {
        match command {
            StateCommandView::StartGame(code) => match lookup(self.games, code) {
                Some(game) => Some(StateEffectView::Start(game)),
                None => None,
            },
            StateCommandView::SaveToFile => Some(StateEffectView::Save(self.activities)),
            _ => None,
        }
    }

    /// The state after several commands.
    pub open spec fn after_all(self, commands: Seq<StateCommandView>) -> StateView
        decreases commands.len(),
    {
        if commands.len() == 0 {
            self
        } else {
            self.after_all(commands.drop_last()).after(commands.last())
        }
    }
}

impl State {
    /// Whether no code and no id is in use twice.
    pub closed spec fn well_formed(self) -> bool {
        &&& self.games.well_formed()
        &&& self.activities.well_formed()
    }

    /// A server that keeps these activities and runs no game.
    pub fn new(activities: Directory<Activity>) -> (state: State)
        requires
            activities.well_formed(),
        ensures
            state.well_formed(),
            state@ == (StateView { games: Map::empty(), activities: activities@ }),
    {
        State { games: Directory::new(), activities }
    }

    /// Carries out a command.
    pub fn handle(&mut self, msg: StateCommand) -> (reaction: StateReaction)
        requires
            old(self).well_formed(),
        ensures
            final(self).well_formed(),
            final(self)@ == old(self)@.after(msg@),
            reaction.response@ == old(self)@.response(msg@),
            match reaction.effect {
                Some(effect) => {
                    &&& old(self)@.effect(msg@) == Some(effect@)
                    &&& effect matches StateEffect::Save(activities) ==> activities.well_formed()
                },
                None => old(self)@.effect(msg@) is None,
            },
    {
        let mut response = StateResponse::Nothing;
        let mut effect: Option<StateEffect> = None;
        match msg {
            StateCommand::StartGame(code) => {
                match self.games.get(code.as_str()) {
                    Some(game) => {
                        effect = Some(StateEffect::Start(*game));
                    },
                    None => {},
                }
            },
            StateCommand::GetGame(code) => {
                response = match self.games.get(code.as_str()) {
                    Some(game) => StateResponse::Game(Some(*game)),
                    None => StateResponse::Game(None),
                };
            },
            StateCommand::GetActivity(id) => {
                response = match self.activities.get(id.as_str()) {
                    Some(activity) => StateResponse::Activity(Some(activity.clone())),
                    None => StateResponse::Activity(None),
                };
            },
            StateCommand::CreateActivity(id, activity) => {
                self.activities.insert(id, activity);
            },
            StateCommand::CreateGame(code, game) => {
                self.games.insert(code, game);
            },
            StateCommand::DeleteGame(code) => {
                self.games.remove(code.as_str());
            },
            StateCommand::SaveToFile => {
                effect = Some(StateEffect::Save(self.activities.copy()));
            },
        }
        StateReaction { response, effect }
    }
}

/// A game is found under its code until the code is given to another game or deleted.
pub proof fn law_game_is_kept(
    state: StateView,
    code: Seq<char>,
    game: u64,
    later: Seq<StateCommandView>,
)
    requires
        forall|i: int|
            0 <= i < later.len() ==> match #[trigger] later[i] {
                StateCommandView::CreateGame(other, _) => other != code,
                StateCommandView::DeleteGame(other) => other != code,
                _ => true,
            },
    ensures
        ({
            let now = state.after(StateCommandView::CreateGame(code, game)).after_all(later);
            &&& now.response(StateCommandView::GetGame(code)) == StateResponseView::Game(Some(game))
            &&& now.effect(StateCommandView::StartGame(code)) == Some(StateEffectView::Start(game))
        }),
    decreases later.len(),
{
    if later.len() > 0 {
        assert(later.last() == later[later.len() - 1]);
        law_game_is_kept(state, code, game, later.drop_last());
    }
}

/// A deleted game is not found and cannot be started until its code is given out again.
pub proof fn law_deleted_game_is_gone(
    state: StateView,
    code: Seq<char>,
    later: Seq<StateCommandView>,
)
    requires
        forall|i: int|
            0 <= i < later.len() ==> match #[trigger] later[i] {
                StateCommandView::CreateGame(other, _) => other != code,
                _ => true,
            },
    ensures
        ({
            let now = state.after(StateCommandView::DeleteGame(code)).after_all(later);
            &&& now.response(StateCommandView::GetGame(code)) == StateResponseView::Game(None)
            &&& now.effect(StateCommandView::StartGame(code)) is None
        }),
    decreases later.len(),
{
    if later.len() > 0 {
        assert(later.last() == later[later.len() - 1]);
        law_deleted_game_is_gone(state, code, later.drop_last());
    }
}

/// An activity is found under its id, and written to the file, until another is put in its place.
pub proof fn law_activity_is_kept(
    state: StateView,
    id: Seq<char>,
    activity: ActivityView,
    later: Seq<StateCommandView>,
)
    requires
        forall|i: int|
            0 <= i < later.len() ==> match #[trigger] later[i] {
                StateCommandView::CreateActivity(other, _) => other != id,
                _ => true,
            },
    ensures
        ({
            let now = state.after(StateCommandView::CreateActivity(id, activity)).after_all(later);
            &&& now.response(StateCommandView::GetActivity(id)) == StateResponseView::Activity(
                Some(activity),
            )
            &&& now.effect(StateCommandView::SaveToFile) matches Some(StateEffectView::Save(saved))
                && lookup(saved, id) == Some(activity)
        }),
    decreases later.len(),
{
    if later.len() > 0 {
        assert(later.last() == later[later.len() - 1]);
        law_activity_is_kept(state, id, activity, later.drop_last());
    }
}

/// No command takes an activity away.
pub proof fn law_activities_only_grow(state: StateView, commands: Seq<StateCommandView>)
    ensures
        state.activities.dom().subset_of(state.after_all(commands).activities.dom()),
    decreases commands.len(),
{
    if commands.len() > 0 {
        law_activities_only_grow(state, commands.drop_last());
    }
}

/// A command about one game leaves the others, and all activities, as they are.
pub proof fn law_other_games_are_untouched(
    state: StateView,
    code: Seq<char>,
    other: Seq<char>,
    game: u64,
)
    requires
        code != other,
    ensures
        ({
            let created = state.after(StateCommandView::CreateGame(code, game));
            let deleted = state.after(StateCommandView::DeleteGame(code));
            &&& lookup(created.games, other) == lookup(state.games, other)
            &&& lookup(deleted.games, other) == lookup(state.games, other)
            &&& created.activities == state.activities
            &&& deleted.activities == state.activities
        }),
{
}

/// A save hands over all activities, none of the games, and nothing that is not kept; it changes
/// nothing and is answered with nothing.
pub proof fn law_save_hands_over_all_activities(state: StateView)
    ensures
        state.effect(StateCommandView::SaveToFile) == Some(StateEffectView::Save(state.activities)),
        state.after(StateCommandView::SaveToFile) == state,
        state.response(StateCommandView::SaveToFile) == StateResponseView::Nothing,
{
}

/// What a command does to the state: a game or an activity is found from then on under its key, in
/// place of what was there, and everything else stays; a deleted game is not found; a search finds
/// exactly what stands under the key; a start starts the game under the code, where there is one.
pub proof fn law_what_a_command_does_to_the_state(
    state: StateView,
    command: StateCommandView,
    key: Seq<char>,
)
    ensures
        state.after(command).games.contains_key(key) <==> match command {
            StateCommandView::CreateGame(code, _) => key == code || state.games.contains_key(key),
            StateCommandView::DeleteGame(code) => key != code && state.games.contains_key(key),
            _ => state.games.contains_key(key),
        },
        state.after(command).games.contains_key(key) ==> state.after(command).games[key]
            == match command {
            StateCommandView::CreateGame(code, game) => if key == code {
                game
            } else {
                state.games[key]
            },
            _ => state.games[key],
        },
        state.after(command).activities.contains_key(key) <==> match command {
            StateCommandView::CreateActivity(id, _) => key == id || state.activities.contains_key(
                key,
            ),
            _ => state.activities.contains_key(key),
        },
        state.after(command).activities.contains_key(key) ==> state.after(command).activities[key]
            == match command {
            StateCommandView::CreateActivity(id, activity) => if key == id {
                activity
            } else {
                state.activities[key]
            },
            _ => state.activities[key],
        },
        match command {
            StateCommandView::GetGame(code) => state.response(command) == StateResponseView::Game(
                if state.games.contains_key(code) {
                    Some(state.games[code])
                } else {
                    None
                },
            ),
            StateCommandView::GetActivity(id) => state.response(command)
                == StateResponseView::Activity(
                if state.activities.contains_key(id) {
                    Some(state.activities[id])
                } else {
                    None
                },
            ),
            _ => state.response(command) is Nothing,
        },
        match command {
            StateCommandView::StartGame(code) => state.effect(command)
                == if state.games.contains_key(code) {
                Some(StateEffectView::Start(state.games[code]))
            } else {
                None
            },
            StateCommandView::SaveToFile => state.effect(command) == Some(
                StateEffectView::Save(state.activities),
            ),
            _ => state.effect(command) is None,
        },
{
}

/// Commands, responses and effects of the state are seen whole.
pub proof fn law_state_messages_are_viewed_whole(
    command: StateCommand,
    response: StateResponse,
    effect: StateEffect,
)
    ensures
        match command {
            StateCommand::StartGame(code) => command@ == StateCommandView::StartGame(code@),
            StateCommand::GetGame(code) => command@ == StateCommandView::GetGame(code@),
            StateCommand::GetActivity(id) => command@ == StateCommandView::GetActivity(id@),
            StateCommand::CreateGame(code, game) => command@ == StateCommandView::CreateGame(
                code@,
                game,
            ),
            StateCommand::DeleteGame(code) => command@ == StateCommandView::DeleteGame(code@),
            StateCommand::CreateActivity(id, activity) => command@
                == StateCommandView::CreateActivity(id@, activity@),
            StateCommand::SaveToFile => command@ is SaveToFile,
        },
        match response {
            StateResponse::Game(game) => response@ == StateResponseView::Game(game),
            StateResponse::Activity(Some(activity)) => response@ == StateResponseView::Activity(
                Some(activity@),
            ),
            StateResponse::Activity(None) => response@ == StateResponseView::Activity(None),
            StateResponse::Nothing => response@ is Nothing,
        },
        state_reply(Some(response)) == Some(response@),
        state_reply(None) is None,
        match effect {
            StateEffect::Start(game) => effect@ == StateEffectView::Start(game),
            StateEffect::Save(activities) => effect@ == StateEffectView::Save(activities@),
        },
{
}

/// The view of a list of commands has one command for each, in the same place.
pub proof fn law_state_commands_are_viewed_whole(commands: Seq<StateCommand>)
    ensures
        state_commands(commands).len() == commands.len(),
        forall|i: int|
            0 <= i < commands.len() ==> #[trigger] state_commands(commands)[i] == commands[i]@,
{
}

} // verus!
