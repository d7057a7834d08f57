//! The sets of a teacher: which ids the teacher's app keeps, adding one, listing them.
use crate::activity::{Access, AccessView, Activity, ActivityView, Config, ConfigView};
use crate::chance::{all_alphanumeric, random};
use crate::json::{
    Json, JsonView, json_view, json_views, lemma_plain_array, lemma_plain_deeper, lemma_plain_with, parsed, rendered,
};
use crate::state::{
    StateCommand, StateCommandView, StateResponse, StateResponseView, StateView, state_commands, state_reply,
};
use crate::text::texts;
use crate::wire::{
    Listed, ListedView, created, created_text, error, listed_views, listing, listing_text, ugg,
};
use vstd::prelude::*;

verus! {

broadcast use {lemma_plain_array, lemma_plain_with};

// ---- The app of a teacher ----

/// Where the data of an app is read and written.
pub open spec fn app_url_of(app_key: Seq<char>) -> Seq<char> {
    "https://www.vortice.app/api/apps/"@ + app_key
}

/// Writes where the data of an app is read and written.
pub fn app_url(app_key: &str) -> (url: String)
    ensures
        url@ == app_url_of(app_key@),
{
    let mut url = "https://www.vortice.app/api/apps/".to_owned();
    url.append(app_key);
    url
}

/// What is sent to an app in order to read its data.
pub fn read_request() -> (body: String)
    ensures
        body@ == "read"@,
{
    "read".to_owned()
}

/// The ids in the data of an app: an array under `data`. Where there is none, or the data is not
/// JSON, there are no ids.
pub open spec fn ids_in(data: Option<JsonView>) -> Seq<JsonView> {
    match data {
        Some(json) => match json.member("data"@).as_items() {
            Some(items) => items,
            None => Seq::empty(),
        },
        None => Seq::empty(),
    }
}

/// The ids that an app keeps. Its data is a text under `data`, which is JSON in its own right.
pub open spec fn kept_ids(reply: JsonView) -> Seq<JsonView> {
    match reply.member("data"@).as_text() {
        Some(text) => ids_in(parsed(text)),
        None => Seq::empty(),
    }
}

/// The data of an app that keeps these ids.
pub open spec fn id_list(ids: Seq<JsonView>) -> JsonView {
    JsonView::empty_object().with("data"@, JsonView::Array(ids))
}

/// Looks up the ids in the data of an app; there is no data where it was not JSON.
pub fn find_ids(data: &Option<Json>) -> (ids: Vec<Json>)
    ensures
        json_views(ids@) == ids_in(json_view(*data)),
{
    let none: Vec<Json> = Vec::new();
    assert(json_views(none@) =~= Seq::<JsonView>::empty());
    match data {
        Some(json) => match json.items_at("data") {
            Some(items) => items,
            None => none,
        },
        None => none,
    }
}

/// Whether each of `items` nests so little that a list of them can still be read.
pub open spec fn fit_in_a_list(items: Seq<JsonView>) -> bool {
    forall|i: int| 0 <= i < items.len() ==> (#[trigger] items[i]).shallow(125)
}

/// Looks up the ids that an app keeps. As they were read out of a list, they fit in one.
pub fn find_kept_ids(reply: &Json) -> (ids: Vec<Json>)
    ensures
        json_views(ids@) == kept_ids(reply@),
        fit_in_a_list(json_views(ids@)),
{
    match reply.text_at("data") {
        Some(text) => {
            let data = Json::parse(text);
            proof {
                if data is Some && data->0@.member("data"@) is Array {
                    let members = data->0@->Object_0;
                    assert(members.contains_key("data"@));
                    assert(members["data"@].shallow(126));
                }
            }
            find_ids(&data)
        },
        None => find_ids(&None),
    }
}

// ---- Adding a set ----

/// A teacher's request to keep an activity.
#[derive(Debug, PartialEq, Eq)]
pub struct CreateActivity {
    pub name: String,
    pub access: Access,
    pub config: Config,
}

pub struct CreateActivityView {
    pub name: Seq<char>,
    pub access: AccessView,
    pub config: ConfigView,
}

impl View for CreateActivity {
    type V = CreateActivityView;

    open spec fn view(&self) -> CreateActivityView {
        CreateActivityView { name: self.name@, access: self.access@, config: self.config@ }
    }
}

impl CreateActivityView {
    /// The activity that is asked for.
    pub open spec fn activity(self) -> ActivityView {
        ActivityView { name: self.name, config: self.config, access: self.access }
    }
}

/// An activity that is to be kept: its id, what is sent to the app, what the state is told, and the
/// answer to the teacher, in this order.
#[derive(Debug, PartialEq, Eq)]
pub struct Filing {
    pub id: String,
    pub body: String,
    pub commands: Vec<StateCommand>,
    pub answer: String,
}

/// Whether a filing keeps an activity under its id: the app keeps the id behind those that it
/// keeps already, the state files the activity and saves, and the teacher is told the id.
pub open spec fn files(filing: Filing, kept: Seq<JsonView>, data: CreateActivityView) -> bool {
    let ids = kept.push(JsonView::Text(filing.id@));
    &&& filing.body@ == rendered(id_list(ids))
    &&& id_list(ids).readable() ==> parsed(filing.body@) == Some(id_list(ids))
    &&& id_list(ids).legible() ==> parsed(filing.body@) is Some && id_list(ids).comes_back_as(
        parsed(filing.body@)->0,
    )
    &&& state_commands(filing.commands@) == seq![
        StateCommandView::CreateActivity(filing.id@, data.activity()),
        StateCommandView::SaveToFile,
    ]
    &&& filing.answer@ == rendered(created(filing.id@))
    &&& parsed(filing.answer@) == Some(created(filing.id@))
}

/// Makes out how an activity is kept under an id, by an app that keeps `kept` already.
pub fn file_activity(kept: Vec<Json>, id: String, data: CreateActivity) -> (filing: Filing)
    ensures
        filing.id@ == id@,
        files(filing, json_views(kept@), data@),
{
    let ghost before = json_views(kept@);
    let mut ids = kept;
    ids.push(Json::text(id.as_str()));
    assert(json_views(ids@) =~= before.push(JsonView::Text(id@)));
    let list = Json::object().with("data", Json::array(ids));
    let activity = Activity { name: data.name, config: data.config, access: data.access };
    let commands = vec![
        StateCommand::CreateActivity(id.clone(), activity),
        StateCommand::SaveToFile,
    ];
    assert(state_commands(commands@) =~= seq![
        StateCommandView::CreateActivity(id@, data@.activity()),
        StateCommandView::SaveToFile,
    ]);
    let answer = created_text(id.as_str());
    Filing { id, body: list.to_text(), commands, answer }
}

/// The length of an activity's id.
pub const ID_LENGTH: usize = 8;

/// The JSON in what an app sent, where anything came.
pub open spec fn reply_json(reply: Option<String>) -> Option<JsonView> {
    match reply {
        Some(text) => parsed(text@),
        None => None,
    }
}

/// Deals with a request to keep an activity. `reply` is what the app sent when it was read, where it
/// sent a text. The error is the answer to the teacher. The id rests on chance. Whatever the app
/// kept, the set is the last of the next list.
pub fn create_activity(reply: &Option<String>, data: CreateActivity) -> (result: Result<
    Filing,
    String,
>)
    ensures
        match reply_json(*reply) {
            Some(json) => match result {
                Ok(filing) => {
                    &&& filing.id@.len() == ID_LENGTH
                    &&& all_alphanumeric(filing.id@)
                    &&& files(filing, kept_ids(json), data@)
                    &&& fit_in_a_list(kept_ids(json))
                    &&& forall|state: StateView, later: JsonView| #[trigger]
                        listed_last(state, filing, kept_ids(json), data@, later)
                },
                Err(_) => false,
            },
            None => match result {
                Ok(_) => false,
                Err(answer) => {
                    &&& answer@ == rendered(error("Error with Vortice services"@))
                    &&& parsed(answer@) == Some(error("Error with Vortice services"@))
                },
            },
        },
{
    let json = match reply {
        Some(text) => Json::parse(text.as_str()),
        None => None,
    };
    match json {
        Some(json) => {
            let filing = file_activity(find_kept_ids(&json), random(ID_LENGTH), data);
            proof {
                assert forall|state: StateView, later: JsonView| #[trigger]
                    listed_last(state, filing, kept_ids(json@), data@, later) by {
                    law_next_listing_ends_with_the_set(
                        state,
                        filing,
                        kept_ids(json@),
                        data@,
                        later,
                    );
                }
            }
            Ok(filing)
        },
        None => Err(ugg("Error with Vortice services")),
    }
}

// ---- Listing sets ----

/// What came back from an app.
#[derive(Debug, PartialEq, Eq)]
pub enum Fetched {
    /// The app was not reached.
    Unreachable,
    /// The app replied, but not with a text.
    Unreadable,
    Text(String),
}

pub enum FetchedView {
    Unreachable,
    Unreadable,
    Text(Seq<char>),
}

impl View for Fetched {
    type V = FetchedView;

    open spec fn view(&self) -> FetchedView {
        match self {
            Fetched::Unreachable => FetchedView::Unreachable,
            Fetched::Unreadable => FetchedView::Unreadable,
            Fetched::Text(text) => FetchedView::Text(text@),
        }
    }
}

/// The strings among `items`, in their order.
pub open spec fn strings_in(items: Seq<JsonView>) -> Seq<Seq<char>>
    decreases items.len(),
{
    if items.len() == 0 {
        Seq::empty()
    } else {
        match items.last().as_text() {
            Some(text) => strings_in(items.drop_last()).push(text),
            None => strings_in(items.drop_last()),
        }
    }
}

/// The ids that are to be listed, by the data of an app; `None` stands for data that is not JSON.
/// The error says what was wrong.
pub open spec fn ids_of_data(data: Option<JsonView>) -> Result<Seq<Seq<char>>, Seq<char>> {
    match data {
        Some(_) => Ok(strings_in(ids_in(data))),
        None => Err("Response from Vortice Services was not formatted"@),
    }
}

/// The ids that are to be listed, by the JSON that came back from the app; `None` stands for a text
/// that is not JSON. The error says what was wrong.
pub open spec fn ids_of_reply(reply: Option<JsonView>) -> Result<Seq<Seq<char>>, Seq<char>> {
    match reply {
        Some(json) => match json.member("data"@).as_text() {
            Some(text) => ids_of_data(parsed(text)),
            None => Ok(Seq::empty()),
        },
        None => Err("Response from Vortice was not formatted correctly"@),
    }
}

/// The ids that are to be listed, by what came back from the app. The error says what was wrong.
pub open spec fn ids_wanted(fetched: FetchedView) -> Result<Seq<Seq<char>>, Seq<char>> {
    match fetched {
        FetchedView::Unreachable => Err("No response from Vortice Services"@),
        FetchedView::Unreadable => Err("Response from Vortice was not formatted"@),
        FetchedView::Text(text) => if text.len() == 0 {
            Ok(Seq::empty())
        } else {
            ids_of_reply(parsed(text))
        },
    }
}

/// Picks the strings among `items`.
fn find_strings(items: &Vec<Json>) -> (strings: Vec<String>)
    ensures
        texts(strings@) == strings_in(json_views(items@)),
{
    let mut strings: Vec<String> = Vec::new();
    assert(texts(strings@) =~= Seq::<Seq<char>>::empty());
    assert(json_views(items@).take(0) =~= Seq::<JsonView>::empty());
    for i in 0..items.len()
        invariant
            texts(strings@) == strings_in(json_views(items@).take(i as int)),
    {
        proof {
            let next = json_views(items@).take(i + 1);
            assert(next.drop_last() =~= json_views(items@).take(i as int));
            assert(next.last() == items@[i as int]@);
        }
        match items[i].as_text() {
            Some(text) => {
                let ghost before = texts(strings@);
                strings.push(text.to_owned());
                assert(texts(strings@) =~= before.push(text@));
            },
            None => {},
        }
    }
    assert(json_views(items@).take(items@.len() as int) =~= json_views(items@));
    strings
}

/// An empty list of ids.
fn no_ids() -> (ids: Vec<String>)
    ensures
        texts(ids@) == Seq::<Seq<char>>::empty(),
{
    let ids: Vec<String> = Vec::new();
    assert(texts(ids@) =~= Seq::<Seq<char>>::empty());
    ids
}

/// Whether a result says what it should: the ids, or the error as an answer to the teacher.
pub open spec fn reports(
    result: Result<Listing, String>,
    wanted: Result<Seq<Seq<char>>, Seq<char>>,
) -> bool {
    match wanted {
        Ok(ids) => result matches Ok(listing) && listing@ == ListingView::fresh(ids),
        Err(reason) => result matches Err(answer) && answer@ == rendered(error(reason))
            && parsed(answer@) == Some(error(reason)),
    }
}

/// Finds the ids in the data of an app; there is no data where it was not JSON.
pub fn list_data(data: &Option<Json>) -> (result: Result<Listing, String>)
    ensures
        reports(result, ids_of_data(json_view(*data))),
{
    if data.is_some() {
        Ok(Listing::new(find_strings(&find_ids(data))))
    } else {
        Err(ugg("Response from Vortice Services was not formatted"))
    }
}

/// Finds the ids in what came back from an app, given its JSON; there is none where it was not
/// JSON.
pub fn list_reply(reply: &Option<Json>) -> (result: Result<Listing, String>)
    ensures
        reports(result, ids_of_reply(json_view(*reply))),
{
    match reply {
        Some(json) => match json.text_at("data") {
            Some(text) => list_data(&Json::parse(text)),
            None => Ok(Listing::new(no_ids())),
        },
        None => Err(ugg("Response from Vortice was not formatted correctly")),
    }
}

/// Deals with a request for the sets of a teacher: finds the ids in what came back from the app.
/// The error is the answer to the teacher.
pub fn get_sets(fetched: &Fetched) -> (result: Result<Listing, String>)
    ensures
        reports(result, ids_wanted(fetched@)),
{
    match fetched {
        Fetched::Unreachable => Err(ugg("No response from Vortice Services")),
        Fetched::Unreadable => Err(ugg("Response from Vortice was not formatted")),
        Fetched::Text(text) => {
            if text.as_str().is_empty() {
                Ok(Listing::new(no_ids()))
            } else {
                list_reply(&Json::parse(text.as_str()))
            }
        },
    }
}

/// The making of a list of sets. The state is asked for one activity after the other.
#[derive(Debug, PartialEq, Eq)]
pub struct Listing {
    ids: Vec<String>,
    asked: usize,
    found: Vec<Listed>,
}

pub struct ListingView {
    /// The ids, in the order in which the state is asked for them.
    pub ids: Seq<Seq<char>>,
    /// How many ids the state has been asked for.
    pub asked: nat,
    /// The activities that were found.
    pub found: Seq<ListedView>,
}

impl View for Listing {
    type V = ListingView;

    closed spec fn view(&self) -> ListingView {
        ListingView {
            ids: texts(self.ids@),
            asked: self.asked as nat,
            found: listed_views(self.found@),
        }
    }
}

impl ListingView {
    /// A list that has not begun.
    pub open spec fn fresh(ids: Seq<Seq<char>>) -> ListingView {
        ListingView { ids, asked: 0, found: Seq::empty() }
    }

    /// What the state is to be asked next; nothing where it has been asked for every id.
    pub open spec fn ask(self) -> Option<StateCommandView> {
        if self.asked < self.ids.len() {
            Some(StateCommandView::GetActivity(self.ids[self.asked as int]))
        } else {
            None
        }
    }

    /// The list after a reply to what was asked. An activity that is not there is left out.
    pub open spec fn after(self, reply: Option<StateResponseView>) -> ListingView {
        if self.ask() is Some {
            ListingView {
                asked: self.asked + 1,
                found: match reply {
                    Some(StateResponseView::Activity(Some(activity))) => self.found.push(
                        ListedView { id: self.ids[self.asked as int], activity },
                    ),
                    _ => self.found,
                },
                ..self
            }
        } else {
            self
        }
    }

    /// The list after several replies.
    pub open spec fn after_all(self, replies: Seq<Option<StateResponseView>>) -> ListingView
        decreases replies.len(),
    {
        if replies.len() == 0 {
            self
        } else {
            self.after_all(replies.drop_last()).after(replies.last())
        }
    }
}

impl Listing {
    /// A list for these ids.
    pub fn new(ids: Vec<String>) -> (listing: Listing)
        ensures
            listing@ == ListingView::fresh(texts(ids@)),
    {
        let listing = Listing { ids, asked: 0, found: Vec::new() };
        assert(listing@.found =~= Seq::<ListedView>::empty());
        listing
    }

    /// What the state is to be asked next; nothing where it has been asked for every id.
    pub fn ask(&self) -> (command: Option<StateCommand>)
        ensures
            match command {
                Some(command) => self@.ask() == Some(command@),
                None => self@.ask() is None,
            },
    {
        if self.asked < self.ids.len() {
            Some(StateCommand::GetActivity(self.ids[self.asked].clone()))
        } else {
            None
        }
    }

    /// Takes the reply to what was asked; there is none where the state was not reached.
    pub fn take(&mut self, reply: Option<StateResponse>)
        ensures
            final(self)@ == old(self)@.after(state_reply(reply)),
    {
        if self.asked < self.ids.len() {
            match reply {
                Some(StateResponse::Activity(Some(activity))) => {
                    let ghost before = listed_views(self.found@);
                    let listed = Listed { id: self.ids[self.asked].clone(), activity };
                    self.found.push(listed);
                    assert(listed_views(self.found@) =~= before.push(listed@));
                },
                _ => {},
            }
            self.asked = self.asked + 1;
        }
    }

    /// The answer to the teacher: the activities that were found.
    pub fn answer(&self) -> (answer: String)
        ensures
            answer@ == rendered(listing(self@.found)),
            parsed(answer@) == Some(listing(self@.found)),
    {
        listing_text(&self.found)
    }
}

/// Deals with a request to delete a set: nothing is deleted yet.
pub fn delete_set() -> (answer: String)
    ensures
        answer@ == "Hello, World!"@,
{
    "Hello, World!".to_owned()
}

// ---- What holds of sets ----

/// A list of ids that are strings is read back from its text as it was written.
pub proof fn law_string_ids_are_readable(ids: Seq<JsonView>)
    requires
        forall|i: int| 0 <= i < ids.len() ==> (#[trigger] ids[i]) is Text,
    ensures
        id_list(ids).readable(),
{
    assert(JsonView::empty_object().plain(2));
    assert(JsonView::Array(ids).plain(1));
    assert(id_list(ids).plain(2));
    lemma_plain_deeper(id_list(ids), 2, 127);
}

/// Items that differ in numbers alone have the same strings among them.
proof fn lemma_strings_alike(one: Seq<JsonView>, two: Seq<JsonView>, depth: nat)
    requires
        one.len() == two.len(),
        forall|i: int| 0 <= i < one.len() ==> (#[trigger] one[i]).alike(two[i], depth),
    ensures
        strings_in(one) == strings_in(two),
    decreases one.len(),
{
    if one.len() > 0 {
        assert(one[one.len() - 1].alike(two[two.len() - 1], depth));
        assert forall|i: int| 0 <= i < one.drop_last().len() implies (
        #[trigger] one.drop_last()[i]).alike(two.drop_last()[i], depth) by {
            assert(one[i].alike(two[i], depth));
        }
        lemma_strings_alike(one.drop_last(), two.drop_last(), depth);
    }
}

/// A list of ids that fit in one can be read with a new id behind them.
pub proof fn law_id_list_is_legible(kept: Seq<JsonView>, id: Seq<char>)
    requires
        fit_in_a_list(kept),
    ensures
        id_list(kept.push(JsonView::Text(id))).legible(),
{
    let ids = kept.push(JsonView::Text(id));
    assert forall|i: int| 0 <= i < ids.len() implies (#[trigger] ids[i]).shallow(125) by {
        if i < kept.len() {
            assert(ids[i] == kept[i]);
        }
    }
    assert(JsonView::Array(ids).shallow(126));
}

/// What was sent to an app in order to keep a set is what lists it: where the app later sends that
/// text back, the list has the ids that it had, in their order, and then the new one. What else
/// stood among the ids does not matter; ids that were read out of a list always fit in one.
pub proof fn law_created_set_is_listed(
    filing: Filing,
    kept: Seq<JsonView>,
    data: CreateActivityView,
    later: JsonView,
)
    requires
        files(filing, kept, data),
        fit_in_a_list(kept),
        later.member("data"@) == JsonView::Text(filing.body@),
    ensures
        ids_of_reply(Some(later)) == Ok::<_, Seq<char>>(
            strings_in(kept).push(filing.id@),
        ),
{
    law_id_list_is_legible(kept, filing.id@);
    let ids = kept.push(JsonView::Text(filing.id@));
    let back = parsed(filing.body@)->0;
    assert(back.alike(id_list(ids), 127));
    let members = back->Object_0;
    assert(id_list(ids)->Object_0.dom().contains("data"@));
    assert(members.contains_key("data"@));
    assert(members["data"@].alike(JsonView::Array(ids), 126));
    let items = members["data"@]->Array_0;
    assert(ids_in(Some(back)) == items);
    lemma_strings_alike(items, ids, 125);
    assert(ids.drop_last() =~= kept);
    assert(ids.last().as_text() == Some(filing.id@));
}

/// A set whose activity was kept is found under its id with the activity that was asked for, and
/// is in the file.
pub proof fn law_created_set_is_kept(
    state: StateView,
    filing: Filing,
    kept: Seq<JsonView>,
    data: CreateActivityView,
)
    requires
        files(filing, kept, data),
    ensures
        ({
            let commands = state_commands(filing.commands@);
            let now = state.after_all(commands);
            &&& now.response(StateCommandView::GetActivity(filing.id@))
                == StateResponseView::Activity(Some(data.activity()))
            &&& now.effect(commands.last()) == Some(
                crate::state::StateEffectView::Save(
                    state.activities.insert(filing.id@, data.activity()),
                ),
            )
        }),
{
    let commands = state_commands(filing.commands@);
    assert(commands.drop_last() =~= seq![commands[0]]);
    assert(commands.drop_last().drop_last() =~= Seq::<StateCommandView>::empty());
    reveal_with_fuel(StateView::after_all, 3);
}

/// Those of the ids that the state knows, with their activities, in the order of the ids.
pub open spec fn known(state: StateView, ids: Seq<Seq<char>>) -> Seq<ListedView>
    decreases ids.len(),
{
    if ids.len() == 0 {
        Seq::empty()
    } else if state.activities.contains_key(ids.last()) {
        known(state, ids.drop_last()).push(
            ListedView { id: ids.last(), activity: state.activities[ids.last()] },
        )
    } else {
        known(state, ids.drop_last())
    }
}

/// The replies of the state to the search for each id, in the order of the ids.
pub open spec fn replies_for(state: StateView, ids: Seq<Seq<char>>) -> Seq<
    Option<StateResponseView>,
> {
    Seq::new(ids.len(), |i: int| Some(state.response(StateCommandView::GetActivity(ids[i]))))
}

/// The first ids of a list.
proof fn lemma_listing(state: StateView, ids: Seq<Seq<char>>, n: int)
    requires
        0 <= n <= ids.len(),
    ensures
        ListingView::fresh(ids).after_all(replies_for(state, ids.take(n))) == (ListingView {
            ids,
            asked: n as nat,
            found: known(state, ids.take(n)),
        }),
    decreases n,
{
    let replies = replies_for(state, ids.take(n));
    if n > 0 {
        lemma_listing(state, ids, n - 1);
        assert(ids.take(n).drop_last() =~= ids.take(n - 1));
        assert(replies.drop_last() =~= replies_for(state, ids.take(n - 1)));
    } else {
        assert(ids.take(0) =~= Seq::<Seq<char>>::empty());
    }
}

/// A list of sets that is made from one state has exactly the activities that the state knows, in
/// the order of the ids; then nothing is left to ask.
pub proof fn law_listing_is_complete(state: StateView, ids: Seq<Seq<char>>)
    ensures
        ({
            let end = ListingView::fresh(ids).after_all(replies_for(state, ids));
            &&& end.ask() is None
            &&& end.found == known(state, ids)
        }),
{
    lemma_listing(state, ids, ids.len() as int);
    assert(ids.take(ids.len() as int) =~= ids);
}

/// An activity under another id does not change what is listed.
proof fn lemma_known_without(
    state: StateView,
    id: Seq<char>,
    activity: ActivityView,
    ids: Seq<Seq<char>>,
)
    requires
        !ids.contains(id),
    ensures
        known(state.after(StateCommandView::CreateActivity(id, activity)), ids) == known(
            state,
            ids,
        ),
    decreases ids.len(),
{
    if ids.len() > 0 {
        assert(ids.contains(ids.last())) by {
            assert(ids[ids.len() - 1] == ids.last());
        }
        assert(!ids.drop_last().contains(id)) by {
            if ids.drop_last().contains(id) {
                let i = choose|i: int|
                    0 <= i < ids.drop_last().len() && ids.drop_last()[i] == id;
                assert(ids[i] == id);
            }
        }
        lemma_known_without(state, id, activity, ids.drop_last());
    }
}

/// Whether a set is the last of the next list: where the set's id was not in the list before, the
/// state carries out the filing, and the app sends back what was written to it, then the list has
/// exactly those of the old ids that the state knows, in their order, and the set behind them.
pub open spec fn listed_last(
    state: StateView,
    filing: Filing,
    kept: Seq<JsonView>,
    data: CreateActivityView,
    later: JsonView,
) -> bool {
    let now = state.after_all(state_commands(filing.commands@));
    let ids = ids_of_reply(Some(later))->Ok_0;
    let end = ListingView::fresh(ids).after_all(replies_for(now, ids));
    let new = ListedView { id: filing.id@, activity: data.activity() };
    (!strings_in(kept).contains(filing.id@) && later.member("data"@) == JsonView::Text(
        filing.body@,
    )) ==> {
        &&& ids_of_reply(Some(later)) is Ok
        &&& end.ask() is None
        &&& end.found == known(state, strings_in(kept)).push(new)
        &&& listing(end.found)->Array_0.last() == new.json()
    }
}

/// A set that was created is the last of the next list, whatever the state and whatever stood among
/// the ids that were read. So the answer to the teacher ends with the name and the content that
/// were asked for.
pub proof fn law_next_listing_ends_with_the_set(
    state: StateView,
    filing: Filing,
    kept: Seq<JsonView>,
    data: CreateActivityView,
    later: JsonView,
)
    requires
        files(filing, kept, data),
        fit_in_a_list(kept),
    ensures
        listed_last(state, filing, kept, data, later),
{
    if !strings_in(kept).contains(filing.id@) && later.member("data"@) == JsonView::Text(
        filing.body@,
    ) {
        let commands = state_commands(filing.commands@);
        let created = commands[0];
        assert(commands.drop_last() =~= seq![created]);
        assert(commands.drop_last().drop_last() =~= Seq::<StateCommandView>::empty());
        reveal_with_fuel(StateView::after_all, 3);
        let now = state.after_all(commands);
        assert(now == state.after(created));
        law_created_set_is_listed(filing, kept, data, later);
        let ids = strings_in(kept).push(filing.id@);
        law_listing_is_complete(now, ids);
        assert(ids.drop_last() =~= strings_in(kept));
        lemma_known_without(state, filing.id@, data.activity(), strings_in(kept));
    }
}

/// Whether two states differ in who may start the activities alone.
pub open spec fn same_but_access(one: StateView, other: StateView) -> bool {
    &&& one.activities.dom() == other.activities.dom()
    &&& forall|id: Seq<char>| #[trigger]
        one.activities.contains_key(id) ==> one.activities[id].name == other.activities[id].name
            && one.activities[id].config == other.activities[id].config
}

/// A list does not show who may start the sets: whoever may, the answer is the same.
pub proof fn law_listing_hides_access(one: StateView, other: StateView, ids: Seq<Seq<char>>)
    requires
        same_but_access(one, other),
    ensures
        listing(known(one, ids)) == listing(known(other, ids)),
    decreases ids.len(),
{
    if ids.len() > 0 {
        let front = ids.drop_last();
        law_listing_hides_access(one, other, front);
        assert(one.activities.dom().contains(ids.last()) == other.activities.dom().contains(
            ids.last(),
        ));
        if one.activities.contains_key(ids.last()) {
            lemma_listing_push(known(one, front), known(one, ids).last());
            lemma_listing_push(known(other, front), known(other, ids).last());
        }
    }
}

/// A list that is one longer.
proof fn lemma_listing_push(list: Seq<ListedView>, new: ListedView)
    ensures
        listing(list.push(new)) == JsonView::Array(listing(list)->Array_0.push(new.json())),
{
    assert(listing(list.push(new))->Array_0 =~= listing(list)->Array_0.push(new.json()));
}

// ---- What is read, written and asked ----

/// The address of an app holds the app key, the whole of it and nothing behind it.
pub proof fn law_app_stands_under_its_key(app_key: Seq<char>)
    ensures
        ({
            let before = "https://www.vortice.app/api/apps/"@;
            &&& app_url_of(app_key).len() == before.len() + app_key.len()
            &&& app_url_of(app_key).take(before.len() as int) == before
            &&& app_url_of(app_key).skip(before.len() as int) == app_key
        }),
{
    let before = "https://www.vortice.app/api/apps/"@;
    assert(app_url_of(app_key).take(before.len() as int) =~= before);
    assert(app_url_of(app_key).skip(before.len() as int) =~= app_key);
}

/// All ids of an app are found: where its reply has a text under `data` that is an object with an
/// array under `data`, the ids are the items of that array, all of them and in their order. In every
/// other reply there are none.
pub proof fn law_all_kept_ids_are_found(
    reply: Map<Seq<char>, JsonView>,
    text: Seq<char>,
    data: Map<Seq<char>, JsonView>,
    items: Seq<JsonView>,
)
    requires
        reply.contains_key("data"@),
        reply["data"@] == JsonView::Text(text),
        parsed(text) == Some(JsonView::Object(data)),
        data.contains_key("data"@),
        data["data"@] == JsonView::Array(items),
    ensures
        kept_ids(JsonView::Object(reply)) == items,
        ids_in(parsed(text)) == items,
        ids_of_reply(Some(JsonView::Object(reply))) == Ok::<_, Seq<char>>(strings_in(items)),
{
}

/// Where there is no array of ids, no ids are found.
pub proof fn law_without_a_list_there_are_no_ids(reply: JsonView, data: Option<JsonView>)
    ensures
        !(reply is Object && reply->Object_0.contains_key("data"@) && reply->Object_0["data"@]
            is Text) ==> kept_ids(reply).len() == 0 && ids_of_reply(Some(reply)) == Ok::<
            _,
            Seq<char>,
        >(Seq::<Seq<char>>::empty()),
        !(data matches Some(JsonView::Object(members)) && members.contains_key("data"@)
            && members["data"@] is Array) ==> ids_in(data).len() == 0,
{
}

/// The strings of a list are picked out of it, each of them and nothing else, in their order.
pub proof fn law_strings_are_picked_in_order(items: Seq<JsonView>)
    ensures
        strings_in(items) == items.filter_map(
            |item: JsonView|
                match item {
                    JsonView::Text(text) => Some(text),
                    _ => None,
                },
        ),
    decreases items.len(),
{
    if items.len() > 0 {
        law_strings_are_picked_in_order(items.drop_last());
    }
}

/// No set is lost by adding one: the ids that a list shows for an app's reply are exactly the strings
/// among the ids that a new id is put behind.
pub proof fn law_added_to_what_is_listed(reply: JsonView)
    requires
        ids_of_reply(Some(reply)) is Ok,
    ensures
        strings_in(kept_ids(reply)) == ids_of_reply(Some(reply))->Ok_0,
{
    assert(strings_in(Seq::<JsonView>::empty()) == Seq::<Seq<char>>::empty());
}

/// No set is lost by adding one: whatever a list would have shown for the app's reply, once the app
/// keeps what was written to it, the list shows the same ids in the same order, and the new one
/// behind them.
pub proof fn law_no_set_is_lost(
    filing: Filing,
    reply: JsonView,
    data: CreateActivityView,
    later: JsonView,
)
    requires
        files(filing, kept_ids(reply), data),
        fit_in_a_list(kept_ids(reply)),
        ids_of_reply(Some(reply)) is Ok,
        later is Object,
        later->Object_0.contains_key("data"@),
        later->Object_0["data"@] == JsonView::Text(filing.body@),
    ensures
        ids_of_reply(Some(later)) is Ok,
        ids_of_reply(Some(later))->Ok_0 == ids_of_reply(Some(reply))->Ok_0.push(filing.id@),
{
    law_added_to_what_is_listed(reply);
    law_created_set_is_listed(filing, kept_ids(reply), data, later);
}

/// What is written to an app is an object with one array under `data`: everything that the app kept,
/// in the same places, and the new id behind it. The state is told to keep the activity as it was
/// asked for, under that id, and then to save; the teacher is told the id.
pub proof fn law_filing_keeps_everything(
    filing: Filing,
    kept: Seq<JsonView>,
    data: CreateActivity,
)
    requires
        files(filing, kept, data@),
    ensures
        filing.body@ == rendered(
            JsonView::Object(
                map!["data"@ => JsonView::Array(kept + seq![JsonView::Text(filing.id@)])],
            ),
        ),
        filing.commands@.len() == 2,
        filing.commands@[0]@ == StateCommandView::CreateActivity(
            filing.id@,
            ActivityView { name: data.name@, config: data.config@, access: data.access@ },
        ),
        filing.commands@[1]@ is SaveToFile,
        filing.answer@ == rendered(
            JsonView::Object(
                map!["status"@ => JsonView::Text("Success"@), "id"@ => JsonView::Text(filing.id@)],
            ),
        ),
{
    assert(kept.push(JsonView::Text(filing.id@)) =~= kept + seq![JsonView::Text(filing.id@)]);
    let commands = state_commands(filing.commands@);
    assert(commands.len() == 2);
    assert(commands[0] == filing.commands@[0]@);
    assert(commands[1] == filing.commands@[1]@);
}

/// An app's reply is the JSON in what came, where anything came.
pub proof fn law_reply_is_read_where_it_came(reply: String)
    ensures
        reply_json(Some(reply)) == parsed(reply@),
        reply_json(None) is None,
{
}

/// What becomes of a request for a list: each failure has its own reason, an empty text lists
/// nothing, and any other text is taken as the JSON that it is.
pub proof fn law_what_a_list_is_made_from(
    text: Seq<char>,
    reply: Map<Seq<char>, JsonView>,
    inner: Seq<char>,
)
    requires
        reply.contains_key("data"@),
        reply["data"@] == JsonView::Text(inner),
    ensures
        ids_wanted(FetchedView::Unreachable) == Err::<Seq<Seq<char>>, _>(
            "No response from Vortice Services"@,
        ),
        ids_wanted(FetchedView::Unreadable) == Err::<Seq<Seq<char>>, _>(
            "Response from Vortice was not formatted"@,
        ),
        text.len() == 0 ==> ids_wanted(FetchedView::Text(text)) == Ok::<_, Seq<char>>(
            Seq::<Seq<char>>::empty(),
        ),
        text.len() > 0 ==> ids_wanted(FetchedView::Text(text)) == ids_of_reply(parsed(text)),
        ids_of_reply(None) == Err::<Seq<Seq<char>>, _>(
            "Response from Vortice was not formatted correctly"@,
        ),
        parsed(inner) is None ==> ids_of_reply(Some(JsonView::Object(reply))) == Err::<
            Seq<Seq<char>>,
            _,
        >("Response from Vortice Services was not formatted"@),
        parsed(inner) is Some ==> ids_of_reply(Some(JsonView::Object(reply))) == Ok::<_, Seq<char>>(
            strings_in(ids_in(parsed(inner))),
        ),
        ids_of_data(None) == Err::<Seq<Seq<char>>, _>(
            "Response from Vortice Services was not formatted"@,
        ),
        parsed(inner) is Some ==> ids_of_data(parsed(inner)) == Ok::<_, Seq<char>>(
            strings_in(ids_in(parsed(inner))),
        ),
{
}

/// A result says what it should: a list that has not begun and has all the ids to ask for, or the
/// reason as an error.
pub proof fn law_what_a_result_says(
    result: Result<Listing, String>,
    wanted: Result<Seq<Seq<char>>, Seq<char>>,
)
    requires
        reports(result, wanted),
    ensures
        match wanted {
            Ok(ids) => {
                &&& result is Ok
                &&& result->Ok_0@.ids == ids
                &&& result->Ok_0@.asked == 0
                &&& result->Ok_0@.found.len() == 0
            },
            Err(reason) => {
                &&& result is Err
                &&& result->Err_0@ == rendered(
                    JsonView::Object(map!["error"@ => JsonView::Text(reason)]),
                )
            },
        },
{
}

/// The state is asked for every id, one after the other. An activity that is found is put behind the
/// others, under the id that was asked for; one that is not is left out.
pub proof fn law_each_id_is_asked_for_once(list: ListingView, reply: Option<StateResponseView>)
    requires
        list.asked <= list.ids.len(),
    ensures
        list.asked == list.ids.len() ==> list.ask() is None && list.after(reply) == list,
        list.asked < list.ids.len() ==> {
            let id = list.ids[list.asked as int];
            &&& list.ask() == Some(StateCommandView::GetActivity(id))
            &&& list.after(reply).ids == list.ids
            &&& list.after(reply).asked == list.asked + 1
            &&& list.after(reply).found == match reply {
                Some(StateResponseView::Activity(Some(activity))) => list.found.push(
                    ListedView { id, activity },
                ),
                _ => list.found,
            }
        },
        ListingView::fresh(list.ids) == (ListingView {
            ids: list.ids,
            asked: 0,
            found: Seq::empty(),
        }),
{
}

/// Requests and what came back from an app are seen whole.
pub proof fn law_requests_are_viewed_whole(data: CreateActivity, fetched: Fetched)
    ensures
        data@.name == data.name@,
        data@.access == data.access@,
        data@.config == data.config@,
        match fetched {
            Fetched::Unreachable => fetched@ is Unreachable,
            Fetched::Unreadable => fetched@ is Unreadable,
            Fetched::Text(text) => fetched@ == FetchedView::Text(text@),
        },
{
}

} // verus!
