//! The JSON forms of what travels: activities, and the messages to players and teachers.
use crate::activity::{
    Activity, ActivityView, Config, ConfigView, Question, QuestionView, Response, ResponseView, Slide,
    SlideKind, SlideKindView, SlideStyle, SlideStyleView, SlideView, SlidesItem, SlidesItemView,
    item_views, question_views,
};
use crate::json::{
    Json, JsonView, json_views, lemma_plain_array, lemma_plain_deeper, lemma_plain_with, parsed, rendered,
};
use vstd::prelude::*;

verus! {

broadcast use {lemma_plain_array, lemma_plain_with};

// ---- Activities ----

impl ResponseView {
    pub open spec fn json(self) -> JsonView {
        JsonView::empty_object().with("text"@, JsonView::Text(self.text)).with(
            "correct"@,
            JsonView::Bool(self.correct),
        )
    }
}

impl Response {
    /// The response as JSON, with its mark.
    pub fn json(&self) -> (json: Json)
        ensures
            json@ == self@.json(),
            json@.plain(1),
    {
        Json::object().with("text", Json::text(self.text.as_str())).with(
            "correct",
            Json::boolean(self.correct),
        )
    }
}

pub open spec fn responses_json(responses: Seq<ResponseView>) -> Seq<JsonView> {
    Seq::new(responses.len(), |i: int| responses[i].json())
}

impl QuestionView {
    pub open spec fn json(self) -> JsonView {
        JsonView::empty_object().with("text"@, JsonView::Text(self.text)).with(
            "responses"@,
            JsonView::Array(responses_json(self.responses)),
        )
    }
}

impl Question {
    /// The question as JSON, with its marks.
    pub fn json(&self) -> (json: Json)
        ensures
            json@ == self@.json(),
            json@.plain(3),
    {
        let mut items: Vec<Json> = Vec::new();
        for i in 0..self.responses.len()
            invariant
                items@.len() == i,
                forall|j: int|
                    0 <= j < i ==> (#[trigger] items@[j])@ == self.responses@[j]@.json() && items@[j]@.plain(1),
        {
            items.push(self.responses[i].json());
        }
        assert(json_views(items@) =~= responses_json(self@.responses));
        Json::object().with("text", Json::text(self.text.as_str())).with(
            "responses",
            Json::array(items),
        )
    }
}

impl SlideStyleView {
    pub open spec fn json(self) -> JsonView {
        JsonView::empty_object().with("color"@, JsonView::Text(self.color)).with(
            "font_color"@,
            JsonView::Text(self.font_color),
        )
    }
}

impl SlideStyle {
    /// The style as JSON.
    pub fn json(&self) -> (json: Json)
        ensures
            json@ == self@.json(),
            json@.plain(1),
    {
        Json::object().with("color", Json::text(self.color.as_str())).with(
            "font_color",
            Json::text(self.font_color.as_str()),
        )
    }
}

impl SlideKindView {
    pub open spec fn json(self) -> JsonView {
        match self {
            SlideKindView::Title(title, style) => JsonView::empty_object().with(
                "Title"@,
                JsonView::Array(seq![JsonView::Text(title), style.json()]),
            ),
            SlideKindView::TitleText(title, text, style) => JsonView::empty_object().with(
                "TitleText"@,
                JsonView::Array(seq![JsonView::Text(title), JsonView::Text(text), style.json()]),
            ),
            SlideKindView::OnlyText(text, style) => JsonView::empty_object().with(
                "OnlyText"@,
                JsonView::Array(seq![JsonView::Text(text), style.json()]),
            ),
        }
    }
}

impl SlideKind {
    /// What a slide shows, as JSON: an object with one member, named after the kind.
    pub fn json(&self) -> (json: Json)
        ensures
            json@ == self@.json(),
            json@.plain(3),
    {
        match self {
            SlideKind::Title(title, style) => {
                let parts = vec![Json::text(title.as_str()), style.json()];
                assert(json_views(parts@) =~= seq![JsonView::Text(title@), style@.json()]);
                Json::object().with("Title", Json::array(parts))
            },
            SlideKind::TitleText(title, text, style) => {
                let parts = vec![Json::text(title.as_str()), Json::text(text.as_str()), style.json()];
                assert(json_views(parts@) =~= seq![
                    JsonView::Text(title@),
                    JsonView::Text(text@),
                    style@.json(),
                ]);
                Json::object().with("TitleText", Json::array(parts))
            },
            SlideKind::OnlyText(text, style) => {
                let parts = vec![Json::text(text.as_str()), style.json()];
                assert(json_views(parts@) =~= seq![JsonView::Text(text@), style@.json()]);
                Json::object().with("OnlyText", Json::array(parts))
            },
        }
    }
}

impl SlideView {
    pub open spec fn json(self) -> JsonView {
        JsonView::empty_object().with("kind"@, self.kind.json())
    }
}

impl Slide {
    /// The slide as JSON.
    pub fn json(&self) -> (json: Json)
        ensures
            json@ == self@.json(),
            json@.plain(4),
    {
        Json::object().with("kind", self.kind.json())
    }
}

impl SlidesItemView {
    pub open spec fn json(self) -> JsonView {
        match self {
            SlidesItemView::Slide(slide) => JsonView::empty_object().with("Slide"@, slide.json()),
            SlidesItemView::Question(question) => JsonView::empty_object().with(
                "Question"@,
                question.json(),
            ),
        }
    }
}

impl SlidesItem {
    /// The item as JSON: an object with one member, named after what the item is.
    pub fn json(&self) -> (json: Json)
        ensures
            json@ == self@.json(),
            json@.plain(5),
    {
        match self {
            SlidesItem::Slide(slide) => Json::object().with("Slide", slide.json()),
            SlidesItem::Question(question) => {
                proof {
                    lemma_plain_deeper(question@.json(), 3, 4);
                }
                Json::object().with("Question", question.json())
            },
        }
    }
}

pub open spec fn items_json(items: Seq<SlidesItemView>) -> Seq<JsonView> {
    Seq::new(items.len(), |i: int| items[i].json())
}

pub open spec fn questions_json(questions: Seq<QuestionView>) -> Seq<JsonView> {
    Seq::new(questions.len(), |i: int| questions[i].json())
}

impl ConfigView {
    pub open spec fn json(self) -> JsonView {
        match self {
            ConfigView::Slides(items) => JsonView::empty_object().with(
                "Slides"@,
                JsonView::Array(items_json(items)),
            ),
            ConfigView::Quiz { questions } => JsonView::empty_object().with(
                "Quiz"@,
                JsonView::empty_object().with(
                    "questions"@,
                    JsonView::Array(questions_json(questions)),
                ),
            ),
        }
    }
}

impl Config {
    /// The slide show or quiz as JSON: an object with one member, named after which it is.
    pub fn json(&self) -> (json: Json)
        ensures
            json@ == self@.json(),
            json@.plain(7),
    {
        match self {
            Config::Slides(items) => {
                let mut parts: Vec<Json> = Vec::new();
                for i in 0..items.len()
                    invariant
                        parts@.len() == i,
                        forall|j: int|
                            0 <= j < i ==> (#[trigger] parts@[j])@ == items@[j]@.json()
                                && parts@[j]@.plain(5),
                {
                    parts.push(items[i].json());
                }
                assert(json_views(parts@) =~= items_json(item_views(items@)));
                Json::object().with("Slides", Json::array(parts))
            },
            Config::Quiz { questions } => {
                let mut parts: Vec<Json> = Vec::new();
                for i in 0..questions.len()
                    invariant
                        parts@.len() == i,
                        forall|j: int|
                            0 <= j < i ==> (#[trigger] parts@[j])@ == questions@[j]@.json()
                                && parts@[j]@.plain(3),
                {
                    parts.push(questions[i].json());
                }
                assert(json_views(parts@) =~= questions_json(question_views(questions@)));
                let inner = Json::object().with("questions", Json::array(parts));
                proof {
                    lemma_plain_deeper(inner@, 5, 6);
                }
                Json::object().with("Quiz", inner)
            },
        }
    }
}

// ---- Messages ----

/// Writes a message. Whoever reads the text as JSON gets the message back.
fn write(message: &Json) -> (text: String)
    requires
        message@.plain(10),
    ensures
        text@ == rendered(message@),
        parsed(text@) == Some(message@),
{
    proof {
        lemma_plain_deeper(message@, 10, 127);
    }
    message.to_text()
}

/// The prompts for the responses: their texts, without their marks.
pub open spec fn prompts(responses: Seq<ResponseView>) -> Seq<JsonView> {
    Seq::new(
        responses.len(),
        |i: int| JsonView::empty_object().with("text"@, JsonView::Text(responses[i].text)),
    )
}

/// A question as players and teachers see it, with its number where one is given.
pub open spec fn prompt(question: QuestionView, number: Option<u64>) -> JsonView {
    let bare = JsonView::empty_object().with("text"@, JsonView::Text(question.text)).with(
        "responses"@,
        JsonView::Array(prompts(question.responses)),
    );
    match number {
        Some(number) => bare.with("number"@, JsonView::Unsigned(number)),
        None => bare,
    }
}

/// The message that announces a question.
pub open spec fn new_question(question: QuestionView, number: Option<u64>) -> JsonView {
    JsonView::empty_object().with("event"@, JsonView::Text("new_question"@)).with(
        "question"@,
        prompt(question, number),
    )
}

/// Writes the message that announces a question.
pub fn new_question_text(question: &Question, number: Option<u64>) -> (text: String)
    ensures
        text@ == rendered(new_question(question@, number)),
        parsed(text@) == Some(new_question(question@, number)),
{
    let mut parts: Vec<Json> = Vec::new();
    for i in 0..question.responses.len()
        invariant
            parts@.len() == i,
            forall|j: int|
                0 <= j < i ==> (#[trigger] parts@[j])@ == prompts(question@.responses)[j]
                    && parts@[j]@.plain(1),
    {
        let part = Json::object().with("text", Json::text(question.responses[i].text.as_str()));
        parts.push(part);
    }
    assert(json_views(parts@) =~= prompts(question@.responses));
    let bare = Json::object().with("text", Json::text(question.text.as_str())).with(
        "responses",
        Json::array(parts),
    );
    let inner = match number {
        Some(number) => bare.with("number", Json::unsigned(number)),
        None => bare,
    };
    let message = Json::object().with("event", Json::text("new_question")).with("question", inner);
    proof {
        lemma_plain_deeper(message@, 4, 10);
    }
    write(&message)
}

/// The message that shows a slide.
pub open spec fn new_slide(slide: SlideView) -> JsonView {
    JsonView::empty_object().with("event"@, JsonView::Text("new_slide"@)).with(
        "slide"@,
        slide.json(),
    )
}

/// Writes the message that shows a slide.
pub fn new_slide_text(slide: &Slide) -> (text: String)
    ensures
        text@ == rendered(new_slide(slide@)),
        parsed(text@) == Some(new_slide(slide@)),
{
    let message = Json::object().with("event", Json::text("new_slide")).with("slide", slide.json());
    proof {
        lemma_plain_deeper(message@, 5, 10);
    }
    write(&message)
}

/// The message that confirms an answer.
pub open spec fn update_answer(answer: u64) -> JsonView {
    JsonView::empty_object().with("event"@, JsonView::Text("update_answer"@)).with(
        "answer"@,
        JsonView::Unsigned(answer),
    )
}

/// Writes the message that confirms an answer.
pub fn update_answer_text(answer: u64) -> (text: String)
    ensures
        text@ == rendered(update_answer(answer)),
        parsed(text@) == Some(update_answer(answer)),
{
    let message = Json::object().with("event", Json::text("update_answer")).with(
        "answer",
        Json::unsigned(answer),
    );
    proof {
        lemma_plain_deeper(message@, 1, 10);
    }
    write(&message)
}

/// The message that tells of a player who joined.
pub open spec fn player_joined(name: Seq<char>) -> JsonView {
    JsonView::empty_object().with("event"@, JsonView::Text("playerjoined"@)).with(
        "player"@,
        JsonView::empty_object().with("name"@, JsonView::Text(name)),
    )
}

/// Writes the message that tells of a player who joined.
pub fn player_joined_text(name: &str) -> (text: String)
    ensures
        text@ == rendered(player_joined(name@)),
        parsed(text@) == Some(player_joined(name@)),
{
    let player = Json::object().with("name", Json::text(name));
    let message = Json::object().with("event", Json::text("playerjoined")).with("player", player);
    proof {
        lemma_plain_deeper(message@, 2, 10);
    }
    write(&message)
}

/// The message that gives a teacher the code of the game.
pub open spec fn game_code(code: Seq<char>) -> JsonView {
    JsonView::empty_object().with("event"@, JsonView::Text("gamecode"@)).with(
        "gamecode"@,
        JsonView::Text(code),
    )
}

/// Writes the message that gives a teacher the code of the game.
pub fn game_code_text(code: &str) -> (text: String)
    ensures
        text@ == rendered(game_code(code@)),
        parsed(text@) == Some(game_code(code@)),
{
    let message = Json::object().with("event", Json::text("gamecode")).with(
        "gamecode",
        Json::text(code),
    );
    proof {
        lemma_plain_deeper(message@, 1, 10);
    }
    write(&message)
}

/// The answer to a request that went wrong.
pub open spec fn error(reason: Seq<char>) -> JsonView {
    JsonView::empty_object().with("error"@, JsonView::Text(reason))
}

/// Writes the answer to a request that went wrong.
pub fn ugg(err: &str) -> (text: String)
    ensures
        text@ == rendered(error(err@)),
        parsed(text@) == Some(error(err@)),
{
    let message = Json::object().with("error", Json::text(err));
    proof {
        lemma_plain_deeper(message@, 1, 10);
    }
    write(&message)
}

/// The answer to a teacher whose activity is now kept.
pub open spec fn created(id: Seq<char>) -> JsonView {
    JsonView::empty_object().with("status"@, JsonView::Text("Success"@)).with(
        "id"@,
        JsonView::Text(id),
    )
}

/// Writes the answer to a teacher whose activity is now kept.
pub fn created_text(id: &str) -> (text: String)
    ensures
        text@ == rendered(created(id@)),
        parsed(text@) == Some(created(id@)),
{
    let message = Json::object().with("status", Json::text("Success")).with("id", Json::text(id));
    proof {
        lemma_plain_deeper(message@, 1, 10);
    }
    write(&message)
}

/// A player's standing in the game.
#[derive(Debug, PartialEq, Eq)]
pub struct Standing {
    pub name: String,
    pub points: u64,
}

pub struct StandingView {
    pub name: Seq<char>,
    pub points: u64,
}

impl View for Standing {
    type V = StandingView;

    open spec fn view(&self) -> StandingView {
        StandingView { name: self.name@, points: self.points }
    }
}

impl Clone for Standing {
    fn clone(&self) -> (copy: Self)
        ensures
            copy@ == self@,
    {
        Standing { name: self.name.clone(), points: self.points }
    }
}

pub open spec fn standing_views(standings: Seq<Standing>) -> Seq<StandingView> {
    Seq::new(standings.len(), |i: int| standings[i]@)
}

impl StandingView {
    pub open spec fn json(self) -> JsonView {
        JsonView::empty_object().with("name"@, JsonView::Text(self.name)).with(
            "points"@,
            JsonView::Unsigned(self.points),
        )
    }
}

pub open spec fn standings_json(standings: Seq<StandingView>) -> Seq<JsonView> {
    Seq::new(standings.len(), |i: int| standings[i].json())
}

/// The message that shows a leaderboard.
pub open spec fn leaderboard(standings: Seq<StandingView>) -> JsonView {
    JsonView::empty_object().with("event"@, JsonView::Text("leaderboard"@)).with(
        "leaderboard"@,
        JsonView::Array(standings_json(standings)),
    )
}

/// Writes the message that shows a leaderboard, in the order of `standings`.
pub fn leaderboard_text(standings: &Vec<Standing>) -> (text: String)
    ensures
        text@ == rendered(leaderboard(standing_views(standings@))),
        parsed(text@) == Some(leaderboard(standing_views(standings@))),
{
    let mut parts: Vec<Json> = Vec::new();
    for i in 0..standings.len()
        invariant
            parts@.len() == i,
            forall|j: int|
                0 <= j < i ==> (#[trigger] parts@[j])@ == standings@[j]@.json() && parts@[j]@.plain(1),
    {
        let part = Json::object().with("name", Json::text(standings[i].name.as_str())).with(
            "points",
            Json::unsigned(standings[i].points),
        );
        parts.push(part);
    }
    assert(json_views(parts@) =~= standings_json(standing_views(standings@)));
    let message = Json::object().with("event", Json::text("leaderboard")).with(
        "leaderboard",
        Json::array(parts),
    );
    proof {
        lemma_plain_deeper(message@, 3, 10);
    }
    write(&message)
}

/// An activity in a teacher's list.
#[derive(Debug, PartialEq, Eq)]
pub struct Listed {
    pub id: String,
    pub activity: Activity,
}

pub struct ListedView {
    pub id: Seq<char>,
    pub activity: ActivityView,
}

impl View for Listed {
    type V = ListedView;

    open spec fn view(&self) -> ListedView {
        ListedView { id: self.id@, activity: self.activity@ }
    }
}

pub open spec fn listed_views(list: Seq<Listed>) -> Seq<ListedView> {
    Seq::new(list.len(), |i: int| list[i]@)
}

impl ListedView {
    /// A teacher sees what an activity is called and what is played, not who may start it.
    pub open spec fn json(self) -> JsonView {
        JsonView::empty_object().with("id"@, JsonView::Text(self.id)).with(
            "name"@,
            JsonView::Text(self.activity.name),
        ).with("config"@, self.activity.config.json())
    }
}

/// The answer to a teacher who asked for a list of activities.
pub open spec fn listing(list: Seq<ListedView>) -> JsonView {
    JsonView::Array(Seq::new(list.len(), |i: int| list[i].json()))
}

/// Writes the answer to a teacher who asked for a list of activities, in the order of `list`.
pub fn listing_text(list: &Vec<Listed>) -> (text: String)
    ensures
        text@ == rendered(listing(listed_views(list@))),
        parsed(text@) == Some(listing(listed_views(list@))),
{
    let mut parts: Vec<Json> = Vec::new();
    for i in 0..list.len()
        invariant
            parts@.len() == i,
            forall|j: int|
                0 <= j < i ==> (#[trigger] parts@[j])@ == list@[j]@.json() && parts@[j]@.plain(8),
    {
        let bare = Json::object().with("id", Json::text(list[i].id.as_str())).with(
            "name",
            Json::text(list[i].activity.name.as_str()),
        );
        proof {
            lemma_plain_deeper(bare@, 1, 8);
        }
        parts.push(bare.with("config", list[i].activity.config.json()));
    }
    assert(json_views(parts@) =~= Seq::new(
        list@.len(),
        |i: int| listed_views(list@)[i].json(),
    ));
    let message = Json::array(parts);
    proof {
        lemma_plain_deeper(message@, 9, 10);
    }
    write(&message)
}

/// What players and teachers see of a question does not depend on which responses are correct.
pub proof fn law_marks_stay_hidden(one: QuestionView, other: QuestionView, number: Option<u64>)
    requires
        one.same_but_marks(other),
    ensures
        new_question(one, number) == new_question(other, number),
{
    assert(prompts(one.responses) =~= prompts(other.responses));
}

// ---- What the messages hold ----

/// The names of members that stand beside each other differ.
proof fn lemma_names_differ()
    ensures
        "event"@ != "question"@,
        "event"@ != "leaderboard"@,
        "event"@ != "slide"@,
        "text"@ != "responses"@,
        "text"@ != "number"@,
        "responses"@ != "number"@,
{
    reveal_strlit("event");
    reveal_strlit("question");
    reveal_strlit("leaderboard");
    reveal_strlit("slide");
    reveal_strlit("text");
    reveal_strlit("responses");
    reveal_strlit("number");
    assert("event"@[0] != "slide"@[0]);
    assert("event"@.len() == 5 && "question"@.len() == 8 && "leaderboard"@.len() == 11);
    assert("text"@.len() == 4 && "responses"@.len() == 9 && "number"@.len() == 6);
}

/// The message that announces a question offers every response: it has as many prompts as the
/// question has responses, each with the text of its response and nothing else, in the same place.
/// It has the question's text, and a number exactly where one is given.
pub proof fn law_announcement_offers_every_response(question: Question, number: Option<u64>)
    ensures
        ({
            let message = new_question(question@, number)->Object_0;
            let shown = message["question"@]->Object_0;
            let offered = shown["responses"@]->Array_0;
            &&& new_question(question@, number) is Object
            &&& message.dom() == set!["event"@, "question"@]
            &&& message["event"@] == JsonView::Text("new_question"@)
            &&& message["question"@] is Object
            &&& shown.dom() == if number is Some {
                set!["text"@, "responses"@, "number"@]
            } else {
                set!["text"@, "responses"@]
            }
            &&& shown["text"@] == JsonView::Text(question.text@)
            &&& number is Some ==> shown["number"@] == JsonView::Unsigned(number->0)
            &&& shown["responses"@] is Array
            &&& offered.len() == question.responses@.len()
            &&& forall|i: int|
                0 <= i < question.responses@.len() ==> #[trigger] offered[i] == JsonView::Object(
                    map!["text"@ => JsonView::Text(question.responses@[i].text@)],
                )
        }),
{
    lemma_names_differ();
    let message = new_question(question@, number)->Object_0;
    let shown = message["question"@]->Object_0;
    assert(message.dom() =~= set!["event"@, "question"@]);
    assert(shown.dom() =~= if number is Some {
        set!["text"@, "responses"@, "number"@]
    } else {
        set!["text"@, "responses"@]
    });
}

/// The JSON of a style holds its two colors.
proof fn lemma_style_json(style: SlideStyle)
    ensures
        style@.json() == JsonView::Object(
            map![
                "color"@ => JsonView::Text(style.color@),
                "font_color"@ => JsonView::Text(style.font_color@),
            ],
        ),
{
}

/// The message that shows a slide holds the slide's kind, all its texts in their order, and its
/// colors.
pub proof fn law_slide_message_is_whole(slide: Slide)
    ensures
        ({
            let message = new_slide(slide@)->Object_0;
            let style = match slide.kind {
                SlideKind::Title(_, style) => style,
                SlideKind::TitleText(_, _, style) => style,
                SlideKind::OnlyText(_, style) => style,
            };
            let look = JsonView::Object(
                map![
                    "color"@ => JsonView::Text(style.color@),
                    "font_color"@ => JsonView::Text(style.font_color@),
                ],
            );
            let kind = match slide.kind {
                SlideKind::Title(title, _) => map![
                    "Title"@ => JsonView::Array(seq![JsonView::Text(title@), look])
                ],
                SlideKind::TitleText(title, text, _) => map![
                    "TitleText"@ => JsonView::Array(
                        seq![JsonView::Text(title@), JsonView::Text(text@), look],
                    )
                ],
                SlideKind::OnlyText(text, _) => map![
                    "OnlyText"@ => JsonView::Array(seq![JsonView::Text(text@), look])
                ],
            };
            &&& new_slide(slide@) is Object
            &&& message.dom() == set!["event"@, "slide"@]
            &&& message["event"@] == JsonView::Text("new_slide"@)
            &&& message["slide"@] == slide@.json()
            &&& slide@.json() == JsonView::Object(map!["kind"@ => JsonView::Object(kind)])
        }),
{
    lemma_names_differ();
    match slide.kind {
        SlideKind::Title(_, style) => lemma_style_json(style),
        SlideKind::TitleText(_, _, style) => lemma_style_json(style),
        SlideKind::OnlyText(_, style) => lemma_style_json(style),
    }
    assert(new_slide(slide@)->Object_0.dom() =~= set!["event"@, "slide"@]);
}

/// The short messages hold what they are about: the answer, the name, the code, the reason, the id.
pub proof fn law_short_messages_hold_what_they_are_about(
    answer: u64,
    name: Seq<char>,
    code: Seq<char>,
    reason: Seq<char>,
    id: Seq<char>,
)
    ensures
        update_answer(answer) == JsonView::Object(
            map![
                "event"@ => JsonView::Text("update_answer"@),
                "answer"@ => JsonView::Unsigned(answer),
            ],
        ),
        player_joined(name) == JsonView::Object(
            map![
                "event"@ => JsonView::Text("playerjoined"@),
                "player"@ => JsonView::Object(map!["name"@ => JsonView::Text(name)]),
            ],
        ),
        game_code(code) == JsonView::Object(
            map!["event"@ => JsonView::Text("gamecode"@), "gamecode"@ => JsonView::Text(code)],
        ),
        error(reason) == JsonView::Object(map!["error"@ => JsonView::Text(reason)]),
        created(id) == JsonView::Object(
            map!["status"@ => JsonView::Text("Success"@), "id"@ => JsonView::Text(id)],
        ),
{
}

/// A leaderboard has one entry for each standing, in the same place, with the name and the points.
pub proof fn law_leaderboard_shows_every_standing(standings: Seq<Standing>)
    ensures
        ({
            let message = leaderboard(standing_views(standings))->Object_0;
            let shown = message["leaderboard"@]->Array_0;
            &&& leaderboard(standing_views(standings)) is Object
            &&& message.dom() == set!["event"@, "leaderboard"@]
            &&& message["event"@] == JsonView::Text("leaderboard"@)
            &&& message["leaderboard"@] is Array
            &&& shown.len() == standings.len()
            &&& forall|i: int|
                0 <= i < standings.len() ==> #[trigger] shown[i] == JsonView::Object(
                    map![
                        "name"@ => JsonView::Text(standings[i].name@),
                        "points"@ => JsonView::Unsigned(standings[i].points),
                    ],
                )
        }),
{
    lemma_names_differ();
    assert(leaderboard(standing_views(standings))->Object_0.dom() =~= set![
        "event"@,
        "leaderboard"@,
    ]);
}

/// The view of a list of standings has one standing for each, in the same place, with its name and
/// its points.
pub proof fn law_standings_are_viewed_whole(standings: Seq<Standing>)
    ensures
        standing_views(standings).len() == standings.len(),
        forall|i: int|
            0 <= i < standings.len() ==> (#[trigger] standing_views(standings)[i]).name
                == standings[i].name@ && standing_views(standings)[i].points
                == standings[i].points,
{
}

/// The JSON of a question holds its text, and each response with its text and its mark, in the same
/// place.
pub proof fn law_question_json_is_whole(question: Question)
    ensures
        ({
            let members = question@.json()->Object_0;
            let responses = members["responses"@]->Array_0;
            &&& question@.json() is Object
            &&& members.dom() == set!["text"@, "responses"@]
            &&& members["text"@] == JsonView::Text(question.text@)
            &&& members["responses"@] is Array
            &&& responses.len() == question.responses@.len()
            &&& forall|i: int|
                0 <= i < question.responses@.len() ==> #[trigger] responses[i] == JsonView::Object(
                    map![
                        "text"@ => JsonView::Text(question.responses@[i].text@),
                        "correct"@ => JsonView::Bool(question.responses@[i].correct),
                    ],
                )
        }),
{
    lemma_names_differ();
    assert(question@.json()->Object_0.dom() =~= set!["text"@, "responses"@]);
}

/// The JSON of what is played says which of the two it is and holds every item, in the same place.
pub proof fn law_config_json_is_whole(config: Config)
    ensures
        match config {
            Config::Slides(items) => {
                let list = config@.json()->Object_0["Slides"@];
                &&& config@.json() == JsonView::Object(map!["Slides"@ => list])
                &&& list is Array
                &&& list->Array_0.len() == items@.len()
                &&& forall|n: int|
                    0 <= n < items@.len() ==> #[trigger] list->Array_0[n] == match items@[n] {
                        SlidesItem::Slide(slide) => JsonView::Object(
                            map!["Slide"@ => slide@.json()],
                        ),
                        SlidesItem::Question(question) => JsonView::Object(
                            map!["Question"@ => question@.json()],
                        ),
                    }
            },
            Config::Quiz { questions } => {
                let list = config@.json()->Object_0["Quiz"@]->Object_0["questions"@];
                &&& config@.json() == JsonView::Object(
                    map!["Quiz"@ => JsonView::Object(map!["questions"@ => list])],
                )
                &&& list is Array
                &&& list->Array_0.len() == questions@.len()
                &&& forall|n: int|
                    0 <= n < questions@.len() ==> #[trigger] list->Array_0[n]
                        == questions@[n]@.json()
            },
        },
{
}

/// A list for a teacher has one entry for each activity, in the same place, with its id, its name and
/// what is played, and nothing else.
pub proof fn law_listing_shows_every_activity(list: Seq<Listed>)
    ensures
        listing(listed_views(list)) is Array,
        listing(listed_views(list))->Array_0.len() == list.len(),
        forall|i: int|
            0 <= i < list.len() ==> #[trigger] listing(listed_views(list))->Array_0[i]
                == JsonView::Object(
                map![
                    "id"@ => JsonView::Text(list[i].id@),
                    "name"@ => JsonView::Text(list[i].activity.name@),
                    "config"@ => list[i].activity.config@.json(),
                ],
            ),
        listed_views(list).len() == list.len(),
        forall|i: int|
            0 <= i < list.len() ==> #[trigger] listed_views(list)[i] == (ListedView {
                id: list[i].id@,
                activity: list[i].activity@,
            }),
{
}

} // verus!
