//! Activities: the quizzes and slide shows that teachers put together.
use crate::text::texts;
use vstd::prelude::*;

verus! {

/// One of the responses that a question offers.
#[derive(Debug, PartialEq, Eq)]
pub struct Response {
    pub text: String,
    pub correct: bool,
}

pub struct ResponseView {
    pub text: Seq<char>,
    pub correct: bool,
}

impl View for Response {
    type V = ResponseView;

    open spec fn view(&self) -> ResponseView {
        ResponseView { text: self.text@, correct: self.correct }
    }
}

impl Clone for Response {
    fn clone(&self) -> (copy: Self)
        ensures
            copy@ == self@,
    {
        Response { text: self.text.clone(), correct: self.correct }
    }
}

/// A question with its responses.
#[derive(Debug, PartialEq, Eq)]
pub struct Question {
    pub text: String,
    pub responses: Vec<Response>,
}

pub struct QuestionView {
    pub text: Seq<char>,
    pub responses: Seq<ResponseView>,
}

pub open spec fn response_views(responses: Seq<Response>) -> Seq<ResponseView> {
    Seq::new(responses.len(), |i: int| responses[i]@)
}

impl View for Question {
    type V = QuestionView;

    open spec fn view(&self) -> QuestionView {
        QuestionView { text: self.text@, responses: response_views(self.responses@) }
    }
}

impl Clone for Question {
    fn clone(&self) -> (copy: Self)
        ensures
            copy@ == self@,
    {
        let copy = Question { text: self.text.clone(), responses: self.responses.clone() };
        assert(copy@.responses =~= self@.responses);
        copy
    }
}

/// The colors of a slide.
#[derive(Debug, PartialEq, Eq)]
pub struct SlideStyle {
    pub color: String,
    pub font_color: String,
}

pub struct SlideStyleView {
    pub color: Seq<char>,
    pub font_color: Seq<char>,
}

impl View for SlideStyle {
    type V = SlideStyleView;

    open spec fn view(&self) -> SlideStyleView {
        SlideStyleView { color: self.color@, font_color: self.font_color@ }
    }
}

impl Clone for SlideStyle {
    fn clone(&self) -> (copy: Self)
        ensures
            copy@ == self@,
    {
        SlideStyle { color: self.color.clone(), font_color: self.font_color.clone() }
    }
}

/// What a slide shows.
#[derive(Debug, PartialEq, Eq)]
pub enum SlideKind {
    Title(String, SlideStyle),
    TitleText(String, String, SlideStyle),
    OnlyText(String, SlideStyle),
}

pub enum SlideKindView {
    Title(Seq<char>, SlideStyleView),
    TitleText(Seq<char>, Seq<char>, SlideStyleView),
    OnlyText(Seq<char>, SlideStyleView),
}

impl View for SlideKind {
    type V = SlideKindView;

    open spec fn view(&self) -> SlideKindView {
        match self {
            SlideKind::Title(title, style) => SlideKindView::Title(title@, style@),
            SlideKind::TitleText(title, text, style) => SlideKindView::TitleText(
                title@,
                text@,
                style@,
            ),
            SlideKind::OnlyText(text, style) => SlideKindView::OnlyText(text@, style@),
        }
    }
}

impl Clone for SlideKind {
    fn clone(&self) -> (copy: Self)
        ensures
            copy@ == self@,
    {
        match self {
            SlideKind::Title(title, style) => SlideKind::Title(title.clone(), style.clone()),
            SlideKind::TitleText(title, text, style) => SlideKind::TitleText(
                title.clone(),
                text.clone(),
                style.clone(),
            ),
            SlideKind::OnlyText(text, style) => SlideKind::OnlyText(text.clone(), style.clone()),
        }
    }
}

/// A slide of a slide show.
#[derive(Debug, PartialEq, Eq)]
pub struct Slide {
    pub kind: SlideKind,
}

pub struct SlideView {
    pub kind: SlideKindView,
}

impl View for Slide {
    type V = SlideView;

    open spec fn view(&self) -> SlideView {
        SlideView { kind: self.kind@ }
    }
}

impl Clone for Slide {
    fn clone(&self) -> (copy: Self)
        ensures
            copy@ == self@,
    {
        Slide { kind: self.kind.clone() }
    }
}

/// One item of a slide show: a slide, or a question for the players.
#[derive(Debug, PartialEq, Eq)]
pub enum SlidesItem {
    Slide(Slide),
    Question(Question),
}

pub enum SlidesItemView {
    Slide(SlideView),
    Question(QuestionView),
}

impl View for SlidesItem {
    type V = SlidesItemView;

    open spec fn view(&self) -> SlidesItemView {
        match self {
            SlidesItem::Slide(slide) => SlidesItemView::Slide(slide@),
            SlidesItem::Question(question) => SlidesItemView::Question(question@),
        }
    }
}

impl Clone for SlidesItem {
    fn clone(&self) -> (copy: Self)
        ensures
            copy@ == self@,
    {
        match self {
            SlidesItem::Slide(slide) => SlidesItem::Slide(slide.clone()),
            SlidesItem::Question(question) => SlidesItem::Question(question.clone()),
        }
    }
}

/// What is played: a slide show or a quiz.
#[derive(Debug, PartialEq, Eq)]
pub enum Config {
    Slides(Vec<SlidesItem>),
    Quiz { questions: Vec<Question> },
}

pub enum ConfigView {
    Slides(Seq<SlidesItemView>),
    Quiz { questions: Seq<QuestionView> },
}

pub open spec fn item_views(items: Seq<SlidesItem>) -> Seq<SlidesItemView> {
    Seq::new(items.len(), |i: int| items[i]@)
}

pub open spec fn question_views(questions: Seq<Question>) -> Seq<QuestionView> {
    Seq::new(questions.len(), |i: int| questions[i]@)
}

impl View for Config {
    type V = ConfigView;

    open spec fn view(&self) -> ConfigView {
        match self {
            Config::Slides(items) => ConfigView::Slides(item_views(items@)),
            Config::Quiz { questions } => ConfigView::Quiz {
                questions: question_views(questions@),
            },
        }
    }
}

impl ConfigView {
    /// The number of items: slides and questions.
    pub open spec fn len(self) -> nat {
        match self {
            ConfigView::Slides(items) => items.len(),
            ConfigView::Quiz { questions } => questions.len(),
        }
    }

    /// The item at a position. All items of a quiz are questions.
    pub open spec fn item(self, n: int) -> SlidesItemView {
        match self {
            ConfigView::Slides(items) => items[n],
            ConfigView::Quiz { questions } => SlidesItemView::Question(questions[n]),
        }
    }
}

impl QuestionView {
    /// Whether two questions differ in their marks alone.
    pub open spec fn same_but_marks(self, other: QuestionView) -> bool {
        &&& self.text == other.text
        &&& self.responses.len() == other.responses.len()
        &&& forall|i: int|
            0 <= i < self.responses.len() ==> (#[trigger] self.responses[i]).text
                == other.responses[i].text
    }
}

impl SlidesItemView {
    /// Whether two items differ in their marks alone.
    pub open spec fn same_but_marks(self, other: SlidesItemView) -> bool {
        match (self, other) {
            (SlidesItemView::Question(one), SlidesItemView::Question(two)) => one.same_but_marks(
                two,
            ),
            _ => self == other,
        }
    }
}

impl ConfigView {
    /// Whether two slide shows or quizzes differ in their marks alone.
    pub open spec fn same_but_marks(self, other: ConfigView) -> bool {
        &&& self.len() == other.len()
        &&& forall|n: int|
            0 <= n < self.len() ==> (#[trigger] self.item(n)).same_but_marks(other.item(n))
    }
}

impl Clone for Config {
    fn clone(&self) -> (copy: Self)
        ensures
            copy@ == self@,
    {
        match self {
            Config::Slides(items) => {
                let copy = items.clone();
                assert(item_views(copy@) =~= item_views(items@));
                Config::Slides(copy)
            },
            Config::Quiz { questions } => {
                let copy = questions.clone();
                assert(question_views(copy@) =~= question_views(questions@));
                Config::Quiz { questions: copy }
            },
        }
    }
}

/// An item of a running game.
#[derive(Debug)]
pub enum Shown<'a> {
    Slide(&'a Slide),
    Question(&'a Question),
}

impl<'a> View for Shown<'a> {
    type V = SlidesItemView;

    open spec fn view(&self) -> SlidesItemView {
        match self {
            Shown::Slide(slide) => SlidesItemView::Slide(slide@),
            Shown::Question(question) => SlidesItemView::Question(question@),
        }
    }
}

/// There are no more items than a machine word can count.
pub proof fn lemma_config_len(config: &Config)
    ensures
        config@.len() <= usize::MAX,
{
    match config {
        Config::Slides(items) => {
            assert(items@.len() == items.len());
        },
        Config::Quiz { questions } => {
            assert(questions@.len() == questions.len());
        },
    }
}

impl Config {
    /// Whether there is an item at position `n`.
    pub fn has_item(&self, n: u64) -> (result: bool)
        ensures
            result == (n < self@.len()),
    {
        match self {
            Config::Slides(items) => n < items.len() as u64,
            Config::Quiz { questions } => n < questions.len() as u64,
        }
    }

    /// The item at position `n`.
    pub fn item(&self, n: u64) -> (item: Shown<'_>)
        requires
            n < self@.len(),
        ensures
            item@ == self@.item(n as int),
    {
        match self {
            Config::Slides(items) => {
                assert(n < items.len());
                match &items[n as usize] {
                    SlidesItem::Slide(slide) => Shown::Slide(slide),
                    SlidesItem::Question(question) => Shown::Question(question),
                }
            },
            Config::Quiz { questions } => {
                assert(n < questions.len());
                Shown::Question(&questions[n as usize])
            },
        }
    }
}

/// Who may start an activity: everyone, or the users that are named.
#[derive(Debug, PartialEq, Eq)]
pub enum Access {
    All(String),
    Usernames(Vec<String>),
}

pub enum AccessView {
    All(Seq<char>),
    Usernames(Seq<Seq<char>>),
}

impl View for Access {
    type V = AccessView;

    open spec fn view(&self) -> AccessView {
        match self {
            Access::All(text) => AccessView::All(text@),
            Access::Usernames(names) => AccessView::Usernames(texts(names@)),
        }
    }
}

impl Clone for Access {
    fn clone(&self) -> (copy: Self)
        ensures
            copy@ == self@,
    {
        match self {
            Access::All(text) => Access::All(text.clone()),
            Access::Usernames(names) => {
                let copy = names.clone();
                assert(texts(copy@) =~= texts(names@));
                Access::Usernames(copy)
            },
        }
    }
}

/// An activity that is kept for later games.
#[derive(Debug, PartialEq, Eq)]
pub struct Activity {
    pub name: String,
    pub config: Config,
    pub access: Access,
}

pub struct ActivityView {
    pub name: Seq<char>,
    pub config: ConfigView,
    pub access: AccessView,
}

impl View for Activity {
    type V = ActivityView;

    open spec fn view(&self) -> ActivityView {
        ActivityView { name: self.name@, config: self.config@, access: self.access@ }
    }
}

impl Clone for Activity {
    fn clone(&self) -> (copy: Self)
        ensures
            copy@ == self@,
    {
        Activity {
            name: self.name.clone(),
            config: self.config.clone(),
            access: self.access.clone(),
        }
    }
}

// ---- What the views show ----

/// A question is seen whole: its text, and each of its responses with its text and its mark, in the
/// same place.
pub proof fn law_question_is_viewed_whole(question: Question)
    ensures
        question@.text == question.text@,
        question@.responses.len() == question.responses@.len(),
        forall|i: int|
            0 <= i < question.responses@.len() ==> (#[trigger] question@.responses[i]).text
                == question.responses@[i].text@ && question@.responses[i].correct
                == question.responses@[i].correct,
{
}

/// A slide is seen whole: its kind, its texts and its colors.
pub proof fn law_slide_is_viewed_whole(slide: Slide)
    ensures
        match (slide.kind, slide@.kind) {
            (SlideKind::Title(title, style), SlideKindView::Title(seen, look)) => {
                &&& seen == title@
                &&& look.color == style.color@
                &&& look.font_color == style.font_color@
            },
            (SlideKind::TitleText(title, text, style), SlideKindView::TitleText(seen, more, look)) => {
                &&& seen == title@
                &&& more == text@
                &&& look.color == style.color@
                &&& look.font_color == style.font_color@
            },
            (SlideKind::OnlyText(text, style), SlideKindView::OnlyText(seen, look)) => {
                &&& seen == text@
                &&& look.color == style.color@
                &&& look.font_color == style.font_color@
            },
            _ => false,
        },
{
}

/// What is played is seen whole: it has as many items as the list holds, and at each position the
/// item that stands there. A quiz has its questions as items.
pub proof fn law_config_is_viewed_whole(config: Config)
    ensures
        match config {
            Config::Slides(items) => {
                &&& config@ is Slides
                &&& config@.len() == items@.len()
                &&& config@->Slides_0.len() == items@.len()
                &&& forall|n: int|
                    0 <= n < items@.len() ==> #[trigger] config@.item(n) == config@->Slides_0[n]
                        && match items@[n] {
                        SlidesItem::Slide(slide) => config@.item(n) == SlidesItemView::Slide(slide@),
                        SlidesItem::Question(question) => config@.item(n)
                            == SlidesItemView::Question(question@),
                    }
            },
            Config::Quiz { questions } => {
                &&& config@ is Quiz
                &&& config@.len() == questions@.len()
                &&& config@->questions.len() == questions@.len()
                &&& forall|n: int|
                    0 <= n < questions@.len() ==> #[trigger] config@.item(n)
                        == SlidesItemView::Question(questions@[n]@) && config@->questions[n]
                        == questions@[n]@
            },
        },
{
}

/// Who may start is seen whole: everyone, or each of the names, in the same place.
pub proof fn law_access_is_viewed_whole(access: Access)
    ensures
        match access {
            Access::All(text) => access@ == AccessView::All(text@),
            Access::Usernames(names) => {
                &&& access@ is Usernames
                &&& access@->Usernames_0.len() == names@.len()
                &&& forall|i: int|
                    0 <= i < names@.len() ==> #[trigger] access@->Usernames_0[i] == names@[i]@
            },
        },
{
}

/// An activity is seen whole: its name, what is played, and who may start it.
pub proof fn law_activity_is_viewed_whole(activity: Activity)
    ensures
        activity@.name == activity.name@,
        activity@.config == activity.config@,
        activity@.access == activity.access@,
{
}

/// An item of a running game is seen as the slide or the question that it is.
pub proof fn law_shown_is_viewed_whole(slide: Slide, question: Question)
    ensures
        Shown::Slide(&slide)@ == SlidesItemView::Slide(slide@),
        Shown::Question(&question)@ == SlidesItemView::Question(question@),
{
}

} // verus!
