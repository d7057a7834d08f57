use quizroom::activity::{
    Access, Activity, Config, Question, Response, Slide, SlideKind, SlideStyle, SlidesItem,
};
use quizroom::wire::{
    created_text, game_code_text, leaderboard_text, listing_text, new_question_text, new_slide_text,
    player_joined_text, ugg, update_answer_text, Listed, Standing,
};

fn question(correct: bool) -> Question {
    Question {
        text: "2+2?".to_string(),
        responses: vec![
            Response { text: "3".to_string(), correct: !correct },
            Response { text: "4".to_string(), correct },
        ],
    }
}

fn style() -> SlideStyle {
    SlideStyle { color: "red".to_string(), font_color: "blue".to_string() }
}

#[test]
fn a_question_is_announced_without_number() {
    assert_eq!(
        new_question_text(&question(true), None),
        "{\"event\":\"new_question\",\"question\":{\"responses\":[{\"text\":\"3\"},{\"text\":\"4\"}],\"text\":\"2+2?\"}}"
    );
}

#[test]
fn a_question_is_announced_with_number() {
    assert_eq!(
        new_question_text(&question(true), Some(0)),
        "{\"event\":\"new_question\",\"question\":{\"number\":0,\"responses\":[{\"text\":\"3\"},{\"text\":\"4\"}],\"text\":\"2+2?\"}}"
    );
}

#[test]
fn marks_stay_hidden() {
    assert_eq!(new_question_text(&question(true), Some(0)), new_question_text(&question(false), Some(0)));
    assert_eq!(new_question_text(&question(true), None), new_question_text(&question(false), None));
}

#[test]
fn slides_are_shown_by_kind() {
    let title = Slide { kind: SlideKind::Title("T".to_string(), style()) };
    assert_eq!(
        new_slide_text(&title),
        "{\"event\":\"new_slide\",\"slide\":{\"kind\":{\"Title\":[\"T\",{\"color\":\"red\",\"font_color\":\"blue\"}]}}}"
    );
    let both = Slide { kind: SlideKind::TitleText("T".to_string(), "x".to_string(), style()) };
    assert_eq!(
        new_slide_text(&both),
        "{\"event\":\"new_slide\",\"slide\":{\"kind\":{\"TitleText\":[\"T\",\"x\",{\"color\":\"red\",\"font_color\":\"blue\"}]}}}"
    );
    let text = Slide { kind: SlideKind::OnlyText("x".to_string(), style()) };
    assert_eq!(
        new_slide_text(&text),
        "{\"event\":\"new_slide\",\"slide\":{\"kind\":{\"OnlyText\":[\"x\",{\"color\":\"red\",\"font_color\":\"blue\"}]}}}"
    );
}

#[test]
fn short_messages_have_their_texts() {
    assert_eq!(update_answer_text(2), "{\"answer\":2,\"event\":\"update_answer\"}");
    assert_eq!(player_joined_text("Ann"), "{\"event\":\"playerjoined\",\"player\":{\"name\":\"Ann\"}}");
    assert_eq!(game_code_text("1234"), "{\"event\":\"gamecode\",\"gamecode\":\"1234\"}");
    assert_eq!(ugg("no \"x\""), "{\"error\":\"no \\\"x\\\"\"}");
    assert_eq!(created_text("abcdEF12"), "{\"id\":\"abcdEF12\",\"status\":\"Success\"}");
}

#[test]
fn leaderboards_list_standings() {
    let standings = vec![
        Standing { name: "Bob".to_string(), points: 1200 },
        Standing { name: "Ann".to_string(), points: 600 },
    ];
    assert_eq!(
        leaderboard_text(&standings),
        "{\"event\":\"leaderboard\",\"leaderboard\":[{\"name\":\"Bob\",\"points\":1200},{\"name\":\"Ann\",\"points\":600}]}"
    );
    assert_eq!(leaderboard_text(&vec![]), "{\"event\":\"leaderboard\",\"leaderboard\":[]}");
}

#[test]
fn listings_show_what_is_played_but_not_who_may_start() {
    let quiz = Activity {
        name: "Sums".to_string(),
        config: Config::Quiz { questions: vec![question(true)] },
        access: Access::Usernames(vec!["ann".to_string()]),
    };
    let show = Activity {
        name: "Show".to_string(),
        config: Config::Slides(vec![
            SlidesItem::Slide(Slide { kind: SlideKind::Title("T".to_string(), style()) }),
            SlidesItem::Question(question(true)),
        ]),
        access: Access::All("".to_string()),
    };
    let list = vec![
        Listed { id: "one".to_string(), activity: quiz },
        Listed { id: "two".to_string(), activity: show },
    ];
    let marked = "{\"responses\":[{\"correct\":false,\"text\":\"3\"},{\"correct\":true,\"text\":\"4\"}],\"text\":\"2+2?\"}";
    let expected = format!(
        "[{{\"config\":{{\"Quiz\":{{\"questions\":[{}]}}}},\"id\":\"one\",\"name\":\"Sums\"}},{{\"config\":{{\"Slides\":[{{\"Slide\":{{\"kind\":{{\"Title\":[\"T\",{{\"color\":\"red\",\"font_color\":\"blue\"}}]}}}}}},{{\"Question\":{}}}]}},\"id\":\"two\",\"name\":\"Show\"}}]",
        marked, marked
    );
    assert_eq!(listing_text(&list), expected);
    assert_eq!(listing_text(&vec![]), "[]");
}
