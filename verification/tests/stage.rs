use bson::oid::ObjectId;
use duck_node::project::dialog::stair::{
    Body, Receiver, Responder, Stage, StageError, StageKind, Step,
};
use regex::Regex;
use std::time::{SystemTime, UNIX_EPOCH};

fn patterns(sources: &[&str]) -> Vec<Regex> {
    sources.iter().map(|source| Regex::new(source).unwrap()).collect()
}

fn body(text: &str) -> Option<Body> {
    Some(Body::new(Some(text.to_string())))
}

fn now_millis() -> i64 {
    SystemTime::now().duration_since(UNIX_EPOCH).unwrap().as_millis() as i64
}

#[test]
fn start_stage_without_body_is_refused() {
    let made = Stage::new(StageKind::Start, patterns(&["start"]), "greet".to_string(), None, None);
    assert_eq!(made.err(), Some(StageError::InvalidKind(StageKind::Start, StageKind::Empty)));
}

#[test]
fn start_stage_without_body_is_refused_whatever_the_patterns() {
    for sources in [&[][..], &["a"][..], &["a", "b|c", "^d$"][..]] {
        for name in ["", "greet", "a longer name"] {
            let made = Stage::new(StageKind::Start, patterns(sources), name.to_string(), None, None);
            assert_eq!(
                made.err(),
                Some(StageError::InvalidKind(StageKind::Start, StageKind::Empty))
            );
        }
    }
}

#[test]
fn start_stage_with_body_is_built() {
    let made = Stage::new(StageKind::Start, patterns(&["start"]), "greet".to_string(), None, body("Hi"));
    let stage = made.ok().unwrap();
    assert_eq!(*stage.kind(), StageKind::Start);
    assert_eq!(stage.response().get_text(), "Hi");
}

#[test]
fn start_stage_with_textless_body_is_built() {
    let made = Stage::new(
        StageKind::Start,
        Vec::new(),
        "greet".to_string(),
        None,
        Some(Body::new(None)),
    );
    let stage = made.ok().unwrap();
    assert_eq!(stage.response().get_text(), "");
}

#[test]
fn empty_stage_with_body_is_refused() {
    let made = Stage::new(StageKind::Empty, patterns(&["later"]), "stub".to_string(), None, body("x"));
    assert_eq!(made.err(), Some(StageError::InvalidKind(StageKind::Basic, StageKind::Empty)));
}

#[test]
fn empty_stage_with_textless_body_is_refused() {
    let made = Stage::new(
        StageKind::Empty,
        Vec::new(),
        "stub".to_string(),
        None,
        Some(Body::new(None)),
    );
    assert_eq!(made.err(), Some(StageError::InvalidKind(StageKind::Basic, StageKind::Empty)));
}

#[test]
fn empty_stage_without_body_is_built() {
    let made = Stage::new(StageKind::Empty, patterns(&["later"]), "stub".to_string(), None, None);
    let stage = made.ok().unwrap();
    assert_eq!(*stage.kind(), StageKind::Empty);
    assert!(stage.body().is_none());
}

#[test]
fn basic_stage_is_built_with_or_without_body() {
    let with = Stage::new(StageKind::Basic, patterns(&["a"]), "with".to_string(), None, body("x"));
    let without = Stage::new(StageKind::Basic, patterns(&["a"]), "without".to_string(), None, None);
    assert_eq!(*with.ok().unwrap().kind(), StageKind::Basic);
    assert_eq!(*without.ok().unwrap().kind(), StageKind::Basic);
}

#[test]
fn state_stage_is_built_with_or_without_body() {
    let with = Stage::new(StageKind::State, patterns(&["a"]), "with".to_string(), None, body("x"));
    let without = Stage::new(StageKind::State, Vec::new(), "without".to_string(), None, None);
    assert_eq!(*with.ok().unwrap().kind(), StageKind::State);
    assert_eq!(*without.ok().unwrap().kind(), StageKind::State);
}

#[test]
fn new_stage_holds_what_it_was_given() {
    let stage = Stage::new(
        StageKind::Basic,
        patterns(&["help", "sos"]),
        "cmd_help".to_string(),
        Some("shows the help".to_string()),
        body("Help info here"),
    )
    .ok()
    .unwrap();
    assert_eq!(*stage.kind(), StageKind::Basic);
    assert_eq!(stage.name(), "cmd_help");
    assert_eq!(stage.description(), Some("shows the help"));
    assert_eq!(stage.body().unwrap().get_text(), "Help info here");
    assert_eq!(stage.response().get_text(), "Help info here");
    let sources: Vec<&str> = stage.pattern().iter().map(|p| p.as_str()).collect();
    assert_eq!(sources, vec!["help", "sos"]);
}

#[test]
fn new_stage_without_description_has_none() {
    let stage = Stage::new(StageKind::Basic, Vec::new(), "n".to_string(), None, None).ok().unwrap();
    assert_eq!(stage.description(), None);
    assert_eq!(stage.name(), "n");
}

#[test]
fn new_stage_is_stamped_once_with_the_present_time() {
    let before = now_millis();
    let stage = Stage::new(StageKind::Basic, Vec::new(), "n".to_string(), None, None).ok().unwrap();
    let after = now_millis();
    assert_eq!(stage.created_at(), stage.updated_at());
    assert!(before <= stage.created_at());
    assert!(stage.created_at() <= after);
}

#[test]
fn new_stages_get_identifiers_of_their_own() {
    let first = Stage::new(StageKind::Basic, Vec::new(), "a".to_string(), None, None).ok().unwrap();
    let second = Stage::new(StageKind::Basic, Vec::new(), "a".to_string(), None, None).ok().unwrap();
    assert_ne!(first.id(), second.id());
}

#[test]
fn stage_from_parts_holds_exactly_its_parts() {
    let id = ObjectId::from_bytes([1, 2, 3, 4, 5, 6, 7, 8, 9, 10, 11, 12]);
    let stage = Stage::from_parts(
        id,
        StageKind::Start,
        patterns(&["^hi$"]),
        "greet".to_string(),
        Some("the greeting".to_string()),
        body("Hello"),
        1_700_000_000_000,
        1_700_000_360_000,
    )
    .ok()
    .unwrap();
    assert_eq!(*stage.id(), id);
    assert_eq!(stage.id().bytes(), [1, 2, 3, 4, 5, 6, 7, 8, 9, 10, 11, 12]);
    assert_eq!(*stage.kind(), StageKind::Start);
    assert_eq!(stage.pattern().len(), 1);
    assert_eq!(stage.pattern()[0].as_str(), "^hi$");
    assert_eq!(stage.name(), "greet");
    assert_eq!(stage.description(), Some("the greeting"));
    assert_eq!(stage.response().get_text(), "Hello");
    assert_eq!(stage.created_at(), 1_700_000_000_000);
    assert_eq!(stage.updated_at(), 1_700_000_360_000);
}

#[test]
fn stage_from_parts_keeps_timestamps_at_the_ends_of_their_range() {
    let id = ObjectId::from_bytes([0; 12]);
    let stage =
        Stage::from_parts(id, StageKind::State, Vec::new(), String::new(), None, None, i64::MIN, i64::MAX)
            .ok()
            .unwrap();
    assert_eq!(stage.created_at(), i64::MIN);
    assert_eq!(stage.updated_at(), i64::MAX);
    assert_eq!(stage.name(), "");
}

#[test]
fn stage_from_parts_refuses_what_new_refuses() {
    let id = ObjectId::from_bytes([7; 12]);
    let start = Stage::from_parts(id, StageKind::Start, Vec::new(), "s".to_string(), None, None, 1, 2);
    assert_eq!(start.err(), Some(StageError::InvalidKind(StageKind::Start, StageKind::Empty)));
    let empty =
        Stage::from_parts(id, StageKind::Empty, Vec::new(), "e".to_string(), None, body("x"), 1, 2);
    assert_eq!(empty.err(), Some(StageError::InvalidKind(StageKind::Basic, StageKind::Empty)));
}

#[test]
fn stage_from_parts_builds_every_admitted_pairing() {
    let id = ObjectId::from_bytes([7; 12]);
    let cases = [
        (StageKind::Start, true),
        (StageKind::State, true),
        (StageKind::State, false),
        (StageKind::Basic, true),
        (StageKind::Basic, false),
        (StageKind::Empty, false),
    ];
    for (kind, has_body) in cases {
        let given = if has_body { body("x") } else { None };
        let made = Stage::from_parts(id, kind, Vec::new(), "n".to_string(), None, given, 0, 0);
        let stage = made.ok().unwrap();
        assert_eq!(*stage.kind(), kind);
        assert_eq!(stage.body().is_some(), has_body);
    }
}

#[test]
fn pattern_is_searched_for_anywhere_in_the_text() {
    let stage = Stage::new(StageKind::Basic, patterns(&["start"]), "s".to_string(), None, None)
        .ok()
        .unwrap();
    assert!(stage.pattern_comparison("start"));
    assert!(stage.pattern_comparison("I will start the car"));
    assert!(stage.pattern_comparison("restarted"));
    assert!(!stage.pattern_comparison("stop"));
    assert!(!stage.pattern_comparison("Start"));
    assert!(!stage.pattern_comparison(""));
}

#[test]
fn anchored_pattern_must_cover_the_whole_text() {
    let stage = Stage::new(StageKind::Basic, patterns(&["^start$"]), "s".to_string(), None, None)
        .ok()
        .unwrap();
    assert!(stage.pattern_comparison("start"));
    assert!(!stage.pattern_comparison("I will start the car"));
}

#[test]
fn stage_without_patterns_matches_nothing() {
    let stage = Stage::new(StageKind::Basic, Vec::new(), "s".to_string(), None, body("x")).ok().unwrap();
    assert!(!stage.pattern_comparison(""));
    assert!(!stage.pattern_comparison("anything"));
}

#[test]
fn any_one_pattern_is_enough() {
    let stage = Stage::new(
        StageKind::Basic,
        patterns(&["alpha", "beta", "gamma"]),
        "s".to_string(),
        None,
        None,
    )
    .ok()
    .unwrap();
    assert!(stage.pattern_comparison("alpha"));
    assert!(stage.pattern_comparison("some beta here"));
    assert!(stage.pattern_comparison("gamma!"));
    assert!(stage.pattern_comparison("gamma and alpha"));
    assert!(!stage.pattern_comparison("delta"));
}

#[test]
fn pattern_order_does_not_change_the_answer() {
    let forward =
        Stage::new(StageKind::Basic, patterns(&["a+b", "c"]), "f".to_string(), None, None).ok().unwrap();
    let backward =
        Stage::new(StageKind::Basic, patterns(&["c", "a+b"]), "b".to_string(), None, None).ok().unwrap();
    for text in ["aab", "c", "xcx", "ab c", "ba", "", "d"] {
        assert_eq!(forward.pattern_comparison(text), backward.pattern_comparison(text));
    }
}

#[test]
fn empty_pattern_matches_every_text() {
    let stage = Stage::new(StageKind::Basic, patterns(&[""]), "s".to_string(), None, None).ok().unwrap();
    assert!(stage.pattern_comparison(""));
    assert!(stage.pattern_comparison("whatever"));
}

#[test]
fn pattern_matches_text_that_is_not_ascii() {
    let stage = Stage::new(StageKind::Basic, patterns(&["помощь"]), "s".to_string(), None, None)
        .ok()
        .unwrap();
    assert!(stage.pattern_comparison("мне нужна помощь!"));
    assert!(!stage.pattern_comparison("help"));
}

#[test]
fn body_of_a_stage_without_one_is_absent() {
    let stage = Stage::new(StageKind::Basic, Vec::new(), "s".to_string(), None, None).ok().unwrap();
    assert!(stage.body().is_none());
}

#[test]
fn stage_kind_is_named_as_it_is_written() {
    assert_eq!(StageKind::Start.to_string(), "Start");
    assert_eq!(StageKind::State.to_string(), "State");
    assert_eq!(StageKind::Basic.to_string(), "Basic");
    assert_eq!(StageKind::Empty.to_string(), "Empty");
}

#[test]
fn stage_error_says_what_was_expected_and_found() {
    let start = StageError::InvalidKind(StageKind::Start, StageKind::Empty);
    assert_eq!(start.to_string(), "invalid kind (expected `Start`, found `Empty`)");
    let empty = StageError::InvalidKind(StageKind::Basic, StageKind::Empty);
    assert_eq!(empty.to_string(), "invalid kind (expected `Basic`, found `Empty`)");
    let other = StageError::InvalidKind(StageKind::State, StageKind::Start);
    assert_eq!(other.to_string(), "invalid kind (expected `State`, found `Start`)");
}

#[test]
fn the_two_refusals_can_be_told_apart() {
    let start = Stage::new(StageKind::Start, Vec::new(), "s".to_string(), None, None).err().unwrap();
    let empty = Stage::new(StageKind::Empty, Vec::new(), "e".to_string(), None, body("x")).err().unwrap();
    assert_ne!(start, empty);
    assert_ne!(start.to_string(), empty.to_string());
}
