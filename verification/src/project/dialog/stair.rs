use super::marks::{first_marked, is_first_marked, lemma_first_marked_at, lemma_first_marked_none};
use super::Pipe;
use crate::trusted::{fresh_object_id, matched_texts, now_millis, regex_is_match};
use bson::oid::ObjectId;
use regex::Regex;
use vstd::prelude::*;
use vstd::string::StringExecFns;

verus! {

/// What a stage is for.
#[derive(Debug, Clone, Copy, PartialEq, Eq, Structural)]
pub enum StageKind {
    /// The greeting, sent by itself when a conversation begins.
    Start,
    /// Reserved for steps that depend on the state of the conversation.
    /// Nothing is asked of such a stage yet.
    State,
    /// An ordinary rule: a pattern and the response to it.
    Basic,
    /// A placeholder without a response, to be filled in later.
    Empty,
}

impl StageKind {
    /// The kind's name as text.
    pub open spec fn label(self) -> Seq<char> {
        match self {
            StageKind::Start => "Start"@,
            StageKind::State => "State"@,
            StageKind::Basic => "Basic"@,
            StageKind::Empty => "Empty"@,
        }
    }

    /// The kind's name.
    pub fn to_string(&self) -> (name: String)
        ensures
            name@ == self.label(),
    {
        match self {
            StageKind::Start => String::from_str("Start"),
            StageKind::State => String::from_str("State"),
            StageKind::Basic => String::from_str("Basic"),
            StageKind::Empty => String::from_str("Empty"),
        }
    }
}

/// Why a stage could not be built.
#[derive(Debug, Clone, Copy, PartialEq, Eq, Structural)]
pub enum StageError {
    /// The kind does not agree with the presence of a body. Holds the kind
    /// that was expected, then the kind that was found.
    InvalidKind(StageKind, StageKind),
}

impl StageError {
    /// The error's message as text.
    pub open spec fn message(self) -> Seq<char> {
        match self {
            StageError::InvalidKind(expected, found) => "invalid kind (expected `"@
                + expected.label() + "`, found `"@ + found.label() + "`)"@,
        }
    }

    /// The error's message.
    pub fn to_string(&self) -> (message: String)
        ensures
            message@ == self.message(),
    {
        match self {
            StageError::InvalidKind(expected, found) => {
                let mut message = String::from_str("invalid kind (expected `");
                message.append(expected.to_string().as_str());
                message.append("`, found `");
                message.append(found.to_string().as_str());
                message.append("`)");
                message
            },
        }
    }
}

/// The characters of an optional string.
pub open spec fn text_of(text: Option<String>) -> Option<Seq<char>> {
    match text {
        Some(t) => Some(t@),
        None => None,
    }
}

/// What a stage answers with. It may hold a text.
pub struct Body {
    text: Option<String>,
}

/// A body as a mathematical value.
pub struct BodyView {
    pub text: Option<Seq<char>>,
}

impl BodyView {
    /// What the body says: its text, or nothing where it has none.
    pub open spec fn shown(self) -> Seq<char> {
        match self.text {
            Some(t) => t,
            None => Seq::empty(),
        }
    }
}

impl View for Body {
    type V = BodyView;

    closed spec fn view(&self) -> BodyView {
        BodyView { text: text_of(self.text) }
    }
}

impl Body {
    /// A body with the given text, or without any.
    pub fn new(text: Option<String>) -> (body: Body)
        ensures
            body@ == (BodyView { text: text_of(text) }),
    {
        Self { text }
    }

    /// The body's text, which is empty where the body has none.
    pub fn get_text(&self) -> (text: &str)
        ensures
            text@ == self@.shown(),
            self@.text is None ==> text@ == ""@ && text@.len() == 0,
    {
        match &self.text {
            Some(t) => t.as_str(),
            None => {
                proof {
                    reveal_strlit("");
                }
                ""
            },
        }
    }
}

/// The view of an optional body.
pub open spec fn body_of(body: Option<Body>) -> Option<BodyView> {
    match body {
        Some(b) => Some(b@),
        None => None,
    }
}

/// A step that answers with a body.
pub trait Responder {
    /// The body that the step answers with, if it has one.
    spec fn body_view(&self) -> Option<BodyView>;

    /// The step's body. Only a step that has one can be asked for it.
    fn response(&self) -> (body: &Body)
        requires
            self.body_view() is Some,
        ensures
            self.body_view() == Some(body@),
    ;
}

/// A step that recognises the texts it is meant for.
pub trait Receiver {
    /// Whether the step is meant for `text`.
    spec fn matches(&self, text: Seq<char>) -> bool;

    /// Whether the step is meant for `text`.
    fn pattern_comparison(&self, text: &str) -> (hit: bool)
        ensures
            hit == self.matches(text@),
    ;
}

/// One step of a dialog.
pub trait Step: Pipe + Receiver + Responder {
    /// What the step is for.
    spec fn kind_view(&self) -> StageKind;

    /// What the step is for.
    fn kind(&self) -> (kind: &StageKind)
        ensures
            *kind == self.kind_view(),
    ;
}

/// One rule of a dialog: the texts it is meant for, and its response.
///
/// A start stage always has a body, and an empty stage never has one. Both
/// are settled when the stage is built, and a stage does not change.
pub struct Stage {
    id: ObjectId,
    kind: StageKind,
    pattern: Vec<Regex>,
    name: String,
    description: Option<String>,
    body: Option<Body>,
    created_at: i64,
    updated_at: i64,
}

/// A stage as a mathematical value. Each pattern stands as the set of texts
/// in which it finds a match.
pub struct StageView {
    pub id: ObjectId,
    pub kind: StageKind,
    pub pattern: Seq<Set<Seq<char>>>,
    pub name: Seq<char>,
    pub description: Option<Seq<char>>,
    pub body: Option<BodyView>,
    pub created_at: i64,
    pub updated_at: i64,
}

/// Whether a stage of this kind may be built with a body (`has_body`) or
/// without one: a start stage needs one, an empty stage must have none.
pub open spec fn kind_admits(kind: StageKind, has_body: bool) -> bool {
    match kind {
        StageKind::Start => has_body,
        StageKind::Empty => !has_body,
        StageKind::State | StageKind::Basic => true,
    }
}

/// Each pattern as the set of texts in which it finds a match.
pub open spec fn pattern_of(pattern: Seq<Regex>) -> Seq<Set<Seq<char>>> {
    pattern.map_values(|expression: Regex| matched_texts(expression))
}

impl StageView {
    /// The kind agrees with the presence of a body.
    pub open spec fn valid(self) -> bool {
        kind_admits(self.kind, self.body is Some)
    }

    /// Some pattern of the stage finds a match in `text`.
    pub open spec fn matches(self, text: Seq<char>) -> bool {
        exists|i: int| 0 <= i < self.pattern.len() && #[trigger] self.pattern[i].contains(text)
    }
}

impl View for Stage {
    type V = StageView;

    closed spec fn view(&self) -> StageView {
        StageView {
            id: self.id,
            kind: self.kind,
            pattern: pattern_of(self.pattern@),
            name: self.name@,
            description: text_of(self.description),
            body: body_of(self.body),
            created_at: self.created_at,
            updated_at: self.updated_at,
        }
    }
}

impl Stage {
    #[verifier::type_invariant]
    spec fn well_formed(self) -> bool {
        self@.valid()
    }

    /// Builds a stage with a new identifier, and with the present time as
    /// the time of both its creation and its last update. Fails where the
    /// kind does not agree with the presence of a body.
    ///
    /// The identifier is made from the system clock, among other things: on
    /// a machine whose clock stands before 1970 none can be made, and the
    /// call panics.
    pub fn new(
        kind: StageKind,
        pattern: Vec<Regex>,
        name: String,
        description: Option<String>,
        body: Option<Body>,
    ) -> (made: Result<Stage, StageError>)
        ensures
            kind == StageKind::Start && body is None ==> made == Err::<Stage, StageError>(
                StageError::InvalidKind(StageKind::Start, StageKind::Empty),
            ),
            kind == StageKind::Start && body is Some ==> made is Ok,
            kind == StageKind::Empty && body is Some ==> made == Err::<Stage, StageError>(
                StageError::InvalidKind(StageKind::Basic, StageKind::Empty),
            ),
            kind == StageKind::Empty && body is None ==> made is Ok,
            kind == StageKind::Basic || kind == StageKind::State ==> made is Ok,
            made matches Ok(stage) ==> stage@.valid() && stage@ == (StageView {
                id: stage@.id,
                kind,
                pattern: pattern_of(pattern@),
                name: name@,
                description: text_of(description),
                body: body_of(body),
                created_at: stage@.created_at,
                updated_at: stage@.created_at,
            }),
    {
        match Self::input_validation(&kind, &body) {
            Err(error) => Err(error),
            Ok(()) => {
                let id = fresh_object_id();
                let now = now_millis();
                Self::from_parts(id, kind, pattern, name, description, body, now, now)
            },
        }
    }

    /// Builds a stage from all that makes it up, as a store hands it back.
    /// Fails where the kind does not agree with the presence of a body.
    pub fn from_parts(
        id: ObjectId,
        kind: StageKind,
        pattern: Vec<Regex>,
        name: String,
        description: Option<String>,
        body: Option<Body>,
        created_at: i64,
        updated_at: i64,
    ) -> (made: Result<Stage, StageError>)
        ensures
            kind == StageKind::Start && body is None ==> made == Err::<Stage, StageError>(
                StageError::InvalidKind(StageKind::Start, StageKind::Empty),
            ),
            kind == StageKind::Start && body is Some ==> made is Ok,
            kind == StageKind::Empty && body is Some ==> made == Err::<Stage, StageError>(
                StageError::InvalidKind(StageKind::Basic, StageKind::Empty),
            ),
            kind == StageKind::Empty && body is None ==> made is Ok,
            kind == StageKind::Basic || kind == StageKind::State ==> made is Ok,
            made matches Ok(stage) ==> stage@.valid() && stage@ == (StageView {
                id,
                kind,
                pattern: pattern_of(pattern@),
                name: name@,
                description: text_of(description),
                body: body_of(body),
                created_at,
                updated_at,
            }),
    {
        match Self::input_validation(&kind, &body) {
            Err(error) => Err(error),
            Ok(()) => Ok(
                Self { id, kind, pattern, name, description, body, created_at, updated_at },
            ),
        }
    }

    /// Whether the kind agrees with the presence of a body.
    fn input_validation(kind: &StageKind, body: &Option<Body>) -> (checked: Result<(), StageError>)
        ensures
            *kind == StageKind::Start && body is None ==> checked == Err::<(), StageError>(
                StageError::InvalidKind(StageKind::Start, StageKind::Empty),
            ),
            *kind == StageKind::Empty && body is Some ==> checked == Err::<(), StageError>(
                StageError::InvalidKind(StageKind::Basic, StageKind::Empty),
            ),
            checked is Ok <==> kind_admits(*kind, body is Some),
    {
        match kind {
            StageKind::Start if body.is_none() => Err(
                StageError::InvalidKind(StageKind::Start, StageKind::Empty),
            ),
            StageKind::Start => Ok(()),
            StageKind::State => Ok(()),
            StageKind::Basic => Ok(()),
            StageKind::Empty if body.is_none() => Ok(()),
            StageKind::Empty => Err(StageError::InvalidKind(StageKind::Basic, StageKind::Empty)),
        }
    }
}

impl Stage {
    /// The stage's identifier.
    pub fn id(&self) -> (id: &ObjectId)
        ensures
            *id == self@.id,
    {
        &self.id
    }

    /// The stage's patterns, in their order.
    pub fn pattern(&self) -> (pattern: &Vec<Regex>)
        ensures
            pattern_of(pattern@) == self@.pattern,
    {
        &self.pattern
    }

    /// The stage's name.
    pub fn name(&self) -> (name: &str)
        ensures
            name@ == self@.name,
    {
        self.name.as_str()
    }

    /// What is said of the stage, if anything is.
    pub fn description(&self) -> (description: Option<&str>)
        ensures
            match description {
                Some(text) => self@.description == Some(text@),
                None => self@.description is None,
            },
    {
        match &self.description {
            Some(text) => Some(text.as_str()),
            None => None,
        }
    }

    /// The stage's body, if it has one.
    pub fn body(&self) -> (body: Option<&Body>)
        ensures
            match body {
                Some(b) => self@.body == Some(b@),
                None => self@.body is None,
            },
    {
        self.body.as_ref()
    }

    /// When the stage was made, in milliseconds since the start of 1970.
    pub fn created_at(&self) -> (millis: i64)
        ensures
            millis == self@.created_at,
    {
        self.created_at
    }

    /// When the stage was last changed, in milliseconds since the start of
    /// 1970.
    pub fn updated_at(&self) -> (millis: i64)
        ensures
            millis == self@.updated_at,
    {
        self.updated_at
    }
}

impl Pipe for Stage {

}

impl Receiver for Stage {
    open spec fn matches(&self, text: Seq<char>) -> bool {
        self@.matches(text)
    }

    /// Whether some pattern of the stage finds a match anywhere in `text`.
    /// The patterns are tried in their order, up to the first that does.
    fn pattern_comparison(&self, text: &str) -> (hit: bool)
        ensures
            self@.pattern.len() == 0 ==> !hit,
    {
        let mut i: usize = 0;
        while i < self.pattern.len()
            invariant
                i <= self.pattern.len(),
                forall|j: int| 0 <= j < i ==> !(#[trigger] self@.pattern[j]).contains(text@),
            decreases self.pattern.len() - i,
        {
            if regex_is_match(&self.pattern[i], text) {
                assert(self@.pattern[i as int].contains(text@));
                return true;
            }
            i += 1;
        }
        false
    }
}

impl Responder for Stage {
    open spec fn body_view(&self) -> Option<BodyView> {
        self@.body
    }

    /// The stage's body. A start stage always has one.
    fn response(&self) -> (body: &Body) {
        self.body.as_ref().unwrap()
    }
}

impl Step for Stage {
    open spec fn kind_view(&self) -> StageKind {
        self@.kind
    }

    /// The stage's kind, which agrees with the presence of its body.
    fn kind(&self) -> (kind: &StageKind)
        ensures
            self@.valid(),
    {
        proof {
            use_type_invariant(self);
        }
        &self.kind
    }
}

/// The stages of a dialog, in the order in which they were added.
pub struct Way(Vec<Stage>);

impl View for Way {
    type V = Seq<StageView>;

    closed spec fn view(&self) -> Seq<StageView> {
        self.0@.map_values(|stage: Stage| stage@)
    }
}

/// The views of stages.
pub open spec fn stages_of(stages: Seq<Stage>) -> Seq<StageView> {
    stages.map_values(|stage: Stage| stage@)
}

/// For each stage of `path`, whether it is a start stage.
pub open spec fn start_marks(path: Seq<StageView>) -> Seq<bool> {
    path.map_values(|stage: StageView| stage.kind == StageKind::Start)
}

/// For each stage of `path`, whether it is meant for `text`.
pub open spec fn match_marks(path: Seq<StageView>, text: Seq<char>) -> Seq<bool> {
    path.map_values(|stage: StageView| stage.matches(text))
}

/// The stage of `path` at the first marked position, if any is marked.
pub open spec fn first_marked_stage(path: Seq<StageView>, marks: Seq<bool>) -> Option<StageView> {
    match first_marked(marks) {
        Some(i) => Some(path[i]),
        None => None,
    }
}

/// Stage `i` of `path` is a start stage, and no stage before it is one.
pub open spec fn is_first_start(path: Seq<StageView>, i: int) -> bool {
    &&& 0 <= i < path.len()
    &&& path[i].kind == StageKind::Start
    &&& forall|j: int| 0 <= j < i ==> (#[trigger] path[j]).kind != StageKind::Start
}

/// Stage `i` of `path` is meant for `text`, and no stage before it is.
pub open spec fn is_first_match(path: Seq<StageView>, text: Seq<char>, i: int) -> bool {
    &&& 0 <= i < path.len()
    &&& path[i].matches(text)
    &&& forall|j: int| 0 <= j < i ==> !(#[trigger] path[j]).matches(text)
}

/// The first start stage of `path`.
pub open spec fn start_of(path: Seq<StageView>) -> Option<StageView> {
    first_marked_stage(path, start_marks(path))
}

/// The first stage of `path` that is meant for `text`.
pub open spec fn answer_of(path: Seq<StageView>, text: Seq<char>) -> Option<StageView> {
    first_marked_stage(path, match_marks(path, text))
}

/// The view of a stage that may have been found.
pub open spec fn found_view(found: Option<&Stage>) -> Option<StageView> {
    match found {
        Some(stage) => Some(stage@),
        None => None,
    }
}

impl Way {
    /// A dialog without stages.
    pub fn new() -> (way: Way)
        ensures
            way@ == Seq::<StageView>::empty(),
    {
        Self(Vec::new())
    }

    /// The first start stage, if the dialog has one.
    pub fn start(&self) -> (found: Option<&Stage>)
        ensures
            found_view(found) == start_of(self@),
            match found {
                Some(stage) => stage@.body is Some && exists|i: int|
                    #[trigger] is_first_start(self@, i) && stage@ == self@[i],
                None => forall|i: int|
                    0 <= i < self@.len() ==> (#[trigger] self@[i]).kind != StageKind::Start,
            },
    {
        let mut i: usize = 0;
        while i < self.0.len()
            invariant
                i <= self.0.len(),
                forall|j: int| 0 <= j < i ==> (#[trigger] self@[j]).kind != StageKind::Start,
            decreases self.0.len() - i,
        {
            let stage = &self.0[i];
            if *stage.kind() == StageKind::Start {
                proof {
                    lemma_first_marked_at(start_marks(self@), i as int);
                    assert(is_first_start(self@, i as int));
                }
                return Some(stage);
            }
            i += 1;
        }
        proof {
            lemma_first_marked_none(start_marks(self@));
        }
        None
    }

    /// Adds a stage at the end.
    pub fn add(&mut self, value: Stage) -> (way: &Way)
        ensures
            final(self)@ == old(self)@.push(value@),
            final(self)@.len() == old(self)@.len() + 1,
            final(self)@.last() == value@,
            forall|i: int|
                0 <= i < old(self)@.len() ==> final(self)@[i] == #[trigger] old(self)@[i],
            way@ == final(self)@,
    {
        self.0.push(value);
        self
    }

    /// Adds several stages at the end, in their order.
    pub fn add_many(&mut self, vector: Vec<Stage>) -> (way: &Way)
        ensures
            final(self)@ == old(self)@ + stages_of(vector@),
            final(self)@.len() == old(self)@.len() + vector@.len(),
            forall|i: int|
                0 <= i < old(self)@.len() ==> final(self)@[i] == #[trigger] old(self)@[i],
            forall|i: int|
                0 <= i < vector@.len() ==> final(self)@[old(self)@.len() + i]
                    == (#[trigger] vector@[i])@,
            vector@.len() > 0 ==> final(self)@[old(self)@.len() as int] == vector@.first()@
                && final(self)@.last() == vector@.last()@,
            way@ == final(self)@,
    {
        let mut vector = vector;
        self.0.append(&mut vector);
        self
    }

    /// How many stages the dialog has.
    pub fn len(&self) -> (count: usize)
        ensures
            count == self@.len(),
    {
        self.0.len()
    }

    /// The first stage that is meant for `text`, if there is one.
    pub fn define_by_pattern(&self, text: &str) -> (found: Option<&Stage>)
        ensures
            found_view(found) == answer_of(self@, text@),
            match found {
                Some(stage) => exists|i: int|
                    #[trigger] is_first_match(self@, text@, i) && stage@ == self@[i],
                None => forall|i: int|
                    0 <= i < self@.len() ==> !(#[trigger] self@[i]).matches(text@),
            },
    {
        let mut i: usize = 0;
        while i < self.0.len()
            invariant
                i <= self.0.len(),
                forall|j: int| 0 <= j < i ==> !(#[trigger] self@[j]).matches(text@),
            decreases self.0.len() - i,
        {
            let stage = &self.0[i];
            if stage.pattern_comparison(text) {
                proof {
                    lemma_first_marked_at(match_marks(self@, text@), i as int);
                    assert(is_first_match(self@, text@, i as int));
                }
                return Some(stage);
            }
            i += 1;
        }
        proof {
            lemma_first_marked_none(match_marks(self@, text@));
        }
        None
    }
}

/// The first of the stages that are meant for a text answers it, whatever
/// stands behind it in the path.
pub proof fn lemma_first_match_wins(path: Seq<StageView>, text: Seq<char>, i: int)
    requires
        is_first_match(path, text, i),
    ensures
        answer_of(path, text) == Some(path[i]),
{
    lemma_first_marked_at(match_marks(path, text), i);
}

/// A text has no answer exactly when no stage is meant for it.
pub proof fn lemma_no_match_no_answer(path: Seq<StageView>, text: Seq<char>)
    ensures
        answer_of(path, text) is None <==> forall|i: int|
            0 <= i < path.len() ==> !(#[trigger] path[i]).matches(text),
{
    let marks = match_marks(path, text);
    lemma_first_marked_none(marks);
    assert forall|i: int| 0 <= i < path.len() implies marks[i] == (#[trigger] path[i]).matches(
        text,
    ) by {}
}

/// The answer to a text is the first of the stages that are meant for it.
pub proof fn lemma_answer_is_first_match(path: Seq<StageView>, text: Seq<char>)
    requires
        answer_of(path, text) is Some,
    ensures
        exists|i: int| #[trigger] is_first_match(path, text, i) && answer_of(path, text) == Some(path[i]),
{
    let marks = match_marks(path, text);
    let i = first_marked(marks)->0;
    assert(is_first_marked(marks, i));
    assert forall|j: int| 0 <= j < i implies !(#[trigger] path[j]).matches(text) by {
        assert(!marks[j]);
    }
    assert(is_first_match(path, text, i));
}

/// The start stage is found by its kind, not by its place: the first start
/// stage is the path's start stage, however many stages of other kinds
/// stand before it and whatever stands behind it.
pub proof fn lemma_first_start_wins(path: Seq<StageView>, i: int)
    requires
        is_first_start(path, i),
    ensures
        start_of(path) == Some(path[i]),
{
    lemma_first_marked_at(start_marks(path), i);
}

/// A start stage that is added to a path without one is the path's start
/// stage from then on.
pub proof fn lemma_start_found_when_added_last(path: Seq<StageView>, stage: StageView)
    requires
        stage.kind == StageKind::Start,
        forall|j: int| 0 <= j < path.len() ==> (#[trigger] path[j]).kind != StageKind::Start,
    ensures
        start_of(path.push(stage)) == Some(stage),
{
    lemma_first_start_wins(path.push(stage), path.len() as int);
}

/// A path has no start stage exactly when no stage is of that kind.
pub proof fn lemma_no_start_stage(path: Seq<StageView>)
    ensures
        start_of(path) is None <==> forall|i: int|
            0 <= i < path.len() ==> (#[trigger] path[i]).kind != StageKind::Start,
{
    let marks = start_marks(path);
    lemma_first_marked_none(marks);
    assert forall|i: int| 0 <= i < path.len() implies marks[i] == ((#[trigger] path[i]).kind
        == StageKind::Start) by {}
}

/// The path's start stage is the first of its start stages.
pub proof fn lemma_start_is_first_start(path: Seq<StageView>)
    requires
        start_of(path) is Some,
    ensures
        exists|i: int| #[trigger] is_first_start(path, i) && start_of(path) == Some(path[i]),
{
    let marks = start_marks(path);
    let i = first_marked(marks)->0;
    assert(is_first_marked(marks, i));
    assert forall|j: int| 0 <= j < i implies (#[trigger] path[j]).kind != StageKind::Start by {
        assert(!marks[j]);
    }
    assert(is_first_start(path, i));
}

/// The order of a stage's patterns does not change the texts it is meant
/// for: two stages with the same patterns are meant for the same texts.
pub proof fn lemma_pattern_order_is_irrelevant(one: StageView, other: StageView, text: Seq<char>)
    requires
        forall|texts: Set<Seq<char>>| one.pattern.contains(texts) <==> other.pattern.contains(texts),
    ensures
        one.matches(text) == other.matches(text),
{
    if one.matches(text) {
        let i = choose|i: int| 0 <= i < one.pattern.len() && one.pattern[i].contains(text);
        assert(one.pattern.contains(one.pattern[i]));
        let j = choose|j: int| 0 <= j < other.pattern.len() && other.pattern[j] == one.pattern[i];
        assert(other.pattern[j].contains(text));
    }
    if other.matches(text) {
        let i = choose|i: int| 0 <= i < other.pattern.len() && other.pattern[i].contains(text);
        assert(other.pattern.contains(other.pattern[i]));
        let j = choose|j: int| 0 <= j < one.pattern.len() && one.pattern[j] == other.pattern[i];
        assert(one.pattern[j].contains(text));
    }
}

/// A body that was made without a text shows the empty text.
pub proof fn lemma_no_text_shows_nothing(body: BodyView)
    requires
        body == (BodyView { text: text_of(None) }),
    ensures
        body.shown() == Seq::<char>::empty(),
{
}

} // verus!
