use crate::project::dialog::stair::{
    is_first_start, start_of, BodyView, Responder, Stage, StageKind, Way,
};
use crate::project::Project;
use vstd::prelude::*;
use vstd::string::StringExecFns;

verus! {

/// The channel that holds a dialog on the terminal.
pub struct Console;

/// A line of the dialog as the console shows it: who speaks, a colon and a
/// space, and what the body says.
pub open spec fn spoken(speaker: Seq<char>, body: BodyView) -> Seq<char> {
    speaker + ": "@ + body.shown()
}

impl Console {
    /// The line that shows the response of `stage` as said by the project.
    /// Only a stage with a body has a response to show.
    pub fn line(project: &Project, stage: &Stage) -> (line: String)
        requires
            stage@.body is Some,
        ensures
            line@ == spoken(project@.name, stage@.body->0),
    {
        let mut line = String::from_str(project.name());
        line.append(": ");
        line.append(stage.response().get_text());
        line
    }

    /// The line that opens a conversation: the response of the dialog's
    /// start stage, and none where the dialog has no start stage.
    pub fn greeting(project: &Project, way: &Way) -> (line: Option<String>)
        ensures
            match start_of(way@) {
                Some(stage) => stage.body is Some && line is Some && line->0@ == spoken(
                    project@.name,
                    stage.body->0,
                ),
                None => line is None,
            },
            match line {
                Some(shown) => exists|i: int|
                    #[trigger] is_first_start(way@, i) && way@[i].body is Some && shown@ == spoken(
                        project@.name,
                        way@[i].body->0,
                    ),
                None => forall|i: int|
                    0 <= i < way@.len() ==> (#[trigger] way@[i]).kind != StageKind::Start,
            },
    {
        match way.start() {
            Some(stage) => Some(Self::line(project, stage)),
            None => None,
        }
    }
}

} // verus!
