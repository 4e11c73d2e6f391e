use chrono_tz::Tz;
use dialog::stair::{text_of, StageView, Way};
use vstd::prelude::*;

pub mod dialog;

verus! {

/// A bot: what it is called, where it lives, and the dialogs it can hold.
#[allow(dead_code)]
pub struct Project {
    name: String,
    description: Option<String>,
    timezone: Tz,
    scene: Option<Vec<Way>>,
}

/// A project as a mathematical value.
pub struct ProjectView {
    pub name: Seq<char>,
    pub description: Option<Seq<char>>,
    pub timezone: Tz,
    pub scene: Option<Seq<Seq<StageView>>>,
}

impl View for Project {
    type V = ProjectView;

    closed spec fn view(&self) -> ProjectView {
        ProjectView {
            name: self.name@,
            description: text_of(self.description),
            timezone: self.timezone,
            scene: match self.scene {
                Some(ways) => Some(ways@.map_values(|way: Way| way@)),
                None => None,
            },
        }
    }
}

impl Project {
    /// A project without dialogs.
    pub fn new(name: String, description: Option<String>, timezone: Tz) -> (project: Project)
        ensures
            project@ == (ProjectView {
                name: name@,
                description: text_of(description),
                timezone,
                scene: None,
            }),
    {
        Self { name, description, timezone, scene: None }
    }

    /// What the project is called.
    pub fn name(&self) -> (name: &str)
        ensures
            name@ == self@.name,
    {
        self.name.as_str()
    }
}

} // verus!
