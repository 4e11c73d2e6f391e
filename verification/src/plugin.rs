use vstd::prelude::*;

pub mod console;

verus! {

/// The kinds of channel that can carry a dialog to its user.
pub enum Kind {
    Console,
}

impl Kind {
    /// The identifier under which the channel is known.
    pub fn value(&self) -> (id: &str)
        ensures
            id@ == "CONSOLE_PLUGIN"@,
    {
        match *self {
            Kind::Console => "CONSOLE_PLUGIN",
        }
    }
}

} // verus!
