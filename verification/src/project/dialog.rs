use vstd::prelude::*;

pub mod marks;
pub mod stair;

verus! {

/// Marks a type as one link of a dialog.
pub trait Pipe {

}

} // verus!
