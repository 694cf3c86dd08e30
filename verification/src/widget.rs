use vstd::prelude::*;

verus! {

/// A widget of one fixed light-blue color.
#[derive(Clone, Copy, Debug, PartialEq, Eq, Structural)]
pub struct BlueWidget;

impl BlueWidget {
    /// The widget's display name.
    pub fn name(&self) -> (name: &'static str)
        ensures
            name@ == "Blue"@,
    {
        "Blue"
    }
}

} // verus!
