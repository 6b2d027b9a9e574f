use vstd::prelude::*;

verus! {

/// One queued kernel command; what a command carries is not yet settled.
pub struct Command {
}

impl Command {
    /// An empty command.
    pub fn new() -> Command {
        Command {  }
    }
}

} // verus!
