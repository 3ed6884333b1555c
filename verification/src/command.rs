//! What a command that was run has left behind.
use vstd::prelude::*;

verus! {

/// The outcome of a command: whether it ended well, and what it wrote to its standard output.
#[derive(Debug)]
pub struct CommandOutput {
    pub success: bool,
    pub stdout: Vec<u8>,
}

/// The output of a command that could be started and ended well.
pub open spec fn written(output: Option<CommandOutput>) -> Option<Seq<u8>> {
    match output {
        Some(done) => if done.success {
            Some(done.stdout@)
        } else {
            None
        },
        None => None,
    }
}

} // verus!
