//! The arguments of one invocation: the batch of file paths that a launch
//! carries, or the request for the usage text.

use vstd::prelude::*;

verus! {

/// What one invocation of the program asks for.
#[derive(Debug, PartialEq, Eq)]
pub enum Invocation {
    /// The usage text is to be printed; nothing else happens.
    Usage { text: String },
    /// A launch that carries a batch of file paths, possibly empty, in the
    /// order in which they were given.
    Launch { batch: Vec<String> },
}

/// Reads an invocation off what the command-line parser found: the usage text
/// where the help flag was given, and the values of the positional argument
/// where it came as a list. The help flag wins over everything else; a launch
/// without a list of paths carries the empty batch.
pub fn classify(help: Option<String>, paths: Option<Vec<String>>) -> (invocation: Invocation)
    ensures
        help matches Some(text) ==> invocation == (Invocation::Usage { text }),
        help is None ==> (paths matches Some(batch) ==> invocation == (Invocation::Launch {
            batch,
        })),
        help is None && paths is None ==> invocation is Launch && invocation->batch@.len() == 0,
{
    match help {
        Some(text) => Invocation::Usage { text },
        None => match paths {
            Some(batch) => Invocation::Launch { batch },
            None => Invocation::Launch { batch: Vec::new() },
        },
    }
}

impl Invocation {
    /// Whether the invocation asks for the usage text only.
    pub fn is_usage(&self) -> (usage: bool)
        ensures
            usage == (self is Usage),
    {
        match self {
            Invocation::Usage { .. } => true,
            Invocation::Launch { .. } => false,
        }
    }
}

} // verus!
