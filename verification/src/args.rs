use vstd::prelude::*;

verus! {

/// The command line of the study tool.
#[derive(Debug)]
pub struct Args {
    pub command: Command,
}

/// What the study tool is asked to work on.
#[derive(Debug)]
pub enum Command {
    Deck(DeckAction),
    Session(SessionAction),
}

/// Work on a deck.
#[derive(Debug)]
pub struct DeckAction {
    pub command: DeckCommand,
}

/// What is done to a deck.
#[derive(Debug)]
pub enum DeckCommand {
    Add(DeckAddAction),
}

/// Adds the files at `paths` to a deck.
#[derive(Debug)]
pub struct DeckAddAction {
    pub paths: Vec<String>,
}

impl DeckAddAction {
    /// At least one path is given.
    pub open spec fn well_formed(&self) -> bool {
        self.paths.len() > 0
    }
}

/// Work on a session.
#[derive(Debug)]
pub struct SessionAction {
    pub command: SessionCommand,
}

/// What is done to a session.
#[derive(Clone, Copy, Debug, PartialEq, Eq, Structural)]
pub enum SessionCommand {
    Initialize,
    Learn,
}

} // verus!
