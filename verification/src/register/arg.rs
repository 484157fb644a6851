use vstd::prelude::*;

verus! {

/// What an argument does with the values that it is given.
#[derive(Clone, Copy, Debug, PartialEq, Eq, Structural)]
pub enum Action {
    SetValue,
    Append,
    SetTrue,
    SetFalse,
    Count,
}

/// What kind of value an argument takes, for a shell's completion.
#[derive(Clone, Copy, Debug, PartialEq, Eq, Structural)]
pub enum Hint {
    Unknown,
    Other,
    AnyPath,
    FilePath,
    DirPath,
    ExecutablePath,
    CommandName,
    CommandString,
    CommandWithArguments,
    Username,
    Hostname,
    Url,
    EmailAddress,
}

} // verus!
