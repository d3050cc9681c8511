//! What an agent is doing, as herdr spells it.
use vstd::prelude::*;

verus! {

/// An agent's state. Herdr may grow states that this enum does not know: those read as
/// [`Status::Unknown`].
#[derive(Clone, Copy, Debug, PartialEq, Eq, Structural)]
pub enum Status {
    Idle,
    Working,
    Blocked,
    Done,
    Unknown,
}

impl Default for Status {
    /// A state that nothing was said about.
    fn default() -> (res: Status)
        ensures
            res == Status::Unknown,
    {
        Status::Unknown
    }
}

impl Status {
    /// The spelling on the wire.
    pub open spec fn spelling(self) -> Seq<char> {
        match self {
            Status::Idle => "idle"@,
            Status::Working => "working"@,
            Status::Blocked => "blocked"@,
            Status::Done => "done"@,
            Status::Unknown => "unknown"@,
        }
    }

    /// The status as herdr spells it.
    pub fn as_str(self) -> (res: &'static str)
        ensures
            res@ == self.spelling(),
    {
        match self {
            Status::Idle => "idle",
            Status::Working => "working",
            Status::Blocked => "blocked",
            Status::Done => "done",
            Status::Unknown => "unknown",
        }
    }

    /// The status that a word of herdr's spells. A word that spells none is unknown.
    pub fn from_wire(word: &str) -> (res: Status)
        ensures
            res == Status::named(word@),
    {
        if *word == *"idle" {
            Status::Idle
        } else if *word == *"working" {
            Status::Working
        } else if *word == *"blocked" {
            Status::Blocked
        } else if *word == *"done" {
            Status::Done
        } else {
            Status::Unknown
        }
    }

    /// The status that a word spells, else unknown.
    pub open spec fn named(word: Seq<char>) -> Status {
        if word == "idle"@ {
            Status::Idle
        } else if word == "working"@ {
            Status::Working
        } else if word == "blocked"@ {
            Status::Blocked
        } else if word == "done"@ {
            Status::Done
        } else {
            Status::Unknown
        }
    }
}

} // verus!
