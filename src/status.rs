use vstd::prelude::*;

verus! {

/// Where a task stands.
#[derive(Clone, Copy, Debug, PartialEq, Eq, Structural)]
pub enum Status {
    Todo,
    OnBreak,
    InProgress,
    Done,
}

/// The word shown to a user for each status.
pub open spec fn status_label(s: Status) -> Seq<char> {
    match s {
        Status::Todo => "Todo"@,
        Status::OnBreak => "On-break"@,
        Status::InProgress => "In-progress"@,
        Status::Done => "Done"@,
    }
}

impl Status {
    /// The status as a user reads it (`Todo`, `On-break`, `In-progress`, `Done`).
    pub fn label(&self) -> (r: &'static str)
        ensures
            r@ == status_label(*self),
    {
        match self {
            Status::Todo => "Todo",
            Status::OnBreak => "On-break",
            Status::InProgress => "In-progress",
            Status::Done => "Done",
        }
    }
}

} // verus!
