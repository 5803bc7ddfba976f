//! The closed set of actions a line of input can ask for.

use vstd::prelude::*;

verus! {

/// A recognised command and its payload.
#[derive(Debug, PartialEq, Eq)]
pub enum Command {
    FetchAppointments,
    AttendAppointment(usize),
    RegisterSection { section: String, details: String },
    Prescribe(String),
    Request(String),
    Referral(String),
    CommitEncounter,
    Unknown(String),
}

/// A command with its texts seen as character sequences.
pub enum CommandView {
    FetchAppointments,
    AttendAppointment(usize),
    RegisterSection { section: Seq<char>, details: Seq<char> },
    Prescribe(Seq<char>),
    Request(Seq<char>),
    Referral(Seq<char>),
    CommitEncounter,
    Unknown(Seq<char>),
}

impl View for Command {
    type V = CommandView;

    open spec fn view(&self) -> CommandView {
        match self {
            Command::FetchAppointments => CommandView::FetchAppointments,
            Command::AttendAppointment(n) => CommandView::AttendAppointment(*n),
            Command::RegisterSection { section, details } => CommandView::RegisterSection {
                section: section@,
                details: details@,
            },
            Command::Prescribe(s) => CommandView::Prescribe(s@),
            Command::Request(s) => CommandView::Request(s@),
            Command::Referral(s) => CommandView::Referral(s@),
            Command::CommitEncounter => CommandView::CommitEncounter,
            Command::Unknown(s) => CommandView::Unknown(s@),
        }
    }
}

} // verus!
