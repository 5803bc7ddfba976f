//! Carries out one command against the roster and the session slot, and
//! says what happened in a human-readable reply.

use vstd::prelude::*;
use vstd::string::*;
use crate::appointment::{
    action_logged, ids_dense, marked_completed, record_filename, section_added, Appointment,
    AppointmentManager, EncounterManager, PendingRecord,
};
use crate::command::Command;
use crate::fhir::is_record;
use crate::text::{decimal, decimal_string};

verus! {

/// What the caller is to do after a command: print a reply, or save a
/// committed record and then call [`finish_commit`].
pub enum Step {
    Reply(String),
    Save(PendingRecord),
}

/// The roster line of the appointment at 1-based position `n`.
pub open spec fn listing_line(n: nat, a: Appointment) -> Seq<char> {
    decimal(n) + ". Patient: "@ + a.patient_name@ + ", Time: "@ + a.time@ + ", Reason: "@
        + a.reason@ + "\n"@
}

/// One roster line per appointment, in order.
pub open spec fn listing(s: Seq<Appointment>) -> Seq<char>
    decreases s.len(),
{
    if s.len() == 0 {
        Seq::empty()
    } else {
        listing(s.drop_last()) + listing_line(s.len() as nat, s.last())
    }
}

/// The reply to a command that leaves the session as it was.
pub open spec fn replies(r: Step, text: Seq<char>) -> bool {
    r is Reply && r->Reply_0@ == text
}

fn join2(a: &str, b: &str) -> (r: String)
    ensures
        r@ == a@ + b@,
{
    let mut r = String::from_str(a);
    r.append(b);
    r
}

fn join3(a: &str, b: &str, c: &str) -> (r: String)
    ensures
        r@ == a@ + b@ + c@,
{
    let mut r = String::from_str(a);
    r.append(b);
    r.append(c);
    r
}

/// The roster, one line per appointment.
pub fn list_appointments(appointments: &AppointmentManager) -> (r: String)
    ensures
        r@ == listing(appointments@),
{
    let list = appointments.get_appointments();
    let mut out = String::new();
    let mut i: usize = 0;
    while i < list.len()
        invariant
            list@ == appointments@,
            i <= list@.len(),
            out@ == listing(list@.take(i as int)),
        decreases list@.len() - i,
    {
        let a = &list[i];
        let number = decimal_string(i + 1);
        out.append(number.as_str());
        out.append(". Patient: ");
        out.append(a.patient_name.as_str());
        out.append(", Time: ");
        out.append(a.time.as_str());
        out.append(", Reason: ");
        out.append(a.reason.as_str());
        out.append("\n");
        assert(list@.take(i + 1).drop_last() =~= list@.take(i as int));
        i = i + 1;
    }
    assert(list@.take(list@.len() as int) =~= list@);
    out
}

/// Carries out `command`. A commit hands back the record to save; every other
/// command hands back its reply.
pub fn execute(
    command: Command,
    appointments: &AppointmentManager,
    encounters: &mut EncounterManager,
) -> (r: Step)
    requires
        old(encounters).well_formed(),
        ids_dense(appointments@),
        command is CommitEncounter && old(encounters).current_encounter is Some ==> old(encounters).encounter_count < usize::MAX,
    ensures
        final(encounters).well_formed(),
        match command {
            Command::FetchAppointments => replies(r, listing(appointments@)) && *final(encounters)
                == *old(encounters),
            Command::AttendAppointment(n) => if 1 <= n <= appointments@.len() {
                let a = appointments@[n - 1];
                let e = final(encounters).current_encounter->0;
                &&& replies(
                    r,
                    "Started encounter for "@ + a.patient_name@ + "\nStatus: "@ + "in-progress"@
                        + "\nEncounter sections initialized."@,
                )
                &&& final(encounters).encounter_count == old(encounters).encounter_count
                &&& final(encounters).current_encounter is Some
                &&& e.appointment_id == a.id && e.patient_name@ == a.patient_name@ && e.reason@
                    == a.reason@
                &&& e.sections@.len() == 0 && e.actions@.len() == 0 && e.status@ == "in-progress"@
            } else {
                replies(r, "Error: Invalid appointment number "@ + decimal(n as nat))
                    && *final(encounters) == *old(encounters)
            },
            Command::RegisterSection { section, details } => match old(encounters).current_encounter {
                None => replies(r, "Error: "@ + "No active encounter"@) && *final(encounters) == *old(encounters),
                Some(e) => replies(r, "Added to "@ + section@ + " section: \""@ + details@ + "\""@)
                    && final(encounters).encounter_count == old(encounters).encounter_count
                    && final(encounters).current_encounter is Some && section_added(
                    e,
                    final(encounters).current_encounter->0,
                    section,
                    details,
                ),
            },
            Command::Prescribe(m) => action_step(
                r,
                *old(encounters),
                *final(encounters),
                "Prescription: "@ + m@,
                "Prescribed: \""@ + m@ + "\""@,
            ),
            Command::Request(m) => action_step(
                r,
                *old(encounters),
                *final(encounters),
                "Exam Request: "@ + m@,
                "Requested: \""@ + m@ + "\""@,
            ),
            Command::Referral(m) => action_step(
                r,
                *old(encounters),
                *final(encounters),
                "Referral: "@ + m@,
                "Referred to: \""@ + m@ + "\""@,
            ),
            Command::CommitEncounter => match old(encounters).current_encounter {
                None => replies(r, "Error: "@ + "No active encounter to commit"@) && *final(encounters)
                    == *old(encounters),
                Some(e) => {
                    let n = final(encounters).encounter_count;
                    let p = r->Save_0;
                    &&& r is Save
                    &&& n == old(encounters).encounter_count + 1
                    &&& final(encounters).current_encounter is Some
                    &&& marked_completed(e, final(encounters).current_encounter->0)
                    &&& p.filename@ == record_filename(n as nat)
                    &&& is_record(
                        p.document,
                        decimal(n as nat),
                        e.patient_name@,
                        e.reason@,
                        e.sections@,
                        e.actions@,
                        p.document.resource.meta.lastUpdated@,
                    )
                },
            },
            Command::Unknown(t) => replies(r, "Unknown command: \""@ + t@ + "\""@) && *final(encounters) == *old(encounters),
        },
{
    match command {
        Command::FetchAppointments => Step::Reply(list_appointments(appointments)),
        Command::AttendAppointment(number) => match appointments.get_appointment(number) {
            Some(appointment) => {
                let encounter = encounters.start_encounter(
                    appointment.id,
                    appointment.patient_name.clone(),
                    appointment.reason.clone(),
                );
                let mut reply = join3(
                    "Started encounter for ",
                    encounter.patient_name.as_str(),
                    "\nStatus: ",
                );
                reply.append(encounter.status.as_str());
                reply.append("\nEncounter sections initialized.");
                Step::Reply(reply)
            },
            None => {
                let mut reply = String::from_str("Error: Invalid appointment number ");
                let digits = decimal_string(number);
                reply.append(digits.as_str());
                Step::Reply(reply)
            },
        },
        Command::RegisterSection { section, details } => {
            match encounters.add_section(section.clone(), details.clone()) {
                Ok(_) => {
                    let mut reply = join3("Added to ", section.as_str(), " section: \"");
                    reply.append(details.as_str());
                    reply.append("\"");
                    Step::Reply(reply)
                },
                Err(e) => Step::Reply(join2("Error: ", e.as_str())),
            }
        },
        Command::Prescribe(medication) => log_action(
            encounters,
            "Prescription: ",
            "Prescribed: \"",
            medication,
        ),
        Command::Request(exam) => log_action(encounters, "Exam Request: ", "Requested: \"", exam),
        Command::Referral(specialty) => log_action(
            encounters,
            "Referral: ",
            "Referred to: \"",
            specialty,
        ),
        Command::CommitEncounter => match encounters.commit_encounter() {
            Ok(record) => Step::Save(record),
            Err(e) => Step::Reply(join2("Error: ", e.as_str())),
        },
        Command::Unknown(cmd) => Step::Reply(join3("Unknown command: \"", cmd.as_str(), "\"")),
    }
}

/// A logged action: the action `text` joins the open encounter's log and the
/// reply is `ok`; with no open encounter, nothing changes and the reply says so.
pub open spec fn action_step(
    r: Step,
    before: EncounterManager,
    after: EncounterManager,
    text: Seq<char>,
    ok: Seq<char>,
) -> bool {
    match before.current_encounter {
        None => replies(r, "Error: "@ + "No active encounter"@) && after == before,
        Some(e) => replies(r, ok) && after.encounter_count == before.encounter_count
            && after.current_encounter is Some && action_logged(
            e,
            after.current_encounter->0,
            text,
        ),
    }
}

fn log_action(encounters: &mut EncounterManager, tag: &str, reply: &str, detail: String) -> (r: Step)
    requires
        old(encounters).well_formed(),
    ensures
        final(encounters).well_formed(),
        action_step(r, *old(encounters), *final(encounters), tag@ + detail@, reply@ + detail@ + "\""@),
{
    let action = join2(tag, detail.as_str());
    match encounters.add_action(action) {
        Ok(_) => Step::Reply(join3(reply, detail.as_str(), "\"")),
        Err(e) => Step::Reply(join2("Error: ", e.as_str())),
    }
}

/// Concludes a commit once the caller has tried to save its record under
/// `filename`: on success the slot is emptied; on failure the completed
/// encounter stays in the slot and the reply carries the error.
pub fn finish_commit(encounters: &mut EncounterManager, filename: &str, saved: Result<(), String>) -> (r: String)
    requires
        old(encounters).well_formed(),
    ensures
        final(encounters).well_formed(),
        match saved {
            Ok(_) => r@ == "Encounter committed successfully and saved to "@ + filename@
                && final(encounters).current_encounter is None
                && final(encounters).encounter_count == old(encounters).encounter_count,
            Err(e) => r@ == "Error: "@ + e@ && *final(encounters) == *old(encounters),
        },
{
    match saved {
        Ok(_) => {
            encounters.current_encounter = None;
            join2("Encounter committed successfully and saved to ", filename)
        },
        Err(e) => join2("Error: ", e.as_str()),
    }
}

} // verus!
