//! The appointment roster, the state of one open encounter, and the session
//! slot that holds at most one encounter at a time.

use vstd::prelude::*;
use vstd::string::*;
use crate::fhir;
use crate::fhir::{create_encounter, is_record};
use crate::text::{decimal, decimal_string};

verus! {

/// One scheduled visit of the roster.
pub struct Appointment {
    pub id: usize,
    pub patient_name: String,
    pub time: String,
    pub reason: String,
}

/// `a` is the appointment `id` of `name` at `time` for `reason`.
pub open spec fn appointment_is(
    a: Appointment,
    id: usize,
    name: Seq<char>,
    time: Seq<char>,
    reason: Seq<char>,
) -> bool {
    a.id == id && a.patient_name@ == name && a.time@ == time && a.reason@ == reason
}

/// The ids of the roster are 1, 2, ... in order.
pub open spec fn ids_dense(s: Seq<Appointment>) -> bool {
    forall|i: int| 0 <= i < s.len() ==> (#[trigger] s[i]).id == i + 1
}

/// The fixed, read-only list of the day's appointments.
pub struct AppointmentManager {
    appointments: Vec<Appointment>,
}

impl View for AppointmentManager {
    type V = Seq<Appointment>;

    closed spec fn view(&self) -> Seq<Appointment> {
        self.appointments@
    }
}

fn appointment(id: usize, name: &str, time: &str, reason: &str) -> (r: Appointment)
    ensures
        appointment_is(r, id, name@, time@, reason@),
{
    Appointment {
        id,
        patient_name: String::from_str(name),
        time: String::from_str(time),
        reason: String::from_str(reason),
    }
}

impl AppointmentManager {
    /// The day's roster of ten appointments.
    pub fn new() -> (r: Self)
        ensures
            r@.len() == 10,
            ids_dense(r@),
            appointment_is(r@[0], 1, "Jane Doe"@, "09:00"@, "Annual checkup"@),
            appointment_is(r@[1], 2, "John Smith"@, "09:30"@, "Follow-up after surgery"@),
            appointment_is(r@[2], 3, "Mary Johnson"@, "10:15"@, "Chronic headache"@),
            appointment_is(r@[3], 4, "Robert Brown"@, "11:00"@, "Diabetes management"@),
            appointment_is(r@[4], 5, "Patricia Davis"@, "11:45"@, "Skin rash"@),
            appointment_is(r@[5], 6, "Michael Wilson"@, "13:30"@, "Hypertension follow-up"@),
            appointment_is(r@[6], 7, "Elizabeth Martinez"@, "14:15"@, "Pregnancy checkup"@),
            appointment_is(r@[7], 8, "James Anderson"@, "15:00"@, "Lower back pain"@),
            appointment_is(r@[8], 9, "Jennifer Thomas"@, "15:45"@, "Anxiety management"@),
            appointment_is(r@[9], 10, "Charles Jackson"@, "16:30"@, "Prescription renewal"@),
    {
        let appointments = vec![
            appointment(1, "Jane Doe", "09:00", "Annual checkup"),
            appointment(2, "John Smith", "09:30", "Follow-up after surgery"),
            appointment(3, "Mary Johnson", "10:15", "Chronic headache"),
            appointment(4, "Robert Brown", "11:00", "Diabetes management"),
            appointment(5, "Patricia Davis", "11:45", "Skin rash"),
            appointment(6, "Michael Wilson", "13:30", "Hypertension follow-up"),
            appointment(7, "Elizabeth Martinez", "14:15", "Pregnancy checkup"),
            appointment(8, "James Anderson", "15:00", "Lower back pain"),
            appointment(9, "Jennifer Thomas", "15:45", "Anxiety management"),
            appointment(10, "Charles Jackson", "16:30", "Prescription renewal"),
        ];
        AppointmentManager { appointments }
    }

    /// All appointments, in roster order.
    pub fn get_appointments(&self) -> (r: &Vec<Appointment>)
        ensures
            r@ == self@,
    {
        &self.appointments
    }

    /// The appointment with the 1-based number `id`, if the roster has one.
    pub fn get_appointment(&self, id: usize) -> (r: Option<&Appointment>)
        ensures
            r is Some <==> 1 <= id <= self@.len(),
            r is Some ==> *r->0 == self@[id - 1],
    {
        if id >= 1 && id <= self.appointments.len() {
            Some(&self.appointments[id - 1])
        } else {
            None
        }
    }
}

/// The pair at `i` of `s` has the name `k`.
pub open spec fn key_at(s: Seq<(String, String)>, k: Seq<char>, i: int) -> bool {
    0 <= i < s.len() && s[i].0@ == k
}

/// No two pairs of `s` have the same name.
pub open spec fn distinct_keys(s: Seq<(String, String)>) -> bool {
    forall|i: int, j: int|
        0 <= i < s.len() && 0 <= j < s.len() && i != j ==> s[i].0@ != s[j].0@
}

/// `s` with the pair named like `k` replaced by `(k, v)`, or with `(k, v)`
/// appended where no pair has that name.
pub open spec fn upsert(s: Seq<(String, String)>, k: String, v: String) -> Seq<(String, String)> {
    if exists|i: int| key_at(s, k@, i) {
        s.update(choose|i: int| key_at(s, k@, i), (k, v))
    } else {
        s.push((k, v))
    }
}

/// The text recorded under the name `k` in `s`, if any.
pub open spec fn lookup(s: Seq<(String, String)>, k: Seq<char>) -> Option<Seq<char>> {
    if exists|i: int| key_at(s, k, i) {
        Some(s[choose|i: int| key_at(s, k, i)].1@)
    } else {
        None
    }
}

/// The working record of one clinical visit.
pub struct Encounter {
    pub appointment_id: usize,
    pub patient_name: String,
    pub reason: String,
    /// Named free-text sections, in the order they were first registered.
    pub sections: Vec<(String, String)>,
    /// Clinical actions, in the order they were logged.
    pub actions: Vec<String>,
    pub status: String,
}

impl Encounter {
    /// Section names are unique.
    pub open spec fn well_formed(&self) -> bool {
        distinct_keys(self.sections@)
    }

    pub fn new(appointment_id: usize, patient_name: String, reason: String) -> (r: Self)
        ensures
            r.well_formed(),
            r.appointment_id == appointment_id,
            r.patient_name == patient_name,
            r.reason == reason,
            r.sections@.len() == 0,
            r.actions@.len() == 0,
            r.status@ == "in-progress"@,
    {
        Encounter {
            appointment_id,
            patient_name,
            reason,
            sections: Vec::new(),
            actions: Vec::new(),
            status: String::from_str("in-progress"),
        }
    }

    /// Records `details` under `section`, replacing what it held before.
    pub fn add_section(&mut self, section: String, details: String)
        requires
            old(self).well_formed(),
        ensures
            final(self).well_formed(),
            final(self).sections@ == upsert(old(self).sections@, section, details),
            final(self).appointment_id == old(self).appointment_id,
            final(self).patient_name == old(self).patient_name,
            final(self).reason == old(self).reason,
            final(self).actions@ == old(self).actions@,
            final(self).status == old(self).status,
    {
        let ghost s = self.sections@;
        let n = self.sections.len();
        let mut i: usize = 0;
        while i < n
            invariant
                n == self.sections@.len(),
                s == self.sections@,
                *self == *old(self),
                distinct_keys(s),
                i <= n,
                forall|j: int| 0 <= j < i ==> !key_at(s, section@, j),
            decreases n - i,
        {
            if self.sections[i].0 == section {
                proof {
                    assert(key_at(s, section@, i as int));
                    let j = choose|j: int| key_at(s, section@, j);
                    assert(j == i);
                }
                self.sections.set(i, (section, details));
                assert(forall|j: int| 0 <= j < n ==> #[trigger] self.sections@[j].0@ == s[j].0@);
                return;
            }
            i = i + 1;
        }
        self.sections.push((section, details));
        let ghost t = self.sections@;
        assert forall|x: int, y: int| 0 <= x < t.len() && 0 <= y < t.len() && x != y implies t[x].0@
            != t[y].0@ by {
            if x < n && y < n {
                assert(t[x] == s[x] && t[y] == s[y]);
            } else if x < n {
                assert(!key_at(s, section@, x));
            } else {
                assert(!key_at(s, section@, y));
            }
        }
    }

    /// Appends `action` to the log.
    pub fn add_action(&mut self, action: String)
        ensures
            final(self).actions@ == old(self).actions@.push(action),
            final(self).appointment_id == old(self).appointment_id,
            final(self).patient_name == old(self).patient_name,
            final(self).reason == old(self).reason,
            final(self).sections@ == old(self).sections@,
            final(self).status == old(self).status,
    {
        self.actions.push(action);
    }

    /// Marks the encounter as completed.
    pub fn complete(&mut self)
        ensures
            final(self).status@ == "completed"@,
            final(self).appointment_id == old(self).appointment_id,
            final(self).patient_name == old(self).patient_name,
            final(self).reason == old(self).reason,
            final(self).sections@ == old(self).sections@,
            final(self).actions@ == old(self).actions@,
    {
        self.status = String::from_str("completed");
    }
}

/// `after` is `before` with `details` recorded under `section`.
pub open spec fn section_added(before: Encounter, after: Encounter, section: String, details: String) -> bool {
    &&& after.sections@ == upsert(before.sections@, section, details)
    &&& after.appointment_id == before.appointment_id
    &&& after.patient_name == before.patient_name
    &&& after.reason == before.reason
    &&& after.actions@ == before.actions@
    &&& after.status == before.status
}

/// `after` is `before` with one more action, whose text is `text`.
pub open spec fn action_logged(before: Encounter, after: Encounter, text: Seq<char>) -> bool {
    &&& after.actions@.len() == before.actions@.len() + 1
    &&& after.actions@.drop_last() == before.actions@
    &&& after.actions@.last()@ == text
    &&& after.appointment_id == before.appointment_id
    &&& after.patient_name == before.patient_name
    &&& after.reason == before.reason
    &&& after.sections@ == before.sections@
    &&& after.status == before.status
}

/// `after` is `before` marked as completed.
pub open spec fn marked_completed(before: Encounter, after: Encounter) -> bool {
    &&& after.status@ == "completed"@
    &&& after.appointment_id == before.appointment_id
    &&& after.patient_name == before.patient_name
    &&& after.reason == before.reason
    &&& after.sections@ == before.sections@
    &&& after.actions@ == before.actions@
}

/// The name under which the record of the `n`-th commit is saved.
pub open spec fn record_filename(n: nat) -> Seq<char> {
    "encounter_"@ + decimal(n) + ".med"@
}

/// A committed encounter's record, to be saved under `filename`.
pub struct PendingRecord {
    pub filename: String,
    pub document: fhir::Encounter,
}

/// The session slot: at most one open encounter, and the number of commits so far.
pub struct EncounterManager {
    pub current_encounter: Option<Encounter>,
    pub encounter_count: usize,
}

impl EncounterManager {
    /// The open encounter, if any, is well formed.
    pub open spec fn well_formed(&self) -> bool {
        self.current_encounter is Some ==> self.current_encounter->0.well_formed()
    }

    pub fn new() -> (r: Self)
        ensures
            r.well_formed(),
            r.current_encounter is None,
            r.encounter_count == 0,
    {
        EncounterManager { current_encounter: None, encounter_count: 0 }
    }

    /// Opens a fresh encounter, discarding any encounter that was open.
    pub fn start_encounter(&mut self, appointment_id: usize, patient_name: String, reason: String) -> (r: &Encounter)
        ensures
            final(self).well_formed(),
            final(self).encounter_count == old(self).encounter_count,
            final(self).current_encounter == Some(*r),
            r.appointment_id == appointment_id,
            r.patient_name == patient_name,
            r.reason == reason,
            r.sections@.len() == 0,
            r.actions@.len() == 0,
            r.status@ == "in-progress"@,
    {
        self.current_encounter = Some(Encounter::new(appointment_id, patient_name, reason));
        self.current_encounter.as_ref().unwrap()
    }

    /// Records `details` under `section` in the open encounter; fails, changing
    /// nothing, when no encounter is open.
    pub fn add_section(&mut self, section: String, details: String) -> (r: Result<(), String>)
        requires
            old(self).well_formed(),
        ensures
            final(self).well_formed(),
            match old(self).current_encounter {
                None => r is Err && r->Err_0@ == "No active encounter"@ && *final(self) == *old(self),
                Some(e) => r is Ok && final(self).encounter_count == old(self).encounter_count
                    && final(self).current_encounter is Some && section_added(
                    e,
                    final(self).current_encounter->0,
                    section,
                    details,
                ),
            },
    {
        match self.current_encounter.take() {
            Some(mut e) => {
                e.add_section(section, details);
                self.current_encounter = Some(e);
                Ok(())
            },
            None => Err(String::from_str("No active encounter")),
        }
    }

    /// Appends `action` to the log of the open encounter; fails, changing
    /// nothing, when no encounter is open.
    pub fn add_action(&mut self, action: String) -> (r: Result<(), String>)
        requires
            old(self).well_formed(),
        ensures
            final(self).well_formed(),
            match old(self).current_encounter {
                None => r is Err && r->Err_0@ == "No active encounter"@ && *final(self) == *old(self),
                Some(e) => r is Ok && final(self).encounter_count == old(self).encounter_count
                    && final(self).current_encounter is Some && action_logged(
                    e,
                    final(self).current_encounter->0,
                    action@,
                ),
            },
    {
        match self.current_encounter.take() {
            Some(mut e) => {
                let ghost before = e.actions@;
                e.add_action(action);
                assert(e.actions@.drop_last() =~= before);
                self.current_encounter = Some(e);
                Ok(())
            },
            None => Err(String::from_str("No active encounter")),
        }
    }

    /// Completes the open encounter, counts the commit, and hands back its
    /// record and file name. The encounter stays in the slot, completed, until
    /// the record is saved; fails, changing nothing, when no encounter is open.
    pub fn commit_encounter(&mut self) -> (r: Result<PendingRecord, String>)
        requires
            old(self).well_formed(),
            old(self).current_encounter is Some ==> old(self).encounter_count < usize::MAX,
        ensures
            final(self).well_formed(),
            match old(self).current_encounter {
                None => r is Err && r->Err_0@ == "No active encounter to commit"@ && *final(self)
                    == *old(self),
                Some(e) => {
                    let n = final(self).encounter_count;
                    let p = r->Ok_0;
                    &&& n == old(self).encounter_count + 1
                    &&& final(self).current_encounter is Some
                    &&& marked_completed(e, final(self).current_encounter->0)
                    &&& r is Ok
                    &&& p.filename@ == record_filename(n as nat)
                    &&& is_record(
                        p.document,
                        decimal(n as nat),
                        e.patient_name@,
                        e.reason@,
                        e.sections@,
                        e.actions@,
                        p.document.resource.meta.lastUpdated@,
                    )
                },
            },
    {
        match self.current_encounter.take() {
            Some(mut e) => {
                e.complete();
                self.encounter_count = self.encounter_count + 1;
                let mut filename = String::from_str("encounter_");
                let number = decimal_string(self.encounter_count);
                filename.append(number.as_str());
                filename.append(".med");
                let document = create_encounter(
                    number,
                    e.patient_name.clone(),
                    e.reason.clone(),
                    &e.sections,
                    &e.actions,
                );
                self.current_encounter = Some(e);
                Ok(PendingRecord { filename, document })
            },
            None => Err(String::from_str("No active encounter to commit")),
        }
    }
}

} // verus!
