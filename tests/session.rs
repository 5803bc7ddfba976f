use charcot::appointment::{AppointmentManager, EncounterManager};
use charcot::command::Command;
use charcot::executor::{execute, finish_commit, list_appointments, Step};
use charcot::fhir::{build_encounter, Encounter};
use charcot::parser::parse;
use charcot::text::decimal_string;

fn reply(step: Step) -> String {
    match step {
        Step::Reply(s) => s,
        Step::Save(_) => panic!("expected a reply"),
    }
}

fn run(line: &str, roster: &AppointmentManager, session: &mut EncounterManager) -> Step {
    execute(parse(line), roster, session)
}

fn notes(doc: &Encounter) -> Vec<String> {
    doc.note.iter().map(|n| n.text.clone()).collect()
}

#[test]
fn parse_literal_commands() {
    assert_eq!(parse("fetch appointments"), Command::FetchAppointments);
    assert_eq!(parse("commit encounter"), Command::CommitEncounter);
    assert_eq!(parse("attend appointment 3"), Command::AttendAppointment(3));
    assert_eq!(
        parse("register complaint \"headache\""),
        Command::RegisterSection { section: "complaint".to_string(), details: "headache".to_string() }
    );
}

#[test]
fn parse_malformed_number_is_unknown() {
    assert_eq!(parse("attend appointment abc"), Command::Unknown("attend appointment abc".to_string()));
    assert_eq!(parse("attend appointment "), Command::Unknown("attend appointment".to_string()));
    assert_eq!(
        parse("attend appointment 99999999999999999999999"),
        Command::Unknown("attend appointment 99999999999999999999999".to_string())
    );
}

#[test]
fn parse_trims_and_keeps_rigid_spacing() {
    assert_eq!(parse("  fetch appointments \t"), Command::FetchAppointments);
    assert_eq!(parse("fetch  appointments"), Command::Unknown("fetch  appointments".to_string()));
    assert_eq!(parse("   hello there  "), Command::Unknown("hello there".to_string()));
    assert_eq!(parse(""), Command::Unknown(String::new()));
}

#[test]
fn parse_quoted_payloads() {
    assert_eq!(
        parse("register physical exam \"BP 120/80\""),
        Command::RegisterSection { section: "physical exam".to_string(), details: "BP 120/80".to_string() }
    );
    assert_eq!(
        parse("register diagnostic hypothesis \"flu\""),
        Command::RegisterSection { section: "diagnostic hypothesis".to_string(), details: "flu".to_string() }
    );
    assert_eq!(parse("prescribe \"a \"b\" c\""), Command::Prescribe("a \"b\" c".to_string()));
    assert_eq!(parse("request \"x-ray\""), Command::Request("x-ray".to_string()));
    assert_eq!(parse("referral \"cardiology\""), Command::Referral("cardiology".to_string()));
    assert_eq!(parse("prescribe \"\""), Command::Unknown("prescribe \"\"".to_string()));
    assert_eq!(parse("register history \"x\""), Command::Unknown("register history \"x\"".to_string()));
}

#[test]
fn idle_session_rejects_mutations() {
    let roster = AppointmentManager::new();
    let mut session = EncounterManager::new();
    assert_eq!(reply(run("register complaint \"x\"", &roster, &mut session)), "Error: No active encounter");
    assert_eq!(reply(run("prescribe \"x\"", &roster, &mut session)), "Error: No active encounter");
    assert_eq!(reply(run("request \"x\"", &roster, &mut session)), "Error: No active encounter");
    assert_eq!(reply(run("referral \"x\"", &roster, &mut session)), "Error: No active encounter");
    assert_eq!(reply(run("commit encounter", &roster, &mut session)), "Error: No active encounter to commit");
    assert!(session.current_encounter.is_none());
    assert_eq!(session.encounter_count, 0);
}

#[test]
fn section_overwrite_keeps_latest_note() {
    let roster = AppointmentManager::new();
    let mut session = EncounterManager::new();
    reply(run("attend appointment 2", &roster, &mut session));
    reply(run("register complaint \"first\"", &roster, &mut session));
    reply(run("register complaint \"second\"", &roster, &mut session));
    match run("commit encounter", &roster, &mut session) {
        Step::Save(record) => {
            let texts = notes(&record.document);
            assert_eq!(texts, vec!["complaint: second".to_string()]);
            assert_eq!(record.document.reasonCode[0].text, "second");
        }
        Step::Reply(r) => panic!("unexpected reply {}", r),
    }
}

#[test]
fn end_to_end_encounter() {
    let roster = AppointmentManager::new();
    let mut session = EncounterManager::new();
    assert_eq!(
        reply(run("attend appointment 1", &roster, &mut session)),
        "Started encounter for Jane Doe\nStatus: in-progress\nEncounter sections initialized."
    );
    assert_eq!(reply(run("register complaint \"fatigue\"", &roster, &mut session)), "Added to complaint section: \"fatigue\"");
    assert_eq!(reply(run("prescribe \"vitamin D\"", &roster, &mut session)), "Prescribed: \"vitamin D\"");
    let record = match run("commit encounter", &roster, &mut session) {
        Step::Save(record) => record,
        Step::Reply(r) => panic!("unexpected reply {}", r),
    };
    assert_eq!(record.filename, "encounter_1.med");
    let doc = &record.document;
    assert_eq!(doc.status, "finished");
    assert_eq!(doc.resource.id, "1");
    assert_eq!(doc.subject.reference, "Patient/1");
    assert_eq!(doc.subject.display, "Jane Doe");
    assert_eq!(doc.reasonCode.len(), 1);
    assert_eq!(doc.reasonCode[0].text, "fatigue");
    assert_eq!(doc.reasonCode[0].coding[0].code, "chief-complaint");
    assert!(doc.diagnosis.is_empty());
    assert_eq!(notes(doc), vec!["complaint: fatigue".to_string(), "Prescription: vitamin D".to_string()]);
    assert_eq!(doc.period.start, doc.resource.meta.lastUpdated);
    assert_eq!(doc.period.end.as_deref(), Some(doc.period.start.as_str()));
    assert_eq!(
        finish_commit(&mut session, &record.filename, Ok(())),
        "Encounter committed successfully and saved to encounter_1.med"
    );
    assert_eq!(reply(run("commit encounter", &roster, &mut session)), "Error: No active encounter to commit");
}

#[test]
fn failed_save_keeps_completed_encounter() {
    let roster = AppointmentManager::new();
    let mut session = EncounterManager::new();
    reply(run("attend appointment 4", &roster, &mut session));
    let record = match run("commit encounter", &roster, &mut session) {
        Step::Save(record) => record,
        Step::Reply(r) => panic!("unexpected reply {}", r),
    };
    assert_eq!(
        finish_commit(&mut session, &record.filename, Err("Failed to write file: denied".to_string())),
        "Error: Failed to write file: denied"
    );
    let open = session.current_encounter.as_ref().unwrap();
    assert_eq!(open.status, "completed");
    assert_eq!(session.encounter_count, 1);
}

#[test]
fn appointment_bounds() {
    let roster = AppointmentManager::new();
    let n = roster.get_appointments().len();
    assert_eq!(n, 10);
    assert!(roster.get_appointment(0).is_none());
    assert!(roster.get_appointment(n + 1).is_none());
    assert_eq!(roster.get_appointment(1).unwrap().patient_name, "Jane Doe");
    assert_eq!(roster.get_appointment(n).unwrap().patient_name, "Charles Jackson");
    let mut session = EncounterManager::new();
    assert_eq!(reply(execute(Command::AttendAppointment(0), &roster, &mut session)), "Error: Invalid appointment number 0");
    assert_eq!(reply(execute(Command::AttendAppointment(11), &roster, &mut session)), "Error: Invalid appointment number 11");
    assert!(session.current_encounter.is_none());
    reply(execute(Command::AttendAppointment(10), &roster, &mut session));
    assert_eq!(session.current_encounter.as_ref().unwrap().patient_name, "Charles Jackson");
}

#[test]
fn roster_listing() {
    let roster = AppointmentManager::new();
    let listing = list_appointments(&roster);
    let lines: Vec<&str> = listing.lines().collect();
    assert_eq!(lines.len(), 10);
    assert_eq!(lines[0], "1. Patient: Jane Doe, Time: 09:00, Reason: Annual checkup");
    assert_eq!(lines[9], "10. Patient: Charles Jackson, Time: 16:30, Reason: Prescription renewal");
    assert!(listing.ends_with('\n'));
    let mut session = EncounterManager::new();
    assert_eq!(reply(run("fetch appointments", &roster, &mut session)), listing);
}

#[test]
fn unknown_command_reply() {
    let roster = AppointmentManager::new();
    let mut session = EncounterManager::new();
    assert_eq!(reply(run(" do something ", &roster, &mut session)), "Unknown command: \"do something\"");
}

#[test]
fn record_mapping_with_fixed_time() {
    let sections = vec![
        ("physical exam".to_string(), "normal".to_string()),
        ("diagnostic hypothesis".to_string(), "migraine".to_string()),
    ];
    let actions = vec!["Exam Request: MRI".to_string(), "Referral: neurology".to_string()];
    let doc = build_encounter(
        "7".to_string(),
        "Mary Johnson".to_string(),
        "Chronic headache".to_string(),
        &sections,
        &actions,
        "2024-01-01T10:00:00+00:00".to_string(),
    );
    assert_eq!(doc.resource.resourceType, "Encounter");
    assert_eq!(doc.resource.meta.versionId, "1");
    assert_eq!(doc.resource.meta.lastUpdated, "2024-01-01T10:00:00+00:00");
    assert_eq!(doc.class.code, "AMB");
    assert_eq!(doc.class.display, "ambulatory");
    assert_eq!(doc.reasonCode[0].text, "Chronic headache");
    assert_eq!(doc.reasonCode[0].coding[0].code, "visit");
    assert_eq!(doc.reasonCode[0].coding[0].display, "Visit");
    assert_eq!(doc.diagnosis.len(), 1);
    assert_eq!(doc.diagnosis[0].condition.reference, "Condition/7");
    assert_eq!(doc.diagnosis[0].condition.display, "migraine");
    assert_eq!(doc.diagnosis[0].rank, Some(1));
    assert_eq!(
        notes(&doc),
        vec![
            "physical exam: normal".to_string(),
            "diagnostic hypothesis: migraine".to_string(),
            "Exam Request: MRI".to_string(),
            "Referral: neurology".to_string(),
        ]
    );
}

#[test]
fn actions_keep_their_order() {
    let roster = AppointmentManager::new();
    let mut session = EncounterManager::new();
    reply(run("attend appointment 3", &roster, &mut session));
    assert_eq!(reply(run("request \"CT\"", &roster, &mut session)), "Requested: \"CT\"");
    assert_eq!(reply(run("referral \"neurology\"", &roster, &mut session)), "Referred to: \"neurology\"");
    assert_eq!(reply(run("prescribe \"ibuprofen\"", &roster, &mut session)), "Prescribed: \"ibuprofen\"");
    let open = session.current_encounter.as_ref().unwrap();
    assert_eq!(open.actions, vec!["Exam Request: CT", "Referral: neurology", "Prescription: ibuprofen"]);
}

#[test]
fn decimal_numbers() {
    assert_eq!(decimal_string(0), "0");
    assert_eq!(decimal_string(305), "305");
    assert_eq!(decimal_string(usize::MAX), usize::MAX.to_string());
}
