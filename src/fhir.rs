//! The clinical-record document that a committed encounter becomes, and the
//! mapping from an encounter's sections and actions onto it.

use vstd::prelude::*;
use vstd::string::*;
use crate::appointment::{distinct_keys, key_at, lookup, upsert};

verus! {

#[allow(non_snake_case)]
pub struct Resource {
    pub resourceType: String,
    pub id: String,
    pub meta: Meta,
}

#[allow(non_snake_case)]
pub struct Meta {
    pub versionId: String,
    pub lastUpdated: String,
}

/// An encounter resource of the clinical record.
#[allow(non_snake_case)]
pub struct Encounter {
    pub resource: Resource,
    pub status: String,
    pub class: Coding,
    pub subject: Reference,
    pub period: Period,
    pub reasonCode: Vec<CodeableConcept>,
    pub diagnosis: Vec<Diagnosis>,
    pub note: Vec<Annotation>,
}

pub struct Coding {
    pub system: String,
    pub code: String,
    pub display: String,
}

pub struct Reference {
    pub reference: String,
    pub display: String,
}

pub struct Period {
    pub start: String,
    pub end: Option<String>,
}

pub struct CodeableConcept {
    pub coding: Vec<Coding>,
    pub text: String,
}

pub struct Diagnosis {
    pub condition: Reference,
    pub rank: Option<u32>,
}

pub struct Annotation {
    pub text: String,
}

/// `c` is the code `code` of `system`, shown as `display`.
pub open spec fn coding_is(c: Coding, system: Seq<char>, code: Seq<char>, display: Seq<char>) -> bool {
    c.system@ == system && c.code@ == code && c.display@ == display
}

/// The note for a registered section: `name: details`.
pub open spec fn section_note(p: (String, String)) -> Seq<char> {
    p.0@ + ": "@ + p.1@
}

/// The texts of the notes `n`, in order.
pub open spec fn note_texts(n: Seq<Annotation>) -> Seq<Seq<char>> {
    n.map_values(|a: Annotation| a.text@)
}

/// One note per section, then one per action, each in its own order.
pub open spec fn expected_notes(sections: Seq<(String, String)>, actions: Seq<String>) -> Seq<
    Seq<char>,
> {
    sections.map_values(|p: (String, String)| section_note(p)) + actions.map_values(
        |a: String| a@,
    )
}

/// The reason of the visit: the complaint where one was registered, else the
/// visit reason of the appointment.
pub open spec fn reason_code_is(
    rc: Seq<CodeableConcept>,
    sections: Seq<(String, String)>,
    reason: Seq<char>,
) -> bool {
    &&& rc.len() == 1
    &&& rc[0].coding@.len() == 1
    &&& match lookup(sections, "complaint"@) {
        Some(c) => coding_is(
            rc[0].coding@[0],
            "http://terminology.hl7.org/CodeSystem/reason-codes"@,
            "chief-complaint"@,
            "Chief complaint"@,
        ) && rc[0].text@ == c,
        None => coding_is(
            rc[0].coding@[0],
            "http://terminology.hl7.org/CodeSystem/reason-codes"@,
            "visit"@,
            "Visit"@,
        ) && rc[0].text@ == reason,
    }
}

/// One diagnosis of rank 1 where a diagnostic hypothesis was registered, else none.
pub open spec fn diagnosis_is(d: Seq<Diagnosis>, id: Seq<char>, sections: Seq<(String, String)>) -> bool {
    match lookup(sections, "diagnostic hypothesis"@) {
        Some(h) => d.len() == 1 && d[0].condition.reference@ == "Condition/"@ + id
            && d[0].condition.display@ == h && d[0].rank == Some(1u32),
        None => d.len() == 0,
    }
}

/// `doc` is the record of the encounter `id` of `patient`, seen for `reason`,
/// with `sections` and `actions`, stamped with the time `stamp`.
pub open spec fn is_record(
    doc: Encounter,
    id: Seq<char>,
    patient: Seq<char>,
    reason: Seq<char>,
    sections: Seq<(String, String)>,
    actions: Seq<String>,
    stamp: Seq<char>,
) -> bool {
    &&& doc.resource.resourceType@ == "Encounter"@
    &&& doc.resource.id@ == id
    &&& doc.resource.meta.versionId@ == "1"@
    &&& doc.resource.meta.lastUpdated@ == stamp
    &&& doc.status@ == "finished"@
    &&& coding_is(
        doc.class,
        "http://terminology.hl7.org/CodeSystem/v3-ActCode"@,
        "AMB"@,
        "ambulatory"@,
    )
    &&& doc.subject.reference@ == "Patient/"@ + id
    &&& doc.subject.display@ == patient
    &&& doc.period.start@ == stamp
    &&& doc.period.end is Some
    &&& doc.period.end->0@ == stamp
    &&& reason_code_is(doc.reasonCode@, sections, reason)
    &&& diagnosis_is(doc.diagnosis@, id, sections)
    &&& note_texts(doc.note@) == expected_notes(sections, actions)
}

/// Relies on chrono's `Local::now`, written out by `DateTime::to_rfc3339`:
/// the current local time as RFC 3339 text. Nothing is promised of its value
/// (it depends on the clock and the machine's time zone); `Utc::now` under it
/// panics only when the system clock reads before 1970.
#[verifier::external_body]
fn now_rfc3339() -> (r: String) {
    chrono::Local::now().to_rfc3339()
}

fn join(a: &str, b: &str) -> (r: String)
    ensures
        r@ == a@ + b@,
{
    let mut r = String::from_str(a);
    r.append(b);
    r
}

fn coding(system: &str, code: &str, display: &str) -> (r: Coding)
    ensures
        coding_is(r, system@, code@, display@),
{
    Coding {
        system: String::from_str(system),
        code: String::from_str(code),
        display: String::from_str(display),
    }
}

/// The position of the section named `name`, if there is one.
pub fn find_section(sections: &Vec<(String, String)>, name: &str) -> (r: Option<usize>)
    requires
        distinct_keys(sections@),
    ensures
        match r {
            Some(i) => i < sections@.len() && key_at(sections@, name@, i as int) && lookup(
                sections@,
                name@,
            ) == Some(sections@[i as int].1@),
            None => lookup(sections@, name@) is None,
        },
{
    let key = String::from_str(name);
    let mut i: usize = 0;
    while i < sections.len()
        invariant
            i <= sections@.len(),
            key@ == name@,
            distinct_keys(sections@),
            forall|j: int| 0 <= j < i ==> !key_at(sections@, name@, j),
        decreases sections@.len() - i,
    {
        if sections[i].0 == key {
            proof {
                assert(key_at(sections@, name@, i as int));
                let j = choose|j: int| key_at(sections@, name@, j);
                assert(j == i);
            }
            return Some(i);
        }
        i = i + 1;
    }
    None
}

/// The record of an encounter, stamped with `timestamp`.
pub fn build_encounter(
    id: String,
    patient_name: String,
    reason: String,
    sections: &Vec<(String, String)>,
    actions: &Vec<String>,
    timestamp: String,
) -> (r: Encounter)
    requires
        distinct_keys(sections@),
    ensures
        is_record(r, id@, patient_name@, reason@, sections@, actions@, timestamp@),
{
    let diagnosis = match find_section(sections, "diagnostic hypothesis") {
        Some(i) => vec![
            Diagnosis {
                condition: Reference {
                    reference: join("Condition/", id.as_str()),
                    display: sections[i].1.clone(),
                },
                rank: Some(1),
            },
        ],
        None => Vec::new(),
    };

    let mut note: Vec<Annotation> = Vec::new();
    let n = sections.len();
    let mut i: usize = 0;
    while i < n
        invariant
            n == sections@.len(),
            i <= n,
            note@.len() == i,
            forall|j: int| 0 <= j < i ==> (#[trigger] note@[j]).text@ == section_note(sections@[j]),
        decreases n - i,
    {
        let mut text = join(sections[i].0.as_str(), ": ");
        text.append(sections[i].1.as_str());
        note.push(Annotation { text });
        i = i + 1;
    }
    let m = actions.len();
    let mut k: usize = 0;
    while k < m
        invariant
            n == sections@.len(),
            m == actions@.len(),
            k <= m,
            note@.len() == n + k,
            forall|j: int| 0 <= j < n ==> (#[trigger] note@[j]).text@ == section_note(sections@[j]),
            forall|j: int| 0 <= j < k ==> (#[trigger] note@[n + j]).text@ == actions@[j]@,
        decreases m - k,
    {
        note.push(Annotation { text: actions[k].clone() });
        k = k + 1;
    }
    assert(note_texts(note@) =~= expected_notes(sections@, actions@)) by {
        assert forall|j: int| n <= j < n + m implies #[trigger] note@[j].text@ == actions@[j - n]@ by {
            assert(note@[n + (j - n)] == note@[j]);
        }
    }

    let reason_code = match find_section(sections, "complaint") {
        Some(i) => vec![
            CodeableConcept {
                coding: vec![
                    coding(
                        "http://terminology.hl7.org/CodeSystem/reason-codes",
                        "chief-complaint",
                        "Chief complaint",
                    ),
                ],
                text: sections[i].1.clone(),
            },
        ],
        None => vec![
            CodeableConcept {
                coding: vec![
                    coding("http://terminology.hl7.org/CodeSystem/reason-codes", "visit", "Visit"),
                ],
                text: reason,
            },
        ],
    };

    let subject = Reference { reference: join("Patient/", id.as_str()), display: patient_name };
    Encounter {
        resource: Resource {
            resourceType: String::from_str("Encounter"),
            id,
            meta: Meta { versionId: String::from_str("1"), lastUpdated: timestamp.clone() },
        },
        status: String::from_str("finished"),
        class: coding("http://terminology.hl7.org/CodeSystem/v3-ActCode", "AMB", "ambulatory"),
        subject,
        period: Period { start: timestamp.clone(), end: Some(timestamp) },
        reasonCode: reason_code,
        diagnosis,
        note,
    }
}

/// The record of an encounter, stamped with the current local time.
pub fn create_encounter(
    id: String,
    patient_name: String,
    reason: String,
    sections: &Vec<(String, String)>,
    actions: &Vec<String>,
) -> (r: Encounter)
    requires
        distinct_keys(sections@),
    ensures
        is_record(r, id@, patient_name@, reason@, sections@, actions@, r.resource.meta.lastUpdated@),
{
    let now = now_rfc3339();
    build_encounter(id, patient_name, reason, sections, actions, now)
}

/// Recording under a name keeps the names unique.
pub proof fn lemma_upsert_distinct(s: Seq<(String, String)>, k: String, v: String)
    requires
        distinct_keys(s),
    ensures
        distinct_keys(upsert(s, k, v)),
        exists|i: int| key_at(upsert(s, k, v), k@, i),
{
    let t = upsert(s, k, v);
    if exists|i: int| key_at(s, k@, i) {
        let i = choose|i: int| key_at(s, k@, i);
        assert forall|x: int, y: int| 0 <= x < t.len() && 0 <= y < t.len() && x != y implies t[x].0@
            != t[y].0@ by {
            if x != i && y != i {
                assert(t[x] == s[x] && t[y] == s[y]);
            }
        }
        assert(key_at(t, k@, i));
    } else {
        assert forall|x: int, y: int| 0 <= x < t.len() && 0 <= y < t.len() && x != y implies t[x].0@
            != t[y].0@ by {
            if x < s.len() && y < s.len() {
                assert(t[x] == s[x] && t[y] == s[y]);
            } else if x < s.len() {
                assert(!key_at(s, k@, x));
            } else {
                assert(!key_at(s, k@, y));
            }
        }
        assert(key_at(t, k@, s.len() as int));
    }
}

/// Registering the section `k` twice, first with `d1` and then with `d2`,
/// leaves the sections exactly as registering `d2` alone would: the record
/// then holds one single note for `k`, and it carries `d2`.
pub proof fn lemma_section_overwrite(s: Seq<(String, String)>, k: String, d1: String, d2: String)
    requires
        distinct_keys(s),
    ensures
        upsert(upsert(s, k, d1), k, d2) == upsert(s, k, d2),
        lookup(upsert(upsert(s, k, d1), k, d2), k@) == Some(d2@),
        exists|i: int|
            key_at(upsert(upsert(s, k, d1), k, d2), k@, i) && section_note(
                #[trigger] upsert(upsert(s, k, d1), k, d2)[i],
            ) == k@ + ": "@ + d2@ && forall|j: int|
                key_at(upsert(upsert(s, k, d1), k, d2), k@, j) ==> j == i,
{
    let s1 = upsert(s, k, d1);
    lemma_upsert_distinct(s, k, d1);
    if exists|i: int| key_at(s, k@, i) {
        let i = choose|i: int| key_at(s, k@, i);
        assert(key_at(s1, k@, i));
        let j = choose|j: int| key_at(s1, k@, j);
        assert(j == i);
        assert(upsert(s1, k, d2) =~= upsert(s, k, d2));
    } else {
        let n = s.len() as int;
        assert(key_at(s1, k@, n));
        let j = choose|j: int| key_at(s1, k@, j);
        if j != n {
            assert(s1[j] == s[j]);
            assert(key_at(s, k@, j));
        }
        assert(upsert(s1, k, d2) =~= upsert(s, k, d2));
    }
    let t = upsert(s, k, d2);
    lemma_upsert_distinct(s, k, d2);
    let i = choose|i: int| key_at(t, k@, i);
    assert(key_at(t, k@, i));
    assert(t[i] == (k, d2)) by {
        if exists|x: int| key_at(s, k@, x) {
            let x = choose|x: int| key_at(s, k@, x);
            assert(key_at(t, k@, x));
        } else {
            assert(key_at(t, k@, s.len() as int));
        }
    }
    assert(section_note(t[i]) == k@ + ": "@ + d2@);
}

} // verus!
