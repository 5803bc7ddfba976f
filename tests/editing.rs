use charcot::autocomplete::{completions_for, MedicalDSLHelper};
use charcot::fetch::{check_timeframe, fetch_data_path, parse_fetch_command, split_words};

fn strs(v: &[String]) -> Vec<&str> {
    v.iter().map(|s| s.as_str()).collect()
}

#[test]
fn empty_line_offers_every_command() {
    let (start, c) = completions_for("");
    assert_eq!(start, 0);
    assert_eq!(c.len(), 10);
    assert_eq!(c[0], "fetch appointments");
    assert_eq!(c[9], "exit");
}

#[test]
fn register_offers_sections() {
    let (start, c) = completions_for("register ");
    assert_eq!(start, 9);
    assert_eq!(strs(&c), vec!["register complaint", "register physical exam", "register diagnostic hypothesis"]);
    let (start, c) = completions_for("register p");
    assert_eq!(start, 9);
    assert_eq!(strs(&c), vec!["register physical exam"]);
    let (start, c) = completions_for("register register d");
    assert_eq!(start, 9);
    assert_eq!(strs(&c), vec!["register diagnostic hypothesis"]);
    assert_eq!(completions_for("register z"), (0, vec![]));
}

#[test]
fn partial_command_completion() {
    let (start, c) = completions_for("re");
    assert_eq!(start, 0);
    assert_eq!(
        strs(&c),
        vec!["register complaint", "register physical exam", "register diagnostic hypothesis", "request", "referral"]
    );
    assert_eq!(completions_for("attend appointment "), (0, vec![]));
    assert_eq!(completions_for("xyz"), (0, vec![]));
}

#[test]
fn completion_ignores_case_and_text_after_cursor() {
    let helper = MedicalDSLHelper::new();
    let (start, c) = helper.complete("FETCH", 5);
    assert_eq!(start, 0);
    assert_eq!(strs(&c), vec!["fetch appointments"]);
    let (_, c) = helper.complete("coXYZ", 2);
    assert_eq!(strs(&c), vec!["commit encounter"]);
}

#[test]
fn hints() {
    let helper = MedicalDSLHelper::new();
    assert_eq!(helper.hint("fetch").as_deref(), Some(" appointments"));
    assert_eq!(helper.hint("commit").as_deref(), Some(" encounter"));
    assert_eq!(helper.hint("register ").as_deref(), Some("complaint|physical exam|diagnostic hypothesis"));
    assert_eq!(helper.hint("attend ").as_deref(), Some("appointment <number>"));
    assert_eq!(helper.hint("fetc"), None);
    assert_eq!(helper.highlight_hint("x"), "\x1b[1;34mx\x1b[m");
}

#[test]
fn words_are_split_on_whitespace() {
    assert_eq!(strs(&split_words("  fetch \t appointments\nday ")), vec!["fetch", "appointments", "day"]);
    assert!(split_words("   ").is_empty());
}

#[test]
fn fetch_command_grammar() {
    let r = parse_fetch_command("fetch appointments day from clinic").ok().unwrap();
    assert_eq!(r.entity, "appointments");
    assert_eq!(r.timeframe.as_deref(), Some("day"));
    assert_eq!(r.source.as_deref(), Some("clinic"));
    let r = parse_fetch_command("fetch appointments").ok().unwrap();
    assert_eq!(r.timeframe, None);
    assert_eq!(r.source, None);
    assert_eq!(parse_fetch_command("fetch").err().unwrap(), "Invalid command");
    assert_eq!(parse_fetch_command("get appointments").err().unwrap(), "Invalid command");
    assert_eq!(parse_fetch_command("fetch appointments from").err().unwrap(), "Invalid 'from' clause");
}

#[test]
fn fetch_data_decisions() {
    assert_eq!(fetch_data_path("appointments", None), Ok("sources/appointments.json".to_string()));
    assert_eq!(fetch_data_path("patients", None), Err("Data not found for entity: patients".to_string()));
    assert_eq!(fetch_data_path("appointments", Some("x")), Err("Specific source not yet implemented".to_string()));
    assert_eq!(check_timeframe(None), Ok(()));
    assert_eq!(check_timeframe(Some("day")), Ok(()));
    assert_eq!(check_timeframe(Some("week")), Err("Timeframe filtering not implemented".to_string()));
}
