use excel_com_range_probe::cli::{option_value, parse_options, probe_usage};
use excel_com_range_probe::automation::{
    automation_report_files, automation_source_files, check_report_file, check_source_file,
    classify_transport_failure, classify_transported, live_cases, select_live_cases,
    LiveClassification, LiveOutcome, LiveTransport,
};
use excel_com_range_probe::kernel::{
    check_kernel_artifact, check_repeatability_request, kernel_report, parse_kernel_action,
    repeatability_id, repeatability_verdict, retry_eligible, run_record_ids, KernelAction,
    StartupResult,
};
use excel_com_range_probe::evidence::Record;
use excel_com_range_probe::parity::Mode;
use excel_com_range_probe::value::AutomationValue;
use excel_com_range_probe::{automation_value_check, automation_value_live};

fn ok(text: &str) -> Result<String, String> {
    Ok(text.to_owned())
}

#[test]
fn value_layer_evidence_is_checked_in_order() {
    let sources: Vec<Result<String, String>> = automation_source_files()
        .iter()
        .map(|name| if name.ends_with(".jsonl") { ok("{\"id\":1}\n{}\n") } else { ok("x = 1\n") })
        .collect();
    let reports: Vec<Result<String, String>> =
        automation_report_files().iter().map(|_| ok("# Report\n")).collect();
    assert_eq!(automation_value_check(&sources, &reports), Ok(()));
    let mut bad = sources.clone();
    bad[2] = ok("{}\r\n");
    assert_eq!(
        automation_value_check(&bad, &reports),
        Err("automation-value-layer/conversion-policies.jsonl must use LF and a final newline".to_owned())
    );
    let mut unreadable = reports.clone();
    unreadable[9] = Err("missing".to_owned());
    assert_eq!(automation_value_check(&sources, &unreadable), Err("missing".to_owned()));
    assert_eq!(
        check_report_file("dates.md", "no heading\n"),
        Err("generated/automation-value-layer/dates.md is not a valid deterministic report".to_owned())
    );
    let invalid = check_source_file("codec-cases.jsonl", "{\"a\":1}\nnot json\n");
    assert!(invalid.unwrap_err().starts_with("automation-value-layer/codec-cases.jsonl: "));
    assert_eq!(check_source_file("SOURCE_MANIFEST.toml", "not json\n"), Ok(()));
}

#[test]
fn live_suite_is_fixed_and_selectable() {
    let cases = live_cases();
    assert_eq!(cases.len(), 11);
    assert_eq!(cases[0].id, "live.scalar-number");
    assert_eq!(cases[0].input, AutomationValue::Number(42.0_f64.to_bits()));
    assert_eq!(cases[4].expected, AutomationValue::Number(45_292.5_f64.to_bits()));
    assert!(cases[3].optional);
    assert_eq!(cases.iter().filter(|c| c.optional).count(), 1);
    assert_eq!(select_live_cases(None).unwrap().len(), 11);
    let one = select_live_cases(Some("live.array-row-1x3")).unwrap();
    assert_eq!(one.len(), 1);
    assert_eq!(one[0].address, "A1:C1");
    assert_eq!(
        select_live_cases(Some("live.nothing")),
        Err("unknown live compatibility case: live.nothing".to_owned())
    );
}

#[test]
fn live_outcomes_decide_the_verdict() {
    let good = LiveTransport { write_hresult: 0, read_hresult: 0, clear_hresult: 0, owned_process_exit_verified: true };
    let failed = LiveTransport { write_hresult: -1, ..good };
    assert_eq!(classify_transported(false, good, true), LiveClassification::RuntimeObserved);
    assert_eq!(classify_transported(false, good, false), LiveClassification::RuntimeFailed);
    assert_eq!(classify_transported(true, failed, true), LiveClassification::OptionalNotAccepted);
    assert_eq!(classify_transport_failure(false), LiveClassification::RuntimeFailed);
    assert_eq!(LiveClassification::ConversionFailed.text(), "Conversion-failed");
    let outcome = |id: &str, optional: bool, classification| LiveOutcome { id: id.to_owned(), optional, classification };
    let passed = vec![
        outcome("a", false, LiveClassification::RuntimeObserved),
        outcome("b", true, LiveClassification::OptionalNotAccepted),
        outcome("c", false, LiveClassification::RuntimeObserved),
    ];
    assert_eq!(
        automation_value_live(&passed),
        Ok("completed 2 required live compatibility cases; optional unknown-SCODE result recorded".to_owned())
    );
    let failing = vec![
        outcome("a", false, LiveClassification::RuntimeFailed),
        outcome("b", true, LiveClassification::OptionalNotAccepted),
        outcome("c", false, LiveClassification::ConversionFailed),
    ];
    assert_eq!(automation_value_live(&failing), Err("live compatibility required failures: a, c".to_owned()));
}

#[test]
fn retry_is_narrow() {
    let eligible = StartupResult {
        add_hresult: Some(-1),
        open_hresult: None,
        inner_scode_hex: Some("0x800A03EC".to_owned()),
        workbook_returned: Some(false),
    };
    assert!(retry_eligible(&eligible));
    let empty = StartupResult { add_hresult: None, open_hresult: None, inner_scode_hex: None, workbook_returned: None };
    assert!(!retry_eligible(&empty));
    assert!(!retry_eligible(&StartupResult { workbook_returned: Some(true), ..eligible.clone() }));
    assert!(!retry_eligible(&StartupResult { add_hresult: Some(0), ..eligible }));
}

#[test]
fn kernel_requests_and_records() {
    assert_eq!(parse_kernel_action("retry"), Ok(KernelAction::Retry));
    assert_eq!(
        parse_kernel_action("run"),
        Err("kernel action must be single, repeatability, compare, retry, or child".to_owned())
    );
    assert!(check_repeatability_request("raw-windows-sys", &vec![Mode::L, Mode::S, Mode::X]).is_ok());
    assert_eq!(
        check_repeatability_request("high-level-windows", &vec![Mode::L]),
        Err("the required repeatability matrix is limited to raw-windows-sys".to_owned())
    );
    assert!(check_repeatability_request("raw-windows-sys", &vec![Mode::L]).is_err());
    assert_eq!(repeatability_id(Mode::S, 7), "repeatability.05g.S.run-07");
    assert_eq!(repeatability_id(Mode::X, 10), "repeatability.05g.X.run-10");
    assert!(repeatability_verdict(30).is_ok());
    assert_eq!(
        repeatability_verdict(29),
        Err("repeatability is incomplete: 29/30 successful complete sequences; failures were preserved".to_owned())
    );
    assert_eq!(
        run_record_ids("single", "raw-windows-sys", "L"),
        ("workbook.05g.single.raw-windows-sys.L".to_owned(), "range-smoke.05g.single.raw-windows-sys.L".to_owned())
    );
    let report = kernel_report("Title", &vec![Record::new("--".to_owned(), "--".to_owned(), "{\"a\":\"|\"}".to_owned())]);
    assert!(report.ends_with("| `--` | Runtime-observed | `{\"a\":\"\\|\"}` |\n"));
    assert!(kernel_report("Title", &Vec::new()).ends_with("| -- | Not tested | No row captured. |\n"));
    assert!(check_kernel_artifact("p", "a\n", "a\n").is_ok());
    assert_eq!(check_kernel_artifact("p", "ptr=1\n", "ptr=1\n"), Err("kernel artifact p violates persistence rules".to_owned()));
}

#[test]
fn options_are_key_value_pairs() {
    let args = |items: &[&str]| items.iter().map(|s| s.to_string()).collect::<Vec<String>>();
    let usage = probe_usage();
    let options = parse_options(&args(&["--root", "r", "--mode", "L"]), &usage).unwrap();
    assert_eq!(options, vec![("root".to_owned(), "r".to_owned()), ("mode".to_owned(), "L".to_owned())]);
    assert_eq!(option_value(&options, "mode"), Some("L"));
    assert_eq!(option_value(&options, "fixture"), None);
    assert_eq!(parse_options(&args(&["root", "r"]), &usage), Err(usage.clone()));
    assert_eq!(parse_options(&args(&["--root"]), &usage), Err(usage.clone()));
    assert_eq!(
        parse_options(&args(&["--root", "a", "--root", "b"]), &usage),
        Err("duplicate option --root".to_owned())
    );
    assert_eq!(parse_options(&Vec::new(), &usage), Ok(Vec::new()));
}
