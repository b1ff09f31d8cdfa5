use bgharness::dispatch::{list_lines, plan_invocation};
use bgharness::fs_probe::{
    check_missing_parent, check_round_trip, test_file_path, test_payload, FsErrorKind,
};
use bgharness::registry::{build_registry, ProbeId, Registry};
use bgharness::report::{not_found_line, result_line, Outcome};

#[test]
fn default_registry_lists_all_names_in_order() {
    let r = build_registry();
    let names = r.all();
    assert_eq!(
        names,
        vec!["create_test", "page_fault", "switch", "tcp_fin", "thread", "tls"]
    );
}

#[test]
fn lookup_resolves_each_registered_name() {
    let r = build_registry();
    assert_eq!(r.lookup(&String::from("create_test")), Some(ProbeId::CreateTest));
    assert_eq!(r.lookup(&String::from("page_fault")), Some(ProbeId::PageFault));
    assert_eq!(r.lookup(&String::from("switch")), Some(ProbeId::Switch));
    assert_eq!(r.lookup(&String::from("tcp_fin")), Some(ProbeId::TcpFin));
    assert_eq!(r.lookup(&String::from("thread")), Some(ProbeId::Thread));
    assert_eq!(r.lookup(&String::from("tls")), Some(ProbeId::Tls));
}

#[test]
fn lookup_is_exact_and_case_sensitive() {
    let r = build_registry();
    assert_eq!(r.lookup(&String::from("nope")), None);
    assert_eq!(r.lookup(&String::from("TLS")), None);
    assert_eq!(r.lookup(&String::from("tls ")), None);
    assert_eq!(r.lookup(&String::from("")), None);
}

#[test]
fn register_refuses_duplicate_name() {
    let mut r = Registry::new();
    assert!(r.register(String::from("tls"), ProbeId::Tls));
    assert!(!r.register(String::from("tls"), ProbeId::Switch));
    assert_eq!(r.all(), vec!["tls"]);
    assert_eq!(r.lookup(&String::from("tls")), Some(ProbeId::Tls));
}

#[test]
fn empty_invocation_lists_registered_names() {
    let r = build_registry();
    let lines = list_lines(&r);
    assert_eq!(
        lines,
        vec![
            "BenGreen: create_test",
            "BenGreen: page_fault",
            "BenGreen: switch",
            "BenGreen: tcp_fin",
            "BenGreen: thread",
            "BenGreen: tls",
        ]
    );
    let plan = plan_invocation(&r, &Vec::new());
    assert!(plan.to_run.is_empty());
    assert!(plan.rejected.is_none());
    assert_eq!(plan.exit_code(), 0);
}

#[test]
fn unknown_name_alone_is_rejected_with_status_one() {
    let r = build_registry();
    let plan = plan_invocation(&r, &vec![String::from("nope")]);
    assert!(plan.to_run.is_empty());
    assert_eq!(plan.rejected, Some(String::from("nope")));
    assert_eq!(plan.exit_code(), 1);
    assert_eq!(
        not_found_line(plan.rejected.as_ref().unwrap()),
        "BenGreen: nope: not found"
    );
}

#[test]
fn unknown_name_stops_later_names() {
    let r = build_registry();
    let plan = plan_invocation(
        &r,
        &vec![String::from("tls"), String::from("nope"), String::from("switch")],
    );
    assert_eq!(plan.to_run.len(), 1);
    assert_eq!(plan.to_run[0].0, "tls");
    assert_eq!(plan.to_run[0].1, ProbeId::Tls);
    assert_eq!(plan.rejected, Some(String::from("nope")));
    assert_eq!(plan.exit_code(), 1);
}

#[test]
fn tls_then_switch_reports_two_passes_in_order() {
    let r = build_registry();
    let plan = plan_invocation(&r, &vec![String::from("tls"), String::from("switch")]);
    assert_eq!(plan.to_run.len(), 2);
    assert!(plan.rejected.is_none());
    assert_eq!(plan.exit_code(), 0);
    let mut lines = Vec::new();
    for (name, _) in &plan.to_run {
        lines.push(result_line(name, &Outcome::Passed(1000)));
    }
    assert_eq!(
        lines,
        vec!["BenGreen: tls: passed: 1000 ns", "BenGreen: switch: passed: 1000 ns"]
    );
}

#[test]
fn probe_failure_does_not_change_exit_status() {
    let r = build_registry();
    let plan = plan_invocation(&r, &vec![String::from("tcp_fin")]);
    assert_eq!(plan.to_run.len(), 1);
    assert_eq!(plan.exit_code(), 0);
    let line = result_line(
        &plan.to_run[0].0,
        &Outcome::Failed(String::from("connection refused")),
    );
    assert_eq!(line, "BenGreen: tcp_fin: failed: connection refused");
}

#[test]
fn create_test_invocation_round_trip_passes() {
    let r = build_registry();
    let plan = plan_invocation(&r, &vec![String::from("create_test")]);
    assert_eq!(plan.to_run.len(), 1);
    assert_eq!(plan.to_run[0].1, ProbeId::CreateTest);
    assert!(plan.rejected.is_none());
    assert_eq!(plan.exit_code(), 0);
    assert!(check_missing_parent(Some(FsErrorKind::NotFound)).is_ok());
    let payload = test_payload();
    let path = test_file_path();
    assert!(check_round_trip(&path, &payload, &payload.clone()).is_ok());
    let line = result_line(&plan.to_run[0].0, &Outcome::Passed(4242));
    assert_eq!(line, "BenGreen: create_test: passed: 4242 ns");
    assert!(line.starts_with("BenGreen: create_test: passed: "));
    assert!(line.ends_with(" ns"));
}

#[test]
fn same_invocation_twice_resolves_identically() {
    let r1 = build_registry();
    let r2 = build_registry();
    let names = vec![String::from("create_test"), String::from("thread"), String::from("tls")];
    let p1 = plan_invocation(&r1, &names);
    let p2 = plan_invocation(&r2, &names);
    assert_eq!(p1.to_run, p2.to_run);
    assert_eq!(p1.rejected, p2.rejected);
    assert_eq!(p1.exit_code(), p2.exit_code());
    assert_eq!(r1.all(), r2.all());
}
