use benchmode::orchestrator::Orchestrator;
use benchmode::orchestrator::Outcome;
use benchmode::orchestrator::StepName;
use benchmode::orchestrator::HOLD_SECONDS;
use benchmode::service::Action;
use benchmode::service::Event;
use benchmode::service::PowerSource;
use benchmode::service::ServiceCall;
use benchmode::service::ServiceReply;

const BENCH: &str = "0ec54905-d1ac-43db-a6df-65cbe1a1dccf";
const ACTIVE: &str = "11111111-2222-3333-4444-555555555555";
const BASELINE: &str = "aaaaaaaa-bbbb-cccc-dddd-eeeeeeeeeeee";

fn ok(output: &str) -> Event {
    Event::Replied(ServiceReply { success: true, output: output.to_string() })
}

fn failed() -> Event {
    Event::Replied(ServiceReply { success: false, output: String::new() })
}

fn next_call(out: Outcome) -> ServiceCall {
    match out {
        Outcome::Continue(Action::Invoke(c)) => c,
        other => panic!("expected an invocation, got {:?}", other),
    }
}

fn expect_query(out: Outcome, expected: &str) {
    match next_call(out) {
        ServiceCall::Query { target } => assert_eq!(target, expected),
        other => panic!("expected a query, got {:?}", other),
    }
}

/// Starts a run and takes it past the capture of the active scheme: returns
/// the orchestrator awaiting the benchmark probe reply.
fn started() -> Orchestrator {
    let (mut m, a0) = Orchestrator::new();
    match a0 {
        Action::Invoke(ServiceCall::Query { ref target }) => assert_eq!(target, "scheme_current"),
        other => panic!("expected the initial query, got {:?}", other),
    }
    let out = m.step(&ok(&format!("Power Scheme GUID: {}  (Balanced)", ACTIVE)));
    match next_call(out) {
        ServiceCall::Query { target } => assert_eq!(target, BENCH),
        other => panic!("expected the benchmark probe, got {:?}", other),
    }
    m
}

/// Feeds success replies through the six setting writes, asserting their
/// fixed order, then through switch, hold and restore; asserts completion.
fn finish_from_first_write(m: &mut Orchestrator, first: Outcome, scheme: &str) {
    let expected = [
        (PowerSource::AC, "PERFBOOSTMODE", 0u32),
        (PowerSource::DC, "PERFBOOSTMODE", 0),
        (PowerSource::AC, "PROCTHROTTLEMIN", 99),
        (PowerSource::DC, "PROCTHROTTLEMIN", 99),
        (PowerSource::AC, "PROCTHROTTLEMAX", 99),
        (PowerSource::DC, "PROCTHROTTLEMAX", 99),
    ];
    let mut out = first;
    for (src, name, value) in expected {
        match next_call(out) {
            ServiceCall::SetValue { target, source, subgroup, setting, value: v } => {
                assert_eq!(target, scheme);
                assert_eq!(source, src);
                assert_eq!(subgroup, "sub_processor");
                assert_eq!(setting, name);
                assert_eq!(v, value);
            },
            other => panic!("expected a setting write, got {:?}", other),
        }
        out = m.step(&ok(""));
    }
    match next_call(out) {
        ServiceCall::SetActive { target } => assert_eq!(target, scheme),
        other => panic!("expected the switch, got {:?}", other),
    }
    let out = m.step(&ok(""));
    match out {
        Outcome::Continue(Action::Hold(secs)) => assert_eq!(secs, HOLD_SECONDS),
        other => panic!("expected the hold, got {:?}", other),
    }
    let out = m.step(&Event::Held);
    match next_call(out) {
        ServiceCall::SetActive { target } => assert_eq!(target, ACTIVE),
        other => panic!("expected the restore, got {:?}", other),
    }
    let out = m.step(&ok(""));
    assert!(matches!(out, Outcome::Completed));
}

#[test]
fn cold_start_creates_benchmark_scheme() {
    let mut m = started();
    // The well-known identifier does not resolve: fall back to the baseline.
    let out = m.step(&failed());
    match next_call(out) {
        ServiceCall::Query { target } => assert_eq!(target, "scheme_min"),
        other => panic!("expected the baseline query, got {:?}", other),
    }
    let out = m.step(&ok(&format!("Power Scheme GUID: {}  (High performance)", BASELINE)));
    match next_call(out) {
        ServiceCall::Duplicate { source, target } => {
            assert_eq!(source, BASELINE);
            assert_eq!(target, BENCH);
        },
        other => panic!("expected the duplication, got {:?}", other),
    }
    let out = m.step(&ok(""));
    match next_call(out) {
        ServiceCall::ChangeName { target, name, description } => {
            assert_eq!(target, BENCH);
            assert_eq!(name, "Benchmarks");
            assert_eq!(
                description,
                "Power scheme added by the bench-mode tool. Disables performance boost.",
            );
        },
        other => panic!("expected the rename, got {:?}", other),
    }
    let out = m.step(&ok(""));
    finish_from_first_write(&mut m, out, BENCH);
}

#[test]
fn warm_start_reuses_benchmark_scheme() {
    let mut m = started();
    // The well-known identifier resolves at once: no duplication, no rename.
    let out = m.step(&ok(&format!("Power Scheme GUID: {}  (Benchmarks)", BENCH)));
    finish_from_first_write(&mut m, out, BENCH);
}

#[test]
fn second_run_reuses_benchmark_scheme() {
    // First run: cold start, the scheme is created.
    let mut m = started();
    let out = m.step(&failed());
    expect_query(out, "scheme_min");
    let out = m.step(&ok(&format!("GUID: {} (High)", BASELINE)));
    assert!(matches!(next_call(out), ServiceCall::Duplicate { .. }));
    let out = m.step(&ok(""));
    assert!(matches!(next_call(out), ServiceCall::ChangeName { .. }));
    let out = m.step(&ok(""));
    finish_from_first_write(&mut m, out, BENCH);
    // Second run: the scheme created by the first run resolves, so the
    // creation path is not taken again.
    let mut m2 = started();
    let out = m2.step(&ok(&format!("Power Scheme GUID: {}  (Benchmarks)", BENCH)));
    finish_from_first_write(&mut m2, out, BENCH);
}

#[test]
fn failed_restore_aborts_on_benchmark_scheme() {
    let mut m = started();
    let out = m.step(&ok(&format!("Power Scheme GUID: {}  (Benchmarks)", BENCH)));
    let mut out = out;
    for _ in 0..6 {
        match next_call(out) {
            ServiceCall::SetValue { .. } => {},
            other => panic!("expected a setting write, got {:?}", other),
        }
        out = m.step(&ok(""));
    }
    assert!(matches!(next_call(out), ServiceCall::SetActive { .. }));
    let out = m.step(&ok(""));
    assert!(matches!(out, Outcome::Continue(Action::Hold(_))));
    let out = m.step(&Event::Held);
    assert!(matches!(next_call(out), ServiceCall::SetActive { .. }));
    // The final restore fails: the run aborts, the benchmark scheme stays
    // active.
    let out = m.step(&failed());
    assert!(matches!(out, Outcome::Aborted(StepName::Restore)));
}

#[test]
fn unresolved_active_scheme_aborts() {
    let (mut m, _a0) = Orchestrator::new();
    let out = m.step(&failed());
    assert!(matches!(out, Outcome::Aborted(StepName::CaptureActive)));
    // A reply that succeeded but names no identifier fails resolution too.
    let (mut m2, _a0) = Orchestrator::new();
    let out = m2.step(&ok("no identifier in here"));
    assert!(matches!(out, Outcome::Aborted(StepName::CaptureActive)));
}

#[test]
fn unresolved_baseline_aborts() {
    let mut m = started();
    let out = m.step(&failed());
    expect_query(out, "scheme_min");
    let out = m.step(&failed());
    assert!(matches!(out, Outcome::Aborted(StepName::ResolveBaseline)));
}

#[test]
fn failed_duplication_aborts() {
    let mut m = started();
    let out = m.step(&failed());
    expect_query(out, "scheme_min");
    let out = m.step(&ok(&format!("GUID: {} (High)", BASELINE)));
    assert!(matches!(next_call(out), ServiceCall::Duplicate { .. }));
    let out = m.step(&failed());
    assert!(matches!(out, Outcome::Aborted(StepName::Duplicate)));
}

#[test]
fn failed_rename_aborts() {
    let mut m = started();
    let out = m.step(&failed());
    expect_query(out, "scheme_min");
    let out = m.step(&ok(&format!("GUID: {} (High)", BASELINE)));
    assert!(matches!(next_call(out), ServiceCall::Duplicate { .. }));
    let out = m.step(&ok(""));
    assert!(matches!(next_call(out), ServiceCall::ChangeName { .. }));
    let out = m.step(&failed());
    assert!(matches!(out, Outcome::Aborted(StepName::Rename)));
}

#[test]
fn failed_setting_write_aborts_without_rollback() {
    let mut m = started();
    let out = m.step(&ok(&format!("GUID: {} (Benchmarks)", BENCH)));
    assert!(matches!(next_call(out), ServiceCall::SetValue { .. }));
    // Third write fails: nothing further is issued, nothing is rolled back.
    let out = m.step(&ok(""));
    assert!(matches!(next_call(out), ServiceCall::SetValue { .. }));
    let out = m.step(&ok(""));
    assert!(matches!(next_call(out), ServiceCall::SetValue { .. }));
    let out = m.step(&failed());
    assert!(matches!(out, Outcome::Aborted(StepName::ApplySetting)));
}

#[test]
fn failed_switch_aborts() {
    let mut m = started();
    let mut out = m.step(&ok(&format!("GUID: {} (Benchmarks)", BENCH)));
    for _ in 0..6 {
        assert!(matches!(next_call(out), ServiceCall::SetValue { .. }));
        out = m.step(&ok(""));
    }
    assert!(matches!(next_call(out), ServiceCall::SetActive { .. }));
    let out = m.step(&failed());
    assert!(matches!(out, Outcome::Aborted(StepName::Switch)));
}
