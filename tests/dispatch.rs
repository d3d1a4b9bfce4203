use stat_bench::dispatcher::{Action, Dispatcher};
use stat_bench::gate::{ConcurrencyGate, DEFAULT_MAX_IN_FLIGHT};
use stat_bench::workload::parse_workload;

#[test]
fn gate_hands_out_at_most_its_permits() {
    let mut gate = ConcurrencyGate::new(2);
    assert!(gate.try_acquire());
    assert!(gate.try_acquire());
    assert!(!gate.try_acquire());
    assert_eq!(gate.in_flight(), 2);
    gate.release();
    assert_eq!(gate.in_flight(), 1);
    assert!(gate.try_acquire());
    assert_eq!(gate.max_in_flight(), 2);
    assert_eq!(DEFAULT_MAX_IN_FLIGHT, 10);
}

#[test]
fn dispatcher_never_exceeds_permits() {
    let text = "getPopulationofCountry A z1\ngetPopulationofCountry B z1\ngetPopulationofCountry C z1\ngetPopulationofCountry D z1\n";
    let mut d = Dispatcher::new(parse_workload(text), 2);
    assert_eq!(d.next_action(), Action::Dispatch(0));
    assert_eq!(d.next_action(), Action::Dispatch(1));
    assert_eq!(d.next_action(), Action::AwaitCompletion);
    assert_eq!(d.in_flight(), 2);
    d.task_finished(true);
    assert_eq!(d.next_action(), Action::Dispatch(2));
    assert_eq!(d.next_action(), Action::AwaitCompletion);
    d.task_finished(false);
    d.task_finished(true);
    assert_eq!(d.next_action(), Action::Dispatch(3));
    assert_eq!(d.next_action(), Action::AwaitCompletion);
    d.task_finished(true);
    assert_eq!(d.next_action(), Action::Finished);
    assert_eq!(d.logged(), 3);
    assert_eq!(d.failed(), 1);
}

#[test]
fn run_reports_each_malformed_line_and_reaches_the_end() {
    let text = "bad\ngetPopulationofCountry France z1\nx y\ngetNumberofCities France 100000 z2\ngetNumberofCountries 1 2\n";
    let mut d = Dispatcher::new(parse_workload(text), DEFAULT_MAX_IN_FLIGHT);
    let mut reports = 0;
    let mut dispatched = Vec::new();
    loop {
        match d.next_action() {
            Action::Dispatch(i) => {
                assert!(d.entry(i).is_ok());
                dispatched.push(i);
            }
            Action::ReportParseError(i) => {
                assert!(d.entry(i).is_err());
                reports += 1;
            }
            Action::AwaitCompletion => d.task_finished(true),
            Action::Finished => break,
        }
        assert!(d.in_flight() <= DEFAULT_MAX_IN_FLIGHT);
    }
    assert_eq!(reports, 3);
    assert_eq!(d.reported(), 3);
    assert_eq!(dispatched, vec![1, 3]);
    assert_eq!(d.dispatched(), 2);
    assert!(d.logged() <= 2);
}

#[test]
fn empty_workload_finishes_at_once() {
    let mut d = Dispatcher::new(parse_workload(""), 1);
    assert_eq!(d.next_action(), Action::Finished);
}
