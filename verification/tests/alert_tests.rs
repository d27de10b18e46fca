use swat_collector::alert::{alert_fields, AlertAction, AlertEntry, AlertStateMachine, ErrorBatch};

fn entry(subject: &str, detail: &str) -> AlertEntry {
    AlertEntry {
        subject: subject.to_string(),
        detail: detail.to_string(),
    }
}

fn batch_of(subjects: &[&str]) -> ErrorBatch {
    let mut batch = ErrorBatch::new();
    for s in subjects {
        batch.push(entry(s, "request failed"));
    }
    batch
}

/// Runs one poll cycle against the machine, with the notifier succeeding or
/// failing as `send_ok` says, and reports the action that was decided.
fn cycle(machine: &mut AlertStateMachine, subjects: &[&str], send_ok: bool) -> AlertAction {
    let batch = batch_of(subjects);
    let action = machine.evaluate(&batch);
    machine.commit(action, send_ok);
    action
}

#[test]
fn quiet_machine_stays_quiet_on_success() {
    let mut machine = AlertStateMachine::new();
    assert!(!machine.is_outstanding());
    assert_eq!(cycle(&mut machine, &[], true), AlertAction::Quiet);
    assert!(!machine.is_outstanding());
}

#[test]
fn edge_triggered_transitions() {
    let mut machine = AlertStateMachine::new();

    // first failing cycle: exactly one alert, state becomes outstanding
    assert_eq!(cycle(&mut machine, &["E1"], true), AlertAction::SendAlert);
    assert!(machine.is_outstanding());

    // the failure persists: no additional send
    assert_eq!(cycle(&mut machine, &["E1"], true), AlertAction::Quiet);
    assert!(machine.is_outstanding());

    // first clean cycle: exactly one resolved notice, state returns to quiet
    assert_eq!(cycle(&mut machine, &[], true), AlertAction::SendResolved);
    assert!(!machine.is_outstanding());

    // clean again while quiet: nothing
    assert_eq!(cycle(&mut machine, &[], true), AlertAction::Quiet);
    assert!(!machine.is_outstanding());
}

#[test]
fn failed_alert_send_is_retried() {
    let mut machine = AlertStateMachine::new();

    // the send fails: the state must stay quiet ...
    assert_eq!(cycle(&mut machine, &["E1"], false), AlertAction::SendAlert);
    assert!(!machine.is_outstanding());

    // ... so the next failing cycle attempts the send again, not suppressed
    assert_eq!(cycle(&mut machine, &["E1"], true), AlertAction::SendAlert);
    assert!(machine.is_outstanding());
}

#[test]
fn failed_resolved_send_is_retried() {
    let mut machine = AlertStateMachine::new();
    assert_eq!(cycle(&mut machine, &["E1"], true), AlertAction::SendAlert);

    assert_eq!(cycle(&mut machine, &[], false), AlertAction::SendResolved);
    assert!(machine.is_outstanding());

    assert_eq!(cycle(&mut machine, &[], true), AlertAction::SendResolved);
    assert!(!machine.is_outstanding());
}

#[test]
fn five_cycle_scenario() {
    let mut machine = AlertStateMachine::new();
    let runs: [&[&str]; 5] = [&["E1"], &[], &["E2", "E3"], &["E2", "E3"], &[]];
    let mut actions = Vec::new();
    for subjects in runs {
        actions.push(cycle(&mut machine, subjects, true));
    }
    assert_eq!(
        actions,
        vec![
            AlertAction::SendAlert,
            AlertAction::SendResolved,
            AlertAction::SendAlert,
            AlertAction::Quiet,
            AlertAction::SendResolved,
        ]
    );
    let sends = actions
        .iter()
        .filter(|a| **a != AlertAction::Quiet)
        .count();
    assert_eq!(sends, 4);
    assert!(!machine.is_outstanding());
}

#[test]
fn alert_fields_keep_small_batches_whole() {
    let batch = batch_of(&["a", "b", "c"]);
    let fields = alert_fields(batch);
    assert_eq!(fields.len(), 3);
    assert_eq!(fields[0].subject, "a");
    assert_eq!(fields[1].subject, "b");
    assert_eq!(fields[2].subject, "c");
}

#[test]
fn alert_fields_cap_at_the_channel_limit() {
    let mut batch = ErrorBatch::new();
    for i in 0..30 {
        batch.push(entry(&format!("subject-{i}"), "request failed"));
    }
    let fields = alert_fields(batch);
    assert_eq!(fields.len(), 25);
    assert_eq!(fields[0].subject, "subject-0");
    assert_eq!(fields[24].subject, "subject-24");
}

#[test]
fn alert_fields_at_the_limit_exactly() {
    let mut batch = ErrorBatch::new();
    for i in 0..25 {
        batch.push(entry(&format!("subject-{i}"), "request failed"));
    }
    let fields = alert_fields(batch);
    assert_eq!(fields.len(), 25);
}

#[test]
fn batch_emptiness() {
    let mut batch = ErrorBatch::new();
    assert!(batch.is_empty());
    batch.push(entry("E1", "request failed"));
    assert!(!batch.is_empty());
}
