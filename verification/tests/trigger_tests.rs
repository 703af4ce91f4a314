use spin_cli::trigger::{
    HelpArgsOnlyTrigger, HttpTrigger, LoopOutcome, RedisTrigger, TriggerError, TriggerExecutor,
    TriggerExecutorCommand, TriggerState,
};

#[test]
fn help_only_instantiation_is_rejected_for_execution() {
    let mut cmd = TriggerExecutorCommand::<HelpArgsOnlyTrigger>::new();
    assert_eq!(cmd.state, TriggerState::Configured);
    let r = cmd.run();
    assert_eq!(r, Err(TriggerError::HelpOnlyPlaceholder));
    assert_eq!(cmd.state, TriggerState::Configured);
}

#[test]
fn real_backends_run_and_complete() {
    let mut cmd = TriggerExecutorCommand::<HttpTrigger>::new();
    assert_eq!(cmd.run(), Ok(()));
    assert_eq!(cmd.state, TriggerState::Running);
    cmd.finish(LoopOutcome::Completed);
    assert_eq!(cmd.state, TriggerState::Completed);
}

#[test]
fn cancellation_aborts_a_running_command() {
    let mut cmd = TriggerExecutorCommand::<RedisTrigger>::new();
    assert_eq!(cmd.run(), Ok(()));
    cmd.finish(LoopOutcome::Cancelled);
    assert_eq!(cmd.state, TriggerState::Aborted);
}

#[test]
fn backend_names_match_their_subtree_declarations() {
    assert_eq!(HttpTrigger::trigger_type(), "http");
    assert_eq!(RedisTrigger::trigger_type(), "redis");
    assert_eq!(HelpArgsOnlyTrigger::trigger_type(), "help-args-only");
}
