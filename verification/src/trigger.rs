//! Generic trigger command: a single command type instantiated once per
//! backend capability. Two capabilities drive real protocol backends; a
//! third, inert one exists solely so that help text for the trigger sub-tree
//! can be rendered without a live backend — invoking it for real is an
//! error.

use vstd::prelude::*;
use core::marker::PhantomData;

verus! {

/// A backend capability: one trigger protocol implementation, selected at
/// compile time per binary.
pub trait TriggerExecutor {
    /// Whether this capability is the inert help-only placeholder.
    spec fn is_help_placeholder() -> bool;

    /// The name under which this backend's sub-tree is declared.
    spec fn protocol_name() -> Seq<char>;

    /// The trigger type name, as the command tree declares it.
    fn trigger_type() -> (s: String)
        ensures
            s@ == Self::protocol_name(),
    ;

    /// Whether this capability is the inert help-only placeholder, decided
    /// at run time exactly as declared.
    fn help_placeholder() -> (b: bool)
        ensures
            b == Self::is_help_placeholder(),
    ;
}

/// The HTTP protocol backend.
pub struct HttpTrigger;

/// The Redis protocol backend.
pub struct RedisTrigger;

/// The inert placeholder backend: renders accurate help for a protocol that
/// otherwise needs a live backend to construct, and does nothing else.
pub struct HelpArgsOnlyTrigger;

impl TriggerExecutor for HttpTrigger {
    open spec fn is_help_placeholder() -> bool {
        false
    }

    open spec fn protocol_name() -> Seq<char> {
        "http"@
    }

    fn trigger_type() -> (s: String) {
        String::from_str("http")
    }

    fn help_placeholder() -> (b: bool) {
        false
    }
}

impl TriggerExecutor for RedisTrigger {
    open spec fn is_help_placeholder() -> bool {
        false
    }

    open spec fn protocol_name() -> Seq<char> {
        "redis"@
    }

    fn trigger_type() -> (s: String) {
        String::from_str("redis")
    }

    fn help_placeholder() -> (b: bool) {
        false
    }
}

impl TriggerExecutor for HelpArgsOnlyTrigger {
    open spec fn is_help_placeholder() -> bool {
        true
    }

    open spec fn protocol_name() -> Seq<char> {
        "help-args-only"@
    }

    fn trigger_type() -> (s: String) {
        String::from_str("help-args-only")
    }

    fn help_placeholder() -> (b: bool) {
        true
    }
}

/// The states of one trigger command run. `Completed` and `Aborted` are
/// terminal.
#[derive(Debug, PartialEq, Eq, Structural, Clone, Copy)]
pub enum TriggerState {
    Configured,
    Running,
    Completed,
    Aborted,
}

/// How the backend's execution loop ended: on its own, or cut short by an
/// external cancellation signal.
#[derive(Debug, PartialEq, Eq, Structural, Clone, Copy)]
pub enum LoopOutcome {
    Completed,
    Cancelled,
}

/// Why a trigger command refused to run.
#[derive(Debug, PartialEq, Eq, Structural, Clone, Copy)]
pub enum TriggerError {
    /// The capability is the help-only placeholder: it renders help and is
    /// never executed.
    HelpOnlyPlaceholder,
}

/// One configured instantiation of the generic trigger command.
pub struct TriggerExecutorCommand<Executor: TriggerExecutor> {
    pub state: TriggerState,
    pub executor: PhantomData<Executor>,
}

impl<Executor: TriggerExecutor> TriggerExecutorCommand<Executor> {
    /// A freshly configured command: its flag set has been parsed, nothing
    /// has run.
    pub fn new() -> (c: Self)
        ensures
            c.state == TriggerState::Configured,
    {
        TriggerExecutorCommand { state: TriggerState::Configured, executor: PhantomData }
    }

    /// Hands control to the capability's execution loop. The help-only
    /// placeholder is rejected rather than silently run, and the command
    /// stays configured; a real backend enters `Running`.
    pub fn run(&mut self) -> (r: Result<(), TriggerError>)
        requires
            old(self).state == TriggerState::Configured,
        ensures
            r is Err <==> Executor::is_help_placeholder(),
            r is Err ==> r == Err::<(), TriggerError>(TriggerError::HelpOnlyPlaceholder)
                && final(self).state == TriggerState::Configured,
            r is Ok ==> final(self).state == TriggerState::Running,
    {
        if Executor::help_placeholder() {
            Err(TriggerError::HelpOnlyPlaceholder)
        } else {
            self.state = TriggerState::Running;
            Ok(())
        }
    }

    /// Records how the execution loop ended: completion on its own reaches
    /// `Completed`, an external cancellation reaches `Aborted`. Both are
    /// terminal.
    pub fn finish(&mut self, outcome: LoopOutcome)
        requires
            old(self).state == TriggerState::Running,
        ensures
            final(self).state == (match outcome {
                LoopOutcome::Completed => TriggerState::Completed,
                LoopOutcome::Cancelled => TriggerState::Aborted,
            }),
    {
        self.state = match outcome {
            LoopOutcome::Completed => TriggerState::Completed,
            LoopOutcome::Cancelled => TriggerState::Aborted,
        };
    }
}

} // verus!
