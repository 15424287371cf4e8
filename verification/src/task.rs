//! The externally observable state of a task: its progress value, the
//! allowed transitions between progress values, and the tier-tagged
//! error messages the engine reports.

use vstd::prelude::*;

verus! {

/// The externally observable status of a task.  `Complete` and
/// `Failed` are terminal; `Error` halts the task but may be retried by
/// the operator; `Completing` means the outcome is determined and the
/// notification is in flight.
#[derive(Clone, Debug, PartialEq)]
pub enum TaskProgress {
    Start,
    WarmingUp,
    Processing,
    Completing(Option<String>),
    Error(String),
    Complete(Option<String>),
    Failed(Option<String>),
}

impl TaskProgress {
    /// The task's outcome is settled for good: no operation may follow.
    pub open spec fn is_terminal(self) -> bool {
        self is Complete || self is Failed
    }

    /// The task's loop performs no further exchange in this state; an
    /// `Error` may still be retried by the operator.
    pub open spec fn is_halted(self) -> bool {
        self is Complete || self is Failed || self is Error
    }

    /// What `to_str` renders for this progress value.
    pub open spec fn to_str_spec(self) -> Seq<char> {
        match self {
            TaskProgress::Start => "Starting"@,
            TaskProgress::WarmingUp => "Warming Up"@,
            TaskProgress::Processing => "Processing"@,
            TaskProgress::Completing(msg) => match msg {
                Some(text) => "Completing: "@ + text@,
                None => "Completing"@,
            },
            TaskProgress::Complete(msg) => match msg {
                Some(text) => "Complete: "@ + text@,
                None => "Complete"@,
            },
            TaskProgress::Failed(msg) => match msg {
                Some(text) => "Failed: "@ + text@,
                None => "Failed"@,
            },
            TaskProgress::Error(msg) => if msg@.len() == 0 {
                "Error"@
            } else {
                "Error: "@ + msg@
            },
        }
    }

    /// Renders the progress for display, with its detail text when one
    /// is present.
    pub fn to_str(&self) -> (r: String)
        ensures
            r@ == self.to_str_spec(),
    {
        match self {
            TaskProgress::Start => String::from_str("Starting"),
            TaskProgress::WarmingUp => String::from_str("Warming Up"),
            TaskProgress::Processing => String::from_str("Processing"),
            TaskProgress::Completing(msg) => match msg {
                Some(text) => String::from_str("Completing: ").concat(text.as_str()),
                None => String::from_str("Completing"),
            },
            TaskProgress::Complete(msg) => match msg {
                Some(text) => String::from_str("Complete: ").concat(text.as_str()),
                None => String::from_str("Complete"),
            },
            TaskProgress::Failed(msg) => match msg {
                Some(text) => String::from_str("Failed: ").concat(text.as_str()),
                None => String::from_str("Failed"),
            },
            TaskProgress::Error(msg) => {
                if msg.as_str().unicode_len() == 0 {
                    proof {
                        assert(msg@ =~= Seq::<char>::empty());
                        assert("Error: "@ + msg@ =~= "Error: "@);
                    }
                    String::from_str("Error")
                } else {
                    String::from_str("Error: ").concat(msg.as_str())
                }
            },
        }
    }
}

impl Default for TaskProgress {
    /// A task starts in `Start`.
    fn default() -> (r: TaskProgress)
        ensures
            r is Start,
    {
        TaskProgress::Start
    }
}

/// An edge of the progress state diagram: the transitions one
/// operation of the engine may make.  `Error` is re-enterable: a retry
/// returns to `Start`, or re-enters the notification (`Completing`)
/// when only the webhook delivery failed.
pub open spec fn progress_edge(a: TaskProgress, b: TaskProgress) -> bool {
    ||| (a is Start && b is WarmingUp)
    ||| (a is WarmingUp && b is Processing)
    ||| (a is Processing && b is Completing)
    ||| (a is Completing && (b is Complete || b is Failed || b is Error))
    ||| ((a is WarmingUp || a is Processing) && b is Error)
    ||| (a is Error && (b is Start || b is Completing))
}

/// A transition either keeps the progress value or follows an edge of
/// the state diagram.
pub open spec fn progress_step_ok(a: TaskProgress, b: TaskProgress) -> bool {
    a == b || progress_edge(a, b)
}

/// No edge skips the warm-up phase: from `Start` the only move is to
/// `WarmingUp`, and `Processing` is entered from `WarmingUp` alone.
pub proof fn lemma_no_skipped_warmup(a: TaskProgress, b: TaskProgress)
    requires
        progress_edge(a, b),
    ensures
        a is Start ==> b is WarmingUp,
        b is Processing ==> a is WarmingUp,
{
}

/// Terminal progress values are absorbing: no edge leaves `Complete`
/// or `Failed`.
pub proof fn lemma_terminal_absorbing(a: TaskProgress, b: TaskProgress)
    requires
        a.is_terminal(),
    ensures
        !progress_edge(a, b),
{
}

/// An engine-side failure class: a response that could not be read, a
/// response of an unexpected shape, or an unexplained refusal.
#[derive(Clone, Copy, PartialEq, Eq, Structural, Debug)]
pub enum TaskError {
    Response,
    Scheme,
    Unknown,
}

impl TaskError {
    /// The message text of this failure class.
    pub open spec fn label(self) -> Seq<char> {
        match self {
            TaskError::Response => "Bad response"@,
            TaskError::Scheme => "Unknown scheme"@,
            TaskError::Unknown => "Unknown"@,
        }
    }

    /// Formats the failure with the tier tag of the exchange it arose
    /// in, e.g. `Bad response (A)`.
    pub fn to_string(&self, tier: &str) -> (r: String)
        ensures
            r@ == self.label() + " ("@ + tier@ + ")"@,
    {
        let base = match self {
            TaskError::Response => "Bad response",
            TaskError::Scheme => "Unknown scheme",
            TaskError::Unknown => "Unknown",
        };
        String::from_str(base).concat(" (").concat(tier).concat(")")
    }
}

} // verus!
