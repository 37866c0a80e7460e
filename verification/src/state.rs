//! Power states and their canonical names.

use vstd::prelude::*;

verus! {

/// The lifecycle phase of a compute instance.
#[derive(Debug, Clone, Copy, PartialEq, Eq, Structural)]
pub enum PowerState {
    Pending,
    Running,
    ShuttingDown,
    Terminated,
    Stopping,
    Stopped,
    Unknown,
}

/// The canonical name of a power state.
pub open spec fn state_name(state: PowerState) -> Seq<char> {
    match state {
        PowerState::Pending => "pending"@,
        PowerState::Running => "running"@,
        PowerState::ShuttingDown => "shutting-down"@,
        PowerState::Terminated => "terminated"@,
        PowerState::Stopping => "stopping"@,
        PowerState::Stopped => "stopped"@,
        PowerState::Unknown => "unknown"@,
    }
}

/// The power state that a provider's status text stands for: the state whose
/// canonical name it is, and `Unknown` for any other text.
pub open spec fn classified(status: Seq<char>) -> PowerState {
    if status == "pending"@ {
        PowerState::Pending
    } else if status == "running"@ {
        PowerState::Running
    } else if status == "shutting-down"@ {
        PowerState::ShuttingDown
    } else if status == "terminated"@ {
        PowerState::Terminated
    } else if status == "stopping"@ {
        PowerState::Stopping
    } else if status == "stopped"@ {
        PowerState::Stopped
    } else {
        PowerState::Unknown
    }
}

/// Whether two strings hold the same text.
pub fn same_text(a: &str, b: &str) -> (same: bool)
    ensures
        same == (a@ == b@),
{
    let left = String::from_str(a);
    let right = String::from_str(b);
    left == right
}

/// Maps a provider's status text to a power state. Text that names none of
/// the six known states gives `Unknown`.
pub fn classify(status: &str) -> (state: PowerState)
    ensures
        state == classified(status@),
{
    if same_text(status, "pending") {
        PowerState::Pending
    } else if same_text(status, "running") {
        PowerState::Running
    } else if same_text(status, "shutting-down") {
        PowerState::ShuttingDown
    } else if same_text(status, "terminated") {
        PowerState::Terminated
    } else if same_text(status, "stopping") {
        PowerState::Stopping
    } else if same_text(status, "stopped") {
        PowerState::Stopped
    } else {
        PowerState::Unknown
    }
}

/// The canonical name of a power state, as a string.
pub fn instance_state_name(state: &PowerState) -> (name: String)
    ensures
        name@ == state_name(*state),
{
    let name = match state {
        PowerState::Pending => "pending",
        PowerState::Running => "running",
        PowerState::ShuttingDown => "shutting-down",
        PowerState::Terminated => "terminated",
        PowerState::Stopping => "stopping",
        PowerState::Stopped => "stopped",
        PowerState::Unknown => "unknown",
    };
    String::from_str(name)
}

/// The seven canonical names are pairwise different, so a name tells which
/// state it came from.
pub proof fn state_name_injective(a: PowerState, b: PowerState)
    ensures
        state_name(a) == state_name(b) <==> a == b,
{
    reveal_strlit("pending");
    reveal_strlit("running");
    reveal_strlit("shutting-down");
    reveal_strlit("terminated");
    reveal_strlit("stopping");
    reveal_strlit("stopped");
    reveal_strlit("unknown");
    if a != b {
        let x = state_name(a);
        let y = state_name(b);
        assert(x.len() != y.len() || x[0] != y[0] || x[3] != y[3]);
    }
}

/// A known state's name classifies back to that state; `Unknown`, whose name
/// is no provider status of its own, classifies to itself as every
/// unrecognized text does.
pub proof fn classify_inverts_state_name(state: PowerState)
    ensures
        classified(state_name(state)) == state,
{
    state_name_injective(state, PowerState::Pending);
    state_name_injective(state, PowerState::Running);
    state_name_injective(state, PowerState::ShuttingDown);
    state_name_injective(state, PowerState::Terminated);
    state_name_injective(state, PowerState::Stopping);
    state_name_injective(state, PowerState::Stopped);
}

} // verus!
