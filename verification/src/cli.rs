//! Parts of the command line that decide something.

use vstd::prelude::*;

verus! {

/// What to do with the background sync process.
#[derive(Debug, Clone, Copy, PartialEq, Eq, Structural)]
pub enum DaemonAction {
    Start,
    Stop,
    Restart,
    Status,
}

/// The name the command line gives an action.
pub open spec fn action_name(action: DaemonAction) -> Seq<char> {
    match action {
        DaemonAction::Start => "start"@,
        DaemonAction::Stop => "stop"@,
        DaemonAction::Restart => "restart"@,
        DaemonAction::Status => "status"@,
    }
}

/// The name the command line gives an action, as shown in messages.
pub fn action_variant_name(a: &DaemonAction) -> (r: &'static str)
    ensures
        r@ == action_name(*a),
{
    match a {
        DaemonAction::Start => "start",
        DaemonAction::Stop => "stop",
        DaemonAction::Restart => "restart",
        DaemonAction::Status => "status",
    }
}

} // verus!
