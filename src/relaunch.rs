use vstd::prelude::*;

use crate::deep_link::arg_views;

verus! {

/// Name of the event that carries a deep link to the interface.
pub const DEEP_LINK_EVENT: &'static str = "deep-link-received";

/// What the running instance does when a second launch hands over its arguments.
pub enum RelaunchAction {
    /// Nothing beyond letting the second launch end.
    Ignore,
    /// Raise the main window, then emit the deep-link event with this payload.
    FocusAndEmit(String),
}

/// The payload a second launch delivers: its argument after the executable path, if any.
pub open spec fn relaunch_payload(args: Seq<Seq<char>>) -> Option<Seq<char>> {
    if args.len() > 1 {
        Some(args[1])
    } else {
        None
    }
}

impl RelaunchAction {
    /// The payload to emit, if the action emits one.
    pub open spec fn payload(self) -> Option<Seq<char>> {
        match self {
            RelaunchAction::Ignore => None,
            RelaunchAction::FocusAndEmit(link) => Some(link@),
        }
    }
}

/// Decides what the running instance does with a second launch's arguments. Any
/// argument beyond the executable path is passed on as is: the interface checks it.
pub fn second_instance_action(argv: &Vec<String>) -> (r: RelaunchAction)
    ensures
        r.payload() == relaunch_payload(arg_views(argv@)),
{
    if argv.len() > 1 {
        RelaunchAction::FocusAndEmit(argv[1].clone())
    } else {
        RelaunchAction::Ignore
    }
}

} // verus!
