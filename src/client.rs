//! The client's choice of command from its command-line argument.
use vstd::prelude::*;
use crate::protocol::Action;

verus! {

/// The command that a client argument names: none asks for the state;
/// `work`, `break` and `stop` name their command; anything else is unknown.
pub open spec fn argument_action(arg: Option<Seq<char>>) -> Option<Action> {
    match arg {
        None => Some(Action::GetState),
        Some(a) => if a == "work"@ {
            Some(Action::Work)
        } else if a == "break"@ {
            Some(Action::Break)
        } else if a == "stop"@ {
            Some(Action::Stop)
        } else {
            None
        },
    }
}

/// Picks the command for a client argument; `None` for an unknown one.
pub fn parse_argument(arg: Option<&String>) -> (r: Option<Action>)
    ensures
        r == argument_action(
            match arg {
                Some(a) => Some(a@),
                None => None,
            },
        ),
{
    match arg {
        None => Some(Action::GetState),
        Some(a) => {
            if *a == "work".to_owned() {
                Some(Action::Work)
            } else if *a == "break".to_owned() {
                Some(Action::Break)
            } else if *a == "stop".to_owned() {
                Some(Action::Stop)
            } else {
                None
            }
        },
    }
}

} // verus!
