//! The session-ending program: it sends the one distinguished message
//! that ends the session loop, and nothing else.

use vstd::prelude::*;

verus! {

use crate::session::SessionMessage;

/// The program's whole run: the kill message alone.
pub fn run() -> (msgs: Vec<SessionMessage>)
    ensures
        msgs@ == seq![
            SessionMessage::KillSessionYesReallyTheActualSessionNotSomeInternalThing,
        ],
{
    let mut msgs: Vec<SessionMessage> = Vec::new();
    msgs.push(SessionMessage::KillSessionYesReallyTheActualSessionNotSomeInternalThing);
    proof {
        assert(msgs@ =~= seq![
            SessionMessage::KillSessionYesReallyTheActualSessionNotSomeInternalThing,
        ]);
    }
    msgs
}

} // verus!
