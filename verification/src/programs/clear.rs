//! The screen-clearing program: it empties the terminal buffer, asks for
//! a redraw, and is done.

use vstd::prelude::*;

verus! {

use crate::session::ReplyToken;
use crate::session::SessionMessage;
use crate::session::TerminalMessage;

/// The program's whole run: clear the buffer, then redraw.  Its channel
/// closes afterwards, which tells the shell the program is gone.
pub fn run() -> (msgs: Vec<SessionMessage>)
    ensures
        msgs@ == seq![
            SessionMessage::Terminal(TerminalMessage::Clear, None::<ReplyToken>),
            SessionMessage::Terminal(TerminalMessage::ForceUpdate, None::<ReplyToken>),
        ],
{
    let mut msgs: Vec<SessionMessage> = Vec::new();
    msgs.push(SessionMessage::Terminal(TerminalMessage::Clear, None));
    msgs.push(SessionMessage::Terminal(TerminalMessage::ForceUpdate, None));
    proof {
        assert(msgs@ =~= seq![
            SessionMessage::Terminal(TerminalMessage::Clear, None::<ReplyToken>),
            SessionMessage::Terminal(TerminalMessage::ForceUpdate, None::<ReplyToken>),
        ]);
    }
    msgs
}

} // verus!
