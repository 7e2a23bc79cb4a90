//! The remote-host placeholder program: given a host argument it asks
//! the host environment to navigate there; without one it reports the
//! command as unsupported.  Either way it reports exit code 0.

use vstd::prelude::*;
use vstd::string::StringExecFns;

verus! {

use crate::programs::cash::is_plain_span;
use crate::session::ReplyToken;
use crate::session::SessionMessage;
use crate::session::ShellMessage;
use crate::session::TerminalMessage;
use crate::style::Span;

/// The program's whole run, on the arguments it was started with
/// (`args[0]` is the working directory).  With a host argument the first
/// result names the host to navigate to — carrying that out is the host
/// environment's business; without one the command is reported as
/// unsupported.
pub fn run(args: &Vec<String>) -> (r: (Option<String>, Vec<SessionMessage>))
    ensures
        if args@.len() >= 2 {
            &&& r.0 matches Some(h) && h@ == args.deep_view()[1]
            &&& r.1@ == seq![
                SessionMessage::Shell(ShellMessage::ExitCode(0u32), None::<ReplyToken>),
            ]
        } else {
            &&& r.0 is None
            &&& r.1@.len() == 2
            &&& is_plain_span(r.1@[0], "Unsupported command.\r\n"@)
            &&& r.1@[1] == SessionMessage::Shell(ShellMessage::ExitCode(0u32), None::<ReplyToken>)
        },
{
    if args.len() >= 2 {
        let host = args[1].clone();
        let mut msgs: Vec<SessionMessage> = Vec::new();
        msgs.push(SessionMessage::Shell(ShellMessage::ExitCode(0), None));
        proof {
            assert(r_msgs_eq(msgs@));
        }
        (Some(host), msgs)
    } else {
        let mut msgs: Vec<SessionMessage> = Vec::new();
        msgs.push(
            SessionMessage::Terminal(
                TerminalMessage::PushSpan(
                    Span::new().with_text(
                        <String as StringExecFns>::from_str("Unsupported command.\r\n"),
                    ),
                ),
                None,
            ),
        );
        msgs.push(SessionMessage::Shell(ShellMessage::ExitCode(0), None));
        (None, msgs)
    }
}

/// The single exit-code message list.
pub open spec fn r_msgs_eq(msgs: Seq<SessionMessage>) -> bool {
    msgs =~= seq![SessionMessage::Shell(ShellMessage::ExitCode(0u32), None::<ReplyToken>)]
}

} // verus!
