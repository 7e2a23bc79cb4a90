//! The help program: it prints the shell's name and version in colored
//! letters, tells the user there is no more to say, and waits for Enter
//! before reporting exit code 0.

use vstd::prelude::*;
use vstd::string::StringExecFns;

verus! {

use crate::key_events::Key;
use crate::session::ReplyToken;
use crate::session::SessionMessage;
use crate::session::ShellMessage;
use crate::session::TerminalMessage;
use crate::style::Color;
use crate::style::Span;

/// A message pushing a span of the given text and foreground color.
pub open spec fn is_colored_span(m: SessionMessage, text: Seq<char>, color: Color) -> bool {
    &&& m matches SessionMessage::Terminal(TerminalMessage::PushSpan(s), t) && s.text@ == text
        && s.fg_color == Some(color) && s.decoration == 0u8 && t is None
}

/// A message appending the given text to the last span.
pub open spec fn is_push_text(m: SessionMessage, text: Seq<char>) -> bool {
    &&& m matches SessionMessage::Terminal(TerminalMessage::Push(x), t) && x@ == text
        && t is None
}

/// The program's opening output: the four colored letters of the shell's
/// name, its version, the admission that there is no help to provide,
/// and the prompt to press enter.
pub fn run() -> (msgs: Vec<SessionMessage>)
    ensures
        msgs@.len() == 11,
        is_colored_span(msgs@[0], "C"@, Color(225u8, 30u8, 50u8)),
        is_colored_span(msgs@[1], "A"@, Color(190u8, 190u8, 30u8)),
        is_colored_span(msgs@[2], "$"@, Color(30u8, 225u8, 80u8)),
        is_colored_span(msgs@[3], "H"@, Color(40u8, 90u8, 190u8)),
        crate::programs::cash::is_plain_span(msgs@[4], Seq::<char>::empty()),
        is_push_text(msgs@[5], " v"@),
        crate::programs::cash::is_push_line(msgs@[6], "0.0.0.1"@),
        crate::programs::cash::is_push_line(msgs@[7], "Cold's Awful SHell"@),
        crate::programs::cash::is_push_line(msgs@[8], "No help to provide..."@),
        is_push_text(msgs@[9], "Press enter to continue."@),
        crate::programs::cash::is_force_update(msgs@[10]),
{
    let mut msgs: Vec<SessionMessage> = Vec::new();
    msgs.push(letter("C", Color::new_rgb(225, 30, 50)));
    msgs.push(letter("A", Color::new_rgb(190, 190, 30)));
    msgs.push(letter("$", Color::new_rgb(30, 225, 80)));
    msgs.push(letter("H", Color::new_rgb(40, 90, 190)));
    msgs.push(SessionMessage::Terminal(TerminalMessage::PushSpan(Span::new()), None));
    msgs.push(
        SessionMessage::Terminal(
            TerminalMessage::Push(<String as StringExecFns>::from_str(" v")),
            None,
        ),
    );
    msgs.push(
        SessionMessage::Terminal(
            TerminalMessage::PushLine(<String as StringExecFns>::from_str("0.0.0.1")),
            None,
        ),
    );
    msgs.push(
        SessionMessage::Terminal(
            TerminalMessage::PushLine(
                <String as StringExecFns>::from_str("Cold's Awful SHell"),
            ),
            None,
        ),
    );
    msgs.push(
        SessionMessage::Terminal(
            TerminalMessage::PushLine(
                <String as StringExecFns>::from_str("No help to provide..."),
            ),
            None,
        ),
    );
    msgs.push(
        SessionMessage::Terminal(
            TerminalMessage::Push(
                <String as StringExecFns>::from_str("Press enter to continue."),
            ),
            None,
        ),
    );
    msgs.push(SessionMessage::Terminal(TerminalMessage::ForceUpdate, None));
    msgs
}

/// One colored letter span.
fn letter(text: &str, color: Color) -> (m: SessionMessage)
    ensures
        is_colored_span(m, text@, color),
{
    SessionMessage::Terminal(
        TerminalMessage::PushSpan(
            Span::new().with_fg_color(color).with_text(
                <String as StringExecFns>::from_str(text),
            ),
        ),
        None,
    )
}

/// One inbound message while waiting: Enter finishes the program — a
/// line break, then exit code 0 — and everything else is ignored.
pub fn on_message(m: &SessionMessage) -> (r: (Vec<SessionMessage>, bool))
    ensures
        ({
            let enter = m matches SessionMessage::Shell(
                ShellMessage::InputKeyEvent(k),
                _,
            ) && k.key_type is Enter;
            if enter {
                &&& r.1 == true
                &&& r.0@.len() == 2
                &&& is_push_text(r.0@[0], "\r\n"@)
                &&& r.0@[1] == SessionMessage::Shell(
                    ShellMessage::ExitCode(0u32),
                    None::<ReplyToken>,
                )
            } else {
                r.1 == false && r.0@.len() == 0
            }
        }),
{
    let enter = match m {
        SessionMessage::Shell(ShellMessage::InputKeyEvent(k), _) => match k.key_type {
            Key::Enter => true,
            _ => false,
        },
        _ => false,
    };
    if enter {
        let mut msgs: Vec<SessionMessage> = Vec::new();
        msgs.push(
            SessionMessage::Terminal(
                TerminalMessage::Push(<String as StringExecFns>::from_str("\r\n")),
                None,
            ),
        );
        msgs.push(SessionMessage::Shell(ShellMessage::ExitCode(0), None));
        (msgs, true)
    } else {
        (Vec::new(), false)
    }
}

} // verus!
