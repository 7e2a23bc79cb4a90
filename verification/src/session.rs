//! The session's typed messages and their routing.
//!
//! A session routes one message at a time, purely by tag: shell-directed
//! messages to the shell, terminal-directed ones to the terminal buffer,
//! output to the registered output adapter (dropped when none is
//! registered), interrupts to the shell, and one distinguished message
//! ends the session.  Any request may carry a reply token naming a
//! one-shot reply channel of the host; the component receiving such a
//! request must send exactly one reply on it.

use vstd::prelude::*;

use crate::key_events::KeyEvent;
use crate::path::Path;
use crate::style::Span;
use crate::user::SignInError;
use crate::user::User;

verus! {

/// Why an event loop ended.
pub enum EventLoopError {
    /// The loop's inbound channel lost all its senders.
    ChannelClosed,
}

/// Names a one-shot reply channel of the host.  The component answering a
/// request carrying a token must send exactly one reply on the channel
/// the token names.
#[derive(Debug, Clone, Copy, PartialEq, Eq, Structural)]
pub struct ReplyToken(pub u64);

/// Messages sent to the shell or passed on to its running process.
#[derive(Debug)]
pub enum ShellMessage {
    /// A keypress for the current running program.
    InputKeyEvent(KeyEvent),
    /// An exit code for the current running program.
    ExitCode(u32),
    /// An instruction to change the shell's working directory.
    ChangeCwd(Path),
    /// A request for a snapshot of the active user.
    GetCurrentUser,
    /// A request to sign in to the given user with the given password
    /// hash; answered with a sign-in result.
    TrySetUser(String, Option<u64>),
}

/// Messages sent to the terminal buffer.
#[derive(Debug)]
pub enum TerminalMessage {
    /// Append a new trailing line holding the text.
    PushLine(String),
    /// Append the text to the last span of the buffer.
    Push(String),
    /// Append a new styled span.
    PushSpan(Span),
    /// Empty the buffer.
    Clear,
    /// Empty the text of the given span, counted from the end.
    ClearSpan(usize),
    /// Replace the given span, counted from the end.
    SetSpan(usize, Span),
    /// Delete the given span, counted from the end.
    DeleteSpan(usize),
    /// Render the whole buffer to one snapshot and emit it as a display
    /// message.
    ForceUpdate,
}

/// Messages for the host output adapter.
#[derive(Debug)]
pub enum OutputMessage {
    /// A rendered snapshot to put on the screen.
    Display(String),
    /// A host-level signal outside the display.
    Signal,
}

/// A typed reply to a request.
#[derive(Debug)]
pub enum ReturnValue {
    User(Option<User>),
    SignInResult(Result<(), SignInError>),
}

/// A message routed between the session's components.
#[derive(Debug)]
pub enum SessionMessage {
    Terminal(TerminalMessage, Option<ReplyToken>),
    Shell(ShellMessage, Option<ReplyToken>),
    Output(OutputMessage, Option<ReplyToken>),
    Interrupt,
    Resize(usize, usize),
    Ack(Option<ReplyToken>),
    Return(ReturnValue),
    KillSessionYesReallyTheActualSessionNotSomeInternalThing,
}

/// Where the session's router sends a message.
#[derive(Debug, Clone, Copy, PartialEq, Eq, Structural)]
pub enum RouteTarget {
    /// Forward to the shell's inbound channel.
    ToShell,
    /// Forward to the terminal's inbound channel.
    ToTerminal,
    /// Forward to the registered output adapter, or drop it silently when
    /// none is registered.
    ToOutput,
    /// Consumed by the session itself without effect.
    Ignored,
    /// Ends the session loop.
    EndSession,
}

/// The routing decision for one message, purely by tag: shell-directed
/// messages (interrupts among them) go to the shell, terminal-directed
/// ones to the terminal, output to the output adapter; acknowledgements,
/// stray replies and resize notices are consumed; the distinguished kill
/// message ends the session.
pub open spec fn spec_route(m: SessionMessage) -> RouteTarget {
    match m {
        SessionMessage::Shell(..) => RouteTarget::ToShell,
        SessionMessage::Interrupt => RouteTarget::ToShell,
        SessionMessage::Terminal(..) => RouteTarget::ToTerminal,
        SessionMessage::Output(..) => RouteTarget::ToOutput,
        SessionMessage::Resize(..) => RouteTarget::Ignored,
        SessionMessage::Ack(..) => RouteTarget::Ignored,
        SessionMessage::Return(..) => RouteTarget::Ignored,
        SessionMessage::KillSessionYesReallyTheActualSessionNotSomeInternalThing => RouteTarget::EndSession,
    }
}

/// Routes one message by its tag alone.
pub fn route(m: &SessionMessage) -> (r: RouteTarget)
    ensures
        r == spec_route(*m),
{
    match m {
        SessionMessage::Shell(..) => RouteTarget::ToShell,
        SessionMessage::Interrupt => RouteTarget::ToShell,
        SessionMessage::Terminal(..) => RouteTarget::ToTerminal,
        SessionMessage::Output(..) => RouteTarget::ToOutput,
        SessionMessage::Resize(..) => RouteTarget::Ignored,
        SessionMessage::Ack(..) => RouteTarget::Ignored,
        SessionMessage::Return(..) => RouteTarget::Ignored,
        SessionMessage::KillSessionYesReallyTheActualSessionNotSomeInternalThing => RouteTarget::EndSession,
    }
}

/// The session's verified core: the shell, the terminal buffer, the
/// identity store and the filesystem, wired together.  The host gives
/// each long-lived component its thread and channels; every decision
/// those loops take is a method of these parts.
pub struct Session {
    pub shell: crate::shell::DefaultShell,
    pub terminal: crate::terminal::DefaultTerminal,
    pub users: crate::user::UserStore,
    pub fs: crate::send_tree::SendTree<crate::files::FSObject>,
    pub alive: bool,
}

impl Session {
    /// A fresh session: the sample filesystem and identity store, a
    /// guest shell sitting in its home directory with the startup
    /// program resolved from `/bin/cash`, and an empty terminal.
    pub fn get_session() -> (r: Session)
        ensures
            r.alive,
            r.users.users@.len() == 2,
            r.shell.running is None,
            r.shell.user.name@ == "guest"@,
            r.shell.user.password is None,
            r.shell.cwd.absolute,
            r.shell.startup == Some(crate::programs::PROGRAM_CASH),
            r.terminal.buffer.0@.len() == 1,
            r.fs.value is Folder,
            r.fs.children@.len() == 3,
    {
        let fs = crate::send_tree::SendTree::new_filesystem();
        proof {
            crate::shell::lemma_sample_image_resolves_startup(fs);
        }
        let users = crate::user::UserStore::with_defaults();
        let guest = crate::user::User::from_name(&users, "guest");
        proof {
            reveal_strlit("cold");
            reveal_strlit("guest");
            assert("cold"@.len() == 4 && "guest"@.len() == 5);
            assert(users.users@.drop_first()[0] == users.users@[1]);
            assert(users.users@.drop_first().len() == 1);
            assert(crate::user::spec_lookup_user(users.users@.drop_first(), "guest"@) == Some(
                users.users@[1],
            ));
            assert(crate::user::spec_lookup_user(users.users@, "guest"@) == Some(
                users.users@[1],
            ));
        }
        let shell = crate::shell::DefaultShell::new_in_home(guest, &fs);
        Session {
            shell,
            terminal: crate::terminal::DefaultTerminal::new(),
            users,
            fs,
            alive: true,
        }
    }
}

/// A keypress wrapped for the shell, as the host input adapter sends it.
pub fn create_input_event(key_event: KeyEvent) -> (r: SessionMessage)
    ensures
        r == SessionMessage::Shell(ShellMessage::InputKeyEvent(key_event), None::<ReplyToken>),
{
    SessionMessage::Shell(ShellMessage::InputKeyEvent(key_event), None)
}

/// An interrupt, as the host input adapter sends it.
pub fn create_interrupt() -> (r: SessionMessage)
    ensures
        r == SessionMessage::Interrupt,
{
    SessionMessage::Interrupt
}

} // verus!
