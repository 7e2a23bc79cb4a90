//! The shell: owner of the working directory and the active user, manager
//! of at most one live pseudo-process.
//!
//! The shell is a state machine with two implicit states — idle and
//! running.  While idle, any activity launches the configured startup
//! program; the running state ends when the process's outbound channel
//! disconnects or the process reports an exit code.  The host drives the
//! machine: it performs channel sends and thread spawns, and hands each
//! observed event to the functions here, which decide everything.

use vstd::prelude::*;

verus! {

use crate::files::FSObject;
use crate::files::file_program;
use crate::files::spec_resolve_in;
use crate::path::Path;
use crate::path::spec_render;
use crate::path::spec_split;
use crate::send_tree::SendTree;
use crate::session::ReplyToken;
use crate::session::ReturnValue;
use crate::session::SessionMessage;
use crate::session::ShellMessage;
use crate::user::SignInError;
use crate::user::User;
use crate::user::UserStore;
use crate::user::clone_user;
use crate::user::spec_lookup_user;
use crate::user::spec_password_matches;

/// A live pseudo-process, named by the handle of the program it runs; the
/// host owns its thread and channels.
pub struct RunningProcess {
    pub program: u64,
}

/// An instruction to the host: start the program named by `program` on a
/// fresh channel pair, with `args` as its arguments.  By convention
/// `args[0]` is the caller's working directory at spawn time.
pub struct SpawnRequest {
    pub program: u64,
    pub args: Vec<String>,
}

/// What handling one inbound message asks of the host: at most one reply
/// on the named reply channel, and at most one message forwarded to the
/// running process.  The reply is sent first.
pub struct ShellStep {
    pub reply: Option<(ReplyToken, SessionMessage)>,
    pub to_process: Option<SessionMessage>,
}

/// What the host observed on the running process's outbound channel.
pub enum ProcessEvent {
    /// A message arrived.
    Received(SessionMessage),
    /// The channel lost its sender: the process is gone.
    Disconnected,
    /// Nothing was pending.
    Nothing,
}

/// The shell's state.
pub struct DefaultShell {
    pub cwd: Path,
    pub user: User,
    pub running: Option<RunningProcess>,
    pub startup: Option<u64>,
}

/// The program handle the filesystem hands out for the shell's startup
/// program, looked up at `/bin/cash`.
pub open spec fn spec_startup_program(fs: SendTree<FSObject>) -> Option<u64> {
    match spec_resolve_in(fs, spec_split("/bin/cash"@, '/'), 0) {
        Result::Ok(o) => file_program(o),
        Result::Err(_) => None,
    }
}

/// On a filesystem shaped like the sample image — an indexed root whose
/// children are named `home`, `bin` and `etc`, with an indexed `bin`
/// holding the five program files and `cash` first among them — the
/// shell's startup lookup at `/bin/cash` finds that program.
pub proof fn lemma_sample_image_resolves_startup(fs: SendTree<FSObject>)
    requires
        fs.value is Folder,
        fs.value.folder_entries() == crate::files::rebuild_entries(
            crate::files::child_names(fs.children@),
        ),
        fs.children@.len() == 3,
        crate::files::child_names(fs.children@) == seq!["home"@, "bin"@, "etc"@],
        fs.children@[1].value is Folder,
        fs.children@[1].value.folder_entries() == crate::files::rebuild_entries(
            crate::files::child_names(fs.children@[1].children@),
        ),
        fs.children@[1].children@.len() == 5,
        crate::files::child_names(fs.children@[1].children@) == seq![
            "cash"@,
            "clear"@,
            "help"@,
            "shutdown"@,
            "ssh"@,
        ],
        crate::files::file_program(fs.children@[1].children@[0].value) == Some(
            crate::programs::PROGRAM_CASH,
        ),
    ensures
        spec_startup_program(fs) == Some(crate::programs::PROGRAM_CASH),
{
    reveal_strlit("/bin/cash");
    reveal_strlit("bin");
    reveal_strlit("cash");
    reveal_strlit("home");
    reveal_strlit("etc");
    reveal_strlit("clear");
    reveal_strlit("help");
    reveal_strlit("shutdown");
    reveal_strlit("ssh");
    // the startup path splits into its two components
    let s = "/bin/cash"@;
    let s1 = s.skip(1);
    assert(s.drop_first() =~= s1);
    assert(spec_split(s, '/') == spec_split(s1, '/'));
    assert(s1[0] != '/' && s1[1] != '/' && s1[2] != '/' && s1[3] == '/');
    crate::path::lemma_run_len_of(s1, '/', 3);
    assert(spec_split(s1, '/') == seq![s1.take(3)] + spec_split(s1.skip(3), '/'));
    assert(s1.take(3) =~= "bin"@);
    let s2 = s1.skip(3);
    let s3 = s1.skip(4);
    assert(s2[0] == '/');
    assert(s2.drop_first() =~= s3);
    assert(spec_split(s2, '/') == spec_split(s3, '/'));
    assert(s3 =~= "cash"@);
    assert(s3.len() == 4 && s3[0] != '/' && s3[1] != '/' && s3[2] != '/' && s3[3] != '/');
    crate::path::lemma_run_len_of(s3, '/', 4);
    assert(s3.skip(4) =~= Seq::<char>::empty());
    assert(spec_split(Seq::<char>::empty(), '/').len() == 0);
    assert(spec_split(s3, '/') == seq![s3.take(4)] + spec_split(s3.skip(4), '/'));
    assert(s3.take(4) =~= "cash"@);
    let segs = spec_split(s, '/');
    assert(segs =~= seq!["bin"@, "cash"@]);
    // the root's table sends "bin" to its second child
    let names = crate::files::child_names(fs.children@);
    crate::files::lemma_lookup_rebuild(names, "bin"@);
    assert("etc"@ != "bin"@) by {
        assert("etc"@[0] != "bin"@[0]);
    };
    assert(names.drop_last() =~= seq!["home"@, "bin"@]);
    assert("home"@.len() != "bin"@.len());
    assert(crate::files::last_index_of(seq!["home"@, "bin"@], "bin"@) == Some(1int));
    assert(crate::files::last_index_of(names, "bin"@) == Some(1int));
    let bin = fs.children@[1];
    assert(crate::files::spec_resolve_in(fs, segs, 0) == crate::files::spec_resolve_in(
        bin,
        segs,
        1,
    ));
    // the bin folder's table sends "cash" to its first child
    let bnames = crate::files::child_names(bin.children@);
    crate::files::lemma_lookup_rebuild(bnames, "cash"@);
    assert("ssh"@.len() != "cash"@.len());
    assert("shutdown"@.len() != "cash"@.len());
    assert("help"@ != "cash"@) by {
        assert("help"@[0] != "cash"@[0]);
    };
    assert("clear"@.len() != "cash"@.len());
    assert(bnames.drop_last() =~= seq!["cash"@, "clear"@, "help"@, "shutdown"@]);
    assert(seq!["cash"@, "clear"@, "help"@, "shutdown"@].drop_last() =~= seq![
        "cash"@,
        "clear"@,
        "help"@,
    ]);
    assert(seq!["cash"@, "clear"@, "help"@].drop_last() =~= seq!["cash"@, "clear"@]);
    assert(seq!["cash"@, "clear"@].drop_last() =~= seq!["cash"@]);
    assert(crate::files::last_index_of(seq!["cash"@], "cash"@) == Some(0int));
    assert(crate::files::last_index_of(seq!["cash"@, "clear"@], "cash"@) == Some(0int));
    assert(crate::files::last_index_of(seq!["cash"@, "clear"@, "help"@], "cash"@) == Some(0int));
    assert(crate::files::last_index_of(
        seq!["cash"@, "clear"@, "help"@, "shutdown"@],
        "cash"@,
    ) == Some(0int));
    assert(crate::files::last_index_of(bnames, "cash"@) == Some(0int));
    let cash_node = bin.children@[0];
    assert(crate::files::spec_resolve_in(bin, segs, 1) == crate::files::spec_resolve_in(
        cash_node,
        segs,
        2,
    ));
    // two components walked: the lookup ends at the program file
    assert(crate::files::spec_resolve_in(cash_node, segs, 2) == Ok::<FSObject, crate::files::FsError>(
        cash_node.value,
    ));
}

impl DefaultShell {
    /// A shell for the guest user sitting at `path`, with its startup
    /// program resolved from the filesystem at `/bin/cash` (a shell
    /// without a startup program stays idle).
    pub fn new_at_path(path: Path, fs: &SendTree<FSObject>) -> (r: DefaultShell)
        ensures
            r.cwd == path,
            r.user.name@ == "guest"@,
            r.user.password is None,
            r.running is None,
            r.startup == spec_startup_program(*fs),
    {
        let startup_path = Path::new("/bin/cash");
        let startup = match fs.get_by_path(&startup_path) {
            Result::Ok(obj) => match obj {
                FSObject::File { contents: crate::files::FileType::Program(p), .. } => Some(*p),
                _ => None,
            },
            Result::Err(_) => None,
        };
        DefaultShell { cwd: path, user: User::default(), running: None, startup }
    }

    /// The same shell with `user` active instead.
    pub fn with_user(self, user: User) -> (r: DefaultShell)
        ensures
            r.cwd == self.cwd,
            r.user == user,
            r.running == self.running,
            r.startup == self.startup,
    {
        DefaultShell { user, ..self }
    }

    /// A shell for `user`, sitting in that user's `/home` directory.
    pub fn new_in_home(user: User, fs: &SendTree<FSObject>) -> (r: DefaultShell)
        ensures
            r.cwd@.segs == spec_split("/home/"@ + user.name@, '/'),
            r.cwd.absolute,
            r.user == user,
            r.running is None,
            r.startup == spec_startup_program(*fs),
    {
        let home = <String as vstd::string::StringExecFns>::from_str("/home/").concat(
            user.get_name(),
        );
        proof {
            reveal_strlit("/home/");
            assert(home@[0] == '/');
        }
        let path = Path::new(home.as_str());
        Self::new_at_path(path, fs).with_user(user)
    }

    /// The running process slot.
    pub fn get_running_process(&self) -> (r: &Option<RunningProcess>)
        ensures
            *r == self.running,
    {
        &self.running
    }

    /// Handles one shell-directed message.  Key events and exit codes are
    /// forwarded verbatim to the running process and acknowledged;
    /// `ChangeCwd` moves the shell and acknowledges; `GetCurrentUser`
    /// replies with a snapshot of the active user; `TrySetUser` consults
    /// the identity store and compares password hashes — both sides
    /// absent counts as a match.  Whenever the request carries a reply
    /// token, exactly one reply is issued for it.
    pub fn process_message(&mut self, message: SessionMessage, users: &UserStore) -> (step:
        ShellStep)
        ensures
            final(self).cwd == old(self).cwd || (message matches SessionMessage::Shell(
                ShellMessage::ChangeCwd(_),
                _,
            )),
            final(self).running == old(self).running,
            final(self).startup == old(self).startup,
            (match message {
                SessionMessage::Shell(_, Some(t)) => step.reply matches Some((rt, _)) && rt == t,
                _ => step.reply is None,
            }),
            match message {
                SessionMessage::Shell(m, ret) => match m {
                    ShellMessage::InputKeyEvent(_) | ShellMessage::ExitCode(_) => {
                        &&& *final(self) == *old(self)
                        &&& (ret is Some ==> step.reply == Some(
                            (ret.unwrap(), SessionMessage::Ack(None::<ReplyToken>)),
                        ))
                        &&& step.to_process == (if old(self).running is Some {
                            Some(SessionMessage::Shell(m, ret))
                        } else {
                            None::<SessionMessage>
                        })
                    },
                    ShellMessage::ChangeCwd(path) => {
                        &&& final(self).cwd == path
                        &&& final(self).user == old(self).user
                        &&& (ret is Some ==> step.reply == Some(
                            (ret.unwrap(), SessionMessage::Ack(None::<ReplyToken>)),
                        ))
                        &&& step.to_process is None
                    },
                    ShellMessage::GetCurrentUser => {
                        &&& *final(self) == *old(self)
                        &&& (ret is Some ==> step.reply == Some(
                            (
                                ret.unwrap(),
                                SessionMessage::Return(ReturnValue::User(Some(old(self).user))),
                            ),
                        ))
                        &&& step.to_process is None
                    },
                    ShellMessage::TrySetUser(name, hash) => {
                        &&& step.to_process is None
                        &&& match spec_lookup_user(users.users@, name@) {
                            Option::Some(u) => if spec_password_matches(u.password, hash) {
                                final(self).user == u && (ret is Some ==> step.reply == Some(
                                    (
                                        ret.unwrap(),
                                        SessionMessage::Return(
                                            ReturnValue::SignInResult(Ok(())),
                                        ),
                                    ),
                                ))
                            } else {
                                final(self).user == old(self).user && (ret is Some ==> step.reply
                                    == Some(
                                    (
                                        ret.unwrap(),
                                        SessionMessage::Return(
                                            ReturnValue::SignInResult(
                                                Err(SignInError::IncorrectPassword),
                                            ),
                                        ),
                                    ),
                                ))
                            },
                            Option::None => final(self).user == old(self).user && (ret is Some
                                ==> step.reply == Some(
                                (
                                    ret.unwrap(),
                                    SessionMessage::Return(
                                        ReturnValue::SignInResult(Err(SignInError::NoUser)),
                                    ),
                                ),
                            )),
                        }
                    },
                },
                _ => *final(self) == *old(self) && step.reply is None && step.to_process is None,
            },
    {
        match message {
            SessionMessage::Shell(m, ret) => match m {
                ShellMessage::InputKeyEvent(_) | ShellMessage::ExitCode(_) => {
                    let reply = match ret {
                        Option::Some(t) => Some((t, SessionMessage::Ack(None))),
                        Option::None => None,
                    };
                    let to_process = if self.running.is_some() {
                        Some(SessionMessage::Shell(m, ret))
                    } else {
                        None
                    };
                    ShellStep { reply, to_process }
                },
                ShellMessage::ChangeCwd(path) => {
                    self.cwd = path;
                    let reply = match ret {
                        Option::Some(t) => Some((t, SessionMessage::Ack(None))),
                        Option::None => None,
                    };
                    ShellStep { reply, to_process: None }
                },
                ShellMessage::GetCurrentUser => {
                    let reply = match ret {
                        Option::Some(t) => Some(
                            (
                                t,
                                SessionMessage::Return(
                                    ReturnValue::User(Some(clone_user(&self.user))),
                                ),
                            ),
                        ),
                        Option::None => None,
                    };
                    ShellStep { reply, to_process: None }
                },
                ShellMessage::TrySetUser(name, hash) => {
                    let outcome: Result<(), SignInError> = match users.get(name.as_str()) {
                        Option::Some(u) => {
                            if u.check_password(hash) {
                                let signed_in = clone_user(u);
                                self.user = signed_in;
                                Ok(())
                            } else {
                                Err(SignInError::IncorrectPassword)
                            }
                        },
                        Option::None => Err(SignInError::NoUser),
                    };
                    let reply = match ret {
                        Option::Some(t) => Some(
                            (t, SessionMessage::Return(ReturnValue::SignInResult(outcome))),
                        ),
                        Option::None => None,
                    };
                    ShellStep { reply, to_process: None }
                },
            },
            _ => ShellStep { reply: None, to_process: None },
        }
    }

    /// Marks `program` as the running process and instructs the host to
    /// start it; the request's first argument is the shell's working
    /// directory at spawn time, the rest are `args`.
    pub fn run_program(&mut self, program: u64, args: Vec<String>) -> (r: SpawnRequest)
        ensures
            final(self).cwd == old(self).cwd,
            final(self).user == old(self).user,
            final(self).startup == old(self).startup,
            final(self).running == Some(RunningProcess { program }),
            r.program == program,
            r.args.deep_view() == seq![spec_render(old(self).cwd@)] + args.deep_view(),
    {
        let cwd_text = self.cwd.to_display();
        let ghost args_view = args.deep_view();
        let mut all_args: Vec<String> = Vec::new();
        all_args.push(cwd_text);
        let mut rest = args;
        all_args.append(&mut rest);
        proof {
            assert(all_args.deep_view() =~= seq![spec_render(old(self).cwd@)] + args_view);
        }
        self.running = Some(RunningProcess { program });
        SpawnRequest { program, args: all_args }
    }

    /// Starts the configured startup program, if the shell has one.
    pub fn run_startup(&mut self, args: Vec<String>) -> (r: Option<SpawnRequest>)
        ensures
            final(self).cwd == old(self).cwd,
            final(self).user == old(self).user,
            final(self).startup == old(self).startup,
            match old(self).startup {
                Option::Some(p) => {
                    &&& final(self).running == Some(RunningProcess { program: p })
                    &&& r matches Some(req) && req.program == p && req.args.deep_view() == seq![
                        spec_render(old(self).cwd@),
                    ] + args.deep_view()
                },
                Option::None => final(self).running == old(self).running && r is None,
            },
    {
        match self.startup {
            Option::Some(p) => Some(self.run_program(p, args)),
            Option::None => None,
        }
    }

    /// Reacts to what the host observed on the running process's outbound
    /// channel: a received message is forwarded to the session router —
    /// and an exit code also ends the process — while a disconnect simply
    /// clears the running slot.
    pub fn on_process_event(&mut self, ev: ProcessEvent) -> (forward: Option<SessionMessage>)
        ensures
            final(self).cwd == old(self).cwd,
            final(self).user == old(self).user,
            final(self).startup == old(self).startup,
            match ev {
                ProcessEvent::Received(m) => {
                    &&& (if m matches SessionMessage::Shell(ShellMessage::ExitCode(_), _) {
                        final(self).running is None
                    } else {
                        final(self).running == old(self).running
                    })
                    &&& forward == Some(m)
                },
                ProcessEvent::Disconnected => final(self).running is None && forward is None,
                ProcessEvent::Nothing => final(self).running == old(self).running && forward
                    is None,
            },
    {
        match ev {
            ProcessEvent::Received(m) => {
                let exits = match &m {
                    SessionMessage::Shell(ShellMessage::ExitCode(_), _) => true,
                    _ => false,
                };
                if exits {
                    self.running = None;
                }
                Some(m)
            },
            ProcessEvent::Disconnected => {
                self.running = None;
                None
            },
            ProcessEvent::Nothing => None,
        }
    }
}

} // verus!
