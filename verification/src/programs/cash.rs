//! The interactive shell program: reads a command line key by key,
//! parses it (double quotes group words, a backslash escapes the next
//! character), resolves the command name against the active user's search
//! path, and launches the first program file it finds.
//!
//! The program is an explicit state machine driven by typed messages; the
//! host owns its thread and channels and hands every observed event to
//! the methods here.  Where a step depends on a reply the host fetched
//! from the shell (the active user), the reply is an argument.

use vstd::prelude::*;
use vstd::string::StrSliceExecFns;
use vstd::string::StringExecFns;

verus! {

use crate::files::FSObject;
use crate::files::file_program;
use crate::files::spec_resolve_in;
use crate::key_events::Key;
use crate::key_events::KeyEvent;
use crate::key_events::Modifier;
use crate::path::Path;
use crate::path::spec_split;
use crate::path::split_on;
use crate::path::str_eq;
use crate::send_tree::SendTree;
use crate::session::ReplyToken;
use crate::session::SessionMessage;
use crate::session::ShellMessage;
use crate::session::TerminalMessage;
use crate::style::Color;
use crate::style::Span;
use crate::user::User;

/// One state of the command-line parser: the words finished so far, the
/// word being gathered, and the flags steering the next character.
pub ghost struct ParseState {
    pub words: Seq<Seq<char>>,
    pub cur: Seq<char>,
    pub in_string: bool,
    pub esc: bool,
    pub need_sep: bool,
    pub failed: bool,
}

/// The parser's starting state.
pub open spec fn parse_init() -> ParseState {
    ParseState {
        words: Seq::empty(),
        cur: Seq::empty(),
        in_string: false,
        esc: false,
        need_sep: false,
        failed: false,
    }
}

/// One character of command-line parsing.  A backslash keeps itself and
/// the next character verbatim; a double quote toggles string mode and,
/// when closing, demands a space right after; a space outside a string
/// ends the current word.
pub open spec fn parse_step(st: ParseState, c: char) -> ParseState {
    if st.failed {
        st
    } else if st.esc {
        ParseState { cur: st.cur.push(c), esc: false, ..st }
    } else if st.need_sep {
        if c == ' ' {
            ParseState { words: st.words.push(st.cur), cur: Seq::empty(), need_sep: false, ..st }
        } else {
            ParseState { failed: true, ..st }
        }
    } else if c == '\\' {
        ParseState { cur: st.cur.push(c), esc: true, ..st }
    } else if c == '"' {
        if st.in_string {
            ParseState { in_string: false, need_sep: true, ..st }
        } else {
            ParseState { in_string: true, ..st }
        }
    } else if c == ' ' && !st.in_string {
        ParseState { words: st.words.push(st.cur), cur: Seq::empty(), ..st }
    } else {
        ParseState { cur: st.cur.push(c), ..st }
    }
}

/// The parser's state after reading all of `s`.
pub open spec fn parse_run(s: Seq<char>) -> ParseState
    decreases s.len(),
{
    if s.len() == 0 {
        parse_init()
    } else {
        parse_step(parse_run(s.drop_last()), s.last())
    }
}

/// The words of a command line, or an error on malformed input: an
/// unterminated string, a trailing escape, or a closing quote not
/// followed by a space.
pub open spec fn spec_parse_args(s: Seq<char>) -> Result<Seq<Seq<char>>, ()> {
    let st = parse_run(s);
    if st.failed || st.in_string || st.esc || st.need_sep {
        Err(())
    } else if st.cur.len() > 0 {
        Ok(st.words.push(st.cur))
    } else {
        Ok(st.words)
    }
}

/// A failure already reached stays, whatever else follows.
proof fn lemma_parse_failed_stays(s: Seq<char>, j: int)
    requires
        0 <= j <= s.len(),
        parse_run(s.take(j)).failed,
    ensures
        parse_run(s).failed,
    decreases s.len() - j,
{
    if j < s.len() {
        let next = s.take(j + 1);
        assert(next.drop_last() =~= s.take(j));
        assert(next.last() == s[j]);
        lemma_parse_failed_stays(s, j + 1);
    } else {
        assert(s.take(j) =~= s);
    }
}

/// Splits a raw command line into its words.  Double quotes group words
/// (and must be followed by a space when they close), a backslash keeps
/// itself and the following character, and spaces separate words — a run
/// of spaces yields empty words, as the parser state machine says.
#[verifier::loop_isolation(false)]
pub fn args_parser(raw: &str) -> (r: Result<Vec<String>, ()>)
    ensures
        match r {
            Result::Ok(v) => spec_parse_args(raw@) matches Ok(ss) && v.deep_view() == ss,
            Result::Err(_) => spec_parse_args(raw@) is Err,
        },
{
    let n = raw.unicode_len();
    let mut words: Vec<String> = Vec::new();
    let mut cur: Vec<char> = Vec::new();
    let mut in_string = false;
    let mut esc = false;
    let mut need_sep = false;
    proof {
        assert(raw@.take(0int) =~= Seq::<char>::empty());
        assert(words.deep_view() =~= Seq::<Seq<char>>::empty());
    }
    let mut i: usize = 0;
    while i < n
        invariant
            i <= n,
            parse_run(raw@.take(i as int)) == (ParseState {
                words: words.deep_view(),
                cur: cur@,
                in_string,
                esc,
                need_sep,
                failed: false,
            }),
        decreases n - i,
    {
        let c = raw.get_char(i);
        proof {
            let next = raw@.take(i + 1);
            assert(next.drop_last() =~= raw@.take(i as int));
            assert(next.last() == raw@[i as int]);
        }
        if esc {
            cur.push(c);
            esc = false;
        } else if need_sep {
            if c == ' ' {
                let ghost before = words.deep_view();
                words.push(crate::text::chars_to_string(&cur));
                cur.clear();
                need_sep = false;
                proof {
                    assert(words.deep_view() =~= before.push(parse_run(raw@.take(i as int)).cur));
                }
            } else {
                proof {
                    assert(parse_run(raw@.take(i + 1)).failed);
                    lemma_parse_failed_stays(raw@, i + 1);
                }
                return Err(());
            }
        } else if c == '\\' {
            cur.push(c);
            esc = true;
        } else if c == '"' {
            if in_string {
                in_string = false;
                need_sep = true;
            } else {
                in_string = true;
            }
        } else if c == ' ' && !in_string {
            let ghost before = words.deep_view();
            words.push(crate::text::chars_to_string(&cur));
            cur.clear();
            proof {
                assert(words.deep_view() =~= before.push(parse_run(raw@.take(i as int)).cur));
            }
        } else {
            cur.push(c);
        }
        i += 1;
    }
    proof {
        assert(raw@.take(n as int) =~= raw@);
    }
    if in_string || esc || need_sep {
        return Err(());
    }
    if cur.len() > 0 {
        let ghost before = words.deep_view();
        words.push(crate::text::chars_to_string(&cur));
        proof {
            assert(words.deep_view() =~= before.push(cur@));
        }
    }
    Ok(words)
}

/// The interpreter's states.
#[derive(Clone, Copy, Debug, PartialEq, Eq, Structural)]
pub enum CashState {
    /// About to greet and prompt for the first time.
    Initial,
    /// Gathering a command line key by key.
    Input,
    /// A child program is running.
    Executing,
    /// Told to stop; the program is done.
    Interrupting,
}

/// The interpreter: the command line gathered so far, the working
/// directory it was started in, and whether a child program is alive.
pub struct Cash {
    pub state: CashState,
    pub input: Vec<char>,
    pub cwd: String,
    pub running: bool,
}

/// What one step asks of the host: messages for the session router, at
/// most one child program to start, at most one message to forward to the
/// running child, and whether the interpreter is finished.
pub struct CashStep {
    pub to_session: Vec<SessionMessage>,
    pub spawn: Option<crate::shell::SpawnRequest>,
    pub to_child: Option<SessionMessage>,
    pub done: bool,
}

/// How resolving a command line ends: nothing to do, a program to start
/// with the user-supplied arguments, a named file that is not a program,
/// or a name found nowhere on the search path.
pub ghost enum CommandOutcome {
    ParseFailure,
    EmptyLine,
    Launch(u64, Seq<Seq<char>>),
    NotExecutable(Seq<char>),
    NotOnPath(Seq<char>),
}

/// Resolution of `name` against each root of the search path in order:
/// the first root yielding a program file wins; a root yielding the name
/// as anything else stops the search; a root where the name is absent is
/// passed over.
pub open spec fn spec_search(
    fs: SendTree<FSObject>,
    roots: Seq<Seq<char>>,
    name: Seq<char>,
    rest: Seq<Seq<char>>,
) -> CommandOutcome
    decreases roots.len(),
{
    if roots.len() == 0 {
        CommandOutcome::NotOnPath(name)
    } else {
        match spec_resolve_in(fs, spec_split(roots[0], '/').push(name), 0) {
            Result::Ok(o) => match file_program(o) {
                Option::Some(p) => CommandOutcome::Launch(p, rest),
                Option::None => CommandOutcome::NotExecutable(name),
            },
            Result::Err(_) => spec_search(fs, roots.drop_first(), name, rest),
        }
    }
}

/// How evaluating the gathered command line ends, given the active
/// user's search path and the filesystem.
pub open spec fn spec_command_outcome(
    input: Seq<char>,
    search_path: Seq<char>,
    fs: SendTree<FSObject>,
) -> CommandOutcome {
    match spec_parse_args(input) {
        Result::Err(_) => CommandOutcome::ParseFailure,
        Result::Ok(words) => if words.len() == 0 {
            CommandOutcome::EmptyLine
        } else {
            spec_search(fs, spec_split(search_path, ':'), words[0], words.drop_first())
        },
    }
}

/// A character as typed: upper case under shift, lower case otherwise
/// (only ASCII letters move).
pub open spec fn spec_shift_char(c: char, shift: bool) -> char {
    if shift {
        if 'a' <= c <= 'z' {
            (c as int - 32) as char
        } else {
            c
        }
    } else {
        if 'A' <= c <= 'Z' {
            (c as int + 32) as char
        } else {
            c
        }
    }
}

fn shift_char(c: char, shift: bool) -> (r: char)
    ensures
        r == spec_shift_char(c, shift),
{
    if shift {
        if c >= 'a' && c <= 'z' {
            ((c as u8) - 32) as char
        } else {
            c
        }
    } else {
        if c >= 'A' && c <= 'Z' {
            ((c as u8) + 32) as char
        } else {
            c
        }
    }
}

/// The home directory shown as `~`: a working directory led by the
/// user's `/home` directory has that lead replaced, any other is shown
/// as it stands.
pub open spec fn spec_tilde_contract(cwd: Seq<char>, home: Seq<char>) -> Seq<char> {
    if home.len() <= cwd.len() && cwd.take(home.len() as int) == home {
        "~"@ + cwd.skip(home.len() as int)
    } else {
        cwd
    }
}

/// The prompt prefix: the user's name, the host name, and the working
/// directory with the user's home shown as `~`.
pub open spec fn spec_prefix_text(user_name: Seq<char>, cwd: Seq<char>) -> Seq<char> {
    "["@ + user_name + "@deep-freezer:"@ + spec_tilde_contract(cwd, "/home/"@ + user_name)
        + "]$ "@
}

/// A message pushing an undecorated span of the given text.
pub open spec fn is_plain_span(m: SessionMessage, text: Seq<char>) -> bool {
    &&& m matches SessionMessage::Terminal(TerminalMessage::PushSpan(s), t) && s.text@ == text
        && s.fg_color is None && s.decoration == 0u8 && t is None
}

/// A message pushing a new line of the given text.
pub open spec fn is_push_line(m: SessionMessage, text: Seq<char>) -> bool {
    &&& m matches SessionMessage::Terminal(TerminalMessage::PushLine(x), t) && x@ == text
        && t is None
}

/// A message replacing the most recent span with an undecorated span of
/// the given text.
pub open spec fn is_set_last_span(m: SessionMessage, text: Seq<char>) -> bool {
    &&& m matches SessionMessage::Terminal(TerminalMessage::SetSpan(i, s), t) && i == 0usize
        && s.text@ == text && s.fg_color is None && s.decoration == 0u8 && t is None
}

/// The snapshot request.
pub open spec fn is_force_update(m: SessionMessage) -> bool {
    &&& m matches SessionMessage::Terminal(TerminalMessage::ForceUpdate, t) && t is None
}

/// The bold, colored prompt span for the given user and directory.
pub open spec fn is_prefix_span(m: SessionMessage, user_name: Seq<char>, cwd: Seq<char>) -> bool {
    &&& m matches SessionMessage::Terminal(TerminalMessage::PushSpan(s), t) && s.text@
        == spec_prefix_text(user_name, cwd) && s.fg_color == Some(Color(20u8, 160u8, 190u8))
        && s.decoration == 1u8 && t is None
}

/// The three messages sent on entering the input state: the prompt
/// prefix, a fresh empty span for the command line, and a snapshot
/// request.
pub open spec fn is_prompt(msgs: Seq<SessionMessage>, at: int, user_name: Seq<char>, cwd: Seq<
    char,
>) -> bool {
    &&& 0 <= at && at + 3 <= msgs.len()
    &&& is_prefix_span(msgs[at], user_name, cwd)
    &&& is_plain_span(msgs[at + 1], Seq::empty())
    &&& is_force_update(msgs[at + 2])
}

impl Cash {
    /// A fresh interpreter; by convention the first argument is the
    /// working directory of whoever started it.
    pub fn new(args: Vec<String>) -> (r: Cash)
        requires
            args@.len() > 0,
        ensures
            r.state is Initial,
            r.input@ =~= Seq::<char>::empty(),
            r.cwd == args@[0],
            r.running == false,
    {
        let mut args = args;
        let cwd = args.remove(0);
        Cash { state: CashState::Initial, input: Vec::new(), cwd, running: false }
    }

    /// The prompt prefix span for the active user.
    fn prefix_span(&self, user: &User) -> (r: Span)
        ensures
            r.text@ == spec_prefix_text(user.name@, self.cwd@),
            r.fg_color == Some(Color(20u8, 160u8, 190u8)),
            r.decoration == 1u8,
    {
        let home = <String as StringExecFns>::from_str("/home/").concat(user.get_name());
        let cwd_len = self.cwd.as_str().unicode_len();
        let home_len = home.as_str().unicode_len();
        let shown: String = if home_len <= cwd_len && str_eq(
            self.cwd.as_str().substring_char(0, home_len),
            home.as_str(),
        ) {
            <String as StringExecFns>::from_str("~").concat(
                self.cwd.as_str().substring_char(home_len, cwd_len),
            )
        } else {
            proof {
                assert(!(home@.len() <= self.cwd@.len() && self.cwd@.take(home@.len() as int)
                    == home@)) by {
                    if home@.len() <= self.cwd@.len() {
                        assert(self.cwd@.take(home@.len() as int) =~= self.cwd@.subrange(
                            0,
                            home@.len() as int,
                        ));
                    }
                };
            }
            self.cwd.clone()
        };
        proof {
            if home@.len() <= self.cwd@.len() && self.cwd@.take(home@.len() as int) == home@ {
                assert(shown@ =~= "~"@ + self.cwd@.skip(home@.len() as int));
            }
            assert(shown@ == spec_tilde_contract(self.cwd@, "/home/"@ + user.name@));
        }
        let text = <String as StringExecFns>::from_str("[").concat(user.get_name()).concat(
            "@deep-freezer:",
        ).concat(shown.as_str()).concat("]$ ");
        proof {
            assert(text@ =~= spec_prefix_text(user.name@, self.cwd@));
            assert(0u8 ^ 1u8 == 1u8) by (bit_vector);
        }
        Span::new().with_text(text).with_fg_color(Color::new_rgb(20, 160, 190)).bold()
    }

    /// Appends the three prompt messages for entering the input state.
    fn push_prompt(&self, user: &User, msgs: &mut Vec<SessionMessage>)
        ensures
            final(msgs)@.len() == old(msgs)@.len() + 3,
            forall|k: int| 0 <= k < old(msgs)@.len() ==> final(msgs)@[k] == old(msgs)@[k],
            is_prompt(final(msgs)@, old(msgs)@.len() as int, user.name@, self.cwd@),
    {
        msgs.push(
            SessionMessage::Terminal(TerminalMessage::PushSpan(self.prefix_span(user)), None),
        );
        msgs.push(SessionMessage::Terminal(TerminalMessage::PushSpan(Span::new()), None));
        msgs.push(SessionMessage::Terminal(TerminalMessage::ForceUpdate, None));
    }

    /// The greeting step: the welcome span, then the first prompt.
    pub fn on_start(&mut self, user: &User) -> (msgs: Vec<SessionMessage>)
        requires
            old(self).state is Initial,
        ensures
            final(self).state is Input,
            final(self).input == old(self).input,
            final(self).cwd == old(self).cwd,
            final(self).running == old(self).running,
            msgs@.len() == 4,
            (msgs@[0] matches SessionMessage::Terminal(TerminalMessage::PushSpan(s), t)
                && s.text@ == "Welcome to CA$H shell!\r\n"@ && s.fg_color == Some(
                Color(255u8, 255u8, 255u8),
            ) && s.decoration == 2u8 && t is None),
            is_prompt(msgs@, 1, user.name@, old(self).cwd@),
    {
        let mut msgs: Vec<SessionMessage> = Vec::new();
        proof {
            assert(0u8 ^ 2u8 == 2u8) by (bit_vector);
        }
        msgs.push(
            SessionMessage::Terminal(
                TerminalMessage::PushSpan(
                    Span::new().with_text(
                        <String as StringExecFns>::from_str("Welcome to CA$H shell!\r\n"),
                    ).with_fg_color(Color::new_rgb(255, 255, 255)).italic(),
                ),
                None,
            ),
        );
        self.push_prompt(user, &mut msgs);
        self.state = CashState::Input;
        msgs
    }

    /// One keypress while gathering a command line.  Characters are
    /// appended (upper case under shift, lower case otherwise), backspace
    /// removes the last one, and the redrawn line is sent after every
    /// key.  Enter echoes the line, evaluates it, and either launches the
    /// resolved program, reports why it could not, or — on an empty line
    /// — simply prompts again without starting anything.
    pub fn on_key(&mut self, event: KeyEvent, user: &User, fs: &SendTree<FSObject>) -> (step:
        CashStep)
        requires
            old(self).state is Input,
        ensures
            final(self).cwd == old(self).cwd,
            step.to_child is None,
            step.done == false,
            match event.key_type {
                Key::Char { data } => {
                    &&& final(self).state is Input
                    &&& final(self).running == old(self).running
                    &&& final(self).input@ == old(self).input@.push(
                        spec_shift_char(data, event.modifier == Some(Modifier::Shift)),
                    )
                    &&& step.spawn is None
                    &&& step.to_session@.len() == 2
                    &&& is_set_last_span(step.to_session@[0], final(self).input@)
                    &&& is_force_update(step.to_session@[1])
                },
                Key::Backspace => {
                    &&& final(self).state is Input
                    &&& final(self).running == old(self).running
                    &&& final(self).input@ == (if old(self).input@.len() > 0 {
                        old(self).input@.drop_last()
                    } else {
                        old(self).input@
                    })
                    &&& step.spawn is None
                    &&& step.to_session@.len() == 2
                    &&& is_set_last_span(step.to_session@[0], final(self).input@)
                    &&& is_force_update(step.to_session@[1])
                },
                Key::Mod => {
                    &&& final(self).state is Input
                    &&& final(self).running == old(self).running
                    &&& final(self).input == old(self).input
                    &&& step.spawn is None
                    &&& step.to_session@.len() == 2
                    &&& is_set_last_span(step.to_session@[0], final(self).input@)
                    &&& is_force_update(step.to_session@[1])
                },
                Key::Enter => {
                    &&& final(self).input@ == Seq::<char>::empty()
                    &&& step.to_session@.len() >= 2
                    &&& is_set_last_span(step.to_session@[0], old(self).input@)
                    &&& is_plain_span(step.to_session@[1], "\r\n"@)
                    &&& match spec_command_outcome(old(self).input@, user.path@, *fs) {
                        CommandOutcome::ParseFailure => {
                            &&& final(self).state is Input
                            &&& final(self).running == old(self).running
                            &&& step.spawn is None
                            &&& step.to_session@.len() == 6
                            &&& is_push_line(step.to_session@[2], "Error parsing input"@)
                            &&& is_prompt(step.to_session@, 3, user.name@, old(self).cwd@)
                        },
                        CommandOutcome::EmptyLine => {
                            &&& final(self).state is Input
                            &&& final(self).running == old(self).running
                            &&& step.spawn is None
                            &&& step.to_session@.len() == 5
                            &&& is_prompt(step.to_session@, 2, user.name@, old(self).cwd@)
                        },
                        CommandOutcome::Launch(p, rest) => {
                            &&& final(self).state is Executing
                            &&& final(self).running == true
                            &&& step.to_session@.len() == 2
                            &&& step.spawn matches Some(req) && req.program == p
                                && req.args.deep_view() == seq![old(self).cwd@] + rest
                        },
                        CommandOutcome::NotExecutable(name) => {
                            &&& final(self).state is Input
                            &&& final(self).running == old(self).running
                            &&& step.spawn is None
                            &&& step.to_session@.len() == 6
                            &&& is_push_line(
                                step.to_session@[2],
                                name + ": not an executable file"@,
                            )
                            &&& is_prompt(step.to_session@, 3, user.name@, old(self).cwd@)
                        },
                        CommandOutcome::NotOnPath(name) => {
                            &&& final(self).state is Input
                            &&& final(self).running == old(self).running
                            &&& step.spawn is None
                            &&& step.to_session@.len() == 6
                            &&& is_push_line(step.to_session@[2], name + ": command not found"@)
                            &&& is_prompt(step.to_session@, 3, user.name@, old(self).cwd@)
                        },
                    }
                },
            },
    {
        match event.key_type {
            Key::Char { data } => {
                let shift = match event.modifier {
                    Option::Some(Modifier::Shift) => true,
                    _ => false,
                };
                self.input.push(shift_char(data, shift));
                let step = CashStep {
                    to_session: self.refresh_line(),
                    spawn: None,
                    to_child: None,
                    done: false,
                };
                step
            },
            Key::Backspace => {
                if self.input.len() > 0 {
                    self.input.pop();
                }
                CashStep {
                    to_session: self.refresh_line(),
                    spawn: None,
                    to_child: None,
                    done: false,
                }
            },
            Key::Mod => {
                CashStep {
                    to_session: self.refresh_line(),
                    spawn: None,
                    to_child: None,
                    done: false,
                }
            },
            Key::Enter => self.evaluate(user, fs),
        }
    }

    /// The two messages redrawing the command line in place.
    fn refresh_line(&self) -> (msgs: Vec<SessionMessage>)
        ensures
            msgs@.len() == 2,
            is_set_last_span(msgs@[0], self.input@),
            is_force_update(msgs@[1]),
    {
        let text = crate::text::chars_to_string(&self.input);
        let mut msgs: Vec<SessionMessage> = Vec::new();
        msgs.push(
            SessionMessage::Terminal(
                TerminalMessage::SetSpan(0, Span::new().with_text(text)),
                None,
            ),
        );
        msgs.push(SessionMessage::Terminal(TerminalMessage::ForceUpdate, None));
        msgs
    }

    /// Echoes the finished line, parses it, resolves the command name
    /// against the user's search path, and acts on the outcome.
    fn evaluate(&mut self, user: &User, fs: &SendTree<FSObject>) -> (step: CashStep)
        requires
            old(self).state is Input,
        ensures
            final(self).cwd == old(self).cwd,
            final(self).input@ == Seq::<char>::empty(),
            step.to_child is None,
            step.done == false,
            step.to_session@.len() >= 2,
            is_set_last_span(step.to_session@[0], old(self).input@),
            is_plain_span(step.to_session@[1], "\r\n"@),
            match spec_command_outcome(old(self).input@, user.path@, *fs) {
                CommandOutcome::ParseFailure => {
                    &&& final(self).state is Input
                    &&& final(self).running == old(self).running
                    &&& step.spawn is None
                    &&& step.to_session@.len() == 6
                    &&& is_push_line(step.to_session@[2], "Error parsing input"@)
                    &&& is_prompt(step.to_session@, 3, user.name@, old(self).cwd@)
                },
                CommandOutcome::EmptyLine => {
                    &&& final(self).state is Input
                    &&& final(self).running == old(self).running
                    &&& step.spawn is None
                    &&& step.to_session@.len() == 5
                    &&& is_prompt(step.to_session@, 2, user.name@, old(self).cwd@)
                },
                CommandOutcome::Launch(p, rest) => {
                    &&& final(self).state is Executing
                    &&& final(self).running == true
                    &&& step.to_session@.len() == 2
                    &&& step.spawn matches Some(req) && req.program == p && req.args.deep_view()
                        == seq![old(self).cwd@] + rest
                },
                CommandOutcome::NotExecutable(name) => {
                    &&& final(self).state is Input
                    &&& final(self).running == old(self).running
                    &&& step.spawn is None
                    &&& step.to_session@.len() == 6
                    &&& is_push_line(step.to_session@[2], name + ": not an executable file"@)
                    &&& is_prompt(step.to_session@, 3, user.name@, old(self).cwd@)
                },
                CommandOutcome::NotOnPath(name) => {
                    &&& final(self).state is Input
                    &&& final(self).running == old(self).running
                    &&& step.spawn is None
                    &&& step.to_session@.len() == 6
                    &&& is_push_line(step.to_session@[2], name + ": command not found"@)
                    &&& is_prompt(step.to_session@, 3, user.name@, old(self).cwd@)
                },
            },
    {
        let ghost line = self.input@;
        let input_text = crate::text::chars_to_string(&self.input);
        self.input = Vec::new();
        let mut msgs: Vec<SessionMessage> = Vec::new();
        msgs.push(
            SessionMessage::Terminal(
                TerminalMessage::SetSpan(0, Span::new().with_text(input_text.clone())),
                None,
            ),
        );
        msgs.push(
            SessionMessage::Terminal(
                TerminalMessage::PushSpan(
                    Span::new().with_text(<String as StringExecFns>::from_str("\r\n")),
                ),
                None,
            ),
        );
        proof {
            assert(is_set_last_span(msgs@[0], line));
            assert(is_plain_span(msgs@[1], "\r\n"@));
        }
        let parsed = args_parser(input_text.as_str());
        match parsed {
            Result::Err(_) => {
                msgs.push(
                    SessionMessage::Terminal(
                        TerminalMessage::PushLine(
                            <String as StringExecFns>::from_str("Error parsing input"),
                        ),
                        None,
                    ),
                );
                self.push_prompt(user, &mut msgs);
                self.state = CashState::Input;
                CashStep { to_session: msgs, spawn: None, to_child: None, done: false }
            },
            Result::Ok(args) => {
                if args.len() == 0 {
                    self.push_prompt(user, &mut msgs);
                    self.state = CashState::Input;
                    CashStep { to_session: msgs, spawn: None, to_child: None, done: false }
                } else {
                    let ghost words = spec_parse_args(line).unwrap();
                    let mut rest = args;
                    let name = rest.remove(0);
                    proof {
                        assert(rest.deep_view() =~= words.drop_first());
                    }
                    self.resolve_and_act(user, fs, name, rest, msgs)
                }
            },
        }
    }

    /// Walks the search path roots in order and acts on the first hit:
    /// launch a program file, report a non-program hit, or — with the
    /// roots exhausted — report the name as not found.
    #[verifier::loop_isolation(false)]
    fn resolve_and_act(
        &mut self,
        user: &User,
        fs: &SendTree<FSObject>,
        name: String,
        rest: Vec<String>,
        msgs: Vec<SessionMessage>,
    ) -> (step: CashStep)
        requires
            old(self).state is Input,
        ensures
            final(self).cwd == old(self).cwd,
            final(self).input == old(self).input,
            step.to_child is None,
            step.done == false,
            forall|k: int| 0 <= k < msgs@.len() ==> step.to_session@[k] == msgs@[k],
            match spec_search(*fs, spec_split(user.path@, ':'), name@, rest.deep_view()) {
                CommandOutcome::Launch(p, args_rest) => {
                    &&& final(self).state is Executing
                    &&& final(self).running == true
                    &&& step.to_session@ == msgs@
                    &&& step.spawn matches Some(req) && req.program == p && req.args.deep_view()
                        == seq![old(self).cwd@] + args_rest
                },
                CommandOutcome::NotExecutable(n) => {
                    &&& final(self).state is Input
                    &&& final(self).running == old(self).running
                    &&& step.spawn is None
                    &&& step.to_session@.len() == msgs@.len() + 4
                    &&& is_push_line(step.to_session@[msgs@.len() as int], n
                        + ": not an executable file"@)
                    &&& is_prompt(
                        step.to_session@,
                        msgs@.len() as int + 1,
                        user.name@,
                        old(self).cwd@,
                    )
                },
                CommandOutcome::NotOnPath(n) => {
                    &&& final(self).state is Input
                    &&& final(self).running == old(self).running
                    &&& step.spawn is None
                    &&& step.to_session@.len() == msgs@.len() + 4
                    &&& is_push_line(step.to_session@[msgs@.len() as int], n
                        + ": command not found"@)
                    &&& is_prompt(
                        step.to_session@,
                        msgs@.len() as int + 1,
                        user.name@,
                        old(self).cwd@,
                    )
                },
                _ => false,
            },
    {
        let ghost rest_view = rest.deep_view();
        let roots = split_on(user.get_path(), ':');
        let ghost roots_view = roots.deep_view();
        proof {
            assert(roots_view.skip(0int) =~= roots_view);
        }
        let mut msgs = msgs;
        let ghost msgs0 = msgs@;
        let mut j: usize = 0;
        while j < roots.len()
            invariant
                j <= roots_view.len(),
                spec_search(*fs, roots_view, name@, rest_view) == spec_search(
                    *fs,
                    roots_view.skip(j as int),
                    name@,
                    rest_view,
                ),
                msgs@ == msgs0,
                *self == *old(self),
            decreases roots_view.len() - j,
        {
            let mut p = Path::new(roots[j].as_str());
            let ghost base_segs = p@.segs;
            p.components.push(name.clone());
            proof {
                assert(p@.segs =~= base_segs.push(name@));
                assert(roots_view.skip(j as int)[0] == roots_view[j as int]);
            }
            let found = match fs.get_by_path(&p) {
                Result::Ok(obj) => match obj {
                    FSObject::File { contents: crate::files::FileType::Program(prog), .. } => Some(
                        Some(*prog),
                    ),
                    _ => Some(None),
                },
                Result::Err(_) => None,
            };
            match found {
                Option::Some(Option::Some(prog)) => {
                    let mut spawn_args: Vec<String> = Vec::new();
                    spawn_args.push(self.cwd.clone());
                    let mut rest = rest;
                    spawn_args.append(&mut rest);
                    proof {
                        assert(spawn_args.deep_view() =~= seq![self.cwd@] + rest_view);
                    }
                    self.state = CashState::Executing;
                    self.running = true;
                    return CashStep {
                        to_session: msgs,
                        spawn: Some(crate::shell::SpawnRequest { program: prog, args: spawn_args }),
                        to_child: None,
                        done: false,
                    };
                },
                Option::Some(Option::None) => {
                    let ghost before = msgs@;
                    msgs.push(
                        SessionMessage::Terminal(
                            TerminalMessage::PushLine(
                                name.concat(": not an executable file"),
                            ),
                            None,
                        ),
                    );
                    self.push_prompt(user, &mut msgs);
                    self.state = CashState::Input;
                    return CashStep { to_session: msgs, spawn: None, to_child: None, done: false };
                },
                Option::None => {
                    proof {
                        assert(roots_view.skip(j as int).drop_first() =~= roots_view.skip(j + 1));
                    }
                    j += 1;
                },
            }
        }
        proof {
            assert(roots_view.skip(roots_view.len() as int) =~= Seq::<Seq<char>>::empty());
        }
        let ghost before = msgs@;
        msgs.push(
            SessionMessage::Terminal(
                TerminalMessage::PushLine(name.concat(": command not found")),
                None,
            ),
        );
        self.push_prompt(user, &mut msgs);
        self.state = CashState::Input;
        CashStep { to_session: msgs, spawn: None, to_child: None, done: false }
    }

    /// One message observed while a child program runs: an exit code ends
    /// the child and prompts again; anything else is forwarded to the
    /// child untouched.
    pub fn on_child_event(&mut self, m: SessionMessage, user: &User) -> (step: CashStep)
        requires
            old(self).state is Executing,
        ensures
            final(self).cwd == old(self).cwd,
            final(self).input == old(self).input,
            step.done == false,
            if m matches SessionMessage::Shell(ShellMessage::ExitCode(_), _) {
                &&& final(self).state is Input
                &&& final(self).running == false
                &&& step.to_child is None
                &&& step.spawn is None
                &&& step.to_session@.len() == 3
                &&& is_prompt(step.to_session@, 0, user.name@, old(self).cwd@)
            } else {
                &&& *final(self) == *old(self)
                &&& step.to_child == Some(m)
                &&& step.spawn is None
                &&& step.to_session@.len() == 0
            },
    {
        let exits = match &m {
            SessionMessage::Shell(ShellMessage::ExitCode(_), _) => true,
            _ => false,
        };
        if exits {
            self.running = false;
            self.state = CashState::Input;
            let mut msgs: Vec<SessionMessage> = Vec::new();
            self.push_prompt(user, &mut msgs);
            CashStep { to_session: msgs, spawn: None, to_child: None, done: false }
        } else {
            CashStep { to_session: Vec::new(), spawn: None, to_child: Some(m), done: false }
        }
    }

    /// The child's channel is gone: clear the slot and prompt again.
    pub fn on_child_gone(&mut self, user: &User) -> (step: CashStep)
        requires
            old(self).state is Executing,
        ensures
            final(self).cwd == old(self).cwd,
            final(self).input == old(self).input,
            final(self).state is Input,
            final(self).running == false,
            step.spawn is None,
            step.to_child is None,
            step.done == false,
            step.to_session@.len() == 3,
            is_prompt(step.to_session@, 0, user.name@, old(self).cwd@),
    {
        self.running = false;
        self.state = CashState::Input;
        let mut msgs: Vec<SessionMessage> = Vec::new();
        self.push_prompt(user, &mut msgs);
        CashStep { to_session: msgs, spawn: None, to_child: None, done: false }
    }

    /// An interrupt: the interpreter stops and reports exit code 0.
    pub fn on_interrupt(&mut self) -> (step: CashStep)
        ensures
            final(self).cwd == old(self).cwd,
            final(self).input == old(self).input,
            final(self).state is Interrupting,
            final(self).running == old(self).running,
            step.spawn is None,
            step.to_child is None,
            step.done == true,
            step.to_session@.len() == 1,
            step.to_session@[0] == SessionMessage::Shell(
                ShellMessage::ExitCode(0u32),
                None::<ReplyToken>,
            ),
    {
        self.state = CashState::Interrupting;
        let mut msgs: Vec<SessionMessage> = Vec::new();
        msgs.push(SessionMessage::Shell(ShellMessage::ExitCode(0), None));
        CashStep { to_session: msgs, spawn: None, to_child: None, done: true }
    }
}

} // verus!
