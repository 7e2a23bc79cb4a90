use pseudoterm::files::FSObject;
use pseudoterm::key_events::{Key, KeyEvent, Modifier};
use pseudoterm::programs::cash::{args_parser, Cash, CashState};
use pseudoterm::send_tree::SendTree;
use pseudoterm::session::{SessionMessage, ShellMessage, TerminalMessage};
use pseudoterm::user::{User, UserStore};

fn fixture() -> (SendTree<FSObject>, User, Cash) {
    let fs = SendTree::new_filesystem();
    let users = UserStore::with_defaults();
    let user = User::from_name(&users, "guest");
    let mut cash = Cash::new(vec!["/home/guest".to_string()]);
    cash.on_start(&user);
    (fs, user, cash)
}

fn key(k: Key) -> KeyEvent {
    KeyEvent { key_type: k, modifier: None }
}

fn pushed_lines(msgs: &[SessionMessage]) -> Vec<String> {
    msgs.iter()
        .filter_map(|m| match m {
            SessionMessage::Terminal(TerminalMessage::PushLine(x), _) => Some(x.clone()),
            _ => None,
        })
        .collect()
}

#[test]
fn args_parser_words_and_quotes() {
    assert_eq!(args_parser("a b"), Ok(vec!["a".to_string(), "b".to_string()]));
    assert_eq!(args_parser(""), Ok(vec![]));
    assert_eq!(
        args_parser("\"a b\" c"),
        Ok(vec!["a b".to_string(), "c".to_string()])
    );
    // a run of spaces yields an empty word between them
    assert_eq!(
        args_parser("a  b"),
        Ok(vec!["a".to_string(), "".to_string(), "b".to_string()])
    );
    // an escape keeps the backslash and the next character
    assert_eq!(args_parser("a\\ b"), Ok(vec!["a\\ b".to_string()]));
}

#[test]
fn args_parser_malformed_input() {
    // unterminated quoted string
    assert_eq!(args_parser("\"abc"), Err(()));
    // trailing escape
    assert_eq!(args_parser("abc\\"), Err(()));
    // a closing quote must be followed by a space
    assert_eq!(args_parser("\"a\"b"), Err(()));
    assert_eq!(args_parser("\"a\""), Err(()));
}

// An idle shell given an empty line and Enter prompts again without
// starting anything.
#[test]
fn empty_enter_spawns_nothing() {
    let (fs, user, mut cash) = fixture();
    assert_eq!(cash.state, CashState::Input);

    let step = cash.on_key(key(Key::Enter), &user, &fs);
    assert!(step.spawn.is_none());
    assert!(step.to_child.is_none());
    assert!(!step.done);
    assert_eq!(cash.state, CashState::Input);
    assert!(!cash.running);
    assert!(pushed_lines(&step.to_session).is_empty());
}

// An unresolvable command name is reported as not found and the shell
// prompts again.
#[test]
fn unknown_command_reports_not_found() {
    let (fs, user, mut cash) = fixture();
    for c in "nosuch".chars() {
        cash.on_key(key(Key::Char { data: c }), &user, &fs);
    }
    let step = cash.on_key(key(Key::Enter), &user, &fs);
    assert!(step.spawn.is_none());
    assert_eq!(cash.state, CashState::Input);
    assert!(!cash.running);
    assert_eq!(pushed_lines(&step.to_session), vec!["nosuch: command not found".to_string()]);
}

// A named file that is no program stops the search with its own report.
#[test]
fn non_program_reports_not_executable() {
    let fs = SendTree::new_filesystem();
    let users = UserStore::with_defaults();
    // search the whole root, where `etc` is a folder
    let mut user = User::from_name(&users, "guest");
    user.path = "/".to_string();
    let mut cash = Cash::new(vec!["/".to_string()]);
    cash.on_start(&user);
    for c in "etc".chars() {
        cash.on_key(key(Key::Char { data: c }), &user, &fs);
    }
    let step = cash.on_key(key(Key::Enter), &user, &fs);
    assert!(step.spawn.is_none());
    assert_eq!(
        pushed_lines(&step.to_session),
        vec!["etc: not an executable file".to_string()]
    );
}

// A resolvable name launches its program with the working directory as
// the first argument.
#[test]
fn resolvable_command_launches() {
    let (fs, user, mut cash) = fixture();
    for c in "help extra".chars() {
        cash.on_key(key(Key::Char { data: c }), &user, &fs);
    }
    let step = cash.on_key(key(Key::Enter), &user, &fs);
    let req = step.spawn.expect("the help program resolves");
    assert_eq!(req.program, pseudoterm::programs::PROGRAM_HELP);
    assert_eq!(req.args, vec!["/home/guest".to_string(), "extra".to_string()]);
    assert_eq!(cash.state, CashState::Executing);
    assert!(cash.running);

    // the child's exit code brings the prompt back
    let step = cash.on_child_event(
        SessionMessage::Shell(ShellMessage::ExitCode(0), None),
        &user,
    );
    assert_eq!(cash.state, CashState::Input);
    assert!(!cash.running);
    assert_eq!(step.to_session.len(), 3);
}

#[test]
fn keys_edit_the_line() {
    let (fs, user, mut cash) = fixture();
    cash.on_key(
        KeyEvent { key_type: Key::Char { data: 'A' }, modifier: None },
        &user,
        &fs,
    );
    cash.on_key(
        KeyEvent { key_type: Key::Char { data: 'b' }, modifier: Some(Modifier::Shift) },
        &user,
        &fs,
    );
    cash.on_key(
        KeyEvent { key_type: Key::Char { data: 'c' }, modifier: None },
        &user,
        &fs,
    );
    assert_eq!(cash.input, vec!['a', 'B', 'c']);

    cash.on_key(key(Key::Backspace), &user, &fs);
    assert_eq!(cash.input, vec!['a', 'B']);

    // a bare modifier changes nothing
    cash.on_key(key(Key::Mod), &user, &fs);
    assert_eq!(cash.input, vec!['a', 'B']);
}

#[test]
fn malformed_line_reports_parse_error() {
    let (fs, user, mut cash) = fixture();
    for c in "\"oops".chars() {
        cash.on_key(key(Key::Char { data: c }), &user, &fs);
    }
    let step = cash.on_key(key(Key::Enter), &user, &fs);
    assert!(step.spawn.is_none());
    assert_eq!(pushed_lines(&step.to_session), vec!["Error parsing input".to_string()]);
    assert_eq!(cash.state, CashState::Input);
}

#[test]
fn interrupt_finishes_with_exit_code() {
    let (_fs, _user, mut cash) = fixture();
    let step = cash.on_interrupt();
    assert!(step.done);
    assert_eq!(cash.state, CashState::Interrupting);
    assert!(matches!(
        step.to_session[..],
        [SessionMessage::Shell(ShellMessage::ExitCode(0), None)]
    ));
}

#[test]
fn greeting_prompts_with_contracted_home() {
    let fs = SendTree::new_filesystem();
    let users = UserStore::with_defaults();
    let user = User::from_name(&users, "guest");
    let mut cash = Cash::new(vec!["/home/guest/notes".to_string()]);
    let msgs = cash.on_start(&user);
    assert_eq!(msgs.len(), 4);
    match &msgs[1] {
        SessionMessage::Terminal(TerminalMessage::PushSpan(s), None) => {
            assert_eq!(s.text, "[guest@deep-freezer:~/notes]$ ");
        }
        other => panic!("expected the prompt span, got {:?}", other),
    }
}
