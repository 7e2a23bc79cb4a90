use pseudoterm::files::FSObject;
use pseudoterm::key_events::{Key, KeyEvent};
use pseudoterm::path::Path;
use pseudoterm::send_tree::SendTree;
use pseudoterm::session::{
    ReplyToken, ReturnValue, SessionMessage, ShellMessage,
};
use pseudoterm::shell::DefaultShell;
use pseudoterm::shell::ProcessEvent;
use pseudoterm::user::{SignInError, User, UserStore, COLD_PASSWORD_HASH};

fn fixture() -> (SendTree<FSObject>, UserStore, DefaultShell) {
    let fs = SendTree::new_filesystem();
    let users = UserStore::with_defaults();
    let guest = User::from_name(&users, "guest");
    let shell = DefaultShell::new_in_home(guest, &fs);
    (fs, users, shell)
}

#[test]
fn shell_starts_idle_with_startup_resolved() {
    let (_fs, _users, shell) = fixture();
    assert!(shell.get_running_process().is_none());
    assert_eq!(shell.startup, Some(pseudoterm::programs::PROGRAM_CASH));
    assert_eq!(shell.cwd.to_display(), "/home/guest");
    assert_eq!(shell.user.get_name(), "guest");
}

#[test]
fn try_set_user_no_password_absent_hash_succeeds() {
    let (_fs, users, mut shell) = fixture();
    let step = shell.process_message(
        SessionMessage::Shell(
            ShellMessage::TrySetUser("guest".to_string(), None),
            Some(ReplyToken(7)),
        ),
        &users,
    );
    match step.reply {
        Some((ReplyToken(7), SessionMessage::Return(ReturnValue::SignInResult(Ok(()))))) => {}
        other => panic!("expected a successful sign-in reply, got {:?}", other),
    }
    assert_eq!(shell.user.get_name(), "guest");
}

#[test]
fn try_set_user_wrong_hash_fails() {
    let (_fs, users, mut shell) = fixture();
    let step = shell.process_message(
        SessionMessage::Shell(
            ShellMessage::TrySetUser("cold".to_string(), Some(12345)),
            Some(ReplyToken(8)),
        ),
        &users,
    );
    match step.reply {
        Some((
            ReplyToken(8),
            SessionMessage::Return(ReturnValue::SignInResult(Err(
                SignInError::IncorrectPassword,
            ))),
        )) => {}
        other => panic!("expected an incorrect-password reply, got {:?}", other),
    }
    assert_eq!(shell.user.get_name(), "guest");
}

#[test]
fn try_set_user_unknown_name_fails() {
    let (_fs, users, mut shell) = fixture();
    let step = shell.process_message(
        SessionMessage::Shell(
            ShellMessage::TrySetUser("nobody".to_string(), None),
            Some(ReplyToken(9)),
        ),
        &users,
    );
    match step.reply {
        Some((
            ReplyToken(9),
            SessionMessage::Return(ReturnValue::SignInResult(Err(SignInError::NoUser))),
        )) => {}
        other => panic!("expected a no-user reply, got {:?}", other),
    }
}

#[test]
fn try_set_user_right_hash_switches_user() {
    let (_fs, users, mut shell) = fixture();
    let step = shell.process_message(
        SessionMessage::Shell(
            ShellMessage::TrySetUser("cold".to_string(), Some(COLD_PASSWORD_HASH)),
            Some(ReplyToken(1)),
        ),
        &users,
    );
    match step.reply {
        Some((ReplyToken(1), SessionMessage::Return(ReturnValue::SignInResult(Ok(()))))) => {}
        other => panic!("expected a successful sign-in reply, got {:?}", other),
    }
    assert_eq!(shell.user.get_name(), "cold");
    assert_eq!(shell.user.home_directory(), "/root/");
}

#[test]
fn change_cwd_moves_and_acknowledges() {
    let (_fs, users, mut shell) = fixture();
    let step = shell.process_message(
        SessionMessage::Shell(
            ShellMessage::ChangeCwd(Path::new("/bin")),
            Some(ReplyToken(2)),
        ),
        &users,
    );
    assert!(matches!(step.reply, Some((ReplyToken(2), SessionMessage::Ack(None)))));
    assert!(step.to_process.is_none());
    assert_eq!(shell.cwd.to_display(), "/bin");
}

#[test]
fn key_events_forward_only_while_running() {
    let (_fs, users, mut shell) = fixture();
    let key = SessionMessage::Shell(
        ShellMessage::InputKeyEvent(KeyEvent { key_type: Key::Enter, modifier: None }),
        Some(ReplyToken(3)),
    );
    let step = shell.process_message(key, &users);
    assert!(matches!(step.reply, Some((ReplyToken(3), SessionMessage::Ack(None)))));
    assert!(step.to_process.is_none());

    let req = shell.run_startup(vec![]).expect("a startup program is configured");
    assert_eq!(req.program, pseudoterm::programs::PROGRAM_CASH);
    assert_eq!(req.args, vec!["/home/guest".to_string()]);
    assert!(shell.get_running_process().is_some());

    let key = SessionMessage::Shell(
        ShellMessage::InputKeyEvent(KeyEvent { key_type: Key::Enter, modifier: None }),
        None,
    );
    let step = shell.process_message(key, &users);
    assert!(step.reply.is_none());
    assert!(matches!(
        step.to_process,
        Some(SessionMessage::Shell(ShellMessage::InputKeyEvent(_), None))
    ));
}

#[test]
fn run_program_prepends_cwd() {
    let (_fs, _users, mut shell) = fixture();
    let req = shell.run_program(42, vec!["x".to_string(), "y".to_string()]);
    assert_eq!(req.program, 42);
    assert_eq!(
        req.args,
        vec!["/home/guest".to_string(), "x".to_string(), "y".to_string()]
    );
}

#[test]
fn process_exit_code_clears_running() {
    let (_fs, _users, mut shell) = fixture();
    shell.run_startup(vec![]);
    assert!(shell.get_running_process().is_some());

    let forwarded = shell.on_process_event(ProcessEvent::Received(SessionMessage::Shell(
        ShellMessage::ExitCode(0),
        None,
    )));
    assert!(matches!(
        forwarded,
        Some(SessionMessage::Shell(ShellMessage::ExitCode(0), None))
    ));
    assert!(shell.get_running_process().is_none());

    shell.run_startup(vec![]);
    assert!(shell.on_process_event(ProcessEvent::Disconnected).is_none());
    assert!(shell.get_running_process().is_none());

    assert!(shell.on_process_event(ProcessEvent::Nothing).is_none());
}
