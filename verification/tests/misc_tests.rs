use pseudoterm::key_events::{Key, KeyEvent};
use pseudoterm::pos::{Point, Rect, Size};
use pseudoterm::session::{
    create_input_event, create_interrupt, route, RouteTarget, SessionMessage, ShellMessage,
    Session, TerminalMessage,
};
use pseudoterm::programs::{clear, help, shutdown, ssh};
use pseudoterm::user::{User, UserStore};

#[test]
fn routing_is_by_tag() {
    let shell_msg = SessionMessage::Shell(ShellMessage::GetCurrentUser, None);
    assert_eq!(route(&shell_msg), RouteTarget::ToShell);
    assert_eq!(route(&SessionMessage::Interrupt), RouteTarget::ToShell);
    assert_eq!(
        route(&SessionMessage::Terminal(TerminalMessage::ForceUpdate, None)),
        RouteTarget::ToTerminal
    );
    assert_eq!(
        route(&SessionMessage::Output(
            pseudoterm::session::OutputMessage::Signal,
            None
        )),
        RouteTarget::ToOutput
    );
    assert_eq!(route(&SessionMessage::Resize(3, 4)), RouteTarget::Ignored);
    assert_eq!(route(&SessionMessage::Ack(None)), RouteTarget::Ignored);
    assert_eq!(
        route(&SessionMessage::KillSessionYesReallyTheActualSessionNotSomeInternalThing),
        RouteTarget::EndSession
    );
}

#[test]
fn host_adapter_messages() {
    let ev = KeyEvent { key_type: Key::Enter, modifier: None };
    assert!(matches!(
        create_input_event(ev),
        SessionMessage::Shell(ShellMessage::InputKeyEvent(_), None)
    ));
    assert!(matches!(create_interrupt(), SessionMessage::Interrupt));
}

#[test]
fn fresh_session_is_wired() {
    let s = Session::get_session();
    assert!(s.alive);
    assert_eq!(s.shell.user.get_name(), "guest");
    assert_eq!(s.shell.startup, Some(pseudoterm::programs::PROGRAM_CASH));
    assert_eq!(s.shell.cwd.to_display(), "/home/guest");
    assert_eq!(s.users.users.len(), 2);
    assert!(s.shell.get_running_process().is_none());
}

#[test]
fn user_store_and_snapshots() {
    let users = UserStore::with_defaults();
    assert!(User::has_password(&users, "cold"));
    assert!(!User::has_password(&users, "guest"));
    assert!(!User::has_password(&users, "nobody"));

    let cold = User::from_name(&users, "cold");
    assert_eq!(cold.get_name(), "cold");
    assert_eq!(cold.home_directory(), "/root/");
    assert_eq!(cold.get_path(), "/bin/");

    // an unknown name falls back to the guest snapshot
    let fallback = User::from_name(&users, "nobody");
    assert_eq!(fallback.get_name(), "guest");
    assert_eq!(fallback.home_directory(), "/home/guest");

    assert!(fallback.check_password(None));
    assert!(!fallback.check_password(Some(1)));
    assert!(!cold.check_password(None));
    assert!(cold.check_password(Some(pseudoterm::user::COLD_PASSWORD_HASH)));
    assert!(!cold.check_password(Some(2)));
}

#[test]
fn rect_point_containment() {
    let r = Rect::default()
        .with_origin(Point::new(2, 3))
        .with_size(Size::new(10, 5));
    assert!(r.point_within(&Point::new(4, 5)));
    assert!(!r.point_within(&Point::new(2, 5)));
    assert!(!r.point_within(&Point::new(7, 5)));
    assert!(!r.point_within(&Point::new(4, 3)));
    assert!(!r.point_within(&Point::new(4, 13)));

    let mut r = Rect::default();
    r.set_origin(Point::new(1, 1));
    r.set_size(Size::new(2, 2));
    assert!(r.point_within(&Point::new(2, 2)));

    let mut p = Point::new(1, 2);
    p.add_assign(Point::new(3, 4));
    let mut s = Size::new(5, 6);
    s.add_assign(Size::new(1, 1));
    let mut rr = pseudoterm::pos::Rectangle { height: 1, width: 1 };
    rr.add_assign(pseudoterm::pos::Rectangle { height: 2, width: 3 });
    assert_eq!(rr.height, 3);
    assert_eq!(rr.width, 4);
}

#[test]
fn companion_programs_speak_in_messages() {

    let msgs = clear::run();
    assert!(matches!(
        msgs[..],
        [
            SessionMessage::Terminal(TerminalMessage::Clear, None),
            SessionMessage::Terminal(TerminalMessage::ForceUpdate, None),
        ]
    ));

    let msgs = shutdown::run();
    assert!(matches!(
        msgs[..],
        [SessionMessage::KillSessionYesReallyTheActualSessionNotSomeInternalThing]
    ));

    let msgs = help::run();
    assert_eq!(msgs.len(), 11);
    assert!(matches!(
        msgs[10],
        SessionMessage::Terminal(TerminalMessage::ForceUpdate, None)
    ));
    let (finish, done) = help::on_message(&SessionMessage::Shell(
        ShellMessage::InputKeyEvent(KeyEvent { key_type: Key::Enter, modifier: None }),
        None,
    ));
    assert!(done);
    assert!(matches!(
        finish[1],
        SessionMessage::Shell(ShellMessage::ExitCode(0), None)
    ));
    let (nothing, done) = help::on_message(&SessionMessage::Interrupt);
    assert!(!done);
    assert!(nothing.is_empty());

    let (target, msgs) = ssh::run(&vec!["/".to_string(), "somewhere".to_string()]);
    assert_eq!(target, Some("somewhere".to_string()));
    assert!(matches!(
        msgs[..],
        [SessionMessage::Shell(ShellMessage::ExitCode(0), None)]
    ));
    let (target, msgs) = ssh::run(&vec!["/".to_string()]);
    assert!(target.is_none());
    assert_eq!(msgs.len(), 2);
}
