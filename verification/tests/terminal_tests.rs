use pseudoterm::session::{OutputMessage, SessionMessage, TerminalMessage};
use pseudoterm::style::{Color, Span, SpanSet};
use pseudoterm::terminal::DefaultTerminal;

fn snapshot_of(term: &mut DefaultTerminal) -> String {
    match term.apply_message(TerminalMessage::ForceUpdate) {
        Some(SessionMessage::Output(OutputMessage::Display(s), None)) => s,
        other => panic!("expected a display message, got {:?}", other),
    }
}

// Two pushed lines show up in order; clearing empties the snapshot.
#[test]
fn push_lines_then_clear() {
    let mut term = DefaultTerminal::new();
    assert!(term.apply_message(TerminalMessage::PushLine("a".to_string())).is_none());
    assert!(term.apply_message(TerminalMessage::PushLine("b".to_string())).is_none());

    let snap = snapshot_of(&mut term);
    let a_at = snap.find("a").expect("the first line is in the snapshot");
    let b_at = snap.find("b").expect("the second line is in the snapshot");
    assert!(a_at < b_at);
    assert_eq!(snap, "a\r\nb\r\n");

    assert!(term.apply_message(TerminalMessage::Clear).is_none());
    assert_eq!(snapshot_of(&mut term), "");
}

#[test]
fn push_appends_to_last_span() {
    let mut term = DefaultTerminal::new();
    term.apply_message(TerminalMessage::Push("abc".to_string()));
    term.apply_message(TerminalMessage::Push("def".to_string()));
    assert_eq!(snapshot_of(&mut term), "abcdef");

    // on an emptied buffer the append has nowhere to go and does nothing
    term.apply_message(TerminalMessage::Clear);
    term.apply_message(TerminalMessage::Push("zzz".to_string()));
    assert_eq!(snapshot_of(&mut term), "");
}

// Span indices count from the end: 0 names the most recent span.
#[test]
fn span_indexing_from_end() {
    let mut term = DefaultTerminal::new();
    term.apply_message(TerminalMessage::Clear);
    term.apply_message(TerminalMessage::PushSpan(Span::from_text("one")));
    term.apply_message(TerminalMessage::PushSpan(Span::from_text("two")));
    term.apply_message(TerminalMessage::PushSpan(Span::from_text("three")));

    term.apply_message(TerminalMessage::SetSpan(0, Span::from_text("THREE")));
    assert_eq!(snapshot_of(&mut term), "onetwoTHREE");

    term.apply_message(TerminalMessage::ClearSpan(2));
    assert_eq!(snapshot_of(&mut term), "twoTHREE");

    term.apply_message(TerminalMessage::DeleteSpan(1));
    assert_eq!(snapshot_of(&mut term), "THREE");

    // an index past the buffer does nothing
    term.apply_message(TerminalMessage::SetSpan(9, Span::from_text("x")));
    term.apply_message(TerminalMessage::ClearSpan(9));
    term.apply_message(TerminalMessage::DeleteSpan(9));
    assert_eq!(snapshot_of(&mut term), "THREE");
}

#[test]
fn terminal_viewport_state() {
    let mut term = DefaultTerminal::new();
    assert!(term.size.is_none());
    term.set_size(pseudoterm::pos::Size::new(24, 80));
    assert!(term.size.is_some());
    assert_eq!(term.get_buffer().len(), 1);
    term.clear();
    assert_eq!(term.get_buffer().len(), 0);
}

#[test]
fn span_builders() {
    let s = Span::new()
        .with_text("hi".to_string())
        .with_fg_color(Color::new_rgb(1, 2, 3))
        .with_bg_color(Color::new_rgb_tuple((4, 5, 6)));
    assert_eq!(s.text, "hi");
    assert_eq!(s.fg_color, Some(Color(1, 2, 3)));
    assert_eq!(s.bg_color, Some(Color(4, 5, 6)));
    assert_eq!(s.decoration, 0);

    let s = s.bold().italic().underline();
    assert_eq!(s.decoration, 7);
    let s = s.bold();
    assert_eq!(s.decoration, 6);

    let c = Color::new_rgb(9, 8, 7);
    assert_eq!((c.r(), c.g(), c.b()), (9, 8, 7));

    let mut set = SpanSet::new();
    assert_eq!(set.len(), 0);
    set.push(Span::from_text("ab"));
    set.push(Span::from_text("cd"));
    assert_eq!(set.len(), 2);
    assert_eq!(set.plain_text(), "abcd");
    set.clear();
    assert_eq!(set.plain_text(), "");
}
