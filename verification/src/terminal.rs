//! The terminal: a display buffer of styled spans, mutated only through
//! typed messages.
//!
//! Each message is applied synchronously and none blocks.  `ForceUpdate`
//! renders the full buffer — every span's text, in order — into a single
//! snapshot and emits it as a display message; styling the snapshot is the
//! host display formatter's business.

use vstd::prelude::*;
use vstd::string::StringExecFns;

verus! {

use crate::pos::Size;
use crate::session::OutputMessage;
use crate::session::SessionMessage;
use crate::session::TerminalMessage;
use crate::style::Color;
use crate::style::Span;
use crate::style::SpanSet;
use crate::style::spans_text;

/// The display buffer and its viewport state.
pub struct DefaultTerminal {
    pub buffer: SpanSet,
    pub scroll: usize,
    pub size: Option<Size>,
}

/// Two spans styled alike (their texts may differ).
pub open spec fn same_style(a: Span, b: Span) -> bool {
    a.fg_color == b.fg_color && a.bg_color == b.bg_color && a.decoration == b.decoration
}

/// The buffer after a text append to its last span: all other spans are
/// untouched, the last keeps its style and gains `extra` at the end of
/// its text.  An empty buffer stays empty.
pub open spec fn appended_to_last(before: Seq<Span>, after: Seq<Span>, extra: Seq<char>) -> bool {
    if before.len() == 0 {
        after == before
    } else {
        after.len() == before.len() && after.drop_last() == before.drop_last() && same_style(
            after.last(),
            before.last(),
        ) && after.last().text@ == before.last().text@ + extra
    }
}

/// The index a span message counts from the end names, given the buffer's
/// length: 0 is the span pushed most recently.
pub open spec fn from_end(len: nat, index: nat) -> int {
    len - index - 1
}

impl DefaultTerminal {
    /// A terminal holding one empty span with a yellow foreground, not yet
    /// sized.
    pub fn new() -> (r: DefaultTerminal)
        ensures
            r.buffer.0@.len() == 1,
            r.buffer.0@[0].text@ == Seq::<char>::empty(),
            r.buffer.0@[0].fg_color == Some(Color(255u8, 255u8, 0u8)),
            r.scroll == 0usize,
            r.size is None,
    {
        let mut span_set = SpanSet::new();
        let span = Span::new().with_fg_color(Color::new_rgb(255, 255, 0));
        span_set.push(span);
        DefaultTerminal { buffer: span_set, scroll: 0, size: None }
    }

    /// Records the viewport size.
    pub fn set_size(&mut self, rect: Size)
        ensures
            final(self).size == Some(rect),
            final(self).buffer == old(self).buffer,
            final(self).scroll == old(self).scroll,
    {
        self.size = Some(rect);
    }

    /// The buffer, for reading.
    pub fn get_buffer(&self) -> (r: &SpanSet)
        ensures
            *r == self.buffer,
    {
        &self.buffer
    }

    /// Empties the buffer.
    pub fn clear(&mut self)
        ensures
            final(self).buffer.0@ =~= Seq::<Span>::empty(),
            final(self).scroll == old(self).scroll,
            final(self).size == old(self).size,
    {
        self.buffer.clear();
    }

    /// The full buffer rendered to one plain snapshot, in order.
    pub fn snapshot(&self) -> (r: String)
        ensures
            r@ == spans_text(self.buffer.0@),
    {
        self.buffer.plain_text()
    }

    /// Applies one terminal message to the buffer; a `ForceUpdate` returns
    /// the display message to emit, every other message returns nothing.
    /// Span indices count from the end; one past the buffer does nothing.
    pub fn apply_message(&mut self, msg: TerminalMessage) -> (r: Option<SessionMessage>)
        ensures
            final(self).scroll == old(self).scroll,
            final(self).size == old(self).size,
            match msg {
                TerminalMessage::ForceUpdate => {
                    &&& final(self).buffer == old(self).buffer
                    &&& match r {
                        Option::Some(out) => out matches SessionMessage::Output(
                            OutputMessage::Display(s),
                            t,
                        ) && s@ == spans_text(old(self).buffer.0@) && t is None,
                        Option::None => false,
                    }
                },
                TerminalMessage::PushLine(x) => {
                    &&& r is None
                    &&& final(self).buffer.0@.len() == old(self).buffer.0@.len() + 1
                    &&& final(self).buffer.0@.drop_last() == old(self).buffer.0@
                    &&& final(self).buffer.0@.last().text@ == x@ + "\r\n"@
                    &&& final(self).buffer.0@.last().fg_color is None
                    &&& final(self).buffer.0@.last().bg_color is None
                    &&& final(self).buffer.0@.last().decoration == 0u8
                },
                TerminalMessage::Push(x) => {
                    &&& r is None
                    &&& appended_to_last(old(self).buffer.0@, final(self).buffer.0@, x@)
                },
                TerminalMessage::PushSpan(x) => {
                    &&& r is None
                    &&& final(self).buffer.0@ == old(self).buffer.0@.push(x)
                },
                TerminalMessage::Clear => {
                    &&& r is None
                    &&& final(self).buffer.0@ == Seq::<Span>::empty()
                },
                TerminalMessage::ClearSpan(index) => {
                    &&& r is None
                    &&& if index < old(self).buffer.0@.len() {
                        let at = from_end(old(self).buffer.0@.len(), index as nat);
                        final(self).buffer.0@.len() == old(self).buffer.0@.len() && (forall|k: int|
                            0 <= k < old(self).buffer.0@.len() && k != at
                                ==> final(self).buffer.0@[k] == old(self).buffer.0@[k])
                            && same_style(final(self).buffer.0@[at], old(self).buffer.0@[at])
                            && final(self).buffer.0@[at].text@ == Seq::<char>::empty()
                    } else {
                        final(self).buffer == old(self).buffer
                    }
                },
                TerminalMessage::SetSpan(index, new_span) => {
                    &&& r is None
                    &&& if index < old(self).buffer.0@.len() {
                        final(self).buffer.0@ == old(self).buffer.0@.update(
                            from_end(old(self).buffer.0@.len(), index as nat),
                            new_span,
                        )
                    } else {
                        final(self).buffer == old(self).buffer
                    }
                },
                TerminalMessage::DeleteSpan(index) => {
                    &&& r is None
                    &&& if index < old(self).buffer.0@.len() {
                        final(self).buffer.0@ == old(self).buffer.0@.remove(
                            from_end(old(self).buffer.0@.len(), index as nat),
                        )
                    } else {
                        final(self).buffer == old(self).buffer
                    }
                },
            },
    {
        match msg {
            TerminalMessage::ForceUpdate => {
                let snap = self.snapshot();
                Some(SessionMessage::Output(OutputMessage::Display(snap), None))
            },
            TerminalMessage::PushLine(x) => {
                let mut line = x;
                line.append("\r\n");
                self.buffer.push(Span::new().with_text(line));
                None
            },
            TerminalMessage::Push(x) => {
                match self.buffer.0.pop() {
                    Option::Some(sp) => {
                        let mut sp = sp;
                        sp.text.append(x.as_str());
                        self.buffer.0.push(sp);
                        proof {
                            assert(final(self).buffer.0@.drop_last() =~= old(
                                self,
                            ).buffer.0@.drop_last());
                        }
                    },
                    Option::None => {
                        proof {
                            assert(final(self).buffer.0@ =~= old(self).buffer.0@);
                        }
                    },
                }
                None
            },
            TerminalMessage::PushSpan(x) => {
                self.buffer.push(x);
                None
            },
            TerminalMessage::Clear => {
                self.buffer.clear();
                proof {
                    assert(final(self).buffer.0@ =~= Seq::<Span>::empty());
                }
                None
            },
            TerminalMessage::ClearSpan(index) => {
                let len = self.buffer.0.len();
                if index < len {
                    let at = len - index - 1;
                    let old_span = self.buffer.0.remove(at);
                    let cleared = old_span.with_text(String::new());
                    self.buffer.0.insert(at, cleared);
                    proof {
                        let b0 = old(self).buffer.0@;
                        let b1 = final(self).buffer.0@;
                        assert(b1 =~= b0.update(at as int, b1[at as int]));
                    }
                } else {
                    proof {
                        assert(final(self).buffer.0@ =~= old(self).buffer.0@);
                    }
                }
                None
            },
            TerminalMessage::SetSpan(index, new_span) => {
                let len = self.buffer.0.len();
                if index < len {
                    let at = len - index - 1;
                    self.buffer.0.remove(at);
                    self.buffer.0.insert(at, new_span);
                    proof {
                        assert(final(self).buffer.0@ =~= old(self).buffer.0@.update(
                            at as int,
                            new_span,
                        ));
                    }
                } else {
                    proof {
                        assert(final(self).buffer.0@ =~= old(self).buffer.0@);
                    }
                }
                None
            },
            TerminalMessage::DeleteSpan(index) => {
                let len = self.buffer.0.len();
                if index < len {
                    let at = len - index - 1;
                    self.buffer.0.remove(at);
                } else {
                    proof {
                        assert(final(self).buffer.0@ =~= old(self).buffer.0@);
                    }
                }
                None
            },
        }
    }
}

} // verus!
