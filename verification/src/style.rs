//! Styled text: colored, decorated spans and the ordered span buffer the
//! terminal renders.  Turning a span sequence into a styled on-screen
//! string is the host display formatter's business; the library only keeps
//! the spans and their plain text.

use vstd::prelude::*;
use vstd::string::StringExecFns;

verus! {

/// A 24-bit color: red, green and blue channels.
#[derive(Copy, Clone, PartialEq, Eq, Structural, Debug)]
pub struct Color(pub u8, pub u8, pub u8);

impl Color {
    /// The color with the given red, green and blue channels.
    pub fn new_rgb(r: u8, g: u8, b: u8) -> (c: Color)
        ensures
            c == Color(r, g, b),
    {
        Color(r, g, b)
    }

    /// The color with the channels of the given triple.
    pub fn new_rgb_tuple(rgb: (u8, u8, u8)) -> (c: Color)
        ensures
            c == Color(rgb.0, rgb.1, rgb.2),
    {
        Color::new_rgb(rgb.0, rgb.1, rgb.2)
    }

    /// The red channel.
    pub fn r(&self) -> (v: u8)
        ensures
            v == self.0,
    {
        self.0
    }

    /// The green channel.
    pub fn g(&self) -> (v: u8)
        ensures
            v == self.1,
    {
        self.1
    }

    /// The blue channel.
    pub fn b(&self) -> (v: u8)
        ensures
            v == self.2,
    {
        self.2
    }
}

/// A text decoration; each one stands for one bit of a span's decoration
/// mask.
#[derive(Copy, Clone, Debug)]
pub enum Decoration {
    Plain,
    Bold,
    Italic,
    Underline,
}

/// The mask bit of a decoration.
pub open spec fn spec_decoration_bit(d: Decoration) -> u8 {
    match d {
        Decoration::Plain => 0,
        Decoration::Bold => 1,
        Decoration::Italic => 2,
        Decoration::Underline => 4,
    }
}

impl Decoration {
    /// The bit this decoration occupies in a span's decoration mask.
    pub fn bit(self) -> (r: u8)
        ensures
            r == spec_decoration_bit(self),
    {
        match self {
            Decoration::Plain => 0,
            Decoration::Bold => 1,
            Decoration::Italic => 2,
            Decoration::Underline => 4,
        }
    }
}

/// A contiguous run of text sharing one visual style.
#[derive(Debug)]
pub struct Span {
    pub text: String,
    pub fg_color: Option<Color>,
    pub bg_color: Option<Color>,
    pub decoration: u8,
}

impl Span {
    /// An empty, undecorated, uncolored span.
    pub fn new() -> (s: Span)
        ensures
            s.text@ == Seq::<char>::empty(),
            s.fg_color is None,
            s.bg_color is None,
            s.decoration == 0u8,
    {
        Span { text: String::new(), fg_color: None, bg_color: None, decoration: 0 }
    }

    /// The same span carrying `text` instead.
    pub fn with_text(self, text: String) -> (r: Span)
        ensures
            r.text == text,
            r.fg_color == self.fg_color,
            r.bg_color == self.bg_color,
            r.decoration == self.decoration,
    {
        Span { text, ..self }
    }

    /// The same span with the given foreground color.
    pub fn with_fg_color(self, color: Color) -> (r: Span)
        ensures
            r.text == self.text,
            r.fg_color == Some(color),
            r.bg_color == self.bg_color,
            r.decoration == self.decoration,
    {
        Span { fg_color: Some(color), ..self }
    }

    /// The same span with the given background color.
    pub fn with_bg_color(self, color: Color) -> (r: Span)
        ensures
            r.text == self.text,
            r.fg_color == self.fg_color,
            r.bg_color == Some(color),
            r.decoration == self.decoration,
    {
        Span { bg_color: Some(color), ..self }
    }

    /// Toggles the bold bit of the decoration mask.
    pub fn bold(self) -> (r: Span)
        ensures
            r.text == self.text,
            r.fg_color == self.fg_color,
            r.bg_color == self.bg_color,
            r.decoration == self.decoration ^ 1u8,
    {
        let d = self.decoration ^ Decoration::Bold.bit();
        Span { decoration: d, ..self }
    }

    /// Toggles the italic bit of the decoration mask.
    pub fn italic(self) -> (r: Span)
        ensures
            r.text == self.text,
            r.fg_color == self.fg_color,
            r.bg_color == self.bg_color,
            r.decoration == self.decoration ^ 2u8,
    {
        let d = self.decoration ^ Decoration::Italic.bit();
        Span { decoration: d, ..self }
    }

    /// Toggles the underline bit of the decoration mask.
    pub fn underline(self) -> (r: Span)
        ensures
            r.text == self.text,
            r.fg_color == self.fg_color,
            r.bg_color == self.bg_color,
            r.decoration == self.decoration ^ 4u8,
    {
        let d = self.decoration ^ Decoration::Underline.bit();
        Span { decoration: d, ..self }
    }

    /// An undecorated span holding the given text.
    pub fn from_text(text: &str) -> (r: Span)
        ensures
            r.text@ == text@,
            r.fg_color is None,
            r.bg_color is None,
            r.decoration == 0u8,
    {
        Span::new().with_text(String::from_str(text))
    }
}

/// The ordered sequence of spans a terminal holds.
#[derive(Debug)]
pub struct SpanSet(pub Vec<Span>);

/// The plain text of a span sequence: each span's text, concatenated in
/// order, styling set aside.
pub open spec fn spans_text(s: Seq<Span>) -> Seq<char>
    decreases s.len(),
{
    if s.len() == 0 {
        Seq::empty()
    } else {
        spans_text(s.drop_last()) + s.last().text@
    }
}

impl SpanSet {
    /// An empty buffer.
    pub fn new() -> (r: SpanSet)
        ensures
            r.0@ =~= Seq::<Span>::empty(),
    {
        SpanSet(Vec::new())
    }

    /// The number of spans held.
    pub fn len(&self) -> (r: usize)
        ensures
            r == self.0@.len(),
    {
        self.0.len()
    }

    /// Appends a span.
    pub fn push(&mut self, span: Span)
        ensures
            final(self).0@ == old(self).0@.push(span),
    {
        self.0.push(span);
    }

    /// Empties the buffer.
    pub fn clear(&mut self)
        ensures
            final(self).0@ =~= Seq::<Span>::empty(),
    {
        self.0.clear();
    }

    /// The plain text of the whole buffer, in order.
    #[verifier::loop_isolation(false)]
    pub fn plain_text(&self) -> (r: String)
        ensures
            r@ == spans_text(self.0@),
    {
        let mut out = String::new();
        proof {
            assert(spans_text(self.0@.take(0int)) =~= Seq::<char>::empty());
        }
        let mut i: usize = 0;
        while i < self.0.len()
            invariant
                i <= self.0@.len(),
                out@ == spans_text(self.0@.take(i as int)),
            decreases self.0@.len() - i,
        {
            out.append(self.0[i].text.as_str());
            proof {
                let taken = self.0@.take(i + 1);
                assert(taken.drop_last() =~= self.0@.take(i as int));
                assert(taken.last() == self.0@[i as int]);
            }
            i += 1;
        }
        proof {
            assert(self.0@.take(self.0@.len() as int) =~= self.0@);
        }
        out
    }
}

} // verus!
