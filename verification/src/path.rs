//! Paths of the virtual filesystem: ordered components, resolved against a
//! current working directory and a home directory.
//!
//! A path is absolute, relative, or a tilde form (a leading `~` component
//! standing for the home directory).  Resolution expands the tilde, joins
//! relative paths onto the working directory, and normalizes left to right:
//! normal components are pushed, `.` and empty components are dropped, and a
//! parent reference pops the last pushed component — popping past an empty
//! accumulator is a no-op, not an error.

use vstd::prelude::*;
use vstd::string::StrSliceExecFns;
use vstd::string::StringExecFns;

verus! {

/// An ordered sequence of path components, with a flag telling an absolute
/// path (one led by the root marker) from a relative one.
#[derive(Clone, Debug)]
pub struct Path {
    pub absolute: bool,
    pub components: Vec<String>,
}

/// The parent-reference component.
pub open spec fn seg_parent() -> Seq<char> {
    ".."@
}

/// The here-reference component.
pub open spec fn seg_here() -> Seq<char> {
    "."@
}

/// The home-reference component.
pub open spec fn seg_home() -> Seq<char> {
    "~"@
}

/// Length of the longest leading run of `s` free of the separator.
pub open spec fn run_len(s: Seq<char>, sep: char) -> nat
    decreases s.len(),
{
    if s.len() == 0 || s[0] == sep {
        0
    } else {
        1 + run_len(s.drop_first(), sep)
    }
}

pub proof fn lemma_run_len_le(s: Seq<char>, sep: char)
    ensures
        run_len(s, sep) <= s.len(),
    decreases s.len(),
{
    if s.len() != 0 && s[0] != sep {
        lemma_run_len_le(s.drop_first(), sep);
    }
}

/// `run_len` is the position of the first separator, or the whole length.
pub proof fn lemma_run_len_of(s: Seq<char>, sep: char, j: nat)
    requires
        j <= s.len(),
        forall|k: int| 0 <= k < j ==> s[k] != sep,
        j < s.len() ==> s[j as int] == sep,
    ensures
        run_len(s, sep) == j,
    decreases s.len(),
{
    if s.len() != 0 && s[0] != sep {
        lemma_run_len_of(s.drop_first(), sep, (j - 1) as nat);
    }
}

/// The separator-delimited pieces of `s`, in order, empty runs dropped.
pub open spec fn spec_split(s: Seq<char>, sep: char) -> Seq<Seq<char>>
    decreases s.len(),
    via spec_split_decreases
{
    if s.len() == 0 {
        Seq::empty()
    } else if s[0] == sep {
        spec_split(s.drop_first(), sep)
    } else {
        seq![s.take(run_len(s, sep) as int)] + spec_split(s.skip(run_len(s, sep) as int), sep)
    }
}

#[via_fn]
proof fn spec_split_decreases(s: Seq<char>, sep: char) {
    if s.len() != 0 && s[0] != sep {
        lemma_run_len_le(s, sep);
    }
}

/// A component that normalization neither drops nor interprets.
pub open spec fn is_normal_seg(c: Seq<char>) -> bool {
    c != seg_parent() && c != seg_here() && c.len() != 0
}

/// Drops the last component, or does nothing to an empty sequence.
pub open spec fn pop_seg(segs: Seq<Seq<char>>) -> Seq<Seq<char>> {
    if segs.len() == 0 {
        segs
    } else {
        segs.drop_last()
    }
}

/// Left-to-right normalization of a component sequence: normal components
/// are kept, `.` and empty components dropped, and each parent reference
/// pops the component pushed before it (a no-op on an empty accumulator).
pub open spec fn normalize_segs(segs: Seq<Seq<char>>) -> Seq<Seq<char>>
    decreases segs.len(),
{
    if segs.len() == 0 {
        Seq::empty()
    } else {
        let rest = normalize_segs(segs.drop_last());
        let c = segs.last();
        if c == seg_parent() {
            pop_seg(rest)
        } else if c == seg_here() || c.len() == 0 {
            rest
        } else {
            rest.push(c)
        }
    }
}

/// Normalization leaves a sequence of normal components alone.
pub proof fn lemma_normalize_normal(segs: Seq<Seq<char>>)
    requires
        forall|k: int| 0 <= k < segs.len() ==> is_normal_seg(#[trigger] segs[k]),
    ensures
        normalize_segs(segs) == segs,
    decreases segs.len(),
{
    if segs.len() != 0 {
        lemma_normalize_normal(segs.drop_last());
        assert(normalize_segs(segs) =~= segs);
    }
}

impl Path {
    /// The components of this path, as character sequences.
    pub open spec fn segs(self) -> Seq<Seq<char>> {
        self.components.deep_view()
    }

    /// Parses `path` on `/` separators: a leading `/` makes the path
    /// absolute, and every maximal run between separators becomes one
    /// component (so doubled or trailing separators add nothing).
    pub fn new(path: &str) -> (r: Path)
        ensures
            r.absolute == (path@.len() > 0 && path@[0] == '/'),
            r.segs() == spec_split(path@, '/'),
    {
        let n = path.unicode_len();
        let absolute = n > 0 && path.get_char(0) == '/';
        let components = split_on(path, '/');
        Path { absolute, components }
    }

    /// Renders the path back to text: the components joined by `/`, with
    /// a leading `/` on an absolute path.
    #[verifier::loop_isolation(false)]
    pub fn to_display(&self) -> (r: String)
        ensures
            r@ == spec_render(self@),
    {
        let ghost segs = self@.segs;
        let mut out = String::new();
        if self.absolute {
            out.append("/");
        }
        let ghost lead = out@;
        proof {
            assert(segs.take(0int) =~= Seq::<Seq<char>>::empty());
            assert(out@ =~= lead + render_segs(segs.take(0int)));
        }
        let mut i: usize = 0;
        while i < self.components.len()
            invariant
                i <= segs.len(),
                out@ == lead + render_segs(segs.take(i as int)),
            decreases segs.len() - i,
        {
            if i > 0 {
                out.append("/");
            }
            out.append(self.components[i].as_str());
            proof {
                let taken = segs.take(i + 1);
                assert(taken.drop_last() =~= segs.take(i as int));
                assert(taken.last() == segs[i as int]);
                if i == 0 {
                    assert(render_segs(taken) =~= segs[0]);
                    assert(out@ =~= lead + render_segs(taken));
                }
            }
            i += 1;
        }
        proof {
            assert(segs.take(segs.len() as int) =~= segs);
        }
        out
    }
}

/// The components joined by `/`: nothing for no components, and a `/`
/// between each pair.
pub open spec fn render_segs(segs: Seq<Seq<char>>) -> Seq<char>
    decreases segs.len(),
{
    if segs.len() == 0 {
        Seq::empty()
    } else if segs.len() == 1 {
        segs[0]
    } else {
        render_segs(segs.drop_last()) + "/"@ + segs.last()
    }
}

/// A path rendered to text.
pub open spec fn spec_render(p: PathView) -> Seq<char> {
    if p.absolute {
        "/"@ + render_segs(p.segs)
    } else {
        render_segs(p.segs)
    }
}

/// Splits `s` on the separator: every maximal run between separators
/// becomes one piece, so doubled, leading or trailing separators add
/// nothing.
#[verifier::loop_isolation(false)]
pub fn split_on(s: &str, sep: char) -> (r: Vec<String>)
    ensures
        r.deep_view() == spec_split(s@, sep),
{
    let n = s.unicode_len();
    let mut pieces: Vec<String> = Vec::new();
    proof {
        assert(s@.skip(0) =~= s@);
        assert(pieces.deep_view() + spec_split(s@, sep) =~= spec_split(s@, sep));
    }
    let mut i: usize = 0;
    while i < n
        invariant
            i <= n,
            spec_split(s@, sep) == pieces.deep_view() + spec_split(s@.skip(i as int), sep),
        decreases n - i,
    {
        if s.get_char(i) == sep {
            proof {
                assert(s@.skip(i as int).drop_first() =~= s@.skip(i + 1));
            }
            i += 1;
        } else {
            let start = i;
            i += 1;
            while i < n
                invariant
                    start < i <= n,
                    forall|k: int| start <= k < i ==> s@[k] != sep,
                decreases n - i,
            {
                if s.get_char(i) == sep {
                    break ;
                }
                i += 1;
            }
            let piece = s.substring_char(start, i).to_owned();
            proof {
                let tail = s@.skip(start as int);
                lemma_run_len_of(tail, sep, (i - start) as nat);
                assert(tail.take(i - start) =~= s@.subrange(start as int, i as int));
                assert(tail.skip(i - start) =~= s@.skip(i as int));
            }
            let ghost before = pieces.deep_view();
            pieces.push(piece);
            proof {
                assert(pieces.deep_view() =~= before.push(piece@));
                assert(before.push(piece@) + spec_split(s@.skip(i as int), sep) =~= before + (seq![
                    piece@,
                ] + spec_split(s@.skip(i as int), sep)));
            }
        }
    }
    proof {
        assert(s@.skip(n as int) =~= Seq::<char>::empty());
        assert(pieces.deep_view() + spec_split(s@.skip(n as int), sep) =~= pieces.deep_view());
    }
    pieces
}

/// True when the two strings hold the same characters.
pub fn str_eq(a: &str, b: &str) -> (r: bool)
    ensures
        r == (a@ == b@),
{
    let sa = String::from_str(a);
    let sb = String::from_str(b);
    sa == sb
}

/// The mathematical reading of a [`Path`]: its absolute flag and its
/// components as character sequences.
pub ghost struct PathView {
    pub absolute: bool,
    pub segs: Seq<Seq<char>>,
}

impl View for Path {
    type V = PathView;

    open spec fn view(&self) -> PathView {
        PathView { absolute: self.absolute, segs: self.components.deep_view() }
    }
}

/// Expansion of a leading `~` component of a relative path into the home
/// directory; any other path passes through unchanged.
pub open spec fn spec_expand_tilde(p: PathView, home: PathView) -> PathView {
    if !p.absolute && p.segs.len() > 0 && p.segs[0] == seg_home() {
        PathView { absolute: home.absolute, segs: home.segs + p.segs.drop_first() }
    } else {
        p
    }
}

/// Tilde expansion followed by joining a still-relative path onto the
/// working directory.
pub open spec fn spec_make_absolute(p: PathView, cwd: PathView, home: PathView) -> PathView {
    let t = spec_expand_tilde(p, home);
    if t.absolute {
        t
    } else {
        PathView { absolute: cwd.absolute, segs: cwd.segs + t.segs }
    }
}

/// Full resolution: tilde expansion, joining onto the working directory,
/// and left-to-right normalization of the components.
pub open spec fn spec_resolve(p: PathView, cwd: PathView, home: PathView) -> PathView {
    let m = spec_make_absolute(p, cwd, home);
    PathView { absolute: m.absolute, segs: normalize_segs(m.segs) }
}

/// A path in the form resolution produces: every component is kept as it
/// stands (no parent or here references, no empty components).
pub open spec fn is_normalized(p: PathView) -> bool {
    forall|k: int| 0 <= k < p.segs.len() ==> is_normal_seg(#[trigger] p.segs[k])
}

/// Resolution is idempotent on an already-absolute, already-normalized
/// path: whatever the working and home directories, such a path resolves
/// to itself.
pub proof fn lemma_resolve_idempotent(p: PathView, cwd: PathView, home: PathView)
    requires
        p.absolute,
        is_normalized(p),
    ensures
        spec_resolve(p, cwd, home) == p,
{
    lemma_normalize_normal(p.segs);
}

} // verus!
