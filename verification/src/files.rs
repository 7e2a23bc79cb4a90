//! The virtual filesystem: a tree of folders and files.
//!
//! A folder carries a name-to-index table over its children; the table is
//! rebuilt explicitly with [`index_children`](Tree::index_children) after a
//! structural change, never implicitly.  Lookup by path walks these tables;
//! a missing name fails with [`FsError::NotFound`] and a file met before the
//! path is exhausted fails with [`FsError::NotADirectory`].

use vstd::pervasive::VecAdditionalExecFns;
use vstd::prelude::*;
use vstd::string::StrSliceExecFns;
use vstd::string::StringExecFns;

use crate::path::Path;
use crate::path::spec_expand_tilde;
use crate::path::spec_make_absolute;
use crate::path::spec_resolve;
use crate::path::normalize_segs;
use crate::path::str_eq;
use crate::send_tree::SendTree;
use crate::tree::Tree;

verus! {

/// What a file holds: either a handle naming a program (the host maps the
/// handle to the runnable unit) or plain bytes.
pub enum FileType {
    Program(u64),
    Binary(Vec<u8>),
}

/// One entry of a folder's lookup table: a child's name and its index
/// among the folder's children.
pub struct FolderEntry {
    pub name: String,
    pub index: usize,
}

/// A node of the virtual filesystem.
pub enum FSObject {
    File { name: String, contents: FileType },
    Folder { name: String, contents: Vec<FolderEntry> },
}

/// A path lookup error.
#[derive(Clone, Copy, Debug, PartialEq, Eq, Structural)]
pub enum FsError {
    /// A component did not name a child of the folder at hand.
    NotFound,
    /// A file stood where the path asked for a folder.
    NotADirectory,
}

/// A folder table read as pairs of component characters and child index.
pub open spec fn entries_view(es: Seq<FolderEntry>) -> Seq<(Seq<char>, int)> {
    es.map_values(|e: FolderEntry| (e.name@, e.index as int))
}

/// First-match lookup in a folder table.
pub open spec fn lookup_name(m: Seq<(Seq<char>, int)>, name: Seq<char>) -> Option<int>
    decreases m.len(),
{
    if m.len() == 0 {
        None
    } else if m[0].0 == name {
        Some(m[0].1)
    } else {
        lookup_name(m.drop_first(), name)
    }
}

/// Insertion into a folder table: an existing entry of the same name is
/// replaced in place, otherwise the pair is appended.
pub open spec fn upsert_name(m: Seq<(Seq<char>, int)>, name: Seq<char>, index: int) -> Seq<
    (Seq<char>, int),
>
    decreases m.len(),
{
    if m.len() == 0 {
        seq![(name, index)]
    } else if m[0].0 == name {
        seq![(name, index)] + m.drop_first()
    } else {
        seq![m[0]] + upsert_name(m.drop_first(), name, index)
    }
}

/// The table `index_children` builds from the names of a folder's
/// children, scanned in order: each name maps to its index, a repeated
/// name to the last of its indices.
pub open spec fn rebuild_entries(names: Seq<Seq<char>>) -> Seq<(Seq<char>, int)>
    decreases names.len(),
{
    if names.len() == 0 {
        Seq::empty()
    } else {
        upsert_name(rebuild_entries(names.drop_last()), names.last(), names.len() - 1)
    }
}

/// The names of the values of a forest, in order.
pub open spec fn child_names(cs: Seq<Tree<FSObject>>) -> Seq<Seq<char>> {
    cs.map_values(|c: Tree<FSObject>| c.value.spec_name())
}

/// The last position of `name` in `names`, if it occurs at all.
pub open spec fn last_index_of(names: Seq<Seq<char>>, name: Seq<char>) -> Option<int>
    decreases names.len(),
{
    if names.len() == 0 {
        None
    } else if names.last() == name {
        Some(names.len() - 1)
    } else {
        last_index_of(names.drop_last(), name)
    }
}

/// Looking a name up after an upsert: the upserted name maps to its new
/// index, every other name as before.
pub proof fn lemma_lookup_upsert(
    m: Seq<(Seq<char>, int)>,
    name: Seq<char>,
    index: int,
    q: Seq<char>,
)
    ensures
        lookup_name(upsert_name(m, name, index), q) == (if q == name {
            Some(index)
        } else {
            lookup_name(m, q)
        }),
    decreases m.len(),
{
    if m.len() == 0 {
        let u = upsert_name(m, name, index);
        assert(u == seq![(name, index)]);
        assert(u[0] == (name, index));
        assert(u.drop_first() =~= Seq::<(Seq<char>, int)>::empty());
        assert(lookup_name(u.drop_first(), q) is None);
    } else if m[0].0 == name {
        let u = upsert_name(m, name, index);
        assert(u == seq![(name, index)] + m.drop_first());
        assert(u[0] == (name, index));
        assert(u.drop_first() =~= m.drop_first());
    } else {
        lemma_lookup_upsert(m.drop_first(), name, index, q);
        let u = upsert_name(m, name, index);
        assert(u == seq![m[0]] + upsert_name(m.drop_first(), name, index));
        assert(u[0] == m[0]);
        assert(u.len() > 0);
        assert(u.drop_first() =~= upsert_name(m.drop_first(), name, index));
    }
}

/// The table `index_children` builds sends each name to the last child
/// bearing it, and names no child bears to nothing.
pub proof fn lemma_lookup_rebuild(names: Seq<Seq<char>>, q: Seq<char>)
    ensures
        lookup_name(rebuild_entries(names), q) == last_index_of(names, q),
    decreases names.len(),
{
    if names.len() == 0 {
    } else {
        lemma_lookup_rebuild(names.drop_last(), q);
        lemma_lookup_upsert(
            rebuild_entries(names.drop_last()),
            names.last(),
            names.len() - 1,
            q,
        );
    }
}

/// The program handle a file carries, if the object is a program file.
pub open spec fn file_program(o: FSObject) -> Option<u64> {
    match o {
        FSObject::File { contents: FileType::Program(p), .. } => Some(p),
        _ => None,
    }
}

impl FSObject {
    /// The node's name, as characters.
    pub open spec fn spec_name(self) -> Seq<char> {
        match self {
            FSObject::File { name, .. } => name@,
            FSObject::Folder { name, .. } => name@,
        }
    }

    /// The folder's lookup table; empty for a file.
    pub open spec fn folder_entries(self) -> Seq<(Seq<char>, int)> {
        match self {
            FSObject::Folder { contents, .. } => entries_view(contents@),
            FSObject::File { .. } => Seq::empty(),
        }
    }

    /// The filesystem does not track permissions: there is nothing to hand
    /// out for any node.
    pub fn get_permissions(&self) -> (r: Option<()>)
        ensures
            r is None,
    {
        None
    }

    /// The node's name.
    pub fn get_name(&self) -> (r: &String)
        ensures
            r@ == self.spec_name(),
    {
        match self {
            FSObject::File { name, .. } => name,
            FSObject::Folder { name, .. } => name,
        }
    }

    /// True of a folder node.
    pub fn is_folder(&self) -> (r: bool)
        ensures
            r == (self is Folder),
    {
        match self {
            FSObject::Folder { .. } => true,
            FSObject::File { .. } => false,
        }
    }

    /// True of a file node.
    pub fn is_file(&self) -> (r: bool)
        ensures
            r == (self is File),
    {
        match self {
            FSObject::File { .. } => true,
            FSObject::Folder { .. } => false,
        }
    }
}

/// The node `segs[i..]` leads to from `t`, walking each folder's lookup
/// table: the node's value once the components are exhausted, `NotFound`
/// on a name missing from the table (or indexed out of range), and
/// `NotADirectory` on a file met on the way.
pub open spec fn spec_resolve_in(t: Tree<FSObject>, segs: Seq<Seq<char>>, i: int) -> Result<
    FSObject,
    FsError,
>
    decreases segs.len() - i,
{
    if i < 0 || i >= segs.len() {
        Ok(t.value)
    } else if !(t.value is Folder) {
        Err(FsError::NotADirectory)
    } else {
        match lookup_name(t.value.folder_entries(), segs[i]) {
            Option::None => Err(FsError::NotFound),
            Option::Some(idx) => if 0 <= idx < t.children@.len() {
                spec_resolve_in(t.children@[idx], segs, i + 1)
            } else {
                Err(FsError::NotFound)
            },
        }
    }
}

/// The bare root path has no components left to walk, so on any tree it
/// resolves to the root node's own value — on a filesystem, the root
/// folder.
pub proof fn lemma_root_path_resolves(t: Tree<FSObject>)
    ensures
        spec_resolve_in(t, crate::path::spec_split("/"@, '/'), 0) == Ok::<FSObject, FsError>(
            t.value,
        ),
{
    reveal_strlit("/");
    assert("/"@.drop_first() =~= Seq::<char>::empty());
    assert(crate::path::spec_split(Seq::<char>::empty(), '/').len() == 0);
    assert(crate::path::spec_split("/"@, '/') == crate::path::spec_split(
        Seq::<char>::empty(),
        '/',
    ));
}

/// First-match scan of a folder table.
#[verifier::loop_isolation(false)]
fn lookup_index(entries: &Vec<FolderEntry>, name: &str) -> (r: Option<usize>)
    ensures
        match r {
            Option::Some(idx) => lookup_name(entries_view(entries@), name@) == Some(idx as int),
            Option::None => lookup_name(entries_view(entries@), name@) is None,
        },
{
    let ghost m = entries_view(entries@);
    proof {
        assert(m.skip(0int) =~= m);
    }
    let mut j: usize = 0;
    while j < entries.len()
        invariant
            j <= entries@.len(),
            lookup_name(m, name@) == lookup_name(m.skip(j as int), name@),
        decreases entries@.len() - j,
    {
        if str_eq(entries[j].name.as_str(), name) {
            proof {
                assert(m.skip(j as int)[0] == m[j as int]);
            }
            return Some(entries[j].index);
        }
        proof {
            assert(m.skip(j as int)[0] == m[j as int]);
            assert(m.skip(j as int).drop_first() =~= m.skip(j + 1));
        }
        j += 1;
    }
    proof {
        assert(m.skip(entries@.len() as int) =~= Seq::<(Seq<char>, int)>::empty());
    }
    None
}

/// Replaces the entry of `name` with (`name`, `index`), or appends one.
#[verifier::loop_isolation(false)]
fn upsert_entry(entries: &mut Vec<FolderEntry>, name: String, index: usize)
    ensures
        entries_view(final(entries)@) == upsert_name(
            entries_view(old(entries)@),
            name@,
            index as int,
        ),
{
    let ghost m = entries_view(old(entries)@);
    let mut j: usize = 0;
    while j < entries.len()
        invariant
            j <= entries@.len(),
            entries@ == old(entries)@,
            forall|k: int| 0 <= k < j ==> m[k].0 != name@,
        decreases entries@.len() - j,
    {
        if str_eq(entries[j].name.as_str(), name.as_str()) {
            entries.set(j, FolderEntry { name, index });
            proof {
                assert(entries_view(entries@) =~= m.update(j as int, (name@, index as int)));
                lemma_upsert_at(m, name@, index as int, j as int);
            }
            return ;
        }
        j += 1;
    }
    let ghost before = entries@;
    entries.push(FolderEntry { name, index });
    proof {
        assert(entries_view(entries@) =~= m.push((name@, index as int)));
        lemma_upsert_absent(m, name@, index as int);
    }
}

/// Where the first match sits at `j`, upsert replaces that entry.
proof fn lemma_upsert_at(m: Seq<(Seq<char>, int)>, name: Seq<char>, index: int, j: int)
    requires
        0 <= j < m.len(),
        m[j].0 == name,
        forall|k: int| 0 <= k < j ==> m[k].0 != name,
    ensures
        upsert_name(m, name, index) == m.update(j, (name, index)),
    decreases m.len(),
{
    if j == 0 {
        assert(seq![(name, index)] + m.drop_first() =~= m.update(0, (name, index)));
    } else {
        lemma_upsert_at(m.drop_first(), name, index, j - 1);
        assert(m.drop_first().update(j - 1, (name, index)) =~= m.update(j, (name, index)).drop_first());
        assert(seq![m[0]] + m.update(j, (name, index)).drop_first() =~= m.update(j, (name, index)));
    }
}

/// Where no entry matches, upsert appends.
proof fn lemma_upsert_absent(m: Seq<(Seq<char>, int)>, name: Seq<char>, index: int)
    requires
        forall|k: int| 0 <= k < m.len() ==> m[k].0 != name,
    ensures
        upsert_name(m, name, index) == m.push((name, index)),
    decreases m.len(),
{
    if m.len() == 0 {
        assert(seq![(name, index)] =~= m.push((name, index)));
    } else {
        lemma_upsert_absent(m.drop_first(), name, index);
        assert(seq![m[0]] + m.drop_first().push((name, index)) =~= m.push((name, index)));
    }
}

impl Tree<FSObject> {
    /// An empty root folder, named by the root marker.
    pub fn new_root() -> (r: SendTree<FSObject>)
        ensures
            r.value is Folder,
            r.value.spec_name() == "/"@,
            r.value.folder_entries() == Seq::<(Seq<char>, int)>::empty(),
            r.children@.len() == 0,
    {
        proof {
            assert(entries_view(Seq::<FolderEntry>::empty()) =~= Seq::<(Seq<char>, int)>::empty());
        }
        SendTree::new(
            FSObject::Folder { name: String::from_str("/"), contents: Vec::new() },
        )
    }

    /// The sample filesystem image the session starts from: a home folder
    /// with a guest user, the program folder holding the shell and its
    /// companion programs, and a small configuration folder.
    pub fn new_filesystem() -> (r: SendTree<FSObject>)
        ensures
            r.value is Folder,
            r.value.spec_name() == "/"@,
            r.value.folder_entries() == rebuild_entries(child_names(r.children@)),
            r.children@.len() == 3,
            child_names(r.children@) == seq!["home"@, "bin"@, "etc"@],
            r.children@[0].value.spec_name() == "home"@,
            r.children@[1].value.spec_name() == "bin"@,
            r.children@[2].value.spec_name() == "etc"@,
            r.children@[1].value is Folder,
            r.children@[1].value.folder_entries() == rebuild_entries(
                child_names(r.children@[1].children@),
            ),
            r.children@[1].children@.len() == 5,
            child_names(r.children@[1].children@) == seq![
                "cash"@,
                "clear"@,
                "help"@,
                "shutdown"@,
                "ssh"@,
            ],
            file_program(r.children@[1].children@[0].value) == Some(
                crate::programs::PROGRAM_CASH,
            ),
    {
        let guest = folder("guest").with_child(
            binary_file("README.md", "Welcome home, guest.\n"),
        ).indexed();
        let home = folder("home").with_child(guest).indexed();
        let bin = folder("bin").with_child(program_file("cash", crate::programs::PROGRAM_CASH))
            .with_child(program_file("clear", crate::programs::PROGRAM_CLEAR)).with_child(
            program_file("help", crate::programs::PROGRAM_HELP),
        ).with_child(program_file("shutdown", crate::programs::PROGRAM_SHUTDOWN)).with_child(
            program_file("ssh", crate::programs::PROGRAM_SSH),
        ).indexed();
        proof {
            assert(child_names(bin.children@) =~= seq![
                "cash"@,
                "clear"@,
                "help"@,
                "shutdown"@,
                "ssh"@,
            ]);
        }
        let etc = folder("etc").with_child(binary_file("profile", "/bin/\n")).indexed();
        let r = Self::new_root().with_child(home).with_child(bin).with_child(etc).indexed();
        proof {
            assert(child_names(r.children@) =~= seq!["home"@, "bin"@, "etc"@]);
        }
        r
    }

    /// Looks `path` up from this node: for each component in turn, reads
    /// the current folder's table and descends to the indicated child.
    pub fn get_by_path<'a>(&'a self, path: &Path) -> (r: Result<&'a FSObject, FsError>)
        ensures
            match r {
                Result::Ok(v) => spec_resolve_in(*self, path@.segs, 0) == Ok::<FSObject, FsError>(
                    *v,
                ),
                Result::Err(e) => spec_resolve_in(*self, path@.segs, 0) == Err::<FSObject, FsError>(
                    e,
                ),
            },
    {
        let ghost segs = path@.segs;
        let mut cur: &'a Tree<FSObject> = self;
        let mut i: usize = 0;
        while i < path.components.len()
            invariant
                i <= segs.len(),
                segs == path@.segs,
                spec_resolve_in(*self, segs, 0) == spec_resolve_in(*cur, segs, i as int),
            decreases segs.len() - i,
        {
            let is_file = match &cur.value {
                FSObject::File { .. } => true,
                FSObject::Folder { .. } => false,
            };
            if is_file {
                return Err(FsError::NotADirectory);
            }
            let looked = match &cur.value {
                FSObject::Folder { name: _, contents } => lookup_index(
                    contents,
                    path.components[i].as_str(),
                ),
                FSObject::File { .. } => None,
            };
            match looked {
                Option::None => {
                    return Err(FsError::NotFound);
                },
                Option::Some(idx) => {
                    if idx < cur.children.len() {
                        cur = &cur.children[idx];
                        i += 1;
                    } else {
                        return Err(FsError::NotFound);
                    }
                },
            }
        }
        Ok(&cur.value)
    }

    /// Clears and rebuilds a folder's lookup table by scanning the current
    /// children in order; on a file node this does nothing.  It must be
    /// called after any structural change: the table is never rebuilt
    /// implicitly.
    #[verifier::loop_isolation(false)]
    pub fn index_children(&mut self)
        ensures
            final(self).children == old(self).children,
            final(self).value is Folder <==> old(self).value is Folder,
            final(self).value.spec_name() == old(self).value.spec_name(),
            old(self).value is File ==> final(self).value == old(self).value,
            old(self).value is Folder ==> final(self).value.folder_entries() == rebuild_entries(
                child_names(old(self).children@),
            ),
    {
        let folder_name = match &self.value {
            FSObject::Folder { name, .. } => name.clone(),
            FSObject::File { .. } => {
                return ;
            },
        };
        let ghost names = child_names(self.children@);
        let mut entries: Vec<FolderEntry> = Vec::new();
        proof {
            assert(entries_view(entries@) =~= Seq::<(Seq<char>, int)>::empty());
            assert(names.take(0int) =~= Seq::<Seq<char>>::empty());
        }
        let mut i: usize = 0;
        while i < self.children.len()
            invariant
                i <= names.len(),
                entries_view(entries@) == rebuild_entries(names.take(i as int)),
            decreases names.len() - i,
        {
            let child_name = self.children[i].get_value().get_name().clone();
            upsert_entry(&mut entries, child_name, i);
            proof {
                let taken = names.take(i + 1);
                assert(taken.drop_last() =~= names.take(i as int));
                assert(taken.last() == names[i as int]);
            }
            i += 1;
        }
        proof {
            assert(names.take(names.len() as int) =~= names);
        }
        self.value = FSObject::Folder { name: folder_name, contents: entries };
    }

    /// `index_children`, returning the tree for chained construction.
    pub fn indexed(self) -> (r: SendTree<FSObject>)
        ensures
            r.children == self.children,
            r.value is Folder <==> self.value is Folder,
            r.value.spec_name() == self.value.spec_name(),
            self.value is File ==> r.value == self.value,
            self.value is Folder ==> r.value.folder_entries() == rebuild_entries(
                child_names(self.children@),
            ),
    {
        let mut t = self;
        t.index_children();
        t
    }

    /// Expands a leading `~` component of a relative path to the home
    /// directory.
    pub fn expand_tilde(path: &Path, home_dir: &Path) -> (r: Path)
        ensures
            r@ == spec_expand_tilde(path@, home_dir@),
    {
        if !path.absolute && path.components.len() > 0 && str_eq(
            path.components[0].as_str(),
            "~",
        ) {
            let mut components = clone_components(&home_dir.components);
            let mut i: usize = 1;
            while i < path.components.len()
                invariant
                    1 <= i <= path.components@.len(),
                    components.deep_view() == home_dir@.segs + path@.segs.subrange(1, i as int),
                decreases path.components@.len() - i,
            {
                let ghost before = components.deep_view();
                components.push(path.components[i].clone());
                proof {
                    assert(components.deep_view() =~= before.push(path@.segs[i as int]));
                    assert(before.push(path@.segs[i as int]) =~= home_dir@.segs
                        + path@.segs.subrange(1, i + 1));
                }
                i += 1;
            }
            proof {
                assert(path@.segs.subrange(1, path@.segs.len() as int) =~= path@.segs.drop_first());
            }
            Path { absolute: home_dir.absolute, components }
        } else {
            let r = Path { absolute: path.absolute, components: clone_components(&path.components) };
            proof {
                assert(r@ =~= path@);
                assert(r@ == path@);
            }
            r
        }
    }

    /// Tilde expansion, then joining a still-relative path onto the
    /// working directory.
    pub fn make_absolute(path: &Path, cwd: &Path, home_dir: &Path) -> (r: Path)
        ensures
            r@ == spec_make_absolute(path@, cwd@, home_dir@),
    {
        let expanded = Self::expand_tilde(path, home_dir);
        if expanded.absolute {
            expanded
        } else {
            let mut components = clone_components(&cwd.components);
            let mut rest = expanded.components;
            let ghost tsegs = spec_expand_tilde(path@, home_dir@).segs;
            let mut i: usize = 0;
            proof {
                assert(tsegs.take(0int) =~= Seq::<Seq<char>>::empty());
                assert(components.deep_view() + tsegs.take(0int) =~= cwd@.segs);
            }
            while i < rest.len()
                invariant
                    i <= rest@.len(),
                    rest.deep_view() == tsegs,
                    components.deep_view() == cwd@.segs + tsegs.take(i as int),
                decreases rest@.len() - i,
            {
                let ghost before = components.deep_view();
                components.push(rest[i].clone());
                proof {
                    assert(components.deep_view() =~= before.push(tsegs[i as int]));
                    assert(before.push(tsegs[i as int]) =~= cwd@.segs + tsegs.take(i + 1));
                }
                i += 1;
            }
            proof {
                assert(tsegs.take(tsegs.len() as int) =~= tsegs);
            }
            Path { absolute: cwd.absolute, components }
        }
    }

    /// Resolves `path` against the working and home directories: tilde
    /// expansion, joining, then left-to-right normalization (a parent
    /// reference pops the last pushed component; popping past an empty
    /// accumulator is a no-op, not an error).
    #[verifier::loop_isolation(false)]
    pub fn resolve_path(path: &Path, cwd: &Path, home_dir: &Path) -> (r: Path)
        ensures
            r@ == spec_resolve(path@, cwd@, home_dir@),
    {
        let joined = Self::make_absolute(path, cwd, home_dir);
        let ghost msegs = joined@.segs;
        let mut components: Vec<String> = Vec::new();
        proof {
            assert(msegs.take(0int) =~= Seq::<Seq<char>>::empty());
            assert(components.deep_view() =~= normalize_segs(msegs.take(0int)));
        }
        let mut i: usize = 0;
        while i < joined.components.len()
            invariant
                i <= msegs.len(),
                components.deep_view() == normalize_segs(msegs.take(i as int)),
            decreases msegs.len() - i,
        {
            let comp = &joined.components[i];
            proof {
                let taken = msegs.take(i + 1);
                assert(taken.drop_last() =~= msegs.take(i as int));
                assert(taken.last() == msegs[i as int]);
            }
            if str_eq(comp.as_str(), "..") {
                if components.len() > 0 {
                    components.pop();
                }
                proof {
                    assert(components.deep_view() =~= normalize_segs(msegs.take(i + 1)));
                }
            } else if str_eq(comp.as_str(), ".") || comp.as_str().unicode_len() == 0 {
                proof {
                    assert(components.deep_view() =~= normalize_segs(msegs.take(i + 1)));
                }
            } else {
                let ghost before = components.deep_view();
                components.push(comp.clone());
                proof {
                    assert(components.deep_view() =~= before.push(msegs[i as int]));
                    assert(components.deep_view() =~= normalize_segs(msegs.take(i + 1)));
                }
            }
            i += 1;
        }
        proof {
            assert(msegs.take(msegs.len() as int) =~= msegs);
        }
        Path { absolute: joined.absolute, components }
    }
}

/// A fresh, unindexed folder node of the given name.
fn folder(name: &str) -> (r: SendTree<FSObject>)
    ensures
        r.value is Folder,
        r.value.spec_name() == name@,
        r.children@.len() == 0,
{
    SendTree::new(FSObject::Folder { name: String::from_str(name), contents: Vec::new() })
}

/// A leaf file node holding the given text as bytes.
fn binary_file(name: &str, text: &str) -> (r: SendTree<FSObject>)
    ensures
        r.value is File,
        r.value.spec_name() == name@,
        file_program(r.value) is None,
        r.children@.len() == 0,
{
    SendTree::new(
        FSObject::File { name: String::from_str(name), contents: FileType::Binary(
            text.as_bytes_vec(),
        ) },
    )
}

/// A leaf file node naming a program by its handle.
fn program_file(name: &str, program: u64) -> (r: SendTree<FSObject>)
    ensures
        r.value is File,
        r.value.spec_name() == name@,
        file_program(r.value) == Some(program),
        r.children@.len() == 0,
{
    SendTree::new(
        FSObject::File { name: String::from_str(name), contents: FileType::Program(program) },
    )
}

/// A fresh vector holding the same strings.
#[verifier::loop_isolation(false)]
fn clone_components(v: &Vec<String>) -> (r: Vec<String>)
    ensures
        r@ == v@,
{
    let mut r: Vec<String> = Vec::new();
    let mut i: usize = 0;
    while i < v.len()
        invariant
            i <= v@.len(),
            r@ == v@.take(i as int),
        decreases v@.len() - i,
    {
        r.push(v[i].clone());
        proof {
            assert(r@ =~= v@.take(i + 1));
        }
        i += 1;
    }
    proof {
        assert(v@.take(v@.len() as int) =~= v@);
    }
    r
}

} // verus!
