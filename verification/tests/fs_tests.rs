use pseudoterm::files::{FSObject, FileType, FsError};
use pseudoterm::path::Path;
use pseudoterm::send_tree::SendTree;

#[test]
fn filesystem() {
    let filesystem: SendTree<FSObject> = SendTree::new_filesystem();

    for x in filesystem.dfs_iter().values() {
        match x {
            FSObject::File { ref name, ref contents } => {
                println!("File \"{name}\"");
                match contents {
                    FileType::Program(p) => {
                        println!("Running {name}:");
                        println!("program handle {p}");
                    }
                    FileType::Binary(v) => {
                        println!("{}: {}", name, String::from_utf8_lossy(v));
                    }
                };
            }
            FSObject::Folder { ref name, contents: _ } => {
                println!("Folder \"{name}\":");
            }
        }
    }

    assert_eq!(
        filesystem.get_child(0).and_then(|x| {
            if let FSObject::Folder { ref name, .. } = *x.get_value() {
                Some(name.clone())
            } else {
                None
            }
        }),
        Some(String::from("home"))
    )
}

// The root path resolves to the root folder itself; a missing name fails
// with NotFound.
#[test]
fn get_by_path_root_and_missing() {
    let fs = SendTree::new_filesystem();

    let root = fs.get_by_path(&Path::new("/")).unwrap();
    assert!(root.is_folder());
    assert_eq!(root.get_name(), "/");

    assert!(matches!(fs.get_by_path(&Path::new("/missing")), Err(FsError::NotFound)));
}

// Descending through a file fails with NotADirectory; full descents work.
#[test]
fn get_by_path_descends() {
    let fs = SendTree::new_filesystem();

    let readme = fs.get_by_path(&Path::new("/home/guest/README.md")).unwrap();
    assert!(readme.is_file());
    assert_eq!(readme.get_name(), "README.md");

    assert!(matches!(
        fs.get_by_path(&Path::new("/home/guest/README.md/deeper")),
        Err(FsError::NotADirectory)
    ));
    assert!(matches!(fs.get_by_path(&Path::new("/home/nobody")), Err(FsError::NotFound)));

    let cash = fs.get_by_path(&Path::new("/bin/cash")).unwrap();
    match cash {
        FSObject::File { contents: FileType::Program(p), .. } => {
            assert_eq!(*p, pseudoterm::programs::PROGRAM_CASH);
        }
        _ => panic!("expected the startup program file"),
    }
}

// The lookup table is rebuilt only on demand and then reflects the
// children in order.
#[test]
fn index_children_rebuilds() {
    let mut folder = SendTree::new_root();
    folder.insert_child(SendTree::new(FSObject::File {
        name: String::from("a"),
        contents: FileType::Binary(vec![1]),
    }));
    folder.insert_child(SendTree::new(FSObject::File {
        name: String::from("b"),
        contents: FileType::Binary(vec![2]),
    }));

    // not indexed yet: the names are not found
    assert!(matches!(folder.get_by_path(&Path::new("/a")), Err(FsError::NotFound)));

    folder.index_children();
    assert_eq!(folder.get_by_path(&Path::new("/a")).unwrap().get_name(), "a");
    assert_eq!(folder.get_by_path(&Path::new("/b")).unwrap().get_name(), "b");
}

#[test]
fn fsobject_accessors() {
    let f = FSObject::File { name: String::from("x"), contents: FileType::Binary(vec![]) };
    let d = FSObject::Folder { name: String::from("y"), contents: Vec::new() };
    assert!(f.is_file());
    assert!(!f.is_folder());
    assert!(d.is_folder());
    assert!(!d.is_file());
    assert_eq!(f.get_name(), "x");
    assert_eq!(d.get_name(), "y");
    assert_eq!(f.get_permissions(), None);
}

// Resolution: tilde expansion, joining, and normalization.
#[test]
fn resolve_path_forms() {
    type Fs = SendTree<FSObject>;

    // already absolute and normalized: unchanged, twice over
    let p = Fs::resolve_path(&Path::new("/a/b"), &Path::new("/x"), &Path::new("/root"));
    assert!(p.absolute);
    assert_eq!(p.components, vec!["a".to_string(), "b".to_string()]);
    let q = Fs::resolve_path(&p, &Path::new("/elsewhere"), &Path::new("/other"));
    assert!(q.absolute);
    assert_eq!(q.components, p.components);

    // relative paths join onto the working directory
    let p = Fs::resolve_path(&Path::new("c/d"), &Path::new("/a/b"), &Path::new("/root"));
    assert_eq!(p.components, vec!["a", "b", "c", "d"]);

    // a parent reference pops; one past the root is a no-op
    let p = Fs::resolve_path(&Path::new("/a/b/../c"), &Path::new("/"), &Path::new("/root"));
    assert_eq!(p.components, vec!["a", "c"]);
    let p = Fs::resolve_path(&Path::new("/../../x"), &Path::new("/"), &Path::new("/root"));
    assert_eq!(p.components, vec!["x"]);

    // here references and empty components drop out
    let p = Fs::resolve_path(&Path::new("/a/./b//c"), &Path::new("/"), &Path::new("/root"));
    assert_eq!(p.components, vec!["a", "b", "c"]);

    // a leading tilde goes to the home directory
    let p = Fs::resolve_path(&Path::new("~/notes"), &Path::new("/a"), &Path::new("/root"));
    assert!(p.absolute);
    assert_eq!(p.components, vec!["root", "notes"]);

    let expanded = Fs::expand_tilde(&Path::new("~/x"), &Path::new("/h"));
    assert_eq!(expanded.components, vec!["h", "x"]);
    let joined = Fs::make_absolute(&Path::new("x"), &Path::new("/cwd"), &Path::new("/h"));
    assert_eq!(joined.components, vec!["cwd", "x"]);
    assert!(joined.absolute);
}

#[test]
fn path_parse_and_display() {
    let p = Path::new("/a//b/");
    assert!(p.absolute);
    assert_eq!(p.components, vec!["a", "b"]);
    assert_eq!(p.to_display(), "/a/b");

    let r = Path::new("a/b");
    assert!(!r.absolute);
    assert_eq!(r.to_display(), "a/b");

    let empty = Path::new("");
    assert!(!empty.absolute);
    assert!(empty.components.is_empty());
    assert_eq!(Path::new("/").to_display(), "/");
}
