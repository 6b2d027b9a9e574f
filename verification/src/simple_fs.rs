use vstd::prelude::*;
use vstd::string::StringExecFns;

verus! {

/// A directory, named by its path. Nothing is backed by storage yet: a
/// folder can be asked for, copied and "created", and the answers are the
/// placeholders the missing file system leaves behind.
pub struct Folder {
    path: String,
}

impl Folder {
    /// The folder's path.
    pub closed spec fn spec_path(&self) -> Seq<char> {
        self.path@
    }

    /// The root folder: the one with the empty path.
    pub fn new() -> (f: Folder)
        ensures
            f.spec_path() == Seq::<char>::empty(),
    {
        Folder { path: String::new() }
    }

    /// A copy of this folder.
    pub fn clone(&self) -> (f: Folder)
        ensures
            f.spec_path() == self.spec_path(),
    {
        Folder { path: self.path.clone() }
    }

    /// Creates the directory. Without a file system there is nothing to
    /// create yet, so nothing changes.
    pub fn mkdir(&self) {
    }

    /// Whether the directory is already there. Without a file system nothing
    /// is, so the answer is always no.
    pub fn is_present(&self) -> (e: bool)
        ensures
            !e,
    {
        false
    }
}

/// A file, named by the folder it stands in, its own name, and the two
/// joined into a full path.
pub struct File {
    path: Folder,
    name: String,
    full_path: String,
}

impl File {
    /// The folder the file stands in.
    pub closed spec fn spec_folder(&self) -> Seq<char> {
        self.path.spec_path()
    }

    /// The file's own name.
    pub closed spec fn spec_name(&self) -> Seq<char> {
        self.name@
    }

    /// The folder's path with the name appended.
    pub closed spec fn spec_full_path(&self) -> Seq<char> {
        self.full_path@
    }

    /// A handle on the file called `name` in `loc`: the folder is created
    /// when it does not exist, then the file itself.
    pub fn new(name: &str, loc: Folder) -> (f: File)
        ensures
            f.spec_folder() == loc.spec_path(),
            f.spec_name() == name@,
            f.spec_full_path() == loc.spec_path() + name@,
    {
        if !loc.is_present() {
            loc.mkdir();
        }
        let mut full = loc.path.clone();
        full.append(name);
        let f = File { path: loc, name: String::from_str(name), full_path: full };
        if !f.is_present() {
            f.create();
        }
        f
    }

    /// Creates the file. Without a file system there is nothing to create
    /// yet, so nothing changes.
    pub fn create(&self) {
    }

    /// The full path, for the outside world.
    pub fn full_path(&self) -> (p: &String)
        ensures
            p@ == self.spec_full_path(),
    {
        &self.full_path
    }

    /// Whether the file is already there. Creation is a placeholder, so the
    /// answer is always yes.
    pub fn is_present(&self) -> (e: bool)
        ensures
            e,
    {
        true
    }
}

} // verus!
