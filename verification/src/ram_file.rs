use vstd::prelude::*;
use vstd::string::StringExecFns;

verus! {

/// The pieces of `s` between newline characters, in order; adjacent
/// newlines and newlines at either end contribute empty pieces, and a text
/// without any newline is one piece.
pub open spec fn spec_split_lines(s: Seq<char>) -> Seq<Seq<char>>
    decreases s.len(),
{
    if s.len() == 0 {
        seq![Seq::<char>::empty()]
    } else {
        let rest = spec_split_lines(s.drop_first());
        if s[0] == '\n' {
            seq![Seq::<char>::empty()] + rest
        } else {
            seq![seq![s[0]] + rest[0]] + rest.drop_first()
        }
    }
}

/// The texts a sequence of owned strings holds.
pub open spec fn lines_view(v: Seq<String>) -> Seq<Seq<char>> {
    Seq::new(v.len(), |i: int| v[i]@)
}

/// Relies on `str::split`: splitting at `'\n'` yields exactly the pieces
/// between newlines, empty pieces included, and one piece for a text without
/// any newline.
#[verifier::external_body]
fn split_lines(data: &str) -> (v: Vec<String>)
    ensures
        lines_view(v@) == spec_split_lines(data@),
{
    let mut v = Vec::new();
    for piece in data.split('\n') {
        v.push(piece.to_owned());
    }
    v
}

/// A file kept in memory, line by line: a stand-in while no file system
/// exists for the things that already need one.
pub struct RAMFile {
    name: String,
    data: Vec<String>,
}

impl RAMFile {
    /// The file's name; there is no path, the file lives in memory alone.
    pub closed spec fn spec_name(&self) -> Seq<char> {
        self.name@
    }

    /// The lines the file holds.
    pub closed spec fn lines(&self) -> Seq<Seq<char>> {
        lines_view(self.data@)
    }

    /// An empty file of the given name.
    pub fn new(name: String) -> (f: RAMFile)
        ensures
            f.spec_name() == name@,
            f.lines() == Seq::<Seq<char>>::empty(),
    {
        let f = RAMFile { name, data: Vec::new() };
        proof {
            assert(f.lines() =~= Seq::<Seq<char>>::empty());
        }
        f
    }

    /// Replaces the file's contents with `data`, split into lines.
    pub fn write(&mut self, data: String)
        ensures
            final(self).spec_name() == old(self).spec_name(),
            final(self).lines() == spec_split_lines(data@),
    {
        self.data.clear();
        self.append(data);
        proof {
            assert(Seq::<Seq<char>>::empty() + spec_split_lines(data@) =~= spec_split_lines(
                data@,
            ));
        }
    }

    /// Adds `data` to the end of the file, split into lines.
    pub fn append(&mut self, data: String)
        ensures
            final(self).spec_name() == old(self).spec_name(),
            final(self).lines() == old(self).lines() + spec_split_lines(data@),
    {
        let mut fresh = split_lines(data.as_str());
        self.data.append(&mut fresh);
        proof {
            assert(self.lines() =~= old(self).lines() + spec_split_lines(data@));
        }
    }

    /// Hands out a copy of the file's lines.
    pub fn read(&self) -> (lines: Vec<String>)
        ensures
            lines_view(lines@) == self.lines(),
    {
        let mut out: Vec<String> = Vec::new();
        let mut i: usize = 0;
        let n = self.data.len();
        while i < n
            invariant
                i <= n,
                n == self.data@.len(),
                out@.len() == i,
                forall|j: int| 0 <= j < i ==> (#[trigger] out@[j])@ == self.data@[j]@,
            decreases n - i,
        {
            out.push(self.data[i].clone());
            i += 1;
        }
        proof {
            assert(lines_view(out@) =~= self.lines());
        }
        out
    }
}

} // verus!
