//! The file index: a mapping from bare filename to its unique full path
//! under the watched root. It is rebuilt from scratch from the list of
//! regular files a directory walk found; when two distinct paths share a
//! tracked filename the whole index is discarded rather than left
//! ambiguous.

use vstd::prelude::*;

use crate::strutil::ends_with;
use crate::strutil::str_ends_with;

verus! {

/// One regular file found under the watched root, as (bare name, full path).
pub struct FileEntry {
    pub file_name: String,
    pub full_path: String,
}

/// The filename-to-path index.
pub struct FileIndex {
    entries: Vec<FileEntry>,
}

/// The (name, path) views of a list of file entries, in order.
pub open spec fn entries_view(files: Seq<FileEntry>) -> Seq<(Seq<char>, Seq<char>)> {
    files.map(|i: int, e: FileEntry| (e.file_name@, e.full_path@))
}

/// A filename with one of the two tracked extensions.
pub open spec fn is_tracked_name(name: Seq<char>) -> bool {
    ends_with(name, ".kicad_sch"@) || ends_with(name, ".kicad_pcb"@)
}

/// Whether `name` has a tracked extension.
pub fn is_tracked_file_name(name: &str) -> (r: bool)
    ensures
        r == is_tracked_name(name@),
{
    str_ends_with(name, ".kicad_sch") || str_ends_with(name, ".kicad_pcb")
}

/// The path the first entry named `name` maps to, if any.
pub open spec fn lookup_seq(s: Seq<(Seq<char>, Seq<char>)>, name: Seq<char>) -> Option<
    Seq<char>,
>
    decreases s.len(),
{
    if s.len() == 0 {
        None
    } else if s[0].0 == name {
        Some(s[0].1)
    } else {
        lookup_seq(s.drop_first(), name)
    }
}

proof fn lemma_lookup_none(s: Seq<(Seq<char>, Seq<char>)>, name: Seq<char>)
    requires
        lookup_seq(s, name) is None,
    ensures
        forall|j: int| 0 <= j < s.len() ==> s[j].0 != name,
    decreases s.len(),
{
    if s.len() > 0 {
        let t = s.drop_first();
        lemma_lookup_none(t, name);
        assert forall|j: int| 0 <= j < s.len() implies s[j].0 != name by {
            if j > 0 {
                assert(t[j - 1] == s[j]);
            }
        }
    }
}

proof fn lemma_lookup_from(s: Seq<(Seq<char>, Seq<char>)>, name: Seq<char>, i: int)
    requires
        0 <= i <= s.len(),
        forall|j: int| 0 <= j < i ==> s[j].0 != name,
    ensures
        lookup_seq(s, name) == lookup_seq(s.skip(i), name),
    decreases i,
{
    if i == 0 {
        assert(s.skip(0) =~= s);
    } else {
        lemma_lookup_from(s, name, i - 1);
        let t = s.skip(i - 1);
        assert(t[0] == s[i - 1]);
        assert(t.drop_first() =~= s.skip(i));
    }
}

/// What a rebuild makes of the index: the files are taken in walk order;
/// a file without a tracked extension is skipped; a tracked file whose
/// name is already present empties the index and ends the build; any other
/// tracked file is appended.
pub open spec fn build_from(
    acc: Seq<(Seq<char>, Seq<char>)>,
    files: Seq<(Seq<char>, Seq<char>)>,
) -> Seq<(Seq<char>, Seq<char>)>
    decreases files.len(),
{
    if files.len() == 0 {
        acc
    } else if !is_tracked_name(files[0].0) {
        build_from(acc, files.drop_first())
    } else if lookup_seq(acc, files[0].0) is Some {
        Seq::empty()
    } else {
        build_from(acc.push(files[0]), files.drop_first())
    }
}

/// The index a rebuild yields from a list of found files.
pub open spec fn build_spec(files: Seq<(Seq<char>, Seq<char>)>) -> Seq<(Seq<char>, Seq<char>)> {
    build_from(Seq::empty(), files)
}

impl View for FileIndex {
    type V = Seq<(Seq<char>, Seq<char>)>;

    closed spec fn view(&self) -> Seq<(Seq<char>, Seq<char>)> {
        entries_view(self.entries@)
    }
}

impl FileIndex {
    /// No two entries share a filename.
    pub open spec fn wf(self) -> bool {
        forall|i: int, j: int| 0 <= i < j < self@.len() ==> self@[i].0 != self@[j].0
    }

    /// An empty index.
    pub fn new() -> (r: FileIndex)
        ensures
            r@ == Seq::<(Seq<char>, Seq<char>)>::empty(),
            r.wf(),
    {
        let r = FileIndex { entries: Vec::new() };
        proof {
            assert(r@ =~= Seq::<(Seq<char>, Seq<char>)>::empty());
        }
        r
    }

    /// Resolve a bare filename to its full path.
    pub fn lookup(&self, name: &String) -> (r: Option<String>)
        ensures
            match r {
                Some(p) => lookup_seq(self@, name@) == Some(p@),
                None => lookup_seq(self@, name@) is None,
            },
    {
        let n = self.entries.len();
        let mut i: usize = 0;
        while i < n
            invariant
                n == self.entries.len(),
                i <= n,
                forall|j: int| 0 <= j < i ==> self@[j].0 != name@,
            decreases n - i,
        {
            if self.entries[i].file_name == *name {
                proof {
                    lemma_lookup_from(self@, name@, i as int);
                    assert(self@.skip(i as int)[0] == self@[i as int]);
                }
                return Some(self.entries[i].full_path.clone());
            }
            i = i + 1;
        }
        proof {
            lemma_lookup_from(self@, name@, n as int);
            assert(self@.skip(n as int) =~= Seq::<(Seq<char>, Seq<char>)>::empty());
        }
        None
    }

    /// Replace the whole index from the files a directory walk found,
    /// clearing it entirely when two tracked files share a name.
    pub fn rebuild(&mut self, files: &Vec<FileEntry>)
        ensures
            final(self)@ == build_spec(entries_view(files@)),
            final(self).wf(),
    {
        self.entries = Vec::new();
        let ghost fs = entries_view(files@);
        proof {
            assert(self@ =~= Seq::<(Seq<char>, Seq<char>)>::empty());
            assert(fs.skip(0) =~= fs);
        }
        let n = files.len();
        let mut k: usize = 0;
        while k < n
            invariant
                n == files.len(),
                k <= n,
                fs == entries_view(files@),
                fs.len() == n,
                self.wf(),
                build_spec(fs) == build_from(self@, fs.skip(k as int)),
            decreases n - k,
        {
            let ghost rest = fs.skip(k as int);
            proof {
                assert(rest[0] == fs[k as int]);
                assert(rest.drop_first() =~= fs.skip(k as int + 1));
            }
            let name = &files[k].file_name;
            if is_tracked_file_name(name.as_str()) {
                match self.lookup(name) {
                    Some(_) => {
                        self.entries = Vec::new();
                        proof {
                            assert(self@ =~= Seq::<(Seq<char>, Seq<char>)>::empty());
                        }
                        return ;
                    },
                    None => {
                        proof {
                            lemma_lookup_none(self@, name@);
                        }
                        let ghost before = self@;
                        self.entries.push(
                            FileEntry {
                                file_name: name.clone(),
                                full_path: files[k].full_path.clone(),
                            },
                        );
                        proof {
                            assert(self@ =~= before.push(fs[k as int]));
                        }
                    },
                }
            }
            k = k + 1;
        }
        proof {
            assert(fs.skip(n as int) =~= Seq::<(Seq<char>, Seq<char>)>::empty());
        }
    }
}

} // verus!
