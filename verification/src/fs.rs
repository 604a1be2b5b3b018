//! A snapshot of the filesystem facts that grading consults.
//!
//! The grading logic never reads the disk itself. A caller probes the
//! paths it cares about once, records which of them name existing regular
//! files and which name existing directories — each directory with its
//! canonical path, symlinks resolved — and hands the answers in as a
//! plain value. Every decision downstream is then a pure function of
//! this snapshot.

use vstd::prelude::*;
use crate::paths::join_path;
use crate::paths::join_seq;
use crate::paths::joined_all;
use crate::paths::lemma_joined_all_step;
use crate::paths::lemma_missing_from_push;
use crate::paths::missing_from;

verus! {

/// Which paths name existing regular files, and which name existing
/// directories, at the moment the snapshot was taken. Each directory
/// entry pairs the path as probed with its canonical form.
pub struct FsSnapshot {
    pub files: Vec<String>,
    pub dirs: Vec<(String, String)>,
}

impl FsSnapshot {
    /// The file paths present in the snapshot, as character sequences.
    pub open spec fn files_view(&self) -> Seq<Seq<char>> {
        self.files.deep_view()
    }

    /// The directory entries of the snapshot: each probed path with its
    /// canonical form, as character sequences.
    pub open spec fn dirs_view(&self) -> Seq<(Seq<char>, Seq<char>)> {
        self.dirs.deep_view()
    }

    /// Does `path` name an existing directory in this snapshot?
    pub open spec fn has_dir_spec(&self, path: Seq<char>) -> bool {
        exists|i: int|
            0 <= i < self.dirs_view().len() && #[trigger] self.dirs_view()[i].0 == path
    }

    /// Does `path` name an existing regular file in this snapshot?
    pub fn has_file(&self, path: &String) -> (r: bool)
        ensures
            r == self.files_view().contains(path@),
    {
        contains_string(&self.files, path)
    }

    /// The canonical path recorded for the directory `path`, or `None`
    /// when the snapshot holds no directory under that path.
    pub fn canon_dir(&self, path: &String) -> (r: Option<String>)
        ensures
            (match r {
                Some(c) => exists|i: int|
                    0 <= i < self.dirs_view().len() && (#[trigger] self.dirs_view()[i]).0
                        == path@ && self.dirs_view()[i].1 == c@,
                None => !self.has_dir_spec(path@),
            }),
    {
        let mut i: usize = 0;
        while i < self.dirs.len()
            invariant
                i <= self.dirs.len(),
                forall|k: int| 0 <= k < i ==> (#[trigger] self.dirs_view()[k]).0 != path@,
            decreases self.dirs.len() - i,
        {
            if self.dirs[i].0.eq(path) {
                let c = self.dirs[i].1.clone();
                proof {
                    assert(self.dirs_view()[i as int].0 == path@);
                    assert(self.dirs_view()[i as int].1 == c@);
                }
                return Some(c);
            }
            i += 1;
        }
        None
    }

    /// The paths among `names`, each joined onto `root`, that are absent
    /// from the snapshot's files, in order.
    pub fn missing_files(&self, names: &Vec<String>, root: &String) -> (r: Vec<String>)
        ensures
            r.deep_view() == missing_from(
                joined_all(names.deep_view(), root@),
                self.files_view(),
            ),
    {
        let ghost ns = names.deep_view();
        let mut r: Vec<String> = Vec::new();
        let mut i: usize = 0;
        while i < names.len()
            invariant
                i <= names.len(),
                ns == names.deep_view(),
                r.deep_view() == missing_from(
                    joined_all(ns.take(i as int), root@),
                    self.files_view(),
                ),
            decreases names.len() - i,
        {
            let ghost r0 = r.deep_view();
            let joined = join_path(root.as_str(), names[i].as_str());
            proof {
                assert(ns[i as int] == names[i as int]@);
                lemma_joined_all_step(ns, root@, i as int);
                lemma_missing_from_push(
                    joined_all(ns.take(i as int), root@),
                    joined@,
                    self.files_view(),
                );
            }
            if !self.has_file(&joined) {
                r.push(joined);
                proof {
                    assert(r.deep_view() =~= r0.push(join_seq(root@, ns[i as int])));
                }
            }
            i += 1;
        }
        proof {
            assert(ns.take(ns.len() as int) =~= ns);
        }
        r
    }
}

/// Does `v` hold a string whose characters equal those of `s`?
fn contains_string(v: &Vec<String>, s: &String) -> (r: bool)
    ensures
        r == v.deep_view().contains(s@),
{
    let mut i: usize = 0;
    while i < v.len()
        invariant
            i <= v.len(),
            forall|k: int| 0 <= k < i ==> v.deep_view()[k] != s@,
        decreases v.len() - i,
    {
        if v[i].eq(s) {
            assert(v.deep_view()[i as int] == s@);
            return true;
        }
        i += 1;
    }
    assert(forall|k: int| 0 <= k < v.deep_view().len() ==> v.deep_view()[k] != s@);
    false
}

} // verus!
