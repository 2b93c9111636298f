//! Idempotent preparation of the runtime directories.
//!
//! The supervisor creates the configuration, database and upload
//! directories before the backend is spawned. Creation is idempotent: a
//! directory that already exists is not an error, and preparing the same
//! layout twice leaves the same directory structure. [`DirectoryTree`]
//! models the set of directories that exist; the host mirrors each
//! `ensure_dir` with the real recursive-create call, whose only honest
//! failures (permissions, I/O) it reports as the directory-preparation
//! event's failure case.

use vstd::prelude::*;

use crate::paths::RuntimeDirectories;

verus! {

/// The directories that exist, as a model of the relevant part of the
/// filesystem.
pub struct DirectoryTree {
    pub created: Vec<String>,
}

/// The directory set after the runtime layout under `config` has been
/// prepared: the configuration directory and its database and upload
/// subdirectories exist; everything else is untouched.
pub open spec fn spec_prepared(dirs: Set<Seq<char>>, config: Seq<char>) -> Set<Seq<char>> {
    dirs.insert(config).insert(config + "/db"@).insert(config + "/uploads"@)
}

impl DirectoryTree {
    /// The set of directories that exist.
    pub open spec fn dirs(self) -> Set<Seq<char>> {
        self.created.deep_view().to_set()
    }

    /// A tree in which no directory exists yet.
    pub fn new() -> (t: DirectoryTree)
        ensures
            t.dirs() =~= Set::<Seq<char>>::empty(),
    {
        let t = DirectoryTree { created: Vec::new() };
        proof {
            assert forall|p: Seq<char>| !t.dirs().contains(p) by {
                assert(t.created.deep_view().len() == 0);
            }
        }
        t
    }

    /// Whether a directory exists.
    pub fn contains_dir(&self, path: &str) -> (b: bool)
        ensures
            b == self.dirs().contains(path@),
    {
        let mut i: usize = 0;
        while i < self.created.len()
            invariant
                i <= self.created.len(),
                forall|j: int| 0 <= j < i ==> self.created.deep_view()[j] != path@,
            decreases self.created.len() - i,
        {
            if self.created[i] == path.to_owned() {
                proof {
                    assert(self.created.deep_view()[i as int] == path@);
                }
                return true;
            }
            i = i + 1;
        }
        proof {
            assert(!self.dirs().contains(path@)) by {
                if self.created.deep_view().contains(path@) {
                    let i = choose|i: int|
                        0 <= i < self.created.deep_view().len()
                            && self.created.deep_view()[i] == path@;
                }
            }
        }
        false
    }

    /// Make one directory exist. Creating a directory that already exists
    /// is not an error and changes nothing.
    pub fn ensure_dir(&mut self, path: &str)
        ensures
            final(self).dirs() =~= old(self).dirs().insert(path@),
    {
        if !self.contains_dir(path) {
            self.created.push(path.to_owned());
            proof {
                let s0 = old(self).created.deep_view();
                let s1 = self.created.deep_view();
                assert(s1 =~= s0.push(path@));
                assert forall|p: Seq<char>|
                    self.dirs().contains(p) <==> (old(self).dirs().contains(p) || p
                        == path@) by {
                    if s1.contains(p) {
                        let i = choose|i: int| 0 <= i < s1.len() && s1[i] == p;
                        if i < s0.len() {
                            assert(s0.contains(p));
                        }
                    }
                    if s0.contains(p) {
                        let i = choose|i: int| 0 <= i < s0.len() && s0[i] == p;
                        assert(s1[i] == p);
                    }
                    if p == path@ {
                        assert(s1[s0.len() as int] == p);
                    }
                }
            }
        }
    }

    /// Prepare the runtime layout: the configuration directory, the
    /// database directory and the upload directory, in that order.
    pub fn prepare(&mut self, rd: &RuntimeDirectories)
        ensures
            final(self).dirs() =~= old(self).dirs().insert(rd.config_dir@).insert(
                rd.db_dir@,
            ).insert(rd.upload_dir@),
            forall|config: Seq<char>|
                rd.wf_for(config) ==> final(self).dirs() =~= spec_prepared(
                    old(self).dirs(),
                    config,
                ),
    {
        self.ensure_dir(rd.config_dir.as_str());
        self.ensure_dir(rd.db_dir.as_str());
        self.ensure_dir(rd.upload_dir.as_str());
    }
}

/// Directory preparation is idempotent: preparing the same layout twice
/// produces the same directory structure as preparing it once.
pub proof fn lemma_prepare_idempotent(dirs: Set<Seq<char>>, config: Seq<char>)
    ensures
        spec_prepared(spec_prepared(dirs, config), config) =~= spec_prepared(dirs, config),
{
}

} // verus!
