//! The work list of the files of a compilation: the files named at the
//! start and those that they import, each import read once.

use vstd::prelude::*;

verus! {

/// The mathematical value of an [`ImportQueue`]: the paths that wait to be
/// read, the next one last, and the paths that are known already.
pub struct ImportQueueV {
    pub waiting: Seq<Seq<char>>,
    pub seen: Set<Seq<char>>,
}

impl ImportQueueV {
    /// The work list after the first `upto` of `imports` are noted: an
    /// import that is not known yet becomes known and waits to be read.
    pub open spec fn note(self, imports: Seq<Seq<char>>, upto: nat) -> ImportQueueV
        decreases upto,
    {
        if upto == 0 {
            self
        } else {
            let before = self.note(imports, (upto - 1) as nat);
            let path = imports[upto - 1];
            if before.seen.contains(path) {
                before
            } else {
                ImportQueueV { waiting: before.waiting.push(path), seen: before.seen.insert(path) }
            }
        }
    }
}

/// The paths of a list as a set.
pub open spec fn path_set(paths: Seq<String>) -> Set<Seq<char>> {
    Set::new(|path: Seq<char>| exists|i: int| 0 <= i < paths.len() && paths[i]@ == path)
}

/// The files that wait to be read and the files that are known. Paths are
/// compared by their spelling.
#[derive(Debug)]
pub struct ImportQueue {
    waiting: Vec<String>,
    seen: Vec<String>,
}

impl View for ImportQueue {
    type V = ImportQueueV;

    closed spec fn view(&self) -> ImportQueueV {
        ImportQueueV {
            waiting: Seq::new(self.waiting@.len(), |i: int| self.waiting@[i]@),
            seen: path_set(self.seen@),
        }
    }
}

impl ImportQueue {
    /// The work list at the start: `files` wait to be read, the last one
    /// first, and no file is known yet.
    pub fn new(files: Vec<String>) -> (queue: ImportQueue)
        ensures
            queue@ == (ImportQueueV {
                waiting: Seq::new(files@.len(), |i: int| files@[i]@),
                seen: Set::empty(),
            }),
    {
        let queue = ImportQueue { waiting: files, seen: Vec::new() };
        assert(queue@.seen =~= Set::empty());
        queue
    }

    /// Whether `path` is known.
    fn knows(&self, path: &String) -> (known: bool)
        ensures
            known == self@.seen.contains(path@),
    {
        let mut at: usize = 0;
        while at < self.seen.len()
            invariant
                at <= self.seen.len(),
                forall|i: int| 0 <= i < at ==> self.seen@[i]@ != path@,
            decreases self.seen.len() - at,
        {
            if self.seen[at] == *path {
                return true;
            }
            at += 1;
        }
        false
    }

    /// Takes the file that is read next, which thereby becomes known;
    /// `None` once no file waits.
    pub fn next(&mut self) -> (file: Option<String>)
        ensures
            old(self)@.waiting.len() == 0 ==> file is None && final(self)@ == old(self)@,
            old(self)@.waiting.len() > 0 ==> {
                &&& file matches Some(path)
                &&& path@ == old(self)@.waiting.last()
                &&& final(self)@ == (ImportQueueV {
                    waiting: old(self)@.waiting.drop_last(),
                    seen: old(self)@.seen.insert(path@),
                })
            },
    {
        match self.waiting.pop() {
            None => {
                assert(self@.waiting =~= old(self)@.waiting);
                None
            },
            Some(path) => {
                let ghost known = self.seen@;
                self.seen.push(path.clone());
                proof {
                    assert(self@.waiting =~= old(self)@.waiting.drop_last());
                    assert forall|p: Seq<char>|
                        self@.seen.contains(p) <==> old(self)@.seen.insert(path@).contains(
                            p,
                        ) by {
                        if old(self)@.seen.contains(p) {
                            let i = choose|i: int| 0 <= i < known.len() && known[i]@ == p;
                            assert(self.seen@[i]@ == p);
                        }
                        if p == path@ {
                            assert(self.seen@[known.len() as int]@ == p);
                        }
                        if self@.seen.contains(p) {
                            let i = choose|i: int| 0 <= i < self.seen@.len() && self.seen@[i]@ == p;
                            if i < known.len() {
                                assert(known[i]@ == p);
                            }
                        }
                    }
                    assert(self@.seen =~= old(self)@.seen.insert(path@));
                }
                Some(path)
            },
        }
    }

    /// Notes the imports of the file that was read: each that is not known
    /// yet becomes known and waits to be read.
    pub fn add_imports(&mut self, imports: &Vec<String>)
        ensures
            final(self)@ == old(self)@.note(
                Seq::new(imports@.len(), |i: int| imports@[i]@),
                imports@.len(),
            ),
    {
        let ghost list = Seq::new(imports@.len(), |i: int| imports@[i]@);
        let mut at: usize = 0;
        while at < imports.len()
            invariant
                at <= imports.len(),
                list == Seq::new(imports@.len(), |i: int| imports@[i]@),
                self@ == old(self)@.note(list, at as nat),
            decreases imports.len() - at,
        {
            let path = &imports[at];
            if !self.knows(path) {
                let ghost before = *self;
                let ghost known = self.seen@;
                self.seen.push(path.clone());
                self.waiting.push(path.clone());
                proof {
                    assert(self@.waiting =~= before@.waiting.push(path@));
                    assert forall|p: Seq<char>|
                        self@.seen.contains(p) <==> before@.seen.insert(path@).contains(p) by {
                        if before@.seen.contains(p) {
                            let i = choose|i: int| 0 <= i < known.len() && known[i]@ == p;
                            assert(self.seen@[i]@ == p);
                        }
                        if p == path@ {
                            assert(self.seen@[known.len() as int]@ == p);
                        }
                        if self@.seen.contains(p) {
                            let i = choose|i: int| 0 <= i < self.seen@.len() && self.seen@[i]@ == p;
                            if i < known.len() {
                                assert(known[i]@ == p);
                            }
                        }
                    }
                    assert(self@.seen =~= before@.seen.insert(path@));
                }
            }
            at += 1;
        }
    }
}

/// A file that is known is never made to wait again: noting imports adds
/// to the waiting files only paths that were not known, and each of those
/// once.
pub proof fn law_known_files_do_not_wait_again(
    queue: ImportQueueV,
    imports: Seq<Seq<char>>,
    upto: nat,
)
    requires
        upto <= imports.len(),
    ensures
        queue.note(imports, upto).waiting.len() >= queue.waiting.len(),
        queue.note(imports, upto).waiting.take(queue.waiting.len() as int) == queue.waiting,
        forall|path: Seq<char>| queue.seen.contains(path) ==> queue.note(imports, upto).seen.contains(path),
        forall|k: int|
            queue.waiting.len() <= k < queue.note(imports, upto).waiting.len()
                ==> !queue.seen.contains(#[trigger] queue.note(imports, upto).waiting[k]),
        forall|j: int, k: int|
            queue.waiting.len() <= j < k < queue.note(imports, upto).waiting.len()
                ==> queue.note(imports, upto).waiting[j] != queue.note(imports, upto).waiting[k],
        forall|k: int|
            queue.waiting.len() <= k < queue.note(imports, upto).waiting.len()
                ==> queue.note(imports, upto).seen.contains(#[trigger] queue.note(imports, upto).waiting[k]),
    decreases upto,
{
    if upto > 0 {
        law_known_files_do_not_wait_again(queue, imports, (upto - 1) as nat);
        let before = queue.note(imports, (upto - 1) as nat);
        let after = queue.note(imports, upto);
        assert(after.waiting.take(queue.waiting.len() as int) =~= queue.waiting);
    } else {
        assert(queue.waiting.take(queue.waiting.len() as int) =~= queue.waiting);
    }
}

} // verus!
