//! Batches: the files that the user's inputs name, one job per file, and the
//! bookkeeping that collects exactly one result per job.

use crate::job::{Config, Job, JobError, JobResult, Outcome, is_job_for, planned_output};
use vstd::prelude::*;

verus! {

/// Why a user-supplied input yields no files.
#[derive(Debug, PartialEq, Eq)]
pub enum DiscoveryError {
    /// The path's metadata could not be read, for the reason given.
    Metadata(String),
    /// The path is neither a regular file nor a directory.
    NotFileOrDirectory,
    /// The directory's entries could not be listed, for the reason given.
    UnreadableDirectory(String),
}

/// What an input path turned out to be.
#[derive(Debug, PartialEq, Eq)]
pub enum Discovery {
    /// A regular file: it is a job of its own.
    File,
    /// A directory, with the regular files among its immediate entries.
    Directory(Vec<String>),
    /// Nothing to work on.
    Unusable(DiscoveryError),
}

/// One user-supplied input path and what was found there.
#[derive(Debug, PartialEq, Eq)]
pub struct InputEntry {
    pub path: String,
    pub found: Discovery,
}

/// The files that one input contributes: the path itself for a file, the
/// listed files for a directory (never the directory), none otherwise.
pub open spec fn entry_files(e: InputEntry) -> Seq<Seq<char>> {
    match e.found {
        Discovery::File => seq![e.path@],
        Discovery::Directory(files) => files@.map_values(|f: String| f@),
        Discovery::Unusable(_) => Seq::empty(),
    }
}

/// The files of all inputs, in input order.
pub open spec fn files_of(entries: Seq<InputEntry>) -> Seq<Seq<char>>
    decreases entries.len(),
{
    if entries.len() == 0 {
        Seq::empty()
    } else {
        files_of(entries.drop_last()) + entry_files(entries.last())
    }
}

/// The text of each path.
pub open spec fn texts(paths: Seq<String>) -> Seq<Seq<char>> {
    paths.map_values(|p: String| p@)
}

/// Lists the files that the inputs name, in input order.
pub fn discovered_files(entries: &Vec<InputEntry>) -> (r: Vec<String>)
    ensures
        texts(r@) == files_of(entries@),
{
    let mut r: Vec<String> = Vec::new();
    let n = entries.len();
    for i in 0..n
        invariant
            n == entries@.len(),
            texts(r@) == files_of(entries@.subrange(0, i as int)),
    {
        let ghost before = r@;
        let e = &entries[i];
        match &e.found {
            Discovery::File => {
                r.push(e.path.clone());
            },
            Discovery::Directory(files) => {
                let m = files.len();
                for k in 0..m
                    invariant
                        m == files@.len(),
                        texts(r@) == texts(before) + texts(files@.subrange(0, k as int)),
                {
                    let ghost prev = r@;
                    let f = files[k].clone();
                    r.push(f);
                    assert(files@.subrange(0, k + 1) =~= files@.subrange(0, k as int).push(
                        files@[k as int],
                    ));
                    assert(texts(r@) =~= texts(prev).push(files@[k as int]@));
                    assert(texts(files@.subrange(0, k + 1)) =~= texts(
                        files@.subrange(0, k as int),
                    ).push(files@[k as int]@));
                    assert(texts(r@) =~= texts(before) + texts(files@.subrange(0, k + 1)));
                }
                assert(files@.subrange(0, m as int) =~= files@);
            },
            Discovery::Unusable(_) => {},
        }
        assert(entries@.subrange(0, i + 1).drop_last() =~= entries@.subrange(0, i as int));
        assert(texts(r@) =~= files_of(entries@.subrange(0, i + 1)));
    }
    assert(entries@.subrange(0, n as int) =~= entries@);
    r
}

/// How many inputs yielded nothing to work on.
pub open spec fn unusable_count(entries: Seq<InputEntry>) -> nat
    decreases entries.len(),
{
    if entries.len() == 0 {
        0
    } else {
        unusable_count(entries.drop_last()) + if entries.last().found is Unusable {
            1nat
        } else {
            0nat
        }
    }
}

/// Counts the inputs that yielded nothing to work on.
pub fn unusable_inputs(entries: &Vec<InputEntry>) -> (r: usize)
    ensures
        r == unusable_count(entries@),
{
    let mut count: usize = 0;
    let n = entries.len();
    for i in 0..n
        invariant
            n == entries@.len(),
            count == unusable_count(entries@.subrange(0, i as int)),
            count <= i,
    {
        assert(entries@.subrange(0, i + 1).drop_last() =~= entries@.subrange(0, i as int));
        if let Discovery::Unusable(_) = &entries[i].found {
            count = count + 1;
        }
    }
    assert(entries@.subrange(0, n as int) =~= entries@);
    count
}

impl Config {
    /// Builds one job per file, in order; a file without a usable name gets
    /// its error in place of a job.
    pub fn plan(&self, files: &Vec<String>) -> (r: Vec<Result<Job, JobError>>)
        ensures
            r@.len() == files@.len(),
            forall|i: int|
                0 <= i < r@.len() ==> (r@[i] is Ok <==> planned_output(files@[i]@, *self) is Some),
            forall|i: int|
                0 <= i < r@.len() && r@[i] is Ok ==> is_job_for(r@[i]->Ok_0, files@[i]@, *self),
            forall|i: int|
                0 <= i < r@.len() && r@[i] is Err ==> r@[i]->Err_0 is InvalidFileName,
    {
        let mut r: Vec<Result<Job, JobError>> = Vec::new();
        for i in 0..files.len()
            invariant
                r@.len() == i,
                forall|k: int|
                    0 <= k < i ==> (r@[k] is Ok <==> planned_output(files@[k]@, *self) is Some),
                forall|k: int| 0 <= k < i && r@[k] is Ok ==> is_job_for(r@[k]->Ok_0, files@[k]@, *self),
                forall|k: int| 0 <= k < i && r@[k] is Err ==> r@[k]->Err_0 is InvalidFileName,
        {
            r.push(self.build_job(files[i].as_str()));
        }
        r
    }
}

/// Whether a slot holds a success.
pub open spec fn is_success(slot: Option<JobResult>) -> bool {
    slot is Some && slot->Some_0.outcome is Success
}

/// Whether a slot holds a failure.
pub open spec fn is_failure(slot: Option<JobResult>) -> bool {
    slot is Some && slot->Some_0.outcome is Failure
}

/// How many slots hold a success.
pub open spec fn success_count(slots: Seq<Option<JobResult>>) -> nat
    decreases slots.len(),
{
    if slots.len() == 0 {
        0
    } else {
        success_count(slots.drop_last()) + if is_success(slots.last()) {
            1nat
        } else {
            0nat
        }
    }
}

/// How many slots hold a failure.
pub open spec fn failure_count(slots: Seq<Option<JobResult>>) -> nat
    decreases slots.len(),
{
    if slots.len() == 0 {
        0
    } else {
        failure_count(slots.drop_last()) + if is_failure(slots.last()) {
            1nat
        } else {
            0nat
        }
    }
}

/// Whether every slot holds a result.
pub open spec fn all_reported(slots: Seq<Option<JobResult>>) -> bool {
    forall|i: int| 0 <= i < slots.len() ==> #[trigger] slots[i] is Some
}

/// The results of a batch: one slot per job, filled once, in any order.
pub struct Batch {
    slots: Vec<Option<JobResult>>,
}

impl View for Batch {
    type V = Seq<Option<JobResult>>;

    closed spec fn view(&self) -> Seq<Option<JobResult>> {
        self.slots@
    }
}

impl Batch {
    /// A batch of `jobs` jobs, none of them reported yet.
    pub fn new(jobs: usize) -> (r: Batch)
        ensures
            r@.len() == jobs,
            forall|i: int| 0 <= i < jobs ==> r@[i] is None,
    {
        let mut slots: Vec<Option<JobResult>> = Vec::new();
        for i in 0..jobs
            invariant
                slots@.len() == i,
                forall|k: int| 0 <= k < i ==> slots@[k] is None,
        {
            slots.push(None);
        }
        Batch { slots }
    }

    /// The number of jobs.
    pub fn len(&self) -> (r: usize)
        ensures
            r == self@.len(),
    {
        self.slots.len()
    }

    /// Records the result of job `index`. Only a job that exists and has no
    /// result yet takes one; the return says whether it did, and no other
    /// job's slot changes either way.
    pub fn record(&mut self, index: usize, result: JobResult) -> (r: bool)
        ensures
            r == (index < old(self)@.len() && old(self)@[index as int] is None),
            r ==> final(self)@ == old(self)@.update(index as int, Some(result)),
            !r ==> final(self)@ == old(self)@,
    {
        if index < self.slots.len() && self.slots[index].is_none() {
            self.slots[index] = Some(result);
            true
        } else {
            false
        }
    }

    /// The result of job `index`, if it has one.
    pub fn result(&self, index: usize) -> (r: Option<&JobResult>)
        ensures
            index < self@.len() && self@[index as int] is Some <==> r is Some,
            r is Some ==> *r->Some_0 == self@[index as int]->Some_0,
    {
        if index < self.slots.len() {
            self.slots[index].as_ref()
        } else {
            None
        }
    }

    /// Whether every job has reported.
    pub fn is_complete(&self) -> (r: bool)
        ensures
            r == all_reported(self@),
    {
        let n = self.slots.len();
        for i in 0..n
            invariant
                n == self@.len(),
                forall|k: int| 0 <= k < i ==> self@[k] is Some,
        {
            if self.slots[i].is_none() {
                return false;
            }
        }
        true
    }

    /// How many jobs succeeded.
    pub fn succeeded(&self) -> (r: usize)
        ensures
            r == success_count(self@),
    {
        let mut count: usize = 0;
        let n = self.slots.len();
        for i in 0..n
            invariant
                n == self@.len(),
                count == success_count(self@.subrange(0, i as int)),
                count <= i,
        {
            assert(self@.subrange(0, i + 1).drop_last() =~= self@.subrange(0, i as int));
            if let Some(res) = &self.slots[i] {
                if let Outcome::Success { .. } = &res.outcome {
                    count = count + 1;
                }
            }
        }
        assert(self@.subrange(0, n as int) =~= self@);
        count
    }

    /// How many jobs failed.
    pub fn failed(&self) -> (r: usize)
        ensures
            r == failure_count(self@),
    {
        let mut count: usize = 0;
        let n = self.slots.len();
        for i in 0..n
            invariant
                n == self@.len(),
                count == failure_count(self@.subrange(0, i as int)),
                count <= i,
        {
            assert(self@.subrange(0, i + 1).drop_last() =~= self@.subrange(0, i as int));
            if let Some(res) = &self.slots[i] {
                if let Outcome::Failure(_) = &res.outcome {
                    count = count + 1;
                }
            }
        }
        assert(self@.subrange(0, n as int) =~= self@);
        count
    }
}

} // verus!
