//! Deleting charts: the walk over the directories, and what is told about it.
use vstd::prelude::*;
use crate::text::{deleted_text, failed_message, failed_text, join_path, joined};
use crate::item::text_of;

verus! {

/// The characters of a list of paths.
pub open spec fn texts(paths: Seq<String>) -> Seq<Seq<char>> {
    paths.map_values(|p: String| p@)
}

/// The characters of a list of paths that may be missing.
pub open spec fn texts_of(paths: Option<Vec<String>>) -> Option<Seq<Seq<char>>> {
    match paths {
        Some(list) => Some(texts(list@)),
        None => None,
    }
}

/// Copies a list of paths.
pub fn copy_paths(paths: &Vec<String>) -> (copy: Vec<String>)
    ensures
        copy@ == paths@,
{
    let mut copy: Vec<String> = Vec::new();
    for i in 0..paths.len()
        invariant
            copy@ == paths@.take(i as int),
    {
        copy.push(paths[i].clone());
    }
    copy
}

/// A deletion that was asked for: how many directories it is about, and,
/// where there are any, their paths for the task that removes them.
#[derive(Debug, PartialEq, Eq)]
pub struct DeleteBatch {
    pub count: usize,
    pub job: Option<Vec<String>>,
}

/// What to do once a deletion has ended: whether the data have to be saved,
/// the message to show, and the error to show.
#[derive(Debug, PartialEq, Eq)]
pub struct DeleteReport<E> {
    pub save: bool,
    pub message: Option<String>,
    pub error: Option<E>,
}

impl<E> DeleteReport<E> {
    /// There is nothing to do.
    pub open spec fn silent(self) -> bool {
        &&& !self.save
        &&& self.message is None
        &&& self.error is None
    }

    /// `count` charts were deleted.
    pub open spec fn tells_deleted(self, count: nat) -> bool {
        &&& self.save
        &&& text_of(self.message) == Some(deleted_text(count))
        &&& self.error is None
    }

    /// The deletion failed with `e`.
    pub open spec fn tells_failed(self, e: E) -> bool {
        &&& !self.save
        &&& self.message is None
        &&& self.error == Some(e)
    }
}

/// The removal of directories below `base`, one after the other. The first
/// `next` of `paths` have been tried, and `deleted` of them are gone.
#[derive(Debug, PartialEq, Eq)]
pub struct DeleteJob {
    pub base: String,
    pub paths: Vec<String>,
    pub next: usize,
    pub deleted: usize,
}

/// The model of a [`DeleteJob`].
#[verifier::ext_equal]
pub struct JobModel {
    pub base: Seq<char>,
    pub paths: Seq<Seq<char>>,
    pub next: nat,
    pub deleted: nat,
}

impl View for DeleteJob {
    type V = JobModel;

    open spec fn view(&self) -> JobModel {
        JobModel {
            base: self.base@,
            paths: texts(self.paths@),
            next: self.next as nat,
            deleted: self.deleted as nat,
        }
    }
}

impl JobModel {
    pub open spec fn start(base: Seq<char>, paths: Seq<Seq<char>>) -> JobModel {
        JobModel { base, paths, next: 0, deleted: 0 }
    }

    /// No more directories are gone than were tried, and none was tried that
    /// is not listed.
    pub open spec fn wf(self) -> bool {
        self.deleted <= self.next <= self.paths.len()
    }

    /// The directory that comes next.
    pub open spec fn target(self) -> Option<Seq<char>> {
        if self.next < self.paths.len() {
            Some(joined(self.base, self.paths[self.next as int]))
        } else {
            None
        }
    }

    /// The job after the next directory was tried.
    pub open spec fn recorded(self, removed: bool) -> JobModel {
        JobModel {
            next: self.next + 1,
            deleted: if removed { self.deleted + 1 } else { self.deleted },
            ..self
        }
    }

    /// The job after a directory was tried for each of `outcomes`.
    pub open spec fn recorded_all(self, outcomes: Seq<bool>) -> JobModel
        decreases outcomes.len(),
    {
        if outcomes.len() == 0 {
            self
        } else {
            self.recorded_all(outcomes.drop_last()).recorded(outcomes.last())
        }
    }
}

impl DeleteJob {
    /// The job for `paths` below `base`, with nothing tried yet.
    pub fn new(base: String, paths: Vec<String>) -> (job: Self)
        ensures
            job@ == JobModel::start(base@, texts(paths@)),
            job@.wf(),
    {
        DeleteJob { base, paths, next: 0, deleted: 0 }
    }

    /// The directory to remove next; none where all have been tried.
    pub fn target(&self) -> (full: Option<String>)
        ensures
            text_of(full) == self@.target(),
    {
        if self.next < self.paths.len() {
            Some(join_path(&self.base, &self.paths[self.next]))
        } else {
            None
        }
    }

    /// Takes down whether the directory that [`Self::target`] names was
    /// removed, and returns the message to show where it was not.
    pub fn record(&mut self, removed: bool) -> (failure: Option<String>)
        requires
            old(self)@.wf(),
            old(self)@.target() is Some,
        ensures
            final(self)@ == old(self)@.recorded(removed),
            final(self)@.wf(),
            text_of(failure) == (if removed {
                None
            } else {
                Some(failed_text(old(self)@.target()->0))
            }),
    {
        let count: usize = self.paths.len();
        assert(self.deleted <= self.next < count);
        let failure = if removed {
            self.deleted = self.deleted + 1;
            None
        } else {
            Some(failed_message(&join_path(&self.base, &self.paths[self.next])))
        };
        self.next = self.next + 1;
        failure
    }
}

/// However the removals turn out, the job ends after one outcome for each path
/// and then counts the directories that were removed.
pub proof fn job_counts_removals(base: Seq<char>, paths: Seq<Seq<char>>, outcomes: Seq<bool>)
    requires
        outcomes.len() <= paths.len(),
    ensures
        ({
            let job = JobModel::start(base, paths).recorded_all(outcomes);
            &&& job.wf()
            &&& job.base == base
            &&& job.paths == paths
            &&& job.next == outcomes.len()
            &&& job.deleted == outcomes.filter(|removed: bool| removed).len()
            &&& (job.target() is None <==> outcomes.len() == paths.len())
        }),
    decreases outcomes.len(),
{
    reveal(Seq::filter);
    let counted = |removed: bool| removed;
    if outcomes.len() > 0 {
        job_counts_removals(base, paths, outcomes.drop_last());
        outcomes.drop_last().lemma_filter_len(counted);
    }
    outcomes.lemma_filter_len(counted);
}

} // verus!
