//! The sweep that deletes unused attachments one after the other. The store
//! wants the document's current revision with each delete, and each delete
//! changes it, so the sweep is a chain: it names one action at a time and
//! takes the outcome of that action before it names the next.

use crate::errors::{CouchDbError, CouchDbFailure};
use crate::model::SlideshowDocument;
use crate::reclaim::{unused_attachments, unused_of};
use crate::text::{join2, texts};
use vstd::prelude::*;

verus! {

/// How long a periodic sweep rests between two deletes, in milliseconds.
pub const CLEANUP_PAUSE_MILLIS: u64 = 500;

/// How long the periodic sweep waits between two runs, in seconds: a
/// quarter of an hour.
pub const CLEANUP_INTERVAL_SECONDS: u64 = 15 * 60;

/// Where a sweep stands.
#[derive(Clone, Copy, Debug, PartialEq, Eq, Structural)]
pub enum SweepStage {
    /// A periodic sweep needs the document's latest revision before it deletes.
    AwaitRevision,
    /// The next delete has been named and its outcome is awaited.
    AwaitDelete,
    /// A periodic sweep rests between two deletes.
    AwaitPause,
    /// Every unused attachment was deleted.
    Finished,
    /// A step failed; the rest of the sweep is given up.
    Failed,
}

/// What the caller is to do next.
#[derive(Debug)]
pub enum CleanupAction {
    /// Fetch the document again and report its revision.
    FetchRevision,
    /// Delete attachment `name`, giving `rev` as the document's revision.
    Delete { name: String, rev: String },
    /// Wait `CLEANUP_PAUSE_MILLIS`, then report that the pause is over.
    Pause,
    /// Nothing is left to do; the sweep succeeded.
    Finished,
    /// Nothing more is done; the sweep failed.
    Aborted,
}

/// A sweep as plain values.
pub struct SweepState {
    /// Whether this is the sweep right after a fetch, which chains revisions,
    /// rather than the periodic one, which re-fetches before each delete.
    pub immediate: bool,
    /// The names to delete, in order.
    pub names: Seq<Seq<char>>,
    /// How many of them have been deleted.
    pub done: nat,
    /// The revision that the next delete will give.
    pub rev: Seq<char>,
    /// Where the sweep stands.
    pub stage: SweepStage,
    /// Why the sweep failed, if it did.
    pub failure: Option<CouchDbFailure>,
}

impl SweepState {
    /// What holds of every sweep.
    pub open spec fn wf(self) -> bool {
        &&& self.done <= self.names.len()
        &&& self.stage == SweepStage::AwaitRevision ==> !self.immediate && self.done
            < self.names.len()
        &&& self.stage == SweepStage::AwaitDelete ==> self.done < self.names.len()
        &&& self.stage == SweepStage::AwaitPause ==> !self.immediate && self.done
            < self.names.len()
        &&& self.stage == SweepStage::Finished ==> self.done == self.names.len()
        &&& self.stage == SweepStage::Failed ==> self.done < self.names.len()
        &&& self.stage == SweepStage::Failed <==> self.failure is Some
    }

    /// The delete that the sweep asks for, where it asks for one: the next
    /// name, under the revision that the sweep holds.
    pub open spec fn pending_delete(self) -> Option<(Seq<char>, Seq<char>)> {
        if self.stage == SweepStage::AwaitDelete {
            Some((self.names[self.done as int], self.rev))
        } else {
            None
        }
    }

    /// The stage of a sweep that has deleted `done` names and is about to
    /// turn to the next one.
    pub open spec fn stage_before(immediate: bool, names: Seq<Seq<char>>, done: nat) -> SweepStage {
        if done >= names.len() {
            SweepStage::Finished
        } else if immediate {
            SweepStage::AwaitDelete
        } else {
            SweepStage::AwaitRevision
        }
    }

    /// A sweep over `names` that starts from revision `rev`.
    pub open spec fn begin(names: Seq<Seq<char>>, rev: Seq<char>, immediate: bool) -> SweepState {
        SweepState {
            immediate,
            names,
            done: 0,
            rev,
            stage: Self::stage_before(immediate, names, 0),
            failure: None,
        }
    }

    /// The sweep after the document was fetched again and had revision `rev`.
    pub open spec fn revision_fetched(self, rev: Seq<char>) -> SweepState {
        if self.stage == SweepStage::AwaitRevision {
            SweepState { rev, stage: SweepStage::AwaitDelete, ..self }
        } else {
            self
        }
    }

    /// The sweep after fetching the document again failed with a failure whose
    /// description is `detail`.
    pub open spec fn revision_failed(self, detail: Seq<char>) -> SweepState {
        if self.stage == SweepStage::AwaitRevision {
            SweepState {
                stage: SweepStage::Failed,
                failure: Some(
                    CouchDbFailure::Generic(
                        "Failed to fetch latest doc rev before deleting "@
                            + self.names[self.done as int] + ": "@ + detail,
                    ),
                ),
                ..self
            }
        } else {
            self
        }
    }

    /// The sweep after the store deleted the attachment; `new_rev` is the
    /// revision that its answer named, if it named one. After the last
    /// delete the sweep is finished; before that an immediate sweep turns
    /// to the next delete and a periodic one rests first.
    pub open spec fn deleted(self, new_rev: Option<Seq<char>>) -> SweepState {
        if self.stage == SweepStage::AwaitDelete {
            SweepState {
                done: self.done + 1,
                rev: match new_rev {
                    Some(r) => r,
                    None => self.rev,
                },
                stage: if self.done + 1 >= self.names.len() {
                    SweepStage::Finished
                } else if self.immediate {
                    SweepStage::AwaitDelete
                } else {
                    SweepStage::AwaitPause
                },
                ..self
            }
        } else {
            self
        }
    }

    /// The sweep after the store refused the delete with `status`.
    pub open spec fn delete_rejected(self, status: u16) -> SweepState {
        if self.stage == SweepStage::AwaitDelete {
            SweepState {
                stage: SweepStage::Failed,
                failure: Some(
                    CouchDbFailure::HttpError {
                        status,
                        message: "Failed to delete attachment "@ + self.names[self.done as int],
                    },
                ),
                ..self
            }
        } else {
            self
        }
    }

    /// The sweep after the delete could not be sent; `detail` says why.
    pub open spec fn delete_not_sent(self, detail: Seq<char>) -> SweepState {
        if self.stage == SweepStage::AwaitDelete {
            SweepState {
                stage: SweepStage::Failed,
                failure: Some(CouchDbFailure::Reqwest(detail)),
                ..self
            }
        } else {
            self
        }
    }

    /// The sweep after the pause.
    pub open spec fn pause_elapsed(self) -> SweepState {
        if self.stage == SweepStage::AwaitPause {
            SweepState {
                stage: Self::stage_before(self.immediate, self.names, self.done),
                ..self
            }
        } else {
            self
        }
    }
}

/// A sweep is well formed when it begins and stays so whatever is reported
/// to it.
pub proof fn lemma_sweep_stays_well_formed(
    s: SweepState,
    names: Seq<Seq<char>>,
    rev: Seq<char>,
    immediate: bool,
    new_rev: Option<Seq<char>>,
    detail: Seq<char>,
    status: u16,
)
    requires
        s.wf(),
    ensures
        SweepState::begin(names, rev, immediate).wf(),
        s.revision_fetched(rev).wf(),
        s.revision_failed(detail).wf(),
        s.deleted(new_rev).wf(),
        s.delete_rejected(status).wf(),
        s.delete_not_sent(detail).wf(),
        s.pause_elapsed().wf(),
{
}

/// The sweep `s` after `count` deletes in a row succeeded, the i-th of them
/// answered with revision `revs[i]`.
pub open spec fn after_deletes(s: SweepState, revs: Seq<Seq<char>>, count: nat) -> SweepState
    decreases count,
{
    if count == 0 {
        s
    } else {
        after_deletes(s, revs, (count - 1) as nat).deleted(Some(revs[count - 1]))
    }
}

/// Revision chaining: in an immediate sweep whose deletes all succeed, the
/// first delete gives the document's own revision and each later one the
/// revision that the delete before it returned; the attachments go in the
/// order of the unused names, and after the last one the sweep is finished
/// with the last returned revision.
pub proof fn lemma_immediate_sweep_chains_revisions(
    names: Seq<Seq<char>>,
    rev: Seq<char>,
    revs: Seq<Seq<char>>,
    count: nat,
)
    requires
        revs.len() == names.len(),
        count <= names.len(),
    ensures
        ({
            let s = after_deletes(SweepState::begin(names, rev, true), revs, count);
            &&& s.wf()
            &&& s.immediate
            &&& s.names == names
            &&& s.done == count
            &&& s.failure is None
            &&& s.rev == if count == 0 {
                rev
            } else {
                revs[count - 1]
            }
            &&& s.stage == if count < names.len() {
                SweepStage::AwaitDelete
            } else {
                SweepStage::Finished
            }
            &&& s.pending_delete() == if count < names.len() {
                Some((names[count as int], s.rev))
            } else {
                None
            }
        }),
    decreases count,
{
    if count > 0 {
        lemma_immediate_sweep_chains_revisions(names, rev, revs, (count - 1) as nat);
    }
}

/// A periodic sweep fetches the revision anew before each delete: it does
/// not begin by awaiting a delete, nothing but a freshly fetched revision
/// brings it to await one, and the delete then gives that revision.
pub proof fn lemma_periodic_sweep_refetches(
    s: SweepState,
    names: Seq<Seq<char>>,
    rev: Seq<char>,
    new_rev: Option<Seq<char>>,
    detail: Seq<char>,
    status: u16,
)
    requires
        s.wf(),
        !s.immediate,
    ensures
        SweepState::begin(names, rev, false).stage != SweepStage::AwaitDelete,
        s.deleted(new_rev).stage != SweepStage::AwaitDelete,
        s.pause_elapsed().stage != SweepStage::AwaitDelete || s.stage == SweepStage::AwaitDelete,
        s.revision_failed(detail).stage != SweepStage::AwaitDelete || s.stage
            == SweepStage::AwaitDelete,
        s.delete_rejected(status).stage != SweepStage::AwaitDelete,
        s.delete_not_sent(detail).stage != SweepStage::AwaitDelete,
        s.stage == SweepStage::AwaitRevision ==> s.revision_fetched(rev).stage
            == SweepStage::AwaitDelete && s.revision_fetched(rev).rev == rev,
{
}

/// A sweep in progress.
pub struct CleanupSweep {
    immediate: bool,
    names: Vec<String>,
    done: usize,
    rev: String,
    stage: SweepStage,
    failure: Option<CouchDbError>,
}

impl View for CleanupSweep {
    type V = SweepState;

    closed spec fn view(&self) -> SweepState {
        SweepState {
            immediate: self.immediate,
            names: texts(self.names@),
            done: self.done as nat,
            rev: self.rev@,
            stage: self.stage,
            failure: match self.failure {
                Some(e) => if self.stage == SweepStage::Failed {
                    Some(e@)
                } else {
                    None
                },
                None => None,
            },
        }
    }
}

impl CleanupSweep {
    #[verifier::type_invariant]
    spec fn inv(self) -> bool {
        &&& self.done <= self.names@.len()
        &&& self.stage == SweepStage::AwaitRevision || self.stage == SweepStage::AwaitDelete
            || self.stage == SweepStage::Failed ==> self.done < self.names@.len()
        &&& self.stage == SweepStage::Failed ==> self.failure is Some
    }

    /// Plans the sweep for a document that was just fetched: its unused
    /// attachments, in the document's order, starting from its revision.
    /// An `immediate` sweep chains the revisions that the deletes return; a
    /// periodic one fetches the revision again before each delete.
    pub fn begin(doc: &SlideshowDocument, immediate: bool) -> (sweep: CleanupSweep)
        ensures
            sweep@ == SweepState::begin(unused_of(*doc), doc._rev@, immediate),
    {
        let names = unused_attachments(doc);
        let stage = if names.len() == 0 {
            SweepStage::Finished
        } else if immediate {
            SweepStage::AwaitDelete
        } else {
            SweepStage::AwaitRevision
        };
        CleanupSweep { immediate, names, done: 0, rev: doc._rev.clone(), stage, failure: None }
    }

    /// Plans the sweep from the outcome of fetching the document: for a
    /// document, its sweep; for a failure, that failure, and nothing is
    /// swept.
    pub fn begin_after_fetch(fetched: Result<SlideshowDocument, CouchDbError>, immediate: bool) -> (planned:
        Result<CleanupSweep, CouchDbError>)
        ensures
            match fetched {
                Ok(doc) => planned matches Ok(sweep) && sweep@ == SweepState::begin(
                    unused_of(doc),
                    doc._rev@,
                    immediate,
                ),
                Err(error) => planned matches Err(failure) && failure == error,
            },
    {
        match fetched {
            Ok(doc) => Ok(CleanupSweep::begin(&doc, immediate)),
            Err(error) => Err(error),
        }
    }

    /// Where the sweep stands.
    pub fn stage(&self) -> (stage: SweepStage)
        ensures
            stage == self@.stage,
    {
        self.stage
    }

    /// How many attachments the sweep has deleted.
    pub fn deleted_count(&self) -> (n: usize)
        ensures
            n == self@.done,
    {
        self.done
    }

    /// The revision that the next delete will give.
    pub fn current_rev(&self) -> (rev: String)
        ensures
            rev@ == self@.rev,
    {
        self.rev.clone()
    }

    /// What the caller is to do next.
    pub fn next_action(&self) -> (action: CleanupAction)
        ensures
            match action {
                CleanupAction::FetchRevision => self@.stage == SweepStage::AwaitRevision,
                CleanupAction::Delete { name, rev } => self@.pending_delete() == Some(
                    (name@, rev@),
                ),
                CleanupAction::Pause => self@.stage == SweepStage::AwaitPause,
                CleanupAction::Finished => self@.stage == SweepStage::Finished,
                CleanupAction::Aborted => self@.stage == SweepStage::Failed,
            },
    {
        proof {
            use_type_invariant(self);
        }
        match self.stage {
            SweepStage::AwaitRevision => CleanupAction::FetchRevision,
            SweepStage::AwaitDelete => CleanupAction::Delete {
                name: self.names[self.done].clone(),
                rev: self.rev.clone(),
            },
            SweepStage::AwaitPause => CleanupAction::Pause,
            SweepStage::Finished => CleanupAction::Finished,
            SweepStage::Failed => CleanupAction::Aborted,
        }
    }

    fn stage_before_next(&self, done: usize) -> (stage: SweepStage)
        ensures
            stage == SweepState::stage_before(self.immediate, texts(self.names@), done as nat),
    {
        if done >= self.names.len() {
            SweepStage::Finished
        } else if self.immediate {
            SweepStage::AwaitDelete
        } else {
            SweepStage::AwaitRevision
        }
    }

    /// Takes the revision of the document as it was just fetched again.
    /// Ignored unless the sweep awaits it.
    pub fn on_revision_fetched(&mut self, rev: String)
        ensures
            final(self)@ == old(self)@.revision_fetched(rev@),
    {
        proof {
            use_type_invariant(&*self);
        }
        match self.stage {
            SweepStage::AwaitRevision => {
                self.rev = rev;
                self.stage = SweepStage::AwaitDelete;
            },
            _ => {},
        }
    }

    /// Takes the failure to fetch the document again: the sweep fails, naming
    /// the attachment it was about to delete. Ignored unless the sweep awaits
    /// a revision.
    pub fn on_revision_failed(&mut self, err: &CouchDbError)
        ensures
            final(self)@ == old(self)@.revision_failed(err.message_text()),
    {
        proof {
            use_type_invariant(&*self);
        }
        match self.stage {
            SweepStage::AwaitRevision => {
                let detail = err.message();
                let mut text = join2(
                    "Failed to fetch latest doc rev before deleting ",
                    self.names[self.done].as_str(),
                );
                text.append(": ");
                text.append(detail.as_str());
                self.failure = Some(CouchDbError::Generic(text));
                self.stage = SweepStage::Failed;
            },
            _ => {},
        }
    }

    /// Takes the success of the delete, with the revision that the store's
    /// answer named, if any: that revision is given with the next delete.
    /// Ignored unless the sweep awaits a delete.
    pub fn on_deleted(&mut self, new_rev: Option<String>)
        ensures
            final(self)@ == old(self)@.deleted(
                match new_rev {
                    Some(r) => Some(r@),
                    None => None,
                },
            ),
    {
        proof {
            use_type_invariant(&*self);
        }
        match self.stage {
            SweepStage::AwaitDelete => {
                let count = self.names.len();
                let done = self.done + 1;
                let stage = if done >= count {
                    SweepStage::Finished
                } else if self.immediate {
                    SweepStage::AwaitDelete
                } else {
                    SweepStage::AwaitPause
                };
                match new_rev {
                    Some(r) => {
                        self.rev = r;
                    },
                    None => {},
                }
                self.stage = stage;
                self.done = done;
            },
            _ => {},
        }
    }

    /// Takes the store's refusal of the delete: the sweep fails with that
    /// status. Ignored unless the sweep awaits a delete.
    pub fn on_delete_rejected(&mut self, status: u16)
        ensures
            final(self)@ == old(self)@.delete_rejected(status),
    {
        proof {
            use_type_invariant(&*self);
        }
        match self.stage {
            SweepStage::AwaitDelete => {
                let message = join2("Failed to delete attachment ", self.names[self.done].as_str());
                self.failure = Some(CouchDbError::HttpError { status, message });
                self.stage = SweepStage::Failed;
            },
            _ => {},
        }
    }

    /// Takes the failure to send the delete: the sweep fails with `detail`.
    /// Ignored unless the sweep awaits a delete.
    pub fn on_delete_not_sent(&mut self, detail: String)
        ensures
            final(self)@ == old(self)@.delete_not_sent(detail@),
    {
        proof {
            use_type_invariant(&*self);
        }
        match self.stage {
            SweepStage::AwaitDelete => {
                self.failure = Some(CouchDbError::Reqwest(detail));
                self.stage = SweepStage::Failed;
            },
            _ => {},
        }
    }

    /// Takes the end of the pause. Ignored unless the sweep is pausing.
    pub fn on_pause_elapsed(&mut self)
        ensures
            final(self)@ == old(self)@.pause_elapsed(),
    {
        proof {
            use_type_invariant(&*self);
        }
        match self.stage {
            SweepStage::AwaitPause => {
                self.stage = self.stage_before_next(self.done);
            },
            _ => {},
        }
    }

    /// The sweep's result once it has ended: success when every unused
    /// attachment was deleted, the failure when a step failed, and nothing
    /// while it is still under way.
    pub fn into_result(self) -> (result: Option<Result<(), CouchDbError>>)
        ensures
            match result {
                Some(Ok(_)) => self@.stage == SweepStage::Finished,
                Some(Err(e)) => self@.stage == SweepStage::Failed && Some(e@) == self@.failure,
                None => self@.stage != SweepStage::Finished && self@.stage != SweepStage::Failed,
            },
    {
        proof {
            use_type_invariant(&self);
        }
        match self.stage {
            SweepStage::Finished => Some(Ok(())),
            SweepStage::Failed => match self.failure {
                Some(e) => Some(Err(e)),
                None => None,
            },
            _ => None,
        }
    }
}

} // verus!
