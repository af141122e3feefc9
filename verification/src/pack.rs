//! Pack export orchestration: the per-pack job that collects per-asset
//! outcomes in completion order, reports progress on a fixed cadence, and
//! aborts on the first failure.

use vstd::prelude::*;
use vstd::string::StringExecFns;
use crate::archive::{
    archive_add, archive_entries, archive_finish, archive_new, zip_add_ok, zip_bytes_of,
    zip_finish_ok, ArchiveEntry,
};
use crate::export::{
    asset_filename_spec, lemma_asset_filename_injective, ExportError, ExportOutcome, ExportedAsset,
};

verus! {

/// Unix permission bits given to every archive entry: owner
/// read/write/execute, group and others read/execute.
pub const ENTRY_PERMISSIONS: u32 = 0o755;

/// A progress notification: how many assets are done out of how many.
#[derive(Clone, Copy, Debug, PartialEq, Eq, Structural)]
pub struct Progress {
    pub completed: usize,
    pub total: usize,
}

/// What the orchestrator must do after one outcome was handed in.
#[derive(Debug)]
pub enum AcceptResult {
    /// A success was recorded; if a progress note is due, it is carried here.
    Accepted(Option<Progress>),
    /// The first failure arrived: the job is sealed and the failure is
    /// handed back to be reported. The job can never become complete, and
    /// [`build_archive`] demands a complete job, so no archive is
    /// produced for it.
    Aborted(ExportError),
    /// The job was already sealed; the outcome was discarded.
    Discarded,
}

/// A progress note is emitted whenever the completed count is a multiple
/// of five, and when the last asset completes.
pub open spec fn emits_progress(completed: int, total: int) -> bool {
    completed % 5 == 0 || completed == total
}

/// The progress note due after `completed` of `total` assets are done.
pub open spec fn progress_note_spec(completed: int, total: int) -> Option<Progress> {
    if emits_progress(completed, total) {
        Some(Progress { completed: completed as usize, total: total as usize })
    } else {
        None
    }
}

/// Mathematical model of a pack export job.
#[verifier::ext_equal]
pub struct JobView {
    pub total: int,
    pub entries: Seq<ExportedAsset>,
    pub failed: bool,
}

impl JobView {
    /// A job never records more outcomes than the pack has assets, and a
    /// failure seals it before the last asset is recorded.
    pub open spec fn wf(self) -> bool {
        self.entries.len() <= self.total && (self.failed ==> self.entries.len() < self.total)
    }

    /// Sealed: no further outcomes are accepted, either because every
    /// asset is accounted for or because one failed.
    pub open spec fn sealed(self) -> bool {
        self.failed || self.entries.len() == self.total
    }

    /// Complete: every asset of the pack was converted successfully.
    /// Only a complete job yields an archive.
    pub open spec fn complete(self) -> bool {
        !self.failed && self.entries.len() == self.total
    }

    /// The fresh job state for a pack of `total` assets.
    pub open spec fn fresh(total: int) -> JobView {
        JobView { total, entries: Seq::empty(), failed: false }
    }

    /// How one outcome advances a job: discarded if the job is sealed,
    /// recorded in arrival order if it is a success, sealing the job if it
    /// is the first failure.
    pub open spec fn step(self, outcome: ExportOutcome) -> JobView {
        if self.sealed() {
            self
        } else {
            match outcome {
                ExportOutcome::Done(a) => JobView {
                    total: self.total,
                    entries: self.entries.push(a),
                    failed: self.failed,
                },
                ExportOutcome::Failed(_, _) => JobView {
                    total: self.total,
                    entries: self.entries,
                    failed: true,
                },
            }
        }
    }

    /// The job state after a whole sequence of outcomes arrived, first one
    /// first.
    pub open spec fn run(self, outcomes: Seq<ExportOutcome>) -> JobView
        decreases outcomes.len(),
    {
        if outcomes.len() == 0 {
            self
        } else {
            self.step(outcomes[0]).run(outcomes.skip(1))
        }
    }
}

/// The state of one pack export: the number of assets in the pack, the
/// successfully converted assets in arrival order, and whether a failure
/// sealed the job.
#[derive(Debug)]
pub struct PackExportJob {
    pub total: usize,
    pub entries: Vec<ExportedAsset>,
    pub failed: bool,
}

impl View for PackExportJob {
    type V = JobView;

    open spec fn view(&self) -> JobView {
        JobView { total: self.total as int, entries: self.entries@, failed: self.failed }
    }
}

impl PackExportJob {
    /// A fresh job for a pack of `total` assets.
    pub fn new(total: usize) -> (job: PackExportJob)
        ensures
            job@ == JobView::fresh(total as int),
    {
        let job = PackExportJob { total, entries: Vec::new(), failed: false };
        proof {
            assert(job@ =~= JobView::fresh(total as int));
        }
        job
    }

    /// Hand one per-asset outcome to the job, in completion order.
    pub fn accept(&mut self, outcome: ExportOutcome) -> (r: AcceptResult)
        requires
            old(self)@.wf(),
        ensures
            final(self)@.wf(),
            final(self)@ == old(self)@.step(outcome),
            old(self)@.sealed() ==> r is Discarded,
            !old(self)@.sealed() ==> match outcome {
                ExportOutcome::Done(_) => (r matches AcceptResult::Accepted(p) && p
                    == progress_note_spec(old(self)@.entries.len() as int + 1, old(self)@.total)),
                ExportOutcome::Failed(_, e) => (r matches AcceptResult::Aborted(err) && err == e),
            },
    {
        if self.failed || self.entries.len() == self.total {
            return AcceptResult::Discarded;
        }
        match outcome {
            ExportOutcome::Done(a) => {
                self.entries.push(a);
                let done: usize = self.entries.len();
                proof {
                    assert(self@ =~= old(self)@.step(outcome));
                }
                if done % 5 == 0 || done == self.total {
                    AcceptResult::Accepted(Some(Progress { completed: done, total: self.total }))
                } else {
                    AcceptResult::Accepted(None)
                }
            },
            ExportOutcome::Failed(_, e) => {
                self.failed = true;
                proof {
                    assert(self@ =~= old(self)@.step(outcome));
                }
                AcceptResult::Aborted(e)
            },
        }
    }

    /// Number of recorded successes.
    pub fn completed(&self) -> (n: usize)
        ensures
            n == self@.entries.len(),
    {
        self.entries.len()
    }

    /// Whether every asset of the pack was converted successfully, so
    /// that the job may be turned into an archive.
    pub fn is_complete(&self) -> (b: bool)
        ensures
            b == self@.complete(),
    {
        !self.failed && self.entries.len() == self.total
    }
}

/// The assets carried by a sequence of successful outcomes.
pub open spec fn success_payloads(outcomes: Seq<ExportOutcome>) -> Seq<ExportedAsset> {
    outcomes.map_values(
        |o: ExportOutcome|
            match o {
                ExportOutcome::Done(a) => a,
                ExportOutcome::Failed(_, _) => arbitrary(),
            },
    )
}

/// Feeding only successes into an unsealed job with room for them records
/// them all, in arrival order, after what the job already held.
proof fn lemma_run_all_success(job: JobView, outcomes: Seq<ExportOutcome>)
    requires
        !job.failed,
        job.entries.len() + outcomes.len() <= job.total,
        forall|i: int| 0 <= i < outcomes.len() ==> outcomes[i] is Done,
    ensures
        job.run(outcomes).total == job.total,
        !job.run(outcomes).failed,
        job.run(outcomes).entries =~= job.entries + success_payloads(outcomes),
    decreases outcomes.len(),
{
    if outcomes.len() == 0 {
        assert(job.run(outcomes) == job);
        assert(job.entries + success_payloads(outcomes) =~= job.entries);
    } else {
        let o = outcomes[0];
        let a = success_payloads(outcomes)[0];
        let j1 = job.step(o);
        assert(!job.sealed());
        assert(j1.entries == job.entries.push(a));
        lemma_run_all_success(j1, outcomes.skip(1));
        assert(success_payloads(outcomes.skip(1)) =~= success_payloads(outcomes).skip(1));
        assert(j1.entries + success_payloads(outcomes).skip(1) =~= job.entries + success_payloads(
            outcomes,
        ));
    }
}

/// A sealed job discards every further outcome unchanged.
proof fn lemma_run_sealed(job: JobView, outcomes: Seq<ExportOutcome>)
    requires
        job.sealed(),
    ensures
        job.run(outcomes) == job,
    decreases outcomes.len(),
{
    if outcomes.len() > 0 {
        lemma_run_sealed(job, outcomes.skip(1));
    }
}

/// Running a job over a concatenation runs it over each part in turn.
proof fn lemma_run_append(job: JobView, s1: Seq<ExportOutcome>, s2: Seq<ExportOutcome>)
    ensures
        job.run(s1 + s2) == job.run(s1).run(s2),
    decreases s1.len(),
{
    if s1.len() == 0 {
        assert(s1 + s2 =~= s2);
    } else {
        assert((s1 + s2).skip(1) =~= s1.skip(1) + s2);
        lemma_run_append(job.step(s1[0]), s1.skip(1), s2);
    }
}

/// A pack export where all of the pack's assets succeed ends complete:
/// exactly those assets are recorded, in arrival order, and the completed
/// count climbs strictly, reaching `k` after the `k`-th outcome.
pub proof fn lemma_pack_all_success(total: int, outcomes: Seq<ExportOutcome>)
    requires
        outcomes.len() == total,
        forall|i: int| 0 <= i < outcomes.len() ==> outcomes[i] is Done,
    ensures
        JobView::fresh(total).run(outcomes).complete(),
        JobView::fresh(total).run(outcomes).entries =~= success_payloads(outcomes),
        forall|k: int|
            0 <= k <= outcomes.len() ==> #[trigger] JobView::fresh(total).run(
                outcomes.take(k),
            ).entries.len() == k,
{
    lemma_run_all_success(JobView::fresh(total), outcomes);
    assert forall|k: int| 0 <= k <= outcomes.len() implies #[trigger] JobView::fresh(total).run(
        outcomes.take(k),
    ).entries.len() == k by {
        lemma_run_all_success(JobView::fresh(total), outcomes.take(k));
    }
}

/// Fail-fast: if the `k`-th outcome (counting from zero) is the first
/// failure, the job seals at it. The successes before it stay recorded,
/// every later outcome is discarded, and the job is never complete, so no
/// archive is produced: archive building demands a complete job.
pub proof fn lemma_pack_fail_fast(total: int, outcomes: Seq<ExportOutcome>, k: int)
    requires
        0 <= k < outcomes.len(),
        outcomes.len() <= total,
        outcomes[k] is Failed,
        forall|i: int| 0 <= i < k ==> outcomes[i] is Done,
    ensures
        JobView::fresh(total).run(outcomes).failed,
        !JobView::fresh(total).run(outcomes).complete(),
        JobView::fresh(total).run(outcomes).entries.len() == k,
{
    let fresh = JobView::fresh(total);
    assert(outcomes =~= outcomes.take(k) + seq![outcomes[k]] + outcomes.skip(k + 1));
    lemma_run_append(fresh, outcomes.take(k) + seq![outcomes[k]], outcomes.skip(k + 1));
    lemma_run_append(fresh, outcomes.take(k), seq![outcomes[k]]);
    lemma_run_all_success(fresh, outcomes.take(k));
    let before = fresh.run(outcomes.take(k));
    assert(before.entries.len() == k);
    assert(!before.sealed());
    let sealed = before.step(outcomes[k]);
    assert(seq![outcomes[k]][0] == outcomes[k]);
    assert(seq![outcomes[k]].skip(1) =~= Seq::<ExportOutcome>::empty());
    assert(before.run(seq![outcomes[k]]) == sealed.run(seq![outcomes[k]].skip(1)));
    assert(before.run(seq![outcomes[k]]) == sealed);
    lemma_run_sealed(sealed, outcomes.skip(k + 1));
}

/// The archive entries that a sequence of exported assets yields: the
/// generated filename, the payload, and the fixed permission bits of
/// each, in order.
pub open spec fn entry_views(assets: Seq<ExportedAsset>) -> Seq<ArchiveEntry> {
    assets.map_values(
        |a: ExportedAsset|
            (asset_filename_spec(a.unique_id@, a.kind), a.payload@, ENTRY_PERMISSIONS),
    )
}

/// Whether every entry of `rest`, appended in order to an archive
/// already holding `prior`, is accepted by the archive writer.
pub open spec fn adds_ok_from(prior: Seq<ArchiveEntry>, rest: Seq<ArchiveEntry>) -> bool
    decreases rest.len(),
{
    rest.len() == 0 || (zip_add_ok(prior, rest[0].0, rest[0].1, rest[0].2) && adds_ok_from(
        prior.push(rest[0]),
        rest.skip(1),
    ))
}

/// Appending one more entry to the sequence to add extends the
/// all-accepted condition by that entry's own acceptance.
proof fn lemma_adds_ok_snoc(prior: Seq<ArchiveEntry>, rest: Seq<ArchiveEntry>, e: ArchiveEntry)
    ensures
        adds_ok_from(prior, rest.push(e)) == (adds_ok_from(prior, rest) && zip_add_ok(
            prior + rest,
            e.0,
            e.1,
            e.2,
        )),
    decreases rest.len(),
{
    let s = rest.push(e);
    if rest.len() == 0 {
        assert(s[0] == e);
        assert(s.skip(1) =~= Seq::<ArchiveEntry>::empty());
        assert(adds_ok_from(prior.push(e), s.skip(1)));
        assert(adds_ok_from(prior, s) == zip_add_ok(prior, e.0, e.1, e.2));
        assert(adds_ok_from(prior, rest));
        assert(prior + rest =~= prior);
    } else {
        assert(s[0] == rest[0]);
        assert(s.skip(1) =~= rest.skip(1).push(e));
        lemma_adds_ok_snoc(prior.push(rest[0]), rest.skip(1), e);
        assert(adds_ok_from(prior, s) == (zip_add_ok(prior, rest[0].0, rest[0].1, rest[0].2)
            && adds_ok_from(prior.push(rest[0]), rest.skip(1).push(e))));
        assert(adds_ok_from(prior, rest) == (zip_add_ok(prior, rest[0].0, rest[0].1, rest[0].2)
            && adds_ok_from(prior.push(rest[0]), rest.skip(1))));
        assert(prior.push(rest[0]) + rest.skip(1) =~= prior + rest);
    }
}

/// If every entry of a sequence is accepted in order, so is the one at
/// any position, on top of the entries before it.
proof fn lemma_adds_ok_at(prior: Seq<ArchiveEntry>, rest: Seq<ArchiveEntry>, i: int)
    requires
        0 <= i < rest.len(),
        adds_ok_from(prior, rest),
    ensures
        zip_add_ok(prior + rest.take(i), rest[i].0, rest[i].1, rest[i].2),
    decreases i,
{
    if i == 0 {
        assert(prior + rest.take(0) =~= prior);
    } else {
        lemma_adds_ok_at(prior.push(rest[0]), rest.skip(1), i - 1);
        assert(prior.push(rest[0]) + rest.skip(1).take(i - 1) =~= prior + rest.take(i));
        assert(rest.skip(1)[i - 1] == rest[i]);
    }
}

/// The progress notes due while writing `c` of `total` entries: one per
/// count on the emission cadence, in order.
pub open spec fn notes_upto(total: int, c: int) -> Seq<Progress>
    decreases c,
{
    if c <= 0 {
        Seq::empty()
    } else {
        notes_upto(total, c - 1) + if emits_progress(c, total) {
            seq![Progress { completed: c as usize, total: total as usize }]
        } else {
            Seq::empty()
        }
    }
}

/// The archive holding a complete pack's assets, and the progress notes
/// emitted while writing it.
pub struct ArchiveOutput {
    pub bytes: Vec<u8>,
    pub notes: Vec<Progress>,
}

/// Build the archive of a complete pack: one deflate-compressed entry
/// per asset, named by its generated filename, in arrival order, each
/// with the fixed [`ENTRY_PERMISSIONS`] bits; progress notes follow the
/// same cadence as the collection phase. Only a complete job yields an
/// archive; any write failure is fatal to the job, and happens exactly
/// where the archive writer refuses an entry or the closing.
pub fn build_archive(job: &PackExportJob) -> (r: Result<ArchiveOutput, ExportError>)
    requires
        job@.wf(),
        job@.complete(),
    ensures
        r is Ok <==> adds_ok_from(Seq::empty(), entry_views(job@.entries)) && zip_finish_ok(
            entry_views(job@.entries),
        ),
        r matches Ok(out) ==> out.bytes@ == zip_bytes_of(entry_views(job@.entries)) && out.notes@
            == notes_upto(job@.entries.len() as int, job@.entries.len() as int),
        r matches Err(e) ==> e is Archive,
{
    let assets = &job.entries;
    let total: usize = assets.len();
    let mut w = archive_new();
    let mut notes: Vec<Progress> = Vec::new();
    let mut i: usize = 0;
    proof {
        assert(entry_views(assets@.take(0)) =~= Seq::<ArchiveEntry>::empty());
    }
    while i < total
        invariant
            i <= total,
            total == assets@.len(),
            assets@ == job@.entries,
            archive_entries(w) == entry_views(assets@.take(i as int)),
            adds_ok_from(Seq::empty(), entry_views(assets@.take(i as int))),
            notes@ == notes_upto(total as int, i as int),
        decreases total - i,
    {
        let ghost prior = entry_views(assets@.take(i as int));
        let ghost entry = (
            asset_filename_spec(assets@[i as int].unique_id@, assets@[i as int].kind),
            assets@[i as int].payload@,
            ENTRY_PERMISSIONS,
        );
        let name = assets[i].filename();
        if archive_add(&mut w, &name, &assets[i].payload, ENTRY_PERMISSIONS).is_err() {
            proof {
                // The refused entry refutes the all-accepted condition.
                assert(!adds_ok_from(Seq::empty(), entry_views(assets@))) by {
                    if adds_ok_from(Seq::empty(), entry_views(assets@)) {
                        lemma_adds_ok_at(Seq::empty(), entry_views(assets@), i as int);
                        assert(Seq::empty() + entry_views(assets@).take(i as int) =~= prior);
                        assert(entry_views(assets@)[i as int] == entry);
                        assert(false);
                    }
                }
            }
            return Err(ExportError::Archive);
        }
        i += 1;
        if i % 5 == 0 || i == total {
            notes.push(Progress { completed: i, total });
        }
        proof {
            assert(entry_views(assets@.take(i as int)) =~= prior.push(entry));
            lemma_adds_ok_snoc(Seq::empty(), prior, entry);
            assert(Seq::empty() + prior =~= prior);
            assert(notes@ =~= notes_upto(total as int, i as int));
        }
    }
    proof {
        assert(assets@.take(total as int) =~= assets@);
    }
    match archive_finish(w) {
        Ok(bytes) => Ok(ArchiveOutput { bytes, notes }),
        Err(_) => Err(ExportError::Archive),
    }
}

/// The archive filename derived from the pack's identifier.
pub fn archive_filename(pack_name: &String) -> (name: String)
    ensures
        name@ == "stickers-"@ + pack_name@ + ".zip"@,
{
    let mut name = "stickers-".to_owned();
    name.append(pack_name.as_str());
    name.append(".zip");
    name
}

/// Entry-name uniqueness: assets with pairwise distinct unique ids
/// generate pairwise distinct archive entry names.
pub proof fn lemma_entry_names_unique(entries: Seq<ExportedAsset>)
    requires
        forall|i: int, j: int|
            0 <= i < j < entries.len() ==> entries[i].unique_id@ != entries[j].unique_id@,
    ensures
        forall|i: int, j: int|
            0 <= i < j < entries.len() ==> asset_filename_spec(entries[i].unique_id@, entries[i].kind)
                != asset_filename_spec(entries[j].unique_id@, entries[j].kind),
{
    assert forall|i: int, j: int| 0 <= i < j < entries.len() implies asset_filename_spec(
        entries[i].unique_id@,
        entries[i].kind,
    ) != asset_filename_spec(entries[j].unique_id@, entries[j].kind) by {
        lemma_asset_filename_injective(
            entries[i].unique_id@,
            entries[i].kind,
            entries[j].unique_id@,
            entries[j].kind,
        );
    }
}

} // verus!
