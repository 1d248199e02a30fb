//! One run of "generate every missing preview", as a state machine: the
//! caller decodes and renders each record handed out, and reports back.
use vstd::prelude::*;
use crate::media::{MediaRecord, RecordView, record_views};
use crate::repository::{Repository, StorageError, with_preview, has_id};

verus! {

broadcast use {vstd::seq_lib::group_seq_properties, vstd::seq::Seq::lemma_filter_push};

#[derive(Debug, Clone, Copy, PartialEq, Eq, Structural)]
pub enum GeneratePreviewsInput {
    Generate,
}

#[derive(Debug, Clone, Copy, PartialEq, Eq, Structural)]
pub enum GeneratePreviewsOutput {
    PreviewsGenerated,
}

/// Why a preview could not be rendered for a record.
#[derive(Debug, Clone, Copy, PartialEq, Eq, Structural)]
pub enum PreviewError {
    SourceUnreadable,
    DecodeFailed,
    CacheWriteFailed,
}

/// What became of one record of a run.
#[derive(Debug, Clone, Copy, PartialEq, Eq, Structural)]
pub enum ItemOutcome {
    /// The preview path was stored in the repository.
    Stored,
    /// The preview could not be rendered; the record keeps no preview.
    PreviewFailed(PreviewError),
    /// The preview was rendered but could not be stored.
    StoreFailed(StorageError),
}

pub open spec fn lacks_preview(r: RecordView) -> bool {
    r.square_preview_path is None
}

/// The records of `s` that have no preview yet, in their order.
pub open spec fn needing_preview(s: Seq<RecordView>) -> Seq<RecordView> {
    s.filter(|r: RecordView| lacks_preview(r))
}

/// The preview path that a previewer's result provides, if any.
pub open spec fn outcome_path(outcome: Result<String, PreviewError>) -> Option<Seq<char>> {
    match outcome {
        Ok(p) => Some(p@),
        Err(_) => None,
    }
}

/// The catalog after the outcome for `rec` was handled.
pub open spec fn step(s: Seq<RecordView>, rec: RecordView, path: Option<Seq<char>>) -> Seq<RecordView> {
    match path {
        Some(p) => with_preview(s, rec.id, Some(p)),
        None => s,
    }
}

/// The catalog after the records `pending` were handled in order, the
/// previewer having given `paths[i]` for `pending[i]`.
pub open spec fn run(
    s: Seq<RecordView>,
    pending: Seq<RecordView>,
    paths: Seq<Option<Seq<char>>>,
) -> Seq<RecordView>
    decreases pending.len(),
{
    if pending.len() == 0 {
        s
    } else {
        step(run(s, pending.drop_last(), paths.drop_last()), pending.last(), paths.last())
    }
}

/// Whether the record of identity `id` has a preview.
pub open spec fn has_preview_for(s: Seq<RecordView>, id: u64) -> bool {
    exists|j: int| 0 <= j < s.len() && s[j].id == id && s[j].square_preview_path is Some
}

/// The records that lack a preview, in their order.
pub fn records_needing_preview(records: Vec<MediaRecord>) -> (r: Vec<MediaRecord>)
    ensures
        record_views(r@) == needing_preview(record_views(records@)),
{
    let mut out: Vec<MediaRecord> = Vec::new();
    let mut i: usize = 0;
    while i < records.len()
        invariant
            i <= records@.len(),
            record_views(out@) == needing_preview(record_views(records@.take(i as int))),
        decreases records@.len() - i,
    {
        let ghost before = out@;
        assert(records@.take(i as int + 1) =~= records@.take(i as int).push(records@[i as int]));
        assert(record_views(records@.take(i as int + 1)) =~= record_views(
            records@.take(i as int),
        ).push(records@[i as int]@));
        if records[i].square_preview_path.is_none() {
            out.push(records[i].clone());
            assert(record_views(out@) =~= record_views(before).push(records@[i as int]@));
        }
        i = i + 1;
    }
    assert(records@.take(i as int) =~= records@);
    out
}

/// A run: the records it was started with and how many have been handled.
pub struct GeneratePreviews {
    pending: Vec<MediaRecord>,
    position: usize,
}

impl GeneratePreviews {
    /// The records of the run, in the order they are handed out.
    pub closed spec fn pending(&self) -> Seq<RecordView> {
        record_views(self.pending@)
    }

    /// How many records of the run have been handled.
    pub closed spec fn position(&self) -> nat {
        self.position as nat
    }

    pub closed spec fn wf(&self) -> bool {
        self.position <= self.pending@.len()
    }

    /// A worker with no run in progress.
    pub fn init() -> (r: Self)
        ensures
            r.wf(),
            r.pending() == Seq::<RecordView>::empty(),
            r.position() == 0,
    {
        GeneratePreviews { pending: Vec::new(), position: 0 }
    }

    /// Starts a run over `snapshot`, a copy of every record in the
    /// repository: the records without a preview are to be handled.
    pub fn update(&mut self, msg: GeneratePreviewsInput, snapshot: Vec<MediaRecord>)
        ensures
            final(self).wf(),
            final(self).pending() == needing_preview(record_views(snapshot@)),
            final(self).position() == 0,
    {
        match msg {
            GeneratePreviewsInput::Generate => {
                self.pending = records_needing_preview(snapshot);
                self.position = 0;
            },
        }
    }

    /// The next record to render a preview for; `None` once all were handled.
    pub fn next_record(&self) -> (r: Option<MediaRecord>)
        requires
            self.wf(),
        ensures
            self.position() < self.pending().len() ==> r is Some && r->Some_0@ == self.pending()[self.position() as int],
            self.position() >= self.pending().len() ==> r is None,
    {
        if self.position < self.pending.len() {
            Some(self.pending[self.position].clone())
        } else {
            None
        }
    }

    /// The completion signal, given once every record was handled.
    pub fn completion(&self) -> (r: Option<GeneratePreviewsOutput>)
        requires
            self.wf(),
        ensures
            r is Some <==> self.position() == self.pending().len(),
            r is Some ==> r == Some(GeneratePreviewsOutput::PreviewsGenerated),
    {
        if self.position == self.pending.len() {
            Some(GeneratePreviewsOutput::PreviewsGenerated)
        } else {
            None
        }
    }

    /// Handles what the previewer gave for the current record: a rendered
    /// preview's path is stored in `repo`; a failure leaves `repo` as it was.
    /// Either way the run moves on to the next record.
    pub fn record_outcome(
        &mut self,
        repo: &mut Repository,
        outcome: Result<String, PreviewError>,
    ) -> (r: ItemOutcome)
        requires
            old(self).wf(),
            old(self).position() < old(self).pending().len(),
            old(repo).wf(),
        ensures
            final(self).wf(),
            final(self).pending() == old(self).pending(),
            final(self).position() == old(self).position() + 1,
            final(repo).wf(),
            final(repo).identities_left() == old(repo).identities_left(),
            final(repo)@ == step(
                old(repo)@,
                old(self).pending()[old(self).position() as int],
                outcome_path(outcome),
            ),
            r == match outcome {
                Err(e) => ItemOutcome::PreviewFailed(e),
                Ok(_) => if has_id(old(repo)@, old(self).pending()[old(self).position() as int].id) {
                    ItemOutcome::Stored
                } else {
                    ItemOutcome::StoreFailed(StorageError::UnknownIdentity)
                },
            },
    {
        let ghost before = repo@;
        let ghost rec = self.pending@[self.position as int]@;
        let i = self.position;
        assert(self.pending().len() == self.pending@.len());
        let n = self.pending.len();
        assert(i < n);
        self.position = self.position + 1;
        match outcome {
            Err(e) => ItemOutcome::PreviewFailed(e),
            Ok(path) => {
                let mut record = self.pending[i].clone();
                record.square_preview_path = Some(path);
                match repo.add_preview(&record) {
                    Ok(()) => ItemOutcome::Stored,
                    Err(e) => {
                        assert(with_preview(before, rec.id, Some(path@)) =~= before);
                        ItemOutcome::StoreFailed(e)
                    },
                }
            },
        }
    }
}

/// Handling a run keeps every record in place under its identity, and a
/// record that had a preview keeps one.
pub proof fn lemma_run_keeps_records(
    s: Seq<RecordView>,
    pending: Seq<RecordView>,
    paths: Seq<Option<Seq<char>>>,
)
    ensures
        run(s, pending, paths).len() == s.len(),
        forall|j: int| 0 <= j < s.len() ==> #[trigger] run(s, pending, paths)[j].id == s[j].id,
        forall|j: int|
            0 <= j < s.len() && s[j].square_preview_path is Some
                ==> (#[trigger] run(s, pending, paths)[j]).square_preview_path is Some,
    decreases pending.len(),
{
    if pending.len() > 0 {
        lemma_run_keeps_records(s, pending.drop_last(), paths.drop_last());
    }
}

/// Every record that shares the identity of a pending record whose preview
/// was rendered has a preview after the run.
proof fn lemma_rendered_marks(
    s: Seq<RecordView>,
    pending: Seq<RecordView>,
    paths: Seq<Option<Seq<char>>>,
    k: int,
)
    requires
        pending.len() == paths.len(),
        0 <= k < pending.len(),
        paths[k] is Some,
    ensures
        forall|j: int|
            0 <= j < run(s, pending, paths).len() && run(s, pending, paths)[j].id == pending[k].id
                ==> (#[trigger] run(s, pending, paths)[j]).square_preview_path is Some,
    decreases pending.len(),
{
    let n = pending.len() - 1;
    if k < n {
        lemma_rendered_marks(s, pending.drop_last(), paths.drop_last(), k);
        assert(pending.drop_last()[k] == pending[k]);
    }
}

/// After a run, every pending record that is in the catalog and whose
/// preview was rendered has a preview stored under its identity.
pub proof fn lemma_rendered_previews_stored(
    s: Seq<RecordView>,
    pending: Seq<RecordView>,
    paths: Seq<Option<Seq<char>>>,
    k: int,
)
    requires
        pending.len() == paths.len(),
        0 <= k < pending.len(),
        paths[k] is Some,
        has_id(s, pending[k].id),
    ensures
        has_preview_for(run(s, pending, paths), pending[k].id),
{
    lemma_run_keeps_records(s, pending, paths);
    lemma_rendered_marks(s, pending, paths, k);
    let j = choose|j: int| 0 <= j < s.len() && s[j].id == pending[k].id;
    assert(run(s, pending, paths)[j].id == pending[k].id);
}

/// When the preview of one record of a run fails, every other record of the
/// run that is in the catalog still gets its preview.
pub proof fn lemma_failure_isolated(
    s: Seq<RecordView>,
    pending: Seq<RecordView>,
    paths: Seq<Option<Seq<char>>>,
    failed: int,
)
    requires
        pending.len() == paths.len(),
        0 <= failed < pending.len(),
        paths[failed] is None,
        forall|k: int| 0 <= k < pending.len() && k != failed ==> paths[k] is Some,
        forall|k: int| 0 <= k < pending.len() ==> has_id(s, #[trigger] pending[k].id),
    ensures
        forall|k: int|
            0 <= k < pending.len() && k != failed ==> has_preview_for(
                run(s, pending, paths),
                #[trigger] pending[k].id,
            ),
{
    assert forall|k: int| 0 <= k < pending.len() && k != failed implies has_preview_for(
        run(s, pending, paths),
        #[trigger] pending[k].id,
    ) by {
        lemma_rendered_previews_stored(s, pending, paths, k);
    }
}

/// After a run over the records lacking a preview in which every preview was
/// rendered, no record lacks a preview: a second run has nothing to do.
pub proof fn lemma_second_run_empty(s: Seq<RecordView>, paths: Seq<Option<Seq<char>>>)
    requires
        paths.len() == needing_preview(s).len(),
        forall|k: int| 0 <= k < paths.len() ==> (#[trigger] paths[k]) is Some,
    ensures
        needing_preview(run(s, needing_preview(s), paths)).len() == 0,
{
    broadcast use {
        vstd::seq::Seq::lemma_filter_contains,
        vstd::seq::Seq::lemma_filter_pred,
        vstd::seq::Seq::lemma_filter_contains_rev,
    };

    let p = needing_preview(s);
    let t = run(s, p, paths);
    lemma_run_keeps_records(s, p, paths);
    assert forall|j: int| 0 <= j < t.len() implies (#[trigger] t[j]).square_preview_path is Some by {
        if s[j].square_preview_path is None {
            assert(p.contains(s[j]));
            let k = choose|k: int| 0 <= k < p.len() && p[k] == s[j];
            lemma_rendered_marks(s, p, paths, k);
        }
    }
    if needing_preview(t).len() > 0 {
        let x = needing_preview(t)[0];
        assert(lacks_preview(x));
        assert(needing_preview(t).contains(x));
        assert(t.contains(x));
    }
}

/// In a run over the catalog's own records lacking a preview, each record is
/// still in the catalog when its turn comes, whatever the outcomes before
/// it: so each rendered preview is stored (see `record_outcome`), and the
/// previewer is asked once per record that lacks a preview.
pub proof fn lemma_each_pending_record_known(
    s: Seq<RecordView>,
    paths: Seq<Option<Seq<char>>>,
    k: int,
)
    requires
        0 <= k < needing_preview(s).len(),
    ensures
        has_id(
            run(s, needing_preview(s).take(k), paths.take(k)),
            needing_preview(s)[k].id,
        ),
{
    broadcast use vstd::seq::Seq::lemma_filter_contains_rev;

    let p = needing_preview(s);
    assert(p.contains(p[k]));
    assert(s.contains(p[k]));
    let j = choose|j: int| 0 <= j < s.len() && s[j] == p[k];
    lemma_run_keeps_records(s, p.take(k), paths.take(k));
    assert(run(s, p.take(k), paths.take(k))[j].id == p[k].id);
}

} // verus!
