//! The catalog of media records, the single source of truth for them.
use vstd::prelude::*;
use crate::media::{MediaRecord, RecordView, record_views};

verus! {

#[derive(Debug, Clone, Copy, PartialEq, Eq, Structural)]
pub enum StorageError {
    /// No stored record has the identity asked for.
    UnknownIdentity,
    /// Every identity has been handed out.
    IdentitiesExhausted,
}

/// No two records share an identity.
pub open spec fn unique_ids(s: Seq<RecordView>) -> bool {
    forall|i: int, j: int| 0 <= i < s.len() && 0 <= j < s.len() && i != j ==> s[i].id != s[j].id
}

/// Whether some record has identity `id`.
pub open spec fn has_id(s: Seq<RecordView>, id: u64) -> bool {
    exists|i: int| 0 <= i < s.len() && s[i].id == id
}

/// Whether some record has source path `source_path`.
pub open spec fn has_source(s: Seq<RecordView>, source_path: Seq<char>) -> bool {
    exists|i: int| 0 <= i < s.len() && s[i].source_path == source_path
}

/// `s` with the preview path of the record of identity `id` set to `p`.
pub open spec fn with_preview(s: Seq<RecordView>, id: u64, p: Option<Seq<char>>) -> Seq<RecordView> {
    s.map_values(
        |r: RecordView|
            if r.id == id {
                RecordView { square_preview_path: p, ..r }
            } else {
                r
            },
    )
}

/// `s` with the record of `source_path` given the paths of `r`, identity kept.
pub open spec fn with_source_update(s: Seq<RecordView>, r: RecordView) -> Seq<RecordView> {
    s.map_values(
        |x: RecordView|
            if x.source_path == r.source_path {
                RecordView { id: x.id, ..r }
            } else {
                x
            },
    )
}

/// Durable store of catalog records.
pub struct Repository {
    records: Vec<MediaRecord>,
    next_id: u64,
}

impl View for Repository {
    type V = Seq<RecordView>;

    closed spec fn view(&self) -> Seq<RecordView> {
        record_views(self.records@)
    }
}

impl Repository {
    /// Identities are unique, every one below the next to hand out, and no
    /// two records share a source path.
    pub closed spec fn wf(&self) -> bool {
        &&& unique_ids(self@)
        &&& forall|i: int| 0 <= i < self@.len() ==> self@[i].id < self.next_id
        &&& forall|i: int, j: int|
            0 <= i < self@.len() && 0 <= j < self@.len() && i != j ==> self@[i].source_path
                != self@[j].source_path
    }

    /// An empty catalog.
    pub fn new() -> (r: Self)
        ensures
            r.wf(),
            r@ == Seq::<RecordView>::empty(),
            r.identities_left() == u64::MAX - 1,
    {
        Repository { records: Vec::new(), next_id: 1 }
    }

    /// A snapshot of every stored record.
    pub fn all(&self) -> (r: Vec<MediaRecord>)
        ensures
            record_views(r@) == self@,
    {
        let mut out: Vec<MediaRecord> = Vec::new();
        let mut i: usize = 0;
        while i < self.records.len()
            invariant
                i <= self.records@.len(),
                out@ == self.records@.take(i as int),
            decreases self.records@.len() - i,
        {
            out.push(self.records[i].clone());
            assert(self.records@.take(i as int + 1) =~= self.records@.take(i as int).push(
                self.records@[i as int],
            ));
            i = i + 1;
        }
        assert(self.records@.take(i as int) =~= self.records@);
        out
    }

    /// The position of the record with identity `id`.
    fn index_of_id(&self, id: u64) -> (r: Option<usize>)
        ensures
            match r {
                Some(i) => i < self@.len() && self@[i as int].id == id,
                None => !has_id(self@, id),
            },
    {
        let mut i: usize = 0;
        while i < self.records.len()
            invariant
                i <= self.records@.len(),
                forall|j: int| 0 <= j < i ==> self@[j].id != id,
            decreases self.records@.len() - i,
        {
            if self.records[i].id == id {
                return Some(i);
            }
            i = i + 1;
        }
        None
    }

    /// The position of the record with source path `source_path`.
    fn index_of_source(&self, source_path: &String) -> (r: Option<usize>)
        ensures
            match r {
                Some(i) => i < self@.len() && self@[i as int].source_path == source_path@,
                None => !has_source(self@, source_path@),
            },
    {
        let mut i: usize = 0;
        while i < self.records.len()
            invariant
                i <= self.records@.len(),
                forall|j: int| 0 <= j < i ==> self@[j].source_path != source_path@,
            decreases self.records@.len() - i,
        {
            if self.records[i].source_path == *source_path {
                return Some(i);
            }
            i = i + 1;
        }
        None
    }

    /// Stores the preview path of `record` under its identity; fails, and
    /// changes nothing, when no stored record has that identity.
    pub fn add_preview(&mut self, record: &MediaRecord) -> (r: Result<(), StorageError>)
        requires
            old(self).wf(),
        ensures
            final(self).wf(),
            final(self).identities_left() == old(self).identities_left(),
            r is Ok <==> has_id(old(self)@, record.id),
            r is Ok ==> final(self)@ == with_preview(old(self)@, record.id, record@.square_preview_path),
            r is Err ==> r == Err::<(), StorageError>(StorageError::UnknownIdentity) && final(self)@ == old(self)@,
    {
        match self.index_of_id(record.id) {
            None => Err(StorageError::UnknownIdentity),
            Some(i) => {
                let ghost before = self@;
                let mut stored = self.records[i].clone();
                stored.square_preview_path = crate::media::clone_opt_str(&record.square_preview_path);
                self.records.set(i, stored);
                assert(self@ =~= with_preview(before, record.id, record@.square_preview_path));
                Ok(())
            },
        }
    }

    /// How many identities are left to hand to new records.
    pub closed spec fn identities_left(&self) -> nat {
        (u64::MAX - self.next_id) as nat
    }

    /// Stores `record`: it replaces the record with the same source path,
    /// whose identity it keeps, or else is added under a fresh identity.
    /// Returns the record as stored.
    pub fn upsert(&mut self, record: MediaRecord) -> (r: Result<MediaRecord, StorageError>)
        requires
            old(self).wf(),
        ensures
            final(self).wf(),
            r is Err <==> !has_source(old(self)@, record@.source_path) && old(self).identities_left() == 0,
            r is Err ==> r == Err::<MediaRecord, StorageError>(StorageError::IdentitiesExhausted)
                && final(self)@ == old(self)@,
            has_source(old(self)@, record@.source_path) ==> final(self).identities_left()
                == old(self).identities_left(),
            r is Ok && !has_source(old(self)@, record@.source_path) ==> final(self).identities_left()
                == old(self).identities_left() - 1,
            r is Ok ==> r->Ok_0@ == (RecordView { id: r->Ok_0.id, ..record@ }),
            r is Ok && has_source(old(self)@, record@.source_path) ==> {
                &&& final(self)@ == with_source_update(old(self)@, record@)
                &&& exists|i: int|
                    0 <= i < old(self)@.len() && old(self)@[i].source_path == record@.source_path
                        && old(self)@[i].id == r->Ok_0.id
            },
            r is Ok && !has_source(old(self)@, record@.source_path) ==> {
                &&& final(self)@ == old(self)@.push(r->Ok_0@)
                &&& !has_id(old(self)@, r->Ok_0.id)
            },
    {
        let ghost before = self@;
        match self.index_of_source(&record.source_path) {
            Some(i) => {
                let mut stored = record;
                stored.id = self.records[i].id;
                let out = stored.clone();
                self.records.set(i, stored);
                assert(self@ =~= with_source_update(before, record@));
                Ok(out)
            },
            None => {
                if self.next_id == u64::MAX {
                    return Err(StorageError::IdentitiesExhausted);
                }
                let mut stored = record;
                stored.id = self.next_id;
                let out = stored.clone();
                self.records.push(stored);
                self.next_id = self.next_id + 1;
                assert(self@ =~= before.push(out@));
                Ok(out)
            },
        }
    }
}

} // verus!
