//! The attendance engine: one record per calendar date, addressed by the
//! key derived from the date, with child entries that are always replaced
//! wholesale — an update deletes every existing entry of the record and
//! inserts the full new set as one unit.

use vstd::pervasive::VecAdditionalExecFns;
use vstd::prelude::*;

use crate::calendar::{date_key, date_of, parse_date, valid_date_string, DateYmd};
use crate::member::clone_opt_string;
use crate::response::AppError;

verus! {

/// One student's line in a roster payload or view: present or absent,
/// with an optional note.
pub struct AttendanceStudent {
    pub student_id: u128,
    pub attendance_status: bool,
    pub note: Option<String>,
}

/// Payload for creating or replacing a day's roster: the record note and
/// the complete set of student entries.
pub struct UpsertAttendanceRequest {
    pub note: Option<String>,
    pub attendance_students: Vec<AttendanceStudent>,
}

/// Query shape for reading a day's roster.
pub struct AttendanceQuery {
    pub date: String,
}

/// A stored attendance record, keyed by the `YYYYMMDD` key derived from
/// its date.
pub struct AttendanceRecordRow {
    pub id: String,
    pub class_date: DateYmd,
    pub note: Option<String>,
    pub created_at: i64,
    pub updated_at: i64,
}

/// A stored roster entry, owned by the record whose key it carries.
pub struct AttendanceEntryRow {
    pub record_id: String,
    pub student_id: u128,
    pub attendance_status: bool,
    pub note: Option<String>,
}

/// Read shape of a day's roster.
pub struct AttendanceView {
    pub id: String,
    pub note: Option<String>,
    pub created_at: i64,
    pub updated_at: i64,
    pub attendance_students: Vec<AttendanceStudent>,
}

/// Some record carries this key.
pub open spec fn has_record(s: Seq<AttendanceRecordRow>, key: Seq<char>) -> bool {
    exists|i: int| 0 <= i < s.len() && (#[trigger] s[i]).id@ == key
}

/// The predicate selecting the entries of the record under this key.
pub open spec fn entry_of_pred(key: Seq<char>) -> spec_fn(AttendanceEntryRow) -> bool {
    |e: AttendanceEntryRow| e.record_id@ == key
}

/// The predicate selecting the entries of every other record.
pub open spec fn entry_not_of_pred(key: Seq<char>) -> spec_fn(AttendanceEntryRow) -> bool {
    |e: AttendanceEntryRow| e.record_id@ != key
}

/// The entries of the record under this key, in storage order.
pub open spec fn roster_entries(s: Seq<AttendanceEntryRow>, key: Seq<char>) -> Seq<
    AttendanceEntryRow,
> {
    s.filter(entry_of_pred(key))
}

/// The entries of every other record, in storage order.
pub open spec fn other_entries(s: Seq<AttendanceEntryRow>, key: Seq<char>) -> Seq<
    AttendanceEntryRow,
> {
    s.filter(entry_not_of_pred(key))
}

/// The student line a stored entry is read as.
pub open spec fn spec_entry_student(e: AttendanceEntryRow) -> AttendanceStudent {
    AttendanceStudent {
        student_id: e.student_id,
        attendance_status: e.attendance_status,
        note: e.note,
    }
}

/// The attendance store: records and their entries.
pub struct AttendanceStore {
    pub records: Vec<AttendanceRecordRow>,
    pub entries: Vec<AttendanceEntryRow>,
}

/// A sequence in which every element satisfies the predicate filters to
/// itself.
pub proof fn lemma_filter_all_identity<A>(s: Seq<A>, pred: spec_fn(A) -> bool)
    requires
        forall|i: int| 0 <= i < s.len() ==> pred(#[trigger] s[i]),
    ensures
        s.filter(pred) == s,
    decreases s.len(),
{
    if s.len() == 0 {
        assert(s.filter(pred) =~= s);
    } else {
        lemma_filter_all_identity(s.drop_last(), pred);
        s.drop_last().lemma_filter_push(s.last(), pred);
        assert(s =~= s.drop_last().push(s.last()));
        assert(s.filter(pred) =~= s);
    }
}

/// After a roster replacement — the surviving entries are exactly those of
/// other records, followed by the new block, all of it under the record's
/// key — the record's roster is exactly the new block: nothing of the
/// previous roster survives.
pub proof fn lemma_roster_replacement_exact(
    old_entries: Seq<AttendanceEntryRow>,
    new_entries: Seq<AttendanceEntryRow>,
    key: Seq<char>,
)
    requires
        new_entries.len() >= other_entries(old_entries, key).len(),
        new_entries.subrange(0, other_entries(old_entries, key).len() as int) == other_entries(
            old_entries,
            key,
        ),
        forall|k: int|
            other_entries(old_entries, key).len() <= k < new_entries.len() ==> (
            #[trigger] new_entries[k]).record_id@ == key,
    ensures
        roster_entries(new_entries, key) == new_entries.subrange(
            other_entries(old_entries, key).len() as int,
            new_entries.len() as int,
        ),
{
    let kept = other_entries(old_entries, key);
    let added = new_entries.subrange(kept.len() as int, new_entries.len() as int);
    assert(new_entries =~= kept + added);
    Seq::filter_distributes_over_add(kept, added, entry_of_pred(key));
    assert forall|i: int| 0 <= i < kept.len() implies !entry_of_pred(key)(
        (#[trigger] kept[i]),
    ) by {
        old_entries.lemma_filter_pred(entry_not_of_pred(key), i);
    }
    kept.lemma_all_neg_filter_empty(entry_of_pred(key));
    assert(forall|i: int| 0 <= i < added.len() ==> entry_of_pred(key)((#[trigger] added[i])));
    lemma_filter_all_identity(added, entry_of_pred(key));
    assert(roster_entries(new_entries, key) =~= added);
}

impl AttendanceStore {
    /// Record keys are unique.
    pub open spec fn wf(self) -> bool {
        forall|i: int, j: int|
            0 <= i < j < self.records@.len() ==> (#[trigger] self.records@[i]).id@ != (
            #[trigger] self.records@[j]).id@
    }

    /// An empty store.
    pub fn new() -> (r: AttendanceStore)
        ensures
            r.wf(),
            r.records@ =~= Seq::<AttendanceRecordRow>::empty(),
            r.entries@ =~= Seq::<AttendanceEntryRow>::empty(),
    {
        AttendanceStore { records: Vec::new(), entries: Vec::new() }
    }

    /// Index of the record under this key, if any.
    pub fn record_index(&self, key: &String) -> (r: Option<usize>)
        ensures
            match r {
                Some(i) => i < self.records@.len() && self.records@[i as int].id@ == key@,
                None => !has_record(self.records@, key@),
            },
    {
        let mut i: usize = 0;
        while i < self.records.len()
            invariant
                i <= self.records@.len(),
                forall|k: int| 0 <= k < i ==> (#[trigger] self.records@[k]).id@ != key@,
            decreases self.records@.len() - i,
        {
            if self.records[i].id == *key {
                return Some(i);
            }
            i += 1;
        }
        None
    }

    /// Read a day's roster: the record under the date's derived key and
    /// exactly its entries, in storage order.
    pub fn get_attendance_record(&self, date: &str) -> (r: Result<AttendanceView, AppError>)
        ensures
            r == Err::<AttendanceView, AppError>(AppError::Validation) <==> !valid_date_string(
                date@,
            ),
            r == Err::<AttendanceView, AppError>(AppError::NotFound) <==> valid_date_string(date@)
                && !has_record(self.records@, date_key(date@)),
            r is Ok <==> valid_date_string(date@) && has_record(self.records@, date_key(date@)),
            r matches Ok(v) ==> {
                &&& v.id@ == date_key(date@)
                &&& exists|i: int|
                    {
                        &&& 0 <= i < self.records@.len()
                        &&& (#[trigger] self.records@[i]).id@ == date_key(date@)
                        &&& v.note == self.records@[i].note
                        &&& v.created_at == self.records@[i].created_at
                        &&& v.updated_at == self.records@[i].updated_at
                    }
                &&& v.attendance_students@.len() == roster_entries(
                    self.entries@,
                    date_key(date@),
                ).len()
                &&& forall|k: int|
                    0 <= k < v.attendance_students@.len() ==> (#[trigger] v.attendance_students@[k])
                        == spec_entry_student(roster_entries(self.entries@, date_key(date@))[k])
            },
    {
        let (_, key) = match parse_date(date) {
            Ok(p) => p,
            Err(e) => {
                return Err(e);
            },
        };
        let ri = match self.record_index(&key) {
            Some(i) => i,
            None => {
                return Err(AppError::NotFound);
            },
        };
        let mut students: Vec<AttendanceStudent> = Vec::new();
        let mut i: usize = 0;
        while i < self.entries.len()
            invariant
                i <= self.entries@.len(),
                students@.len() == roster_entries(self.entries@.subrange(0, i as int), key@).len(),
                forall|k: int|
                    0 <= k < students@.len() ==> (#[trigger] students@[k]) == spec_entry_student(
                        roster_entries(self.entries@.subrange(0, i as int), key@)[k],
                    ),
            decreases self.entries@.len() - i,
        {
            let ghost pre = self.entries@.subrange(0, i as int);
            let ghost elem = self.entries@[i as int];
            if self.entries[i].record_id == key {
                students.push(
                    AttendanceStudent {
                        student_id: self.entries[i].student_id,
                        attendance_status: self.entries[i].attendance_status,
                        note: clone_opt_string(&self.entries[i].note),
                    },
                );
            }
            proof {
                pre.lemma_filter_push(elem, entry_of_pred(key@));
                assert(self.entries@.subrange(0, i as int + 1) =~= pre.push(elem));
            }
            i += 1;
        }
        proof {
            assert(self.entries@.subrange(0, self.entries@.len() as int) =~= self.entries@);
        }
        let record = &self.records[ri];
        Ok(
            AttendanceView {
                id: key,
                note: clone_opt_string(&record.note),
                created_at: record.created_at,
                updated_at: record.updated_at,
                attendance_students: students,
            },
        )
    }

    /// Create a day's roster: fails on a malformed date, conflicts when a
    /// record for the date already exists, else inserts the record, with
    /// the submitted note, and every entry as one unit.
    pub fn add_attendance_record(
        &mut self,
        date: &str,
        req: UpsertAttendanceRequest,
        now: i64,
    ) -> (r: Result<(), AppError>)
        requires
            old(self).wf(),
        ensures
            final(self).wf(),
            r is Err ==> *final(self) == *old(self),
            r == Err::<(), AppError>(AppError::Validation) <==> !valid_date_string(date@),
            r == Err::<(), AppError>(AppError::Conflict) <==> valid_date_string(date@)
                && has_record(old(self).records@, date_key(date@)),
            r is Ok <==> valid_date_string(date@) && !has_record(
                old(self).records@,
                date_key(date@),
            ),
            r is Ok ==> {
                &&& final(self).records@.len() == old(self).records@.len() + 1
                &&& final(self).records@.drop_last() == old(self).records@
                &&& final(self).records@.last().id@ == date_key(date@)
                &&& final(self).records@.last().class_date == date_of(date@)
                &&& final(self).records@.last().note == req.note
                &&& final(self).records@.last().created_at == now
                &&& final(self).records@.last().updated_at == now
            },
            r is Ok ==> {
                &&& final(self).entries@.len() == old(self).entries@.len()
                    + req.attendance_students@.len()
                &&& final(self).entries@.subrange(0, old(self).entries@.len() as int) == old(
                    self,
                ).entries@
                &&& forall|k: int|
                    0 <= k < req.attendance_students@.len() ==> {
                        let e = #[trigger] final(self).entries@[old(self).entries@.len() + k];
                        &&& e.record_id@ == date_key(date@)
                        &&& e.student_id == req.attendance_students@[k].student_id
                        &&& e.attendance_status == req.attendance_students@[k].attendance_status
                        &&& e.note == req.attendance_students@[k].note
                    }
            },
    {
        let (parsed, key) = match parse_date(date) {
            Ok(p) => p,
            Err(e) => {
                return Err(e);
            },
        };
        if self.record_index(&key).is_some() {
            return Err(AppError::Conflict);
        }
        let record = AttendanceRecordRow {
            id: key.clone(),
            class_date: parsed,
            note: clone_opt_string(&req.note),
            created_at: now,
            updated_at: now,
        };
        self.records.push(record);
        proof {
            assert(self.records@.drop_last() =~= old(self).records@);
        }
        let ghost recs = self.records@;
        let mut i: usize = 0;
        while i < req.attendance_students.len()
            invariant
                i <= req.attendance_students@.len(),
                key@ == date_key(date@),
                self.records@ == recs,
                recs.len() == old(self).records@.len() + 1,
                recs.drop_last() == old(self).records@,
                recs.last().id@ == date_key(date@),
                recs.last().class_date == date_of(date@),
                recs.last().note == req.note,
                recs.last().created_at == now,
                recs.last().updated_at == now,
                old(self).wf(),
                !has_record(old(self).records@, date_key(date@)),
                self.entries@.len() == old(self).entries@.len() + i,
                self.entries@.subrange(0, old(self).entries@.len() as int) == old(self).entries@,
                forall|k: int|
                    0 <= k < i ==> {
                        let e = #[trigger] self.entries@[old(self).entries@.len() + k];
                        &&& e.record_id@ == date_key(date@)
                        &&& e.student_id == req.attendance_students@[k].student_id
                        &&& e.attendance_status == req.attendance_students@[k].attendance_status
                        &&& e.note == req.attendance_students@[k].note
                    },
            decreases req.attendance_students@.len() - i,
        {
            let entry = AttendanceEntryRow {
                record_id: key.clone(),
                student_id: req.attendance_students[i].student_id,
                attendance_status: req.attendance_students[i].attendance_status,
                note: clone_opt_string(&req.attendance_students[i].note),
            };
            self.entries.push(entry);
            i += 1;
        }
        Ok(())
    }

    /// Replace a day's roster: fails when no record exists for the date;
    /// otherwise updates the record's note and update time, deletes every
    /// existing entry of the record, and inserts the full new set, as one
    /// unit. Callers submit the complete desired roster.
    pub fn update_attendance(&mut self, date: &str, req: UpsertAttendanceRequest, now: i64) -> (r:
        Result<(), AppError>)
        requires
            old(self).wf(),
        ensures
            final(self).wf(),
            r is Err ==> *final(self) == *old(self),
            r == Err::<(), AppError>(AppError::Validation) <==> !valid_date_string(date@),
            r == Err::<(), AppError>(AppError::NotFound) <==> valid_date_string(date@)
                && !has_record(old(self).records@, date_key(date@)),
            r is Ok <==> valid_date_string(date@) && has_record(old(self).records@, date_key(date@)),
            r is Ok ==> exists|i: int|
                {
                    &&& 0 <= i < old(self).records@.len()
                    &&& (#[trigger] old(self).records@[i]).id@ == date_key(date@)
                    &&& final(self).records@ == old(self).records@.update(
                        i,
                        (AttendanceRecordRow {
                            id: old(self).records@[i].id,
                            class_date: old(self).records@[i].class_date,
                            note: req.note,
                            created_at: old(self).records@[i].created_at,
                            updated_at: now,
                        }),
                    )
                },
            r is Ok ==> {
                &&& final(self).entries@.len() == other_entries(
                    old(self).entries@,
                    date_key(date@),
                ).len() + req.attendance_students@.len()
                &&& final(self).entries@.subrange(
                    0,
                    other_entries(old(self).entries@, date_key(date@)).len() as int,
                ) == other_entries(old(self).entries@, date_key(date@))
                &&& forall|k: int|
                    0 <= k < req.attendance_students@.len() ==> {
                        let e = #[trigger] final(self).entries@[other_entries(
                            old(self).entries@,
                            date_key(date@),
                        ).len() + k];
                        &&& e.record_id@ == date_key(date@)
                        &&& e.student_id == req.attendance_students@[k].student_id
                        &&& e.attendance_status == req.attendance_students@[k].attendance_status
                        &&& e.note == req.attendance_students@[k].note
                    }
            },
    {
        let (_, key) = match parse_date(date) {
            Ok(p) => p,
            Err(e) => {
                return Err(e);
            },
        };
        let ri = match self.record_index(&key) {
            Some(i) => i,
            None => {
                return Err(AppError::NotFound);
            },
        };
        let UpsertAttendanceRequest { note, attendance_students } = req;
        let record = &self.records[ri];
        let updated = AttendanceRecordRow {
            id: record.id.clone(),
            class_date: record.class_date,
            note,
            created_at: record.created_at,
            updated_at: now,
        };
        self.records.set(ri, updated);
        let mut kept: Vec<AttendanceEntryRow> = Vec::new();
        let mut i: usize = 0;
        while i < self.entries.len()
            invariant
                i <= self.entries@.len(),
                self.entries == old(self).entries,
                kept@ == other_entries(self.entries@.subrange(0, i as int), key@),
            decreases self.entries@.len() - i,
        {
            let ghost pre = self.entries@.subrange(0, i as int);
            let ghost elem = self.entries@[i as int];
            if !(self.entries[i].record_id == key) {
                let e = &self.entries[i];
                kept.push(
                    AttendanceEntryRow {
                        record_id: e.record_id.clone(),
                        student_id: e.student_id,
                        attendance_status: e.attendance_status,
                        note: clone_opt_string(&e.note),
                    },
                );
            }
            proof {
                pre.lemma_filter_push(elem, entry_not_of_pred(key@));
                assert(self.entries@.subrange(0, i as int + 1) =~= pre.push(elem));
            }
            i += 1;
        }
        proof {
            assert(self.entries@.subrange(0, self.entries@.len() as int) =~= self.entries@);
        }
        let ghost n_kept = kept@.len();
        let mut j: usize = 0;
        while j < attendance_students.len()
            invariant
                j <= attendance_students@.len(),
                key@ == date_key(date@),
                kept@.len() == n_kept + j,
                kept@.subrange(0, n_kept as int) == other_entries(old(self).entries@, date_key(date@)),
                n_kept == other_entries(old(self).entries@, date_key(date@)).len(),
                forall|k: int|
                    0 <= k < j ==> {
                        let e = #[trigger] kept@[n_kept + k];
                        &&& e.record_id@ == date_key(date@)
                        &&& e.student_id == attendance_students@[k].student_id
                        &&& e.attendance_status == attendance_students@[k].attendance_status
                        &&& e.note == attendance_students@[k].note
                    },
            decreases attendance_students@.len() - j,
        {
            let entry = AttendanceEntryRow {
                record_id: key.clone(),
                student_id: attendance_students[j].student_id,
                attendance_status: attendance_students[j].attendance_status,
                note: clone_opt_string(&attendance_students[j].note),
            };
            kept.push(entry);
            j += 1;
        }
        self.entries = kept;
        Ok(())
    }
}

} // verus!
