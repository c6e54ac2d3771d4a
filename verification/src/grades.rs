//! Legacy per-semester grade records, keyed by student identifier,
//! academic year and semester. Uniqueness of that triple among live rows
//! is enforced by an existence check before insert.

use vstd::pervasive::VecAdditionalExecFns;
use vstd::prelude::*;

use crate::identity::{joined_name, IdentityStore};
use crate::member::clone_opt_string;
use crate::response::AppError;

verus! {

/// Payload for registering or updating a grade record.
pub struct UpsertStudentGradeRequest {
    pub student_id: u128,
    pub academic_year: i16,
    pub semester: i16,
    pub exam_type: i16,
    pub chinese_book: Option<String>,
    pub english_book: Option<String>,
    pub math_book: Option<String>,
    pub science_book: Option<String>,
    pub social_studies_book: Option<String>,
    pub chinese_score: Option<i16>,
    pub english_score: Option<i16>,
    pub math_score: Option<i16>,
    pub science_score: Option<i16>,
    pub social_studies_score: Option<i16>,
    pub comment: Option<String>,
}

/// A stored grade record. A row is live while `deleted_at` is absent.
pub struct GradeRow {
    pub id: u128,
    pub student_id: u128,
    pub academic_year: i16,
    pub semester: i16,
    pub exam_type: i16,
    pub chinese_book: Option<String>,
    pub english_book: Option<String>,
    pub math_book: Option<String>,
    pub science_book: Option<String>,
    pub social_studies_book: Option<String>,
    pub chinese_score: Option<i16>,
    pub english_score: Option<i16>,
    pub math_score: Option<i16>,
    pub science_score: Option<i16>,
    pub social_studies_score: Option<i16>,
    pub comment: Option<String>,
    pub created_at: i64,
    pub updated_at: i64,
    pub deleted_at: Option<i64>,
}

impl GradeRow {
    /// A row is live until it is soft-deleted.
    pub open spec fn is_live(self) -> bool {
        self.deleted_at is None
    }
}

/// Read shape of a grade record joined with the student's name. The
/// comment is not carried into the view.
pub struct StudentGradeView {
    pub id: u128,
    pub student_id: u128,
    pub name: String,
    pub academic_year: i16,
    pub semester: i16,
    pub exam_type: i16,
    pub chinese_score: Option<i16>,
    pub english_score: Option<i16>,
    pub math_score: Option<i16>,
    pub science_score: Option<i16>,
    pub social_studies_score: Option<i16>,
    pub comment: Option<String>,
    pub updated_at: i64,
}

/// Keep an optional value when the payload supplies none, replace it when
/// the payload supplies one.
pub open spec fn merged<T>(old_v: Option<T>, new_v: Option<T>) -> Option<T> {
    match new_v {
        Some(v) => Some(v),
        None => old_v,
    }
}

/// Overwrite an optional field only when a replacement value is supplied.
pub fn update_optional_field<T>(field: &mut Option<T>, value: Option<T>)
    ensures
        *final(field) == merged(*old(field), value),
{
    if let Some(v) = value {
        *field = Some(v);
    }
}

/// Some live grade row already covers this (student, year, semester)
/// triple.
pub open spec fn grade_slot_taken(s: Seq<GradeRow>, student_id: u128, year: i16, semester: i16) -> bool {
    exists|i: int|
        0 <= i < s.len() && (#[trigger] s[i]).is_live() && s[i].student_id == student_id
            && s[i].academic_year == year && s[i].semester == semester
}

/// Some live grade row carries this identifier.
pub open spec fn has_live_grade(s: Seq<GradeRow>, id: u128) -> bool {
    exists|i: int| 0 <= i < s.len() && (#[trigger] s[i]).id == id && s[i].is_live()
}

/// The row a grade insert produces.
pub open spec fn spec_new_grade_row(id: u128, req: UpsertStudentGradeRequest, now: i64) -> GradeRow {
    GradeRow {
        id,
        student_id: req.student_id,
        academic_year: req.academic_year,
        semester: req.semester,
        exam_type: req.exam_type,
        chinese_book: req.chinese_book,
        english_book: req.english_book,
        math_book: req.math_book,
        science_book: req.science_book,
        social_studies_book: req.social_studies_book,
        chinese_score: req.chinese_score,
        english_score: req.english_score,
        math_score: req.math_score,
        science_score: req.science_score,
        social_studies_score: req.social_studies_score,
        comment: req.comment,
        created_at: now,
        updated_at: now,
        deleted_at: None,
    }
}

/// The row a grade update produces: year and semester replaced, books and
/// scores merged field by field, the student, exam type, comment and
/// creation time untouched.
pub open spec fn spec_updated_grade_row(
    row: GradeRow,
    req: UpsertStudentGradeRequest,
    now: i64,
) -> GradeRow {
    GradeRow {
        id: row.id,
        student_id: row.student_id,
        academic_year: req.academic_year,
        semester: req.semester,
        exam_type: row.exam_type,
        chinese_book: merged(row.chinese_book, req.chinese_book),
        english_book: merged(row.english_book, req.english_book),
        math_book: merged(row.math_book, req.math_book),
        science_book: merged(row.science_book, req.science_book),
        social_studies_book: merged(row.social_studies_book, req.social_studies_book),
        chinese_score: merged(row.chinese_score, req.chinese_score),
        english_score: merged(row.english_score, req.english_score),
        math_score: merged(row.math_score, req.math_score),
        science_score: merged(row.science_score, req.science_score),
        social_studies_score: merged(row.social_studies_score, req.social_studies_score),
        comment: row.comment,
        created_at: row.created_at,
        updated_at: now,
        deleted_at: None,
    }
}

/// The grade table and its identifier allocator.
pub struct GradeStore {
    pub rows: Vec<GradeRow>,
    pub next_id: u128,
}

impl GradeStore {
    /// Grade identifiers are unique and below the allocator mark.
    pub open spec fn wf(self) -> bool {
        &&& (forall|i: int, j: int|
            0 <= i < j < self.rows@.len() ==> (#[trigger] self.rows@[i]).id != (
            #[trigger] self.rows@[j]).id)
        &&& (forall|i: int|
            0 <= i < self.rows@.len() ==> (#[trigger] self.rows@[i]).id < self.next_id)
    }

    /// A fresh identifier can still be allocated.
    pub open spec fn can_alloc(self) -> bool {
        self.next_id < u128::MAX
    }

    /// An empty store.
    pub fn new() -> (r: GradeStore)
        ensures
            r.wf(),
            r.rows@ =~= Seq::<GradeRow>::empty(),
            r.can_alloc(),
    {
        GradeStore { rows: Vec::new(), next_id: 1 }
    }

    /// Index of the live grade row carrying this identifier, if any.
    pub fn live_grade_index(&self, id: u128) -> (r: Option<usize>)
        ensures
            match r {
                Some(i) => i < self.rows@.len() && self.rows@[i as int].id == id
                    && self.rows@[i as int].is_live(),
                None => !has_live_grade(self.rows@, id),
            },
    {
        let mut i: usize = 0;
        while i < self.rows.len()
            invariant
                i <= self.rows@.len(),
                forall|k: int|
                    0 <= k < i ==> !((#[trigger] self.rows@[k]).id == id
                        && self.rows@[k].is_live()),
            decreases self.rows@.len() - i,
        {
            if self.rows[i].id == id && self.rows[i].deleted_at.is_none() {
                return Some(i);
            }
            i += 1;
        }
        None
    }

    /// Find a live grade row by identifier. Soft-deleted rows are
    /// invisible.
    pub fn find_student_grade_by_id(&self, id: u128) -> (r: Option<&GradeRow>)
        ensures
            match r {
                Some(g) => g.id == id && g.is_live() && has_live_grade(self.rows@, id),
                None => !has_live_grade(self.rows@, id),
            },
    {
        match self.live_grade_index(id) {
            Some(i) => Some(&self.rows[i]),
            None => None,
        }
    }

    /// Register a grade record. A live record for the same (student,
    /// year, semester) triple is a conflict, and no second row is created.
    pub fn add_grades(&mut self, req: UpsertStudentGradeRequest, now: i64) -> (r: Result<
        u128,
        AppError,
    >)
        requires
            old(self).wf(),
        ensures
            final(self).wf(),
            r is Err ==> *final(self) == *old(self),
            r == Err::<u128, AppError>(AppError::Conflict) <==> grade_slot_taken(
                old(self).rows@,
                req.student_id,
                req.academic_year,
                req.semester,
            ),
            r == Err::<u128, AppError>(AppError::Storage) <==> !grade_slot_taken(
                old(self).rows@,
                req.student_id,
                req.academic_year,
                req.semester,
            ) && !old(self).can_alloc(),
            r is Ok <==> !grade_slot_taken(
                old(self).rows@,
                req.student_id,
                req.academic_year,
                req.semester,
            ) && old(self).can_alloc(),
            r is Ok ==> r == Ok::<u128, AppError>(old(self).next_id) && final(self).next_id == old(
                self,
            ).next_id + 1 && final(self).rows@ == old(self).rows@.push(
                spec_new_grade_row(old(self).next_id, req, now),
            ),
    {
        let mut i: usize = 0;
        while i < self.rows.len()
            invariant
                *self == *old(self),
                self.wf(),
                i <= self.rows@.len(),
                forall|k: int|
                    0 <= k < i ==> !((#[trigger] self.rows@[k]).is_live()
                        && self.rows@[k].student_id == req.student_id
                        && self.rows@[k].academic_year == req.academic_year
                        && self.rows@[k].semester == req.semester),
            decreases self.rows@.len() - i,
        {
            if self.rows[i].deleted_at.is_none() && self.rows[i].student_id == req.student_id
                && self.rows[i].academic_year == req.academic_year && self.rows[i].semester
                == req.semester {
                return Err(AppError::Conflict);
            }
            i += 1;
        }
        if self.next_id == u128::MAX {
            return Err(AppError::Storage);
        }
        let id = self.next_id;
        let UpsertStudentGradeRequest {
            student_id,
            academic_year,
            semester,
            exam_type,
            chinese_book,
            english_book,
            math_book,
            science_book,
            social_studies_book,
            chinese_score,
            english_score,
            math_score,
            science_score,
            social_studies_score,
            comment,
        } = req;
        self.rows.push(
            GradeRow {
                id,
                student_id,
                academic_year,
                semester,
                exam_type,
                chinese_book,
                english_book,
                math_book,
                science_book,
                social_studies_book,
                chinese_score,
                english_score,
                math_score,
                science_score,
                social_studies_score,
                comment,
                created_at: now,
                updated_at: now,
                deleted_at: None,
            },
        );
        self.next_id = id + 1;
        Ok(id)
    }

    /// Update a live grade record: year and semester are replaced, books
    /// and scores merged field by field. Returns the record joined with
    /// the student's name from the identity store.
    pub fn update_grades(
        &mut self,
        id: u128,
        req: UpsertStudentGradeRequest,
        identity: &IdentityStore,
        now: i64,
    ) -> (r: Result<StudentGradeView, AppError>)
        requires
            old(self).wf(),
        ensures
            final(self).wf(),
            final(self).next_id == old(self).next_id,
            r is Err ==> *final(self) == *old(self),
            r is Err <==> !has_live_grade(old(self).rows@, id),
            r is Err ==> r == Err::<StudentGradeView, AppError>(AppError::NotFound),
            r is Ok ==> exists|i: int|
                {
                    &&& 0 <= i < old(self).rows@.len()
                    &&& (#[trigger] old(self).rows@[i]).id == id
                    &&& old(self).rows@[i].is_live()
                    &&& final(self).rows@ == old(self).rows@.update(
                        i,
                        spec_updated_grade_row(old(self).rows@[i], req, now),
                    )
                    &&& (r matches Ok(v) ==> {
                        let u = final(self).rows@[i];
                        &&& v.id == id
                        &&& v.student_id == u.student_id
                        &&& v.academic_year == u.academic_year
                        &&& v.semester == u.semester
                        &&& v.exam_type == u.exam_type
                        &&& v.chinese_score == u.chinese_score
                        &&& v.english_score == u.english_score
                        &&& v.math_score == u.math_score
                        &&& v.science_score == u.science_score
                        &&& v.social_studies_score == u.social_studies_score
                        &&& v.comment is None
                        &&& v.updated_at == now
                        &&& joined_name(identity.members@, u.student_id, v.name@)
                    })
                },
    {
        let gi = match self.live_grade_index(id) {
            Some(i) => i,
            None => {
                return Err(AppError::NotFound);
            },
        };
        let row = &self.rows[gi];
        let mut chinese_book = clone_opt_string(&row.chinese_book);
        let mut english_book = clone_opt_string(&row.english_book);
        let mut math_book = clone_opt_string(&row.math_book);
        let mut science_book = clone_opt_string(&row.science_book);
        let mut social_studies_book = clone_opt_string(&row.social_studies_book);
        let mut chinese_score = row.chinese_score;
        let mut english_score = row.english_score;
        let mut math_score = row.math_score;
        let mut science_score = row.science_score;
        let mut social_studies_score = row.social_studies_score;
        update_optional_field(&mut chinese_book, req.chinese_book);
        update_optional_field(&mut english_book, req.english_book);
        update_optional_field(&mut math_book, req.math_book);
        update_optional_field(&mut science_book, req.science_book);
        update_optional_field(&mut social_studies_book, req.social_studies_book);
        update_optional_field(&mut chinese_score, req.chinese_score);
        update_optional_field(&mut english_score, req.english_score);
        update_optional_field(&mut math_score, req.math_score);
        update_optional_field(&mut science_score, req.science_score);
        update_optional_field(&mut social_studies_score, req.social_studies_score);
        let row = &self.rows[gi];
        let updated = GradeRow {
            id: row.id,
            student_id: row.student_id,
            academic_year: req.academic_year,
            semester: req.semester,
            exam_type: row.exam_type,
            chinese_book,
            english_book,
            math_book,
            science_book,
            social_studies_book,
            chinese_score,
            english_score,
            math_score,
            science_score,
            social_studies_score,
            comment: clone_opt_string(&row.comment),
            created_at: row.created_at,
            updated_at: now,
            deleted_at: None,
        };
        let name = match identity.member_name(updated.student_id) {
            Some(n) => n,
            None => "unknown".to_owned(),
        };
        let view = StudentGradeView {
            id: updated.id,
            student_id: updated.student_id,
            name,
            academic_year: updated.academic_year,
            semester: updated.semester,
            exam_type: updated.exam_type,
            chinese_score: updated.chinese_score,
            english_score: updated.english_score,
            math_score: updated.math_score,
            science_score: updated.science_score,
            social_studies_score: updated.social_studies_score,
            comment: None,
            updated_at: updated.updated_at,
        };
        self.rows.set(gi, updated);
        Ok(view)
    }

    /// Soft-delete a grade record: stamp the deletion and update times.
    pub fn delete_grades(&mut self, id: u128, now: i64) -> (r: Result<(), AppError>)
        requires
            old(self).wf(),
        ensures
            final(self).wf(),
            final(self).next_id == old(self).next_id,
            r is Err ==> *final(self) == *old(self),
            r is Err <==> !has_live_grade(old(self).rows@, id),
            r is Err ==> r == Err::<(), AppError>(AppError::NotFound),
            r is Ok ==> !has_live_grade(final(self).rows@, id),
            r is Ok ==> exists|i: int|
                {
                    &&& 0 <= i < old(self).rows@.len()
                    &&& (#[trigger] old(self).rows@[i]).id == id
                    &&& old(self).rows@[i].is_live()
                    &&& final(self).rows@ == old(self).rows@.update(
                        i,
                        (GradeRow {
                            updated_at: now,
                            deleted_at: Some(now),
                            ..old(self).rows@[i]
                        }),
                    )
                },
    {
        match self.live_grade_index(id) {
            Some(i) => {
                let row = &self.rows[i];
                let updated = GradeRow {
                    id: row.id,
                    student_id: row.student_id,
                    academic_year: row.academic_year,
                    semester: row.semester,
                    exam_type: row.exam_type,
                    chinese_book: clone_opt_string(&row.chinese_book),
                    english_book: clone_opt_string(&row.english_book),
                    math_book: clone_opt_string(&row.math_book),
                    science_book: clone_opt_string(&row.science_book),
                    social_studies_book: clone_opt_string(&row.social_studies_book),
                    chinese_score: row.chinese_score,
                    english_score: row.english_score,
                    math_score: row.math_score,
                    science_score: row.science_score,
                    social_studies_score: row.social_studies_score,
                    comment: clone_opt_string(&row.comment),
                    created_at: row.created_at,
                    updated_at: now,
                    deleted_at: Some(now),
                };
                self.rows.set(i, updated);
                Ok(())
            },
            None => Err(AppError::NotFound),
        }
    }

    /// List the live grade records, each joined with the student's name
    /// from the identity store, or a placeholder when the member is
    /// unknown. Soft-deleted rows never appear.
    pub fn get_grades(&self, identity: &IdentityStore) -> (r: Vec<StudentGradeView>)
        ensures
            r@.len() == live_grades(self.rows@).len(),
            forall|k: int|
                0 <= k < r@.len() ==> {
                    let g = live_grades(self.rows@)[k];
                    let v = #[trigger] r@[k];
                    &&& v.id == g.id
                    &&& v.student_id == g.student_id
                    &&& v.academic_year == g.academic_year
                    &&& v.semester == g.semester
                    &&& v.exam_type == g.exam_type
                    &&& v.chinese_score == g.chinese_score
                    &&& v.english_score == g.english_score
                    &&& v.math_score == g.math_score
                    &&& v.science_score == g.science_score
                    &&& v.social_studies_score == g.social_studies_score
                    &&& v.comment is None
                    &&& v.updated_at == g.updated_at
                    &&& joined_name(identity.members@, g.student_id, v.name@)
                },
    {
        let mut result: Vec<StudentGradeView> = Vec::new();
        let mut i: usize = 0;
        while i < self.rows.len()
            invariant
                i <= self.rows@.len(),
                result@.len() == live_grades(self.rows@.subrange(0, i as int)).len(),
                forall|k: int|
                    0 <= k < result@.len() ==> {
                        let g = live_grades(self.rows@.subrange(0, i as int))[k];
                        let v = #[trigger] result@[k];
                        &&& v.id == g.id
                        &&& v.student_id == g.student_id
                        &&& v.academic_year == g.academic_year
                        &&& v.semester == g.semester
                        &&& v.exam_type == g.exam_type
                        &&& v.chinese_score == g.chinese_score
                        &&& v.english_score == g.english_score
                        &&& v.math_score == g.math_score
                        &&& v.science_score == g.science_score
                        &&& v.social_studies_score == g.social_studies_score
                        &&& v.comment is None
                        &&& v.updated_at == g.updated_at
                        &&& joined_name(identity.members@, g.student_id, v.name@)
                    },
            decreases self.rows@.len() - i,
        {
            let ghost pre = self.rows@.subrange(0, i as int);
            let ghost elem = self.rows@[i as int];
            if self.rows[i].deleted_at.is_none() {
                let row = &self.rows[i];
                let name = match identity.member_name(row.student_id) {
                    Some(n) => n,
                    None => "unknown".to_owned(),
                };
                result.push(
                    StudentGradeView {
                        id: row.id,
                        student_id: row.student_id,
                        name,
                        academic_year: row.academic_year,
                        semester: row.semester,
                        exam_type: row.exam_type,
                        chinese_score: row.chinese_score,
                        english_score: row.english_score,
                        math_score: row.math_score,
                        science_score: row.science_score,
                        social_studies_score: row.social_studies_score,
                        comment: None,
                        updated_at: row.updated_at,
                    },
                );
            }
            proof {
                pre.lemma_filter_push(elem, grade_live_pred());
                assert(self.rows@.subrange(0, i as int + 1) =~= pre.push(elem));
            }
            i += 1;
        }
        proof {
            assert(self.rows@.subrange(0, self.rows@.len() as int) =~= self.rows@);
        }
        result
    }
}

/// The liveness predicate on grade rows.
pub open spec fn grade_live_pred() -> spec_fn(GradeRow) -> bool {
    |g: GradeRow| g.is_live()
}

/// The live grade rows, in storage order.
pub open spec fn live_grades(s: Seq<GradeRow>) -> Seq<GradeRow> {
    s.filter(grade_live_pred())
}

} // verus!
