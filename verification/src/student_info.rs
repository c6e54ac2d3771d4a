//! Per-student, per-academic-year info records with a fixed pair of
//! per-semester exam records, upserted together. Exam records are merged
//! by (semester, exam type): matching children are overwritten, new ones
//! inserted, and children absent from the payload are left untouched —
//! deliberately unlike the attendance engine, which replaces wholesale.

use vstd::pervasive::VecAdditionalExecFns;
use vstd::prelude::*;

use crate::identity::{joined_name, IdentityStore};
use crate::member::clone_opt_string;
use crate::response::AppError;

verus! {

/// The per-year info fields of a student.
#[derive(Clone, Debug)]
pub struct StudentInfoDto {
    pub academic_year: i16,
    pub chinese_book: Option<String>,
    pub english_book: Option<String>,
    pub math_book: Option<String>,
    pub science_book: Option<String>,
    pub social_studies_book: Option<String>,
    pub comment: Option<String>,
}

impl StudentInfoDto {
    /// Copy the payload, field for field.
    pub fn duplicate(&self) -> (r: StudentInfoDto)
        ensures
            r == *self,
    {
        StudentInfoDto {
            academic_year: self.academic_year,
            chinese_book: clone_opt_string(&self.chinese_book),
            english_book: clone_opt_string(&self.english_book),
            math_book: clone_opt_string(&self.math_book),
            science_book: clone_opt_string(&self.science_book),
            social_studies_book: clone_opt_string(&self.social_studies_book),
            comment: clone_opt_string(&self.comment),
        }
    }
}

/// One exam record: per-semester, per-exam-type scores.
#[derive(Clone, Copy, Debug, PartialEq)]
pub struct StudentExamDto {
    pub semester: i16,
    pub exam_type: i16,
    pub chinese_score: Option<i16>,
    pub english_score: Option<i16>,
    pub math_score: Option<i16>,
    pub science_score: Option<i16>,
    pub social_studies_score: Option<i16>,
}

/// Payload for upserting a student's year info together with its fixed
/// pair of exam records.
pub struct UpsertStudentInfoRequest {
    pub info_dto: StudentInfoDto,
    pub exams_dto: [StudentExamDto; 2],
}

/// A stored info row.
pub struct InfoRow {
    pub id: u128,
    pub student_id: u128,
    pub info: StudentInfoDto,
    pub created_at: i64,
    pub updated_at: i64,
}

/// A stored exam row, owned by its info row.
#[derive(Clone, Copy, Debug)]
pub struct ExamRow {
    pub info_id: u128,
    pub semester: i16,
    pub exam_type: i16,
    pub chinese_score: Option<i16>,
    pub english_score: Option<i16>,
    pub math_score: Option<i16>,
    pub science_score: Option<i16>,
    pub social_studies_score: Option<i16>,
    pub created_at: i64,
    pub updated_at: i64,
}

/// Read shape of an info row: the student's name, the info fields, and
/// the exam records of the row.
pub struct StudentInfoView {
    pub id: u128,
    pub name: String,
    pub info_dto: StudentInfoDto,
    pub exams_dto: Vec<StudentExamDto>,
}

/// Some info row covers this (student, academic year) pair.
pub open spec fn has_info(s: Seq<InfoRow>, student_id: u128, year: i16) -> bool {
    exists|i: int|
        0 <= i < s.len() && (#[trigger] s[i]).student_id == student_id && s[i].info.academic_year
            == year
}

/// Some info row belongs to this student.
pub open spec fn has_student_info(s: Seq<InfoRow>, student_id: u128) -> bool {
    exists|i: int| 0 <= i < s.len() && (#[trigger] s[i]).student_id == student_id
}

/// An exam row is the child of this info row for this payload entry's
/// (semester, exam type) slot.
pub open spec fn exam_match(e: ExamRow, info_id: u128, d: StudentExamDto) -> bool {
    e.info_id == info_id && e.semester == d.semester && e.exam_type == d.exam_type
}

/// Some exam row fills this slot.
pub open spec fn has_exam_match(s: Seq<ExamRow>, info_id: u128, d: StudentExamDto) -> bool {
    exists|i: int| 0 <= i < s.len() && exam_match(#[trigger] s[i], info_id, d)
}

/// Index `m` holds the first exam row filling this slot.
pub open spec fn is_first_exam_match(s: Seq<ExamRow>, info_id: u128, d: StudentExamDto, m: int) -> bool {
    &&& 0 <= m < s.len()
    &&& exam_match(s[m], info_id, d)
    &&& forall|k: int| 0 <= k < m ==> !exam_match(#[trigger] s[k], info_id, d)
}

/// The exam row a fresh insert produces.
pub open spec fn spec_new_exam_row(info_id: u128, d: StudentExamDto, now: i64) -> ExamRow {
    ExamRow {
        info_id,
        semester: d.semester,
        exam_type: d.exam_type,
        chinese_score: d.chinese_score,
        english_score: d.english_score,
        math_score: d.math_score,
        science_score: d.science_score,
        social_studies_score: d.social_studies_score,
        created_at: now,
        updated_at: now,
    }
}

/// The exam row an overwrite produces: the slot and creation time kept,
/// the scores replaced, the update time stamped.
pub open spec fn spec_updated_exam_row(e: ExamRow, d: StudentExamDto, now: i64) -> ExamRow {
    ExamRow {
        info_id: e.info_id,
        semester: e.semester,
        exam_type: e.exam_type,
        chinese_score: d.chinese_score,
        english_score: d.english_score,
        math_score: d.math_score,
        science_score: d.science_score,
        social_studies_score: d.social_studies_score,
        created_at: e.created_at,
        updated_at: now,
    }
}

/// How the exam table changes when one payload entry is applied to an
/// info row: the first row filling the entry's slot is overwritten, or a
/// fresh row is appended when none fills it.
pub open spec fn exam_applied(
    pre: Seq<ExamRow>,
    post: Seq<ExamRow>,
    info_id: u128,
    d: StudentExamDto,
    now: i64,
) -> bool {
    if has_exam_match(pre, info_id, d) {
        exists|m: int|
            is_first_exam_match(pre, info_id, d, m) && post == pre.update(
                m,
                spec_updated_exam_row(pre[m], d, now),
            )
    } else {
        post == pre.push(spec_new_exam_row(info_id, d, now))
    }
}

/// Applying a payload entry never touches an exam row that does not fill
/// the entry's slot: children absent from the payload survive unchanged.
pub proof fn lemma_exam_apply_preserves_unmatched(
    pre: Seq<ExamRow>,
    post: Seq<ExamRow>,
    info_id: u128,
    d: StudentExamDto,
    now: i64,
    j: int,
)
    requires
        exam_applied(pre, post, info_id, d, now),
        0 <= j < pre.len(),
        !exam_match(pre[j], info_id, d),
    ensures
        post.len() >= pre.len(),
        post[j] == pre[j],
{
}

/// The upsert applies its two payload entries in order; an exam row whose
/// slot neither entry names is left exactly as it was.
pub proof fn lemma_upsert_preserves_unmatched_exams(
    pre: Seq<ExamRow>,
    mid: Seq<ExamRow>,
    post: Seq<ExamRow>,
    info_id: u128,
    d0: StudentExamDto,
    d1: StudentExamDto,
    now: i64,
    j: int,
)
    requires
        exam_applied(pre, mid, info_id, d0, now),
        exam_applied(mid, post, info_id, d1, now),
        0 <= j < pre.len(),
        !exam_match(pre[j], info_id, d0),
        !exam_match(pre[j], info_id, d1),
    ensures
        post.len() >= pre.len(),
        post[j] == pre[j],
{
    lemma_exam_apply_preserves_unmatched(pre, mid, info_id, d0, now, j);
    lemma_exam_apply_preserves_unmatched(mid, post, info_id, d1, now, j);
}

/// Filtering keeps every property that holds of each ordered pair of a
/// sequence's elements.
pub proof fn lemma_filter_ordered_pairs<A>(
    s: Seq<A>,
    pred: spec_fn(A) -> bool,
    rel: spec_fn(A, A) -> bool,
)
    requires
        forall|i: int, j: int|
            #![trigger s[i], s[j]]
            0 <= i < j < s.len() ==> rel(s[i], s[j]),
    ensures
        forall|i: int, j: int|
            #![trigger s.filter(pred)[i], s.filter(pred)[j]]
            0 <= i < j < s.filter(pred).len() ==> rel(s.filter(pred)[i], s.filter(pred)[j]),
    decreases s.len(),
{
    let f = s.filter(pred);
    if s.len() == 0 {
        assert(f =~= Seq::<A>::empty());
    } else {
        let s0 = s.drop_last();
        let last = s.last();
        assert(s =~= s0.push(last));
        lemma_filter_ordered_pairs(s0, pred, rel);
        s0.lemma_filter_push(last, pred);
        let f0 = s0.filter(pred);
        if pred(last) {
            assert(f == f0.push(last));
            assert forall|i: int| 0 <= i < f0.len() implies rel(f0[i], last) by {
                assert(f0.contains(f0[i]));
                s0.lemma_filter_contains_rev(pred, f0[i]);
                let x = s0.lemma_contains_to_index(f0[i]);
                assert(rel(s[x], s[s.len() - 1]));
            }
            assert forall|i: int, j: int| 0 <= i < j < f.len() implies rel(f[i], f[j]) by {
                if j < f0.len() {
                    assert(rel(f0[i], f0[j]));
                } else {
                    assert(f[j] == last);
                    assert(rel(f0[i], last));
                }
            }
        } else {
            assert(f == f0);
        }
    }
}

/// Every element of a filtered sequence satisfies a property that every
/// element of the unfiltered sequence satisfies.
pub proof fn lemma_filter_keeps_all<A>(s: Seq<A>, pred: spec_fn(A) -> bool, p: spec_fn(A) -> bool)
    requires
        forall|i: int| 0 <= i < s.len() ==> p(#[trigger] s[i]),
    ensures
        forall|i: int| 0 <= i < s.filter(pred).len() ==> p(#[trigger] s.filter(pred)[i]),
{
    let f = s.filter(pred);
    assert forall|i: int| 0 <= i < f.len() implies p(f[i]) by {
        assert(f.contains(f[i]));
        s.lemma_filter_contains_rev(pred, f[i]);
        let x = s.lemma_contains_to_index(f[i]);
        assert(p(s[x]));
    }
}

/// The info table and exam table, with the info identifier allocator.
pub struct StudentInfoStore {
    pub infos: Vec<InfoRow>,
    pub exams: Vec<ExamRow>,
    pub next_id: u128,
}

impl StudentInfoStore {
    /// Info identifiers are unique and below the allocator mark, and
    /// every exam row's owner identifier is below it too — so a freshly
    /// allocated info row starts with no children at all.
    pub open spec fn wf(self) -> bool {
        &&& (forall|i: int, j: int|
            0 <= i < j < self.infos@.len() ==> (#[trigger] self.infos@[i]).id != (
            #[trigger] self.infos@[j]).id)
        &&& (forall|i: int|
            0 <= i < self.infos@.len() ==> (#[trigger] self.infos@[i]).id < self.next_id)
        &&& (forall|i: int|
            0 <= i < self.exams@.len() ==> (#[trigger] self.exams@[i]).info_id < self.next_id)
    }

    /// A fresh identifier can still be allocated.
    pub open spec fn can_alloc(self) -> bool {
        self.next_id < u128::MAX
    }

    /// An empty store.
    pub fn new() -> (r: StudentInfoStore)
        ensures
            r.wf(),
            r.infos@ =~= Seq::<InfoRow>::empty(),
            r.exams@ =~= Seq::<ExamRow>::empty(),
            r.can_alloc(),
    {
        StudentInfoStore { infos: Vec::new(), exams: Vec::new(), next_id: 1 }
    }

    /// Index of the info row covering this (student, academic year) pair.
    pub fn info_index(&self, student_id: u128, year: i16) -> (r: Option<usize>)
        ensures
            match r {
                Some(i) => i < self.infos@.len() && self.infos@[i as int].student_id == student_id
                    && self.infos@[i as int].info.academic_year == year,
                None => !has_info(self.infos@, student_id, year),
            },
    {
        let mut i: usize = 0;
        while i < self.infos.len()
            invariant
                i <= self.infos@.len(),
                forall|k: int|
                    0 <= k < i ==> !((#[trigger] self.infos@[k]).student_id == student_id
                        && self.infos@[k].info.academic_year == year),
            decreases self.infos@.len() - i,
        {
            if self.infos[i].student_id == student_id && self.infos[i].info.academic_year == year {
                return Some(i);
            }
            i += 1;
        }
        None
    }

    /// Apply one payload entry to an info row's exam children: overwrite
    /// the first row filling the entry's slot, or append a fresh row.
    fn apply_exam(&mut self, info_id: u128, d: StudentExamDto, now: i64)
        ensures
            final(self).infos == old(self).infos,
            final(self).next_id == old(self).next_id,
            exam_applied(old(self).exams@, final(self).exams@, info_id, d, now),
            forall|k: int|
                0 <= k < final(self).exams@.len() ==> ((#[trigger] final(self).exams@[k]).info_id
                    == info_id || (k < old(self).exams@.len() && final(self).exams@[k] == old(
                    self,
                ).exams@[k])),
    {
        let mut i: usize = 0;
        while i < self.exams.len()
            invariant
                *self == *old(self),
                i <= self.exams@.len(),
                forall|k: int| 0 <= k < i ==> !exam_match(#[trigger] self.exams@[k], info_id, d),
            decreases self.exams@.len() - i,
        {
            let e = self.exams[i];
            if e.info_id == info_id && e.semester == d.semester && e.exam_type == d.exam_type {
                let updated = ExamRow {
                    info_id: e.info_id,
                    semester: e.semester,
                    exam_type: e.exam_type,
                    chinese_score: d.chinese_score,
                    english_score: d.english_score,
                    math_score: d.math_score,
                    science_score: d.science_score,
                    social_studies_score: d.social_studies_score,
                    created_at: e.created_at,
                    updated_at: now,
                };
                self.exams.set(i, updated);
                proof {
                    let pre_exams = old(self).exams@;
                    assert(exam_match(pre_exams[i as int], info_id, d));
                    assert(is_first_exam_match(pre_exams, info_id, d, i as int));
                    assert(self.exams@ == pre_exams.update(
                        i as int,
                        spec_updated_exam_row(pre_exams[i as int], d, now),
                    ));
                }
                return ;
            }
            i += 1;
        }
        self.exams.push(
            ExamRow {
                info_id,
                semester: d.semester,
                exam_type: d.exam_type,
                chinese_score: d.chinese_score,
                english_score: d.english_score,
                math_score: d.math_score,
                science_score: d.science_score,
                social_studies_score: d.social_studies_score,
                created_at: now,
                updated_at: now,
            },
        );
    }

    /// Insert a fresh info row and both supplied exam records as its
    /// children, as one unit. A row already covering the (student,
    /// academic year) pair is a conflict, so at most one row covers a
    /// pair and updates address it unambiguously.
    pub fn add_student_infos(
        &mut self,
        student_id: u128,
        req: UpsertStudentInfoRequest,
        now: i64,
    ) -> (r: Result<u128, AppError>)
        requires
            old(self).wf(),
        ensures
            final(self).wf(),
            r is Err ==> *final(self) == *old(self),
            r == Err::<u128, AppError>(AppError::Conflict) <==> has_info(
                old(self).infos@,
                student_id,
                req.info_dto.academic_year,
            ),
            r == Err::<u128, AppError>(AppError::Storage) <==> !has_info(
                old(self).infos@,
                student_id,
                req.info_dto.academic_year,
            ) && !old(self).can_alloc(),
            r is Ok <==> !has_info(old(self).infos@, student_id, req.info_dto.academic_year) && old(
                self,
            ).can_alloc(),
            r is Ok ==> {
                &&& r == Ok::<u128, AppError>(old(self).next_id)
                &&& final(self).next_id == old(self).next_id + 1
                &&& final(self).infos@ == old(self).infos@.push(
                    (InfoRow {
                        id: old(self).next_id,
                        student_id,
                        info: req.info_dto,
                        created_at: now,
                        updated_at: now,
                    }),
                )
                &&& final(self).exams@ == old(self).exams@.push(
                    spec_new_exam_row(old(self).next_id, req.exams_dto@[0], now),
                ).push(spec_new_exam_row(old(self).next_id, req.exams_dto@[1], now))
                &&& exams_of(final(self).exams@, old(self).next_id) == seq![
                    spec_new_exam_row(old(self).next_id, req.exams_dto@[0], now),
                    spec_new_exam_row(old(self).next_id, req.exams_dto@[1], now),
                ]
            },
    {
        if self.info_index(student_id, req.info_dto.academic_year).is_some() {
            return Err(AppError::Conflict);
        }
        if self.next_id == u128::MAX {
            return Err(AppError::Storage);
        }
        let id = self.next_id;
        let UpsertStudentInfoRequest { info_dto, exams_dto } = req;
        let e0 = exams_dto[0];
        let e1 = exams_dto[1];
        self.infos.push(
            InfoRow { id, student_id, info: info_dto, created_at: now, updated_at: now },
        );
        self.next_id = id + 1;
        self.exams.push(
            ExamRow {
                info_id: id,
                semester: e0.semester,
                exam_type: e0.exam_type,
                chinese_score: e0.chinese_score,
                english_score: e0.english_score,
                math_score: e0.math_score,
                science_score: e0.science_score,
                social_studies_score: e0.social_studies_score,
                created_at: now,
                updated_at: now,
            },
        );
        self.exams.push(
            ExamRow {
                info_id: id,
                semester: e1.semester,
                exam_type: e1.exam_type,
                chinese_score: e1.chinese_score,
                english_score: e1.english_score,
                math_score: e1.math_score,
                science_score: e1.science_score,
                social_studies_score: e1.social_studies_score,
                created_at: now,
                updated_at: now,
            },
        );
        proof {
            let added = seq![
                spec_new_exam_row(id, req.exams_dto@[0], now),
                spec_new_exam_row(id, req.exams_dto@[1], now),
            ];
            assert(forall|k: int|
                0 <= k < old(self).exams@.len() ==> !exam_of_pred(id)(
                    #[trigger] old(self).exams@[k],
                ));
            old(self).exams@.lemma_all_neg_filter_empty(exam_of_pred(id));
            assert(self.exams@ =~= old(self).exams@ + added);
            Seq::filter_distributes_over_add(old(self).exams@, added, exam_of_pred(id));
            assert(forall|k: int| 0 <= k < added.len() ==> exam_of_pred(id)(#[trigger] added[k]));
            crate::attendance::lemma_filter_all_identity(added, exam_of_pred(id));
            assert(exams_of(self.exams@, id) =~= added);
        }
        Ok(id)
    }

    /// Update the info row covering (student, payload year): overwrite
    /// its fields, then merge each supplied exam record into its
    /// (semester, exam type) slot — children the payload does not name
    /// are left untouched. All of it one unit; fails with NotFound when
    /// no row covers the pair. Returns the row joined with the student's
    /// name and echoing the submitted exam records.
    pub fn update_student_infos(
        &mut self,
        student_id: u128,
        req: UpsertStudentInfoRequest,
        identity: &IdentityStore,
        now: i64,
    ) -> (r: Result<StudentInfoView, AppError>)
        requires
            old(self).wf(),
        ensures
            final(self).wf(),
            final(self).next_id == old(self).next_id,
            r is Err ==> *final(self) == *old(self),
            r is Err <==> !has_info(old(self).infos@, student_id, req.info_dto.academic_year),
            r is Err ==> r == Err::<StudentInfoView, AppError>(AppError::NotFound),
            r is Ok ==> exists|i: int|
                {
                    &&& 0 <= i < old(self).infos@.len()
                    &&& (#[trigger] old(self).infos@[i]).student_id == student_id
                    &&& old(self).infos@[i].info.academic_year == req.info_dto.academic_year
                    &&& final(self).infos@ == old(self).infos@.update(
                        i,
                        (InfoRow {
                            id: old(self).infos@[i].id,
                            student_id,
                            info: req.info_dto,
                            created_at: old(self).infos@[i].created_at,
                            updated_at: now,
                        }),
                    )
                    &&& exists|mid_exams: Seq<ExamRow>|
                        exam_applied(
                            old(self).exams@,
                            mid_exams,
                            old(self).infos@[i].id,
                            req.exams_dto@[0],
                            now,
                        ) && exam_applied(
                            mid_exams,
                            final(self).exams@,
                            old(self).infos@[i].id,
                            req.exams_dto@[1],
                            now,
                        )
                    &&& (r matches Ok(v) ==> {
                        &&& v.id == old(self).infos@[i].id
                        &&& v.info_dto == req.info_dto
                        &&& v.exams_dto@.len() == 2
                        &&& v.exams_dto@[0] == req.exams_dto@[0]
                        &&& v.exams_dto@[1] == req.exams_dto@[1]
                        &&& joined_name(identity.members@, student_id, v.name@)
                    })
                },
    {
        let ii = match self.info_index(student_id, req.info_dto.academic_year) {
            Some(i) => i,
            None => {
                return Err(AppError::NotFound);
            },
        };
        let UpsertStudentInfoRequest { info_dto, exams_dto } = req;
        let e0 = exams_dto[0];
        let e1 = exams_dto[1];
        let view_info = info_dto.duplicate();
        let info_id = self.infos[ii].id;
        let created = self.infos[ii].created_at;
        let updated = InfoRow {
            id: info_id,
            student_id,
            info: info_dto,
            created_at: created,
            updated_at: now,
        };
        self.infos.set(ii, updated);
        self.apply_exam(info_id, e0, now);
        let ghost mid_exams = self.exams@;
        self.apply_exam(info_id, e1, now);
        proof {
            assert(exam_applied(old(self).exams@, mid_exams, info_id, req.exams_dto@[0], now));
            assert(exam_applied(mid_exams, self.exams@, info_id, req.exams_dto@[1], now));
        }
        let name = match identity.member_name(student_id) {
            Some(n) => n,
            None => "unknown".to_owned(),
        };
        let mut exams_echo: Vec<StudentExamDto> = Vec::new();
        exams_echo.push(e0);
        exams_echo.push(e1);
        Ok(StudentInfoView { id: info_id, name, info_dto: view_info, exams_dto: exams_echo })
    }

    /// Remove every info row of this student, and every exam record owned
    /// by one of them, as one unit. Fails with NotFound when the student
    /// has no info row.
    pub fn delete_student_infos(&mut self, student_id: u128) -> (r: Result<(), AppError>)
        requires
            old(self).wf(),
        ensures
            final(self).wf(),
            final(self).next_id == old(self).next_id,
            r is Err ==> *final(self) == *old(self),
            r is Err <==> !has_student_info(old(self).infos@, student_id),
            r is Err ==> r == Err::<(), AppError>(AppError::NotFound),
            r is Ok ==> final(self).infos@ == old(self).infos@.filter(
                info_survives_pred(student_id),
            ),
            r is Ok ==> final(self).exams@ == old(self).exams@.filter(
                exam_survives_pred(old(self).infos@, student_id),
            ),
    {
        if self.find_student_info_index(student_id).is_none() {
            return Err(AppError::NotFound);
        }
        let ghost infos0 = self.infos@;
        let mut kept_exams: Vec<ExamRow> = Vec::new();
        let mut i: usize = 0;
        while i < self.exams.len()
            invariant
                *self == *old(self),
                infos0 == self.infos@,
                i <= self.exams@.len(),
                kept_exams@ == self.exams@.subrange(0, i as int).filter(
                    exam_survives_pred(infos0, student_id),
                ),
            decreases self.exams@.len() - i,
        {
            let ghost pre = self.exams@.subrange(0, i as int);
            let ghost elem = self.exams@[i as int];
            let owner_deleted = self.info_owned_by(student_id, self.exams[i].info_id);
            if !owner_deleted {
                kept_exams.push(self.exams[i]);
            }
            proof {
                pre.lemma_filter_push(elem, exam_survives_pred(infos0, student_id));
                assert(self.exams@.subrange(0, i as int + 1) =~= pre.push(elem));
            }
            i += 1;
        }
        proof {
            assert(self.exams@.subrange(0, self.exams@.len() as int) =~= self.exams@);
        }
        let mut kept_infos: Vec<InfoRow> = Vec::new();
        let mut j: usize = 0;
        while j < self.infos.len()
            invariant
                *self == *old(self),
                infos0 == self.infos@,
                j <= self.infos@.len(),
                kept_infos@ == self.infos@.subrange(0, j as int).filter(
                    info_survives_pred(student_id),
                ),
            decreases self.infos@.len() - j,
        {
            let ghost pre = self.infos@.subrange(0, j as int);
            let ghost elem = self.infos@[j as int];
            if !(self.infos[j].student_id == student_id) {
                let row = &self.infos[j];
                kept_infos.push(
                    InfoRow {
                        id: row.id,
                        student_id: row.student_id,
                        info: row.info.duplicate(),
                        created_at: row.created_at,
                        updated_at: row.updated_at,
                    },
                );
            }
            proof {
                pre.lemma_filter_push(elem, info_survives_pred(student_id));
                assert(self.infos@.subrange(0, j as int + 1) =~= pre.push(elem));
            }
            j += 1;
        }
        proof {
            assert(self.infos@.subrange(0, self.infos@.len() as int) =~= self.infos@);
            lemma_filter_ordered_pairs(
                infos0,
                info_survives_pred(student_id),
                |a: InfoRow, b: InfoRow| a.id != b.id,
            );
            lemma_filter_keeps_all(
                infos0,
                info_survives_pred(student_id),
                |a: InfoRow| a.id < old(self).next_id,
            );
            lemma_filter_keeps_all(
                old(self).exams@,
                exam_survives_pred(infos0, student_id),
                |e: ExamRow| e.info_id < old(self).next_id,
            );
        }
        self.infos = kept_infos;
        self.exams = kept_exams;
        Ok(())
    }

    /// Index of some info row of this student.
    pub fn find_student_info_index(&self, student_id: u128) -> (r: Option<usize>)
        ensures
            match r {
                Some(i) => i < self.infos@.len() && self.infos@[i as int].student_id == student_id,
                None => !has_student_info(self.infos@, student_id),
            },
    {
        let mut i: usize = 0;
        while i < self.infos.len()
            invariant
                i <= self.infos@.len(),
                forall|k: int| 0 <= k < i ==> (#[trigger] self.infos@[k]).student_id != student_id,
            decreases self.infos@.len() - i,
        {
            if self.infos[i].student_id == student_id {
                return Some(i);
            }
            i += 1;
        }
        None
    }

    /// Whether some info row of this student carries this identifier.
    fn info_owned_by(&self, student_id: u128, info_id: u128) -> (r: bool)
        ensures
            r == exists|i: int|
                0 <= i < self.infos@.len() && (#[trigger] self.infos@[i]).student_id == student_id
                    && self.infos@[i].id == info_id,
    {
        let mut i: usize = 0;
        while i < self.infos.len()
            invariant
                i <= self.infos@.len(),
                forall|k: int|
                    0 <= k < i ==> !((#[trigger] self.infos@[k]).student_id == student_id
                        && self.infos@[k].id == info_id),
            decreases self.infos@.len() - i,
        {
            if self.infos[i].student_id == student_id && self.infos[i].id == info_id {
                return true;
            }
            i += 1;
        }
        false
    }

    /// List every info row, each with the student's name from the
    /// identity store (or a placeholder) and exactly its own exam
    /// records, in storage order.
    pub fn get_student_infos(&self, identity: &IdentityStore) -> (r: Vec<StudentInfoView>)
        ensures
            r@.len() == self.infos@.len(),
            forall|k: int|
                0 <= k < r@.len() ==> {
                    let row = self.infos@[k];
                    let v = #[trigger] r@[k];
                    &&& v.id == row.id
                    &&& v.info_dto == row.info
                    &&& v.exams_dto@.len() == exams_of(self.exams@, row.id).len()
                    &&& forall|e: int|
                        0 <= e < v.exams_dto@.len() ==> (#[trigger] v.exams_dto@[e])
                            == spec_exam_dto(exams_of(self.exams@, row.id)[e])
                    &&& joined_name(identity.members@, row.student_id, v.name@)
                },
    {
        let mut result: Vec<StudentInfoView> = Vec::new();
        let mut i: usize = 0;
        while i < self.infos.len()
            invariant
                i <= self.infos@.len(),
                result@.len() == i,
                forall|k: int|
                    0 <= k < result@.len() ==> {
                        let row = self.infos@[k];
                        let v = #[trigger] result@[k];
                        &&& v.id == row.id
                        &&& v.info_dto == row.info
                        &&& v.exams_dto@.len() == exams_of(self.exams@, row.id).len()
                        &&& forall|e: int|
                            0 <= e < v.exams_dto@.len() ==> (#[trigger] v.exams_dto@[e])
                                == spec_exam_dto(exams_of(self.exams@, row.id)[e])
                        &&& joined_name(identity.members@, row.student_id, v.name@)
                    },
            decreases self.infos@.len() - i,
        {
            let row_id = self.infos[i].id;
            let mut exams: Vec<StudentExamDto> = Vec::new();
            let mut e: usize = 0;
            while e < self.exams.len()
                invariant
                    e <= self.exams@.len(),
                    exams@.len() == exams_of(self.exams@.subrange(0, e as int), row_id).len(),
                    forall|x: int|
                        0 <= x < exams@.len() ==> (#[trigger] exams@[x]) == spec_exam_dto(
                            exams_of(self.exams@.subrange(0, e as int), row_id)[x],
                        ),
                decreases self.exams@.len() - e,
            {
                let ghost pre = self.exams@.subrange(0, e as int);
                let ghost elem = self.exams@[e as int];
                if self.exams[e].info_id == row_id {
                    let x = self.exams[e];
                    exams.push(
                        StudentExamDto {
                            semester: x.semester,
                            exam_type: x.exam_type,
                            chinese_score: x.chinese_score,
                            english_score: x.english_score,
                            math_score: x.math_score,
                            science_score: x.science_score,
                            social_studies_score: x.social_studies_score,
                        },
                    );
                }
                proof {
                    pre.lemma_filter_push(elem, exam_of_pred(row_id));
                    assert(self.exams@.subrange(0, e as int + 1) =~= pre.push(elem));
                }
                e += 1;
            }
            proof {
                assert(self.exams@.subrange(0, self.exams@.len() as int) =~= self.exams@);
            }
            let name = match identity.member_name(self.infos[i].student_id) {
                Some(n) => n,
                None => "unknown".to_owned(),
            };
            result.push(
                StudentInfoView {
                    id: row_id,
                    name,
                    info_dto: self.infos[i].info.duplicate(),
                    exams_dto: exams,
                },
            );
            i += 1;
        }
        result
    }
}

/// The predicate selecting the exam rows of this info row.
pub open spec fn exam_of_pred(info_id: u128) -> spec_fn(ExamRow) -> bool {
    |e: ExamRow| e.info_id == info_id
}

/// The exam rows of this info row, in storage order.
pub open spec fn exams_of(s: Seq<ExamRow>, info_id: u128) -> Seq<ExamRow> {
    s.filter(exam_of_pred(info_id))
}

/// The payload entry an exam row is read back as.
pub open spec fn spec_exam_dto(e: ExamRow) -> StudentExamDto {
    StudentExamDto {
        semester: e.semester,
        exam_type: e.exam_type,
        chinese_score: e.chinese_score,
        english_score: e.english_score,
        math_score: e.math_score,
        science_score: e.science_score,
        social_studies_score: e.social_studies_score,
    }
}

/// The predicate keeping the info rows of every other student.
pub open spec fn info_survives_pred(student_id: u128) -> spec_fn(InfoRow) -> bool {
    |r: InfoRow| r.student_id != student_id
}

/// The predicate keeping the exam rows whose owner is not an info row of
/// this student.
pub open spec fn exam_survives_pred(infos: Seq<InfoRow>, student_id: u128) -> spec_fn(
    ExamRow,
) -> bool {
    |e: ExamRow|
        !exists|i: int|
            0 <= i < infos.len() && (#[trigger] infos[i]).student_id == student_id && infos[i].id
                == e.info_id
}

} // verus!
