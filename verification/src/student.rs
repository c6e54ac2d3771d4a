//! Student role attachments: rows keyed by the owning member's identifier,
//! their request/view shapes, and the operations that maintain them.

use vstd::pervasive::VecAdditionalExecFns;
use vstd::prelude::*;

use crate::identity::{
    has_live_student, has_member_row, lemma_member_upsert_preserves_ids,
    lemma_role_member_ids_bounded, lemma_upserted_member_present, live_students, member_upserted,
    resolves_live, student_live_pred, upserted_member_id, IdentityStore,
};
use crate::member::{clone_opt_string, valid_member_dto, MemberDto, MemberRow};
use crate::response::AppError;

verus! {

/// The schooling fields a student attachment adds to its member.
#[derive(Clone, Debug)]
pub struct StudentDto {
    pub school_name: Option<String>,
    pub grade: Option<i16>,
    pub is_pg: Option<bool>,
    pub description: Option<String>,
    pub family_type: Option<String>,
    pub family_members: Option<i16>,
    pub breadwinner: Option<String>,
    pub occupation: Option<String>,
    pub subsidy: Option<String>,
    pub home_ownership: Option<i16>,
    pub class_joined_at: i64,
}

impl StudentDto {
    /// Copy the payload, field for field.
    pub fn duplicate(&self) -> (r: StudentDto)
        ensures
            r == *self,
    {
        StudentDto {
            school_name: clone_opt_string(&self.school_name),
            grade: self.grade,
            is_pg: self.is_pg,
            description: clone_opt_string(&self.description),
            family_type: clone_opt_string(&self.family_type),
            family_members: self.family_members,
            breadwinner: clone_opt_string(&self.breadwinner),
            occupation: clone_opt_string(&self.occupation),
            subsidy: clone_opt_string(&self.subsidy),
            home_ownership: self.home_ownership,
            class_joined_at: self.class_joined_at,
        }
    }
}

/// A stored student row. It shares its key with the owning member.
#[derive(Clone, Debug)]
pub struct StudentRow {
    pub member_id: u128,
    pub info: StudentDto,
    pub created_at: i64,
    pub updated_at: i64,
    pub deleted_at: Option<i64>,
}

impl StudentRow {
    /// A row is live until it is soft-deleted.
    pub open spec fn is_live(self) -> bool {
        self.deleted_at is None
    }
}

/// Payload for attaching a student role, optionally to an existing member.
pub struct AddStudentRequest {
    pub member_id: Option<u128>,
    pub member_dto: MemberDto,
    pub student_dto: StudentDto,
}

/// Payload for updating a student and its member's base fields.
pub struct UpdateStudentRequest {
    pub member_dto: MemberDto,
    pub student_dto: StudentDto,
}

/// Read shape of a student joined with its member's base fields.
pub struct StudentView {
    pub member_id: u128,
    pub member_dto: MemberDto,
    pub student_dto: StudentDto,
}

/// Join a student row with its member row into the read shape.
pub fn student_and_member_to_view(student: &StudentRow, member: &MemberRow) -> (r: StudentView)
    ensures
        r == spec_student_view(*student, *member),
{
    StudentView {
        member_id: member.id,
        member_dto: member.info.duplicate(),
        student_dto: student.info.duplicate(),
    }
}

/// The read shape a student row and its member row join into.
pub open spec fn spec_student_view(student: StudentRow, member: MemberRow) -> StudentView {
    StudentView { member_id: member.id, member_dto: member.info, student_dto: student.info }
}

/// The view is the join of the student row with the member row, in this
/// member table, that carries the student's member identifier.
pub open spec fn student_view_matches(v: StudentView, t: StudentRow, members: Seq<MemberRow>) -> bool {
    exists|j: int|
        0 <= j < members.len() && (#[trigger] members[j]).id == t.member_id && v
            == spec_student_view(t, members[j])
}

/// Attaching a student to a member key that resolves to a live member who
/// already holds a live student attachment is a conflict.
pub open spec fn student_role_conflict(s: IdentityStore, key: Option<u128>) -> bool {
    resolves_live(s.members@, key) && has_live_student(s.students@, key.unwrap())
}

/// The new student row attached under `mid`.
pub open spec fn new_student_row(mid: u128, dto: StudentDto, now: i64) -> StudentRow {
    StudentRow { member_id: mid, info: dto, created_at: now, updated_at: now, deleted_at: None }
}

impl IdentityStore {
    /// Index of the live student row attached to this member identifier.
    pub fn live_student_index(&self, id: u128) -> (r: Option<usize>)
        ensures
            match r {
                Some(i) => i < self.students@.len() && self.students@[i as int].member_id == id
                    && self.students@[i as int].is_live(),
                None => !has_live_student(self.students@, id),
            },
    {
        let mut i: usize = 0;
        while i < self.students.len()
            invariant
                i <= self.students@.len(),
                forall|k: int|
                    0 <= k < i ==> !((#[trigger] self.students@[k]).member_id == id
                        && self.students@[k].is_live()),
            decreases self.students@.len() - i,
        {
            if self.students[i].member_id == id && self.students[i].deleted_at.is_none() {
                return Some(i);
            }
            i += 1;
        }
        None
    }

    /// Find a live student by member identifier. Soft-deleted rows are
    /// invisible.
    pub fn find_student_by_id(&self, id: u128) -> (r: Option<&StudentRow>)
        ensures
            match r {
                Some(t) => t.member_id == id && t.is_live() && has_live_student(self.students@, id),
                None => !has_live_student(self.students@, id),
            },
    {
        match self.live_student_index(id) {
            Some(i) => Some(&self.students[i]),
            None => None,
        }
    }

    /// Attach a student role: create or reuse the member, then insert the
    /// role row, as one unit. On any failure the store is unchanged.
    pub fn add_student(&mut self, req: AddStudentRequest, now: i64) -> (r: Result<(), AppError>)
        requires
            old(self).wf(),
        ensures
            final(self).wf(),
            final(self).teachers == old(self).teachers,
            r is Err ==> *final(self) == *old(self),
            r == Err::<(), AppError>(AppError::Validation) <==> !valid_member_dto(req.member_dto),
            r == Err::<(), AppError>(AppError::Conflict) <==> valid_member_dto(req.member_dto)
                && student_role_conflict(*old(self), req.member_id),
            r == Err::<(), AppError>(AppError::Storage) <==> valid_member_dto(req.member_dto)
                && !student_role_conflict(*old(self), req.member_id) && !resolves_live(
                old(self).members@,
                req.member_id,
            ) && !old(self).can_alloc(),
            r is Ok <==> valid_member_dto(req.member_dto) && !student_role_conflict(
                *old(self),
                req.member_id,
            ) && (resolves_live(old(self).members@, req.member_id) || old(self).can_alloc()),
            r is Ok ==> member_upserted(
                *old(self),
                final(self).members@,
                final(self).next_id,
                req.member_id,
                req.member_dto,
                now,
            ),
            r is Ok ==> final(self).students@ == old(self).students@.push(
                new_student_row(upserted_member_id(*old(self), req.member_id), req.student_dto, now),
            ),
    {
        let ghost pre = *old(self);
        if !req.member_dto.validate() {
            return Err(AppError::Validation);
        }
        let resolved: Option<u128> = match req.member_id {
            Some(id) => {
                if self.live_member_index(id).is_some() {
                    Some(id)
                } else {
                    None
                }
            },
            None => None,
        };
        if let Some(id) = resolved {
            if self.live_student_index(id).is_some() {
                return Err(AppError::Conflict);
            }
        }
        let AddStudentRequest { member_id, member_dto, student_dto } = req;
        let mid = match self.upsert_member_with_context(member_id, member_dto, now) {
            Ok(mid) => mid,
            Err(e) => {
                return Err(e);
            },
        };
        proof {
            lemma_member_upsert_preserves_ids(
                pre,
                self.members@,
                self.next_id,
                req.member_id,
                req.member_dto,
                now,
            );
            lemma_upserted_member_present(
                pre,
                self.members@,
                self.next_id,
                req.member_id,
                req.member_dto,
                now,
            );
            lemma_role_member_ids_bounded(pre);
        }
        let row = StudentRow {
            member_id: mid,
            info: student_dto,
            created_at: now,
            updated_at: now,
            deleted_at: None,
        };
        self.students.push(row);
        Ok(())
    }

    /// Update a student and its member's base fields, both replaced in
    /// full, as one unit. Atomic on failure.
    pub fn update_student(&mut self, member_id: u128, req: UpdateStudentRequest, now: i64) -> (r:
        Result<StudentView, AppError>)
        requires
            old(self).wf(),
        ensures
            final(self).wf(),
            final(self).teachers == old(self).teachers,
            r is Err ==> *final(self) == *old(self),
            r == Err::<StudentView, AppError>(AppError::Validation) <==> !valid_member_dto(
                req.member_dto,
            ),
            r == Err::<StudentView, AppError>(AppError::NotFound) <==> valid_member_dto(
                req.member_dto,
            ) && !has_live_student(old(self).students@, member_id),
            r == Err::<StudentView, AppError>(AppError::Storage) <==> valid_member_dto(
                req.member_dto,
            ) && has_live_student(old(self).students@, member_id) && !resolves_live(
                old(self).members@,
                Some(member_id),
            ) && !old(self).can_alloc(),
            r is Ok <==> valid_member_dto(req.member_dto) && has_live_student(
                old(self).students@,
                member_id,
            ) && (resolves_live(old(self).members@, Some(member_id)) || old(self).can_alloc()),
            r is Ok ==> member_upserted(
                *old(self),
                final(self).members@,
                final(self).next_id,
                Some(member_id),
                req.member_dto,
                now,
            ),
            r is Ok ==> exists|i: int|
                {
                    &&& 0 <= i < old(self).students@.len()
                    &&& (#[trigger] old(self).students@[i]).member_id == member_id
                    &&& old(self).students@[i].is_live()
                    &&& final(self).students@ == old(self).students@.update(
                        i,
                        (StudentRow {
                            member_id,
                            info: req.student_dto,
                            created_at: old(self).students@[i].created_at,
                            updated_at: now,
                            deleted_at: None,
                        }),
                    )
                },
            r matches Ok(v) ==> v.member_id == upserted_member_id(*old(self), Some(member_id))
                && v.member_dto == req.member_dto && v.student_dto == req.student_dto,
    {
        let ghost pre = *old(self);
        if !req.member_dto.validate() {
            return Err(AppError::Validation);
        }
        let si = match self.live_student_index(member_id) {
            Some(i) => i,
            None => {
                return Err(AppError::NotFound);
            },
        };
        let UpdateStudentRequest { member_dto, student_dto } = req;
        let view_member_dto = member_dto.duplicate();
        let view_student_dto = student_dto.duplicate();
        let mid = match self.upsert_member_with_context(Some(member_id), member_dto, now) {
            Ok(mid) => mid,
            Err(e) => {
                return Err(e);
            },
        };
        proof {
            lemma_member_upsert_preserves_ids(
                pre,
                self.members@,
                self.next_id,
                Some(member_id),
                req.member_dto,
                now,
            );
        }
        let created = self.students[si].created_at;
        let updated = StudentRow {
            member_id,
            info: student_dto,
            created_at: created,
            updated_at: now,
            deleted_at: None,
        };
        self.students.set(si, updated);
        Ok(
            StudentView {
                member_id: mid,
                member_dto: view_member_dto,
                student_dto: view_student_dto,
            },
        )
    }

    /// Soft-delete a student attachment. The member itself is untouched.
    pub fn delete_student(&mut self, member_id: u128, now: i64) -> (r: Result<(), AppError>)
        requires
            old(self).wf(),
        ensures
            final(self).wf(),
            final(self).members == old(self).members,
            final(self).teachers == old(self).teachers,
            final(self).next_id == old(self).next_id,
            r is Err ==> *final(self) == *old(self),
            r is Err <==> !has_live_student(old(self).students@, member_id),
            r is Err ==> r == Err::<(), AppError>(AppError::NotFound),
            r is Ok ==> !has_live_student(final(self).students@, member_id),
            r is Ok ==> exists|i: int|
                {
                    &&& 0 <= i < old(self).students@.len()
                    &&& (#[trigger] old(self).students@[i]).member_id == member_id
                    &&& old(self).students@[i].is_live()
                    &&& final(self).students@ == old(self).students@.update(
                        i,
                        (StudentRow {
                            member_id,
                            info: old(self).students@[i].info,
                            created_at: old(self).students@[i].created_at,
                            updated_at: now,
                            deleted_at: Some(now),
                        }),
                    )
                },
    {
        match self.live_student_index(member_id) {
            Some(i) => {
                let created = self.students[i].created_at;
                let info = self.students[i].info.duplicate();
                let updated = StudentRow {
                    member_id,
                    info,
                    created_at: created,
                    updated_at: now,
                    deleted_at: Some(now),
                };
                self.students.set(i, updated);
                Ok(())
            },
            None => Err(AppError::NotFound),
        }
    }

    /// List the live students, each joined with its member's base fields.
    /// Soft-deleted student rows never appear.
    pub fn get_students(&self) -> (r: Vec<StudentView>)
        requires
            self.wf(),
        ensures
            r@.len() == live_students(self.students@).len(),
            forall|k: int|
                0 <= k < r@.len() ==> student_view_matches(
                    #[trigger] r@[k],
                    live_students(self.students@)[k],
                    self.members@,
                ),
    {
        let mut result: Vec<StudentView> = Vec::new();
        let mut i: usize = 0;
        while i < self.students.len()
            invariant
                self.wf(),
                i <= self.students@.len(),
                result@.len() == live_students(self.students@.subrange(0, i as int)).len(),
                forall|k: int|
                    0 <= k < result@.len() ==> student_view_matches(
                        #[trigger] result@[k],
                        live_students(self.students@.subrange(0, i as int))[k],
                        self.members@,
                    ),
            decreases self.students@.len() - i,
        {
            let ghost pre = self.students@.subrange(0, i as int);
            let ghost elem = self.students@[i as int];
            if self.students[i].deleted_at.is_none() {
                let mid = self.students[i].member_id;
                match self.member_index_any(mid) {
                    Some(j) => {
                        let view = student_and_member_to_view(&self.students[i], &self.members[j]);
                        result.push(view);
                    },
                    None => {
                        proof {
                            assert(has_member_row(self.members@, elem.member_id));
                        }
                        vstd::pervasive::unreached::<()>();
                    },
                }
            }
            proof {
                pre.lemma_filter_push(elem, student_live_pred());
                assert(self.students@.subrange(0, i as int + 1) =~= pre.push(elem));
            }
            i += 1;
        }
        proof {
            assert(self.students@.subrange(0, self.students@.len() as int) =~= self.students@);
        }
        result
    }
}

} // verus!
