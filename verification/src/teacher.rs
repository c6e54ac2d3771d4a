//! Teacher role attachments: rows keyed by the owning member's identifier,
//! their request/view shapes, and the operations that maintain them.

use vstd::prelude::*;

use crate::credential::hash_password;
use crate::identity::{
    has_live_member, has_live_teacher, has_member_row, is_first_username_match,
    lemma_member_upsert_preserves_ids, lemma_role_member_ids_bounded,
    lemma_upserted_member_present, live_teachers, member_upserted, resolves_live,
    teacher_live_pred, upserted_member_id, IdentityStore,
};
use crate::identity::username_taken;
use vstd::pervasive::VecAdditionalExecFns;
use crate::member::{clone_opt_string, valid_member_dto, MemberDto, MemberRow};
use crate::permission::{allowed, authorize, require_super_admin};
use crate::response::AppError;
use crate::roles::{Claims, EmploymentType, RoleType};

verus! {

/// A stored teacher row. It shares its key with the owning member: a
/// one-to-zero-or-one attachment, not an independent identity.
#[derive(Clone, Debug)]
pub struct TeacherRow {
    pub member_id: u128,
    pub username: String,
    pub password_hash: String,
    pub role_type: RoleType,
    pub employment_type: EmploymentType,
    pub responsibility: Option<String>,
    pub background: Option<String>,
    pub created_at: i64,
    pub updated_at: i64,
    pub deleted_at: Option<i64>,
}

impl TeacherRow {
    /// A row is live until it is soft-deleted.
    pub open spec fn is_live(self) -> bool {
        self.deleted_at is None
    }
}

/// Payload for attaching a teacher role, optionally to an existing member.
pub struct AddTeacherRequest {
    pub member_id: Option<u128>,
    pub username: String,
    pub password: String,
    pub employment_type: EmploymentType,
    pub responsibility: Option<String>,
    pub background: Option<String>,
    pub member_dto: MemberDto,
}

/// Payload for updating a teacher and its member's base fields. A password
/// is replaced only when one is supplied.
pub struct UpdateTeacherRequest {
    pub password: Option<String>,
    pub employment_type: EmploymentType,
    pub responsibility: Option<String>,
    pub background: Option<String>,
    pub member_dto: MemberDto,
}

/// Read shape of a teacher joined with its member's base fields.
pub struct TeacherView {
    pub member_id: u128,
    pub username: String,
    pub employment_type: EmploymentType,
    pub responsibility: Option<String>,
    pub background: Option<String>,
    pub member_dto: MemberDto,
}

/// Field-level rules for attaching a teacher: a username of at least four
/// characters, a password of at least eight, and a valid member payload.
pub open spec fn valid_add_teacher_request(r: AddTeacherRequest) -> bool {
    &&& r.username@.len() >= 4
    &&& r.password@.len() >= 8
    &&& valid_member_dto(r.member_dto)
}

/// Field-level rules for updating a teacher: a replacement password, when
/// given, has at least eight characters, and the member payload is valid.
pub open spec fn valid_update_teacher_request(r: UpdateTeacherRequest) -> bool {
    &&& (r.password matches Some(p) ==> p@.len() >= 8)
    &&& valid_member_dto(r.member_dto)
}

impl AddTeacherRequest {
    /// Decide the field-level rules for this payload.
    pub fn validate(&self) -> (r: bool)
        ensures
            r == valid_add_teacher_request(*self),
    {
        if self.username.as_str().unicode_len() < 4 {
            return false;
        }
        if self.password.as_str().unicode_len() < 8 {
            return false;
        }
        self.member_dto.validate()
    }
}

impl UpdateTeacherRequest {
    /// Decide the field-level rules for this payload.
    pub fn validate(&self) -> (r: bool)
        ensures
            r == valid_update_teacher_request(*self),
    {
        let password_ok = match &self.password {
            Some(p) => p.as_str().unicode_len() >= 8,
            None => true,
        };
        password_ok && self.member_dto.validate()
    }
}

/// Join a teacher row with its member row into the read shape.
pub fn teacher_and_member_to_view(teacher: &TeacherRow, member: &MemberRow) -> (r: TeacherView)
    ensures
        r == spec_teacher_view(*teacher, *member),
{
    TeacherView {
        member_id: member.id,
        username: teacher.username.clone(),
        employment_type: teacher.employment_type,
        responsibility: clone_opt_string(&teacher.responsibility),
        background: clone_opt_string(&teacher.background),
        member_dto: member.info.duplicate(),
    }
}

/// The read shape a teacher row and its member row join into.
pub open spec fn spec_teacher_view(teacher: TeacherRow, member: MemberRow) -> TeacherView {
    TeacherView {
        member_id: member.id,
        username: teacher.username,
        employment_type: teacher.employment_type,
        responsibility: teacher.responsibility,
        background: teacher.background,
        member_dto: member.info,
    }
}

/// The view is the join of the teacher row with the member row, in this
/// member table, that carries the teacher's member identifier.
pub open spec fn teacher_view_matches(v: TeacherView, t: TeacherRow, members: Seq<MemberRow>) -> bool {
    exists|j: int|
        0 <= j < members.len() && (#[trigger] members[j]).id == t.member_id && v
            == spec_teacher_view(t, members[j])
}

/// Attaching a teacher to a member key that resolves to a live member who
/// already holds a live teacher attachment is a conflict.
pub open spec fn teacher_role_conflict(s: IdentityStore, key: Option<u128>) -> bool {
    resolves_live(s.members@, key) && has_live_teacher(s.teachers@, key.unwrap())
}

/// Either conflict that blocks attaching a teacher: the member already
/// holds the role, or the login username is already in use.
pub open spec fn add_teacher_conflict(s: IdentityStore, req: AddTeacherRequest) -> bool {
    teacher_role_conflict(s, req.member_id) || username_taken(s.teachers@, req.username@)
}

/// The new teacher row attached under `mid` with this credential hash.
pub open spec fn new_teacher_row(
    mid: u128,
    req: AddTeacherRequest,
    password_hash: String,
    now: i64,
) -> TeacherRow {
    TeacherRow {
        member_id: mid,
        username: req.username,
        password_hash,
        role_type: RoleType::Admin,
        employment_type: EmploymentType::FullTime,
        responsibility: req.responsibility,
        background: req.background,
        created_at: now,
        updated_at: now,
        deleted_at: None,
    }
}

impl IdentityStore {
    /// Index of the live teacher row attached to this member identifier.
    pub fn live_teacher_index(&self, id: u128) -> (r: Option<usize>)
        ensures
            match r {
                Some(i) => i < self.teachers@.len() && self.teachers@[i as int].member_id == id
                    && self.teachers@[i as int].is_live(),
                None => !has_live_teacher(self.teachers@, id),
            },
    {
        let mut i: usize = 0;
        while i < self.teachers.len()
            invariant
                i <= self.teachers@.len(),
                forall|k: int|
                    0 <= k < i ==> !((#[trigger] self.teachers@[k]).member_id == id
                        && self.teachers@[k].is_live()),
            decreases self.teachers@.len() - i,
        {
            if self.teachers[i].member_id == id && self.teachers[i].deleted_at.is_none() {
                return Some(i);
            }
            i += 1;
        }
        None
    }

    /// Find a live teacher by member identifier. Soft-deleted rows are
    /// invisible.
    pub fn find_teacher_by_id(&self, id: u128) -> (r: Option<&TeacherRow>)
        ensures
            match r {
                Some(t) => t.member_id == id && t.is_live() && has_live_teacher(self.teachers@, id),
                None => !has_live_teacher(self.teachers@, id),
            },
    {
        match self.live_teacher_index(id) {
            Some(i) => Some(&self.teachers[i]),
            None => None,
        }
    }

    /// Index of the first live teacher row carrying this username, if
    /// any. Soft-deleted rows are invisible.
    pub fn first_username_index(&self, username: &String) -> (r: Option<usize>)
        ensures
            match r {
                Some(i) => is_first_username_match(self.teachers@, username@, i as int),
                None => !username_taken(self.teachers@, username@),
            },
    {
        let mut i: usize = 0;
        while i < self.teachers.len()
            invariant
                i <= self.teachers@.len(),
                forall|k: int|
                    0 <= k < i ==> !((#[trigger] self.teachers@[k]).is_live()
                        && self.teachers@[k].username@ == username@),
            decreases self.teachers@.len() - i,
        {
            if self.teachers[i].deleted_at.is_none() && self.teachers[i].username == *username {
                return Some(i);
            }
            i += 1;
        }
        None
    }

    /// Find a live teacher by login username: the first live row carrying
    /// it. Soft-deleted rows are invisible.
    pub fn find_teacher_by_username(&self, username: &String) -> (r: Option<&TeacherRow>)
        ensures
            match r {
                Some(t) => t.is_live() && t.username@ == username@ && username_taken(
                    self.teachers@,
                    username@,
                ) && exists|i: int|
                    is_first_username_match(self.teachers@, username@, i) && (
                    #[trigger] self.teachers@[i]) == *t,
                None => !username_taken(self.teachers@, username@),
            },
    {
        match self.first_username_index(username) {
            Some(i) => Some(&self.teachers[i]),
            None => None,
        }
    }

    /// Attach a teacher role whose credential is already hashed. Creates
    /// or reuses the member, then inserts the role row, as one unit: on
    /// any failure the store is unchanged.
    pub fn add_teacher_hashed(
        &mut self,
        claims: Claims,
        req: AddTeacherRequest,
        password_hash: String,
        now: i64,
    ) -> (r: Result<(), AppError>)
        requires
            old(self).wf(),
        ensures
            final(self).wf(),
            final(self).students == old(self).students,
            r is Err ==> *final(self) == *old(self),
            r == Err::<(), AppError>(AppError::Validation) <==> !valid_add_teacher_request(req),
            r == Err::<(), AppError>(AppError::Permission) <==> valid_add_teacher_request(req)
                && claims.role != RoleType::SuperAdmin,
            r == Err::<(), AppError>(AppError::Conflict) <==> valid_add_teacher_request(req)
                && claims.role == RoleType::SuperAdmin && add_teacher_conflict(*old(self), req),
            r == Err::<(), AppError>(AppError::Storage) <==> valid_add_teacher_request(req)
                && claims.role == RoleType::SuperAdmin && !add_teacher_conflict(*old(self), req)
                && !resolves_live(old(self).members@, req.member_id) && !old(self).can_alloc(),
            r is Ok <==> valid_add_teacher_request(req) && claims.role == RoleType::SuperAdmin
                && !add_teacher_conflict(*old(self), req) && (resolves_live(
                old(self).members@,
                req.member_id,
            ) || old(self).can_alloc()),
            r is Ok ==> member_upserted(
                *old(self),
                final(self).members@,
                final(self).next_id,
                req.member_id,
                req.member_dto,
                now,
            ),
            r is Ok ==> final(self).teachers@ == old(self).teachers@.push(
                new_teacher_row(
                    upserted_member_id(*old(self), req.member_id),
                    req,
                    password_hash,
                    now,
                ),
            ),
    {
        let ghost pre = *old(self);
        if !req.validate() {
            return Err(AppError::Validation);
        }
        if !require_super_admin(claims.role) {
            return Err(AppError::Permission);
        }
        let resolved: Option<u128> = match req.member_id {
            Some(id) => {
                if self.live_member_index(id).is_some() {
                    Some(id)
                } else {
                    None
                }
            },
            None => None,
        };
        if let Some(id) = resolved {
            if self.live_teacher_index(id).is_some() {
                return Err(AppError::Conflict);
            }
        }
        if self.find_teacher_by_username(&req.username).is_some() {
            return Err(AppError::Conflict);
        }
        let AddTeacherRequest {
            member_id,
            username,
            password: _,
            employment_type: _,
            responsibility,
            background,
            member_dto,
        } = req;
        let mid = match self.upsert_member_with_context(member_id, member_dto, now) {
            Ok(mid) => mid,
            Err(e) => {
                return Err(e);
            },
        };
        proof {
            lemma_member_upsert_preserves_ids(
                pre,
                self.members@,
                self.next_id,
                req.member_id,
                req.member_dto,
                now,
            );
            lemma_upserted_member_present(
                pre,
                self.members@,
                self.next_id,
                req.member_id,
                req.member_dto,
                now,
            );
            lemma_role_member_ids_bounded(pre);
        }
        let row = TeacherRow {
            member_id: mid,
            username,
            password_hash,
            role_type: RoleType::Admin,
            employment_type: EmploymentType::FullTime,
            responsibility,
            background,
            created_at: now,
            updated_at: now,
            deleted_at: None,
        };
        self.teachers.push(row);
        Ok(())
    }

    /// Attach a teacher role: hash the credential, then create or reuse
    /// the member and insert the role row as one unit. Requires the
    /// super-administrator tier.
    pub fn add_teacher(&mut self, claims: Claims, req: AddTeacherRequest, now: i64) -> (r: Result<
        (),
        AppError,
    >)
        requires
            old(self).wf(),
        ensures
            final(self).wf(),
            final(self).students == old(self).students,
            r is Err ==> *final(self) == *old(self),
            r == Err::<(), AppError>(AppError::Validation) <==> !valid_add_teacher_request(req),
            r == Err::<(), AppError>(AppError::Permission) <==> valid_add_teacher_request(req)
                && claims.role != RoleType::SuperAdmin,
            r == Err::<(), AppError>(AppError::Conflict) <==> valid_add_teacher_request(req)
                && claims.role == RoleType::SuperAdmin && add_teacher_conflict(*old(self), req),
            r is Ok ==> member_upserted(
                *old(self),
                final(self).members@,
                final(self).next_id,
                req.member_id,
                req.member_dto,
                now,
            ),
            r is Ok ==> {
                &&& final(self).teachers@.len() == old(self).teachers@.len() + 1
                &&& final(self).teachers@.drop_last() == old(self).teachers@
                &&& final(self).teachers@.last() == new_teacher_row(
                    upserted_member_id(*old(self), req.member_id),
                    req,
                    final(self).teachers@.last().password_hash,
                    now,
                )
                &&& crate::credential::password_verifies(
                    req.password@,
                    final(self).teachers@.last().password_hash@,
                )
            },
    {
        if !req.validate() {
            return Err(AppError::Validation);
        }
        if !require_super_admin(claims.role) {
            return Err(AppError::Permission);
        }
        let resolved: Option<u128> = match req.member_id {
            Some(id) => {
                if self.live_member_index(id).is_some() {
                    Some(id)
                } else {
                    None
                }
            },
            None => None,
        };
        if let Some(id) = resolved {
            if self.live_teacher_index(id).is_some() {
                return Err(AppError::Conflict);
            }
        }
        if self.find_teacher_by_username(&req.username).is_some() {
            return Err(AppError::Conflict);
        }
        let hash = match hash_password(req.password.as_str()) {
            Ok(h) => h,
            Err(e) => {
                return Err(e);
            },
        };
        let r = self.add_teacher_hashed(claims, req, hash, now);
        proof {
            if r is Ok {
                assert(self.teachers@.drop_last() =~= old(self).teachers@);
            }
        }
        r
    }

    /// Update a teacher and its member's base fields, replacing the
    /// credential hash when one is supplied. Gated to the teacher
    /// themselves or a super administrator; atomic on failure.
    pub fn update_teacher_hashed(
        &mut self,
        claims: Claims,
        teacher_id: u128,
        req: UpdateTeacherRequest,
        password_hash: Option<String>,
        now: i64,
    ) -> (r: Result<TeacherView, AppError>)
        requires
            old(self).wf(),
        ensures
            final(self).wf(),
            final(self).students == old(self).students,
            r is Err ==> *final(self) == *old(self),
            r == Err::<TeacherView, AppError>(AppError::Validation) <==> !valid_update_teacher_request(
                req,
            ),
            r == Err::<TeacherView, AppError>(AppError::Permission) <==> valid_update_teacher_request(
                req,
            ) && !allowed(claims.sub, claims.role, teacher_id),
            r == Err::<TeacherView, AppError>(AppError::NotFound) <==> valid_update_teacher_request(
                req,
            ) && allowed(claims.sub, claims.role, teacher_id) && !has_live_teacher(
                old(self).teachers@,
                teacher_id,
            ),
            r == Err::<TeacherView, AppError>(AppError::Storage) <==> valid_update_teacher_request(
                req,
            ) && allowed(claims.sub, claims.role, teacher_id) && has_live_teacher(
                old(self).teachers@,
                teacher_id,
            ) && !has_live_member(old(self).members@, teacher_id) && !old(self).can_alloc(),
            r is Ok <==> valid_update_teacher_request(req) && allowed(
                claims.sub,
                claims.role,
                teacher_id,
            ) && has_live_teacher(old(self).teachers@, teacher_id) && (has_live_member(
                old(self).members@,
                teacher_id,
            ) || old(self).can_alloc()),
            r is Ok ==> member_upserted(
                *old(self),
                final(self).members@,
                final(self).next_id,
                Some(teacher_id),
                req.member_dto,
                now,
            ),
            r is Ok ==> exists|i: int|
                {
                    &&& 0 <= i < old(self).teachers@.len()
                    &&& (#[trigger] old(self).teachers@[i]).member_id == teacher_id
                    &&& old(self).teachers@[i].is_live()
                    &&& final(self).teachers@ == old(self).teachers@.update(
                        i,
                        (TeacherRow {
                            member_id: teacher_id,
                            username: old(self).teachers@[i].username,
                            password_hash: (match password_hash {
                                Some(h) => h,
                                None => old(self).teachers@[i].password_hash,
                            }),
                            role_type: old(self).teachers@[i].role_type,
                            employment_type: req.employment_type,
                            responsibility: req.responsibility,
                            background: req.background,
                            created_at: old(self).teachers@[i].created_at,
                            updated_at: now,
                            deleted_at: None,
                        }),
                    )
                    &&& (r matches Ok(v) ==> {
                        &&& v.member_id == upserted_member_id(*old(self), Some(teacher_id))
                        &&& v.member_dto == req.member_dto
                        &&& v.username == old(self).teachers@[i].username
                        &&& v.employment_type == req.employment_type
                        &&& v.responsibility == req.responsibility
                        &&& v.background == req.background
                    })
                },
    {
        let ghost pre = *old(self);
        if !req.validate() {
            return Err(AppError::Validation);
        }
        if !authorize(claims.sub, claims.role, teacher_id) {
            return Err(AppError::Permission);
        }
        let ti = match self.live_teacher_index(teacher_id) {
            Some(i) => i,
            None => {
                return Err(AppError::NotFound);
            },
        };
        let UpdateTeacherRequest {
            password: _,
            employment_type,
            responsibility,
            background,
            member_dto,
        } = req;
        let view_dto = member_dto.duplicate();
        let mid = match self.upsert_member_with_context(Some(teacher_id), member_dto, now) {
            Ok(mid) => mid,
            Err(e) => {
                return Err(e);
            },
        };
        proof {
            lemma_member_upsert_preserves_ids(
                pre,
                self.members@,
                self.next_id,
                Some(teacher_id),
                req.member_dto,
                now,
            );
        }
        let t = &self.teachers[ti];
        let new_hash = match password_hash {
            Some(h) => h,
            None => t.password_hash.clone(),
        };
        let updated = TeacherRow {
            member_id: t.member_id,
            username: t.username.clone(),
            password_hash: new_hash,
            role_type: t.role_type,
            employment_type,
            responsibility,
            background,
            created_at: t.created_at,
            updated_at: now,
            deleted_at: None,
        };
        let view = TeacherView {
            member_id: mid,
            username: updated.username.clone(),
            employment_type: updated.employment_type,
            responsibility: clone_opt_string(&updated.responsibility),
            background: clone_opt_string(&updated.background),
            member_dto: view_dto,
        };
        self.teachers.set(ti, updated);
        Ok(view)
    }

    /// Update a teacher: hash the replacement credential when one is
    /// supplied, then update member and teacher row as one unit.
    pub fn update_teacher(
        &mut self,
        claims: Claims,
        teacher_id: u128,
        req: UpdateTeacherRequest,
        now: i64,
    ) -> (r: Result<TeacherView, AppError>)
        requires
            old(self).wf(),
        ensures
            final(self).wf(),
            final(self).students == old(self).students,
            r is Err ==> *final(self) == *old(self),
            r == Err::<TeacherView, AppError>(AppError::Validation) <==> !valid_update_teacher_request(
                req,
            ),
            r == Err::<TeacherView, AppError>(AppError::Permission) <==> valid_update_teacher_request(
                req,
            ) && !allowed(claims.sub, claims.role, teacher_id),
            r == Err::<TeacherView, AppError>(AppError::NotFound) <==> valid_update_teacher_request(
                req,
            ) && allowed(claims.sub, claims.role, teacher_id) && !has_live_teacher(
                old(self).teachers@,
                teacher_id,
            ),
            req.password is None ==> (r is Ok <==> valid_update_teacher_request(req) && allowed(
                claims.sub,
                claims.role,
                teacher_id,
            ) && has_live_teacher(old(self).teachers@, teacher_id) && (has_live_member(
                old(self).members@,
                teacher_id,
            ) || old(self).can_alloc())),
            r is Ok ==> member_upserted(
                *old(self),
                final(self).members@,
                final(self).next_id,
                Some(teacher_id),
                req.member_dto,
                now,
            ),
            r is Ok ==> has_live_teacher(old(self).teachers@, teacher_id) && exists|i: int|
                {
                    &&& 0 <= i < old(self).teachers@.len()
                    &&& (#[trigger] old(self).teachers@[i]).member_id == teacher_id
                    &&& old(self).teachers@[i].is_live()
                    &&& final(self).teachers@ == old(self).teachers@.update(
                        i,
                        (TeacherRow {
                            member_id: teacher_id,
                            username: old(self).teachers@[i].username,
                            password_hash: final(self).teachers@[i].password_hash,
                            role_type: old(self).teachers@[i].role_type,
                            employment_type: req.employment_type,
                            responsibility: req.responsibility,
                            background: req.background,
                            created_at: old(self).teachers@[i].created_at,
                            updated_at: now,
                            deleted_at: None,
                        }),
                    )
                    &&& (req.password is None ==> final(self).teachers@[i].password_hash == old(
                        self,
                    ).teachers@[i].password_hash)
                    &&& (req.password matches Some(p) ==> crate::credential::password_verifies(
                        p@,
                        final(self).teachers@[i].password_hash@,
                    ))
                },
    {
        if !req.validate() {
            return Err(AppError::Validation);
        }
        if !authorize(claims.sub, claims.role, teacher_id) {
            return Err(AppError::Permission);
        }
        if self.live_teacher_index(teacher_id).is_none() {
            return Err(AppError::NotFound);
        }
        let hash: Option<String> = match &req.password {
            Some(p) => {
                match hash_password(p.as_str()) {
                    Ok(h) => Some(h),
                    Err(e) => {
                        return Err(e);
                    },
                }
            },
            None => None,
        };
        self.update_teacher_hashed(claims, teacher_id, req, hash, now)
    }

    /// Soft-delete a teacher attachment. Requires the super-administrator
    /// tier; the member itself is untouched.
    pub fn delete_teacher(&mut self, claims: Claims, teacher_id: u128, now: i64) -> (r: Result<
        (),
        AppError,
    >)
        requires
            old(self).wf(),
        ensures
            final(self).wf(),
            final(self).members == old(self).members,
            final(self).students == old(self).students,
            final(self).next_id == old(self).next_id,
            r is Err ==> *final(self) == *old(self),
            r == Err::<(), AppError>(AppError::Permission) <==> claims.role != RoleType::SuperAdmin,
            r == Err::<(), AppError>(AppError::NotFound) <==> claims.role == RoleType::SuperAdmin
                && !has_live_teacher(old(self).teachers@, teacher_id),
            r is Ok <==> claims.role == RoleType::SuperAdmin && has_live_teacher(
                old(self).teachers@,
                teacher_id,
            ),
            r is Ok ==> !has_live_teacher(final(self).teachers@, teacher_id),
            r is Ok ==> exists|i: int|
                {
                    &&& 0 <= i < old(self).teachers@.len()
                    &&& (#[trigger] old(self).teachers@[i]).member_id == teacher_id
                    &&& old(self).teachers@[i].is_live()
                    &&& final(self).teachers@ == old(self).teachers@.update(
                        i,
                        (TeacherRow {
                            member_id: teacher_id,
                            username: old(self).teachers@[i].username,
                            password_hash: old(self).teachers@[i].password_hash,
                            role_type: old(self).teachers@[i].role_type,
                            employment_type: old(self).teachers@[i].employment_type,
                            responsibility: old(self).teachers@[i].responsibility,
                            background: old(self).teachers@[i].background,
                            created_at: old(self).teachers@[i].created_at,
                            updated_at: now,
                            deleted_at: Some(now),
                        }),
                    )
                },
    {
        if !require_super_admin(claims.role) {
            return Err(AppError::Permission);
        }
        match self.live_teacher_index(teacher_id) {
            Some(i) => {
                let t = &self.teachers[i];
                let updated = TeacherRow {
                    member_id: t.member_id,
                    username: t.username.clone(),
                    password_hash: t.password_hash.clone(),
                    role_type: t.role_type,
                    employment_type: t.employment_type,
                    responsibility: clone_opt_string(&t.responsibility),
                    background: clone_opt_string(&t.background),
                    created_at: t.created_at,
                    updated_at: now,
                    deleted_at: Some(now),
                };
                self.teachers.set(i, updated);
                Ok(())
            },
            None => Err(AppError::NotFound),
        }
    }

    /// List the live teachers, each joined with its member's base fields.
    /// Soft-deleted teacher rows never appear.
    pub fn get_teachers(&self) -> (r: Vec<TeacherView>)
        requires
            self.wf(),
        ensures
            r@.len() == live_teachers(self.teachers@).len(),
            forall|k: int|
                0 <= k < r@.len() ==> teacher_view_matches(
                    #[trigger] r@[k],
                    live_teachers(self.teachers@)[k],
                    self.members@,
                ),
    {
        let mut result: Vec<TeacherView> = Vec::new();
        let mut i: usize = 0;
        while i < self.teachers.len()
            invariant
                self.wf(),
                i <= self.teachers@.len(),
                result@.len() == live_teachers(self.teachers@.subrange(0, i as int)).len(),
                forall|k: int|
                    0 <= k < result@.len() ==> teacher_view_matches(
                        #[trigger] result@[k],
                        live_teachers(self.teachers@.subrange(0, i as int))[k],
                        self.members@,
                    ),
            decreases self.teachers@.len() - i,
        {
            let ghost pre = self.teachers@.subrange(0, i as int);
            let ghost elem = self.teachers@[i as int];
            if self.teachers[i].deleted_at.is_none() {
                let mid = self.teachers[i].member_id;
                match self.member_index_any(mid) {
                    Some(j) => {
                        let view = teacher_and_member_to_view(&self.teachers[i], &self.members[j]);
                        result.push(view);
                    },
                    None => {
                        proof {
                            assert(has_member_row(self.members@, elem.member_id));
                        }
                        vstd::pervasive::unreached::<()>();
                    },
                }
            }
            proof {
                pre.lemma_filter_push(elem, teacher_live_pred());
                assert(self.teachers@.subrange(0, i as int + 1) =~= pre.push(elem));
            }
            i += 1;
        }
        proof {
            assert(self.teachers@.subrange(0, self.teachers@.len() as int) =~= self.teachers@);
        }
        result
    }
}

} // verus!
