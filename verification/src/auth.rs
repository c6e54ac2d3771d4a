//! Credential checking against the teacher table, the self-description
//! read, and the first-run bootstrap of a default administrator account.
//! Token issuance and decoding are external collaborators: the library
//! only consumes decoded claims and hands back plain login outcomes.

use vstd::prelude::*;

use crate::credential::{hash_password, password_verifies, verify_password};
use crate::identity::{
    has_live_teacher, has_member_row, is_first_username_match, lemma_member_rows_extended,
    username_taken, IdentityStore,
};
use crate::member::{MemberDto, MemberRow};
use crate::response::AppError;
use crate::roles::{Claims, RoleType};
use crate::teacher::TeacherRow;

verus! {

/// A login attempt: the username and the plaintext password, which is
/// checked against the stored hash and never stored itself.
pub struct LoginRequest {
    pub username: String,
    pub password: String,
}

/// The self-description returned to an authenticated teacher.
pub struct MeResponse {
    pub id: u128,
    pub username: String,
    pub name: String,
    pub role: RoleType,
    pub exp: i64,
}

impl MeResponse {
    /// Assemble a self-description.
    pub fn new(id: u128, username: String, name: String, role: RoleType, exp: i64) -> (r:
        MeResponse)
        ensures
            r == (MeResponse { id, username, name, role, exp }),
    {
        MeResponse { id, username, name, role, exp }
    }
}

/// The base fields of the bootstrap administrator's member row: only a
/// name and a join time.
pub open spec fn spec_bootstrap_member_dto(name: String, now: i64) -> MemberDto {
    MemberDto {
        name,
        id_number: None,
        gender: None,
        birth_date: None,
        home_phone_number: None,
        mobile_phone_number: None,
        address: None,
        title: None,
        line_id: None,
        comment: None,
        joined_at: now,
    }
}

impl IdentityStore {
    /// Check a login attempt: find the first live teacher under the
    /// username and test the password against the stored hash. Succeeds,
    /// with the teacher's member identifier and role tier, exactly when
    /// that teacher exists and the password verifies against its hash.
    pub fn login_check(&self, req: &LoginRequest) -> (r: Option<(u128, RoleType)>)
        ensures
            r matches Some(t) ==> exists|i: int|
                {
                    &&& is_first_username_match(self.teachers@, req.username@, i)
                    &&& t.0 == (#[trigger] self.teachers@[i]).member_id
                    &&& t.1 == self.teachers@[i].role_type
                    &&& password_verifies(req.password@, self.teachers@[i].password_hash@)
                },
            r is Some <==> exists|i: int|
                is_first_username_match(self.teachers@, req.username@, i) && password_verifies(
                    req.password@,
                    (#[trigger] self.teachers@[i]).password_hash@,
                ),
    {
        let ti = match self.first_username_index(&req.username) {
            Some(i) => i,
            None => {
                return None;
            },
        };
        let teacher = &self.teachers[ti];
        let accepted = match verify_password(req.password.as_str(), teacher.password_hash.as_str())
        {
            Ok(b) => b,
            Err(_) => false,
        };
        proof {
            assert forall|j: int|
                is_first_username_match(self.teachers@, req.username@, j) implies j
                == ti as int by {
                if j < ti as int {
                    assert(self.teachers@[j].is_live() && self.teachers@[j].username@
                        == req.username@);
                    assert(false);
                }
                if j > ti as int {
                    assert(self.teachers@[ti as int].is_live() && self.teachers@[ti as int].username@
                        == req.username@);
                    assert(false);
                }
            }
        }
        if accepted {
            Some((teacher.member_id, teacher.role_type))
        } else {
            None
        }
    }

    /// Describe the authenticated teacher: the live teacher row under the
    /// claim's subject joined with its member's name. Succeeds exactly
    /// when such a live teacher exists.
    pub fn me_lookup(&self, claims: Claims) -> (r: Option<MeResponse>)
        requires
            self.wf(),
        ensures
            r is Some <==> has_live_teacher(self.teachers@, claims.sub),
            r matches Some(m) ==> m.id == claims.sub && m.exp == claims.exp && exists|i: int|
                {
                    &&& 0 <= i < self.teachers@.len()
                    &&& (#[trigger] self.teachers@[i]).is_live()
                    &&& self.teachers@[i].member_id == claims.sub
                    &&& m.username@ == self.teachers@[i].username@
                    &&& m.role == self.teachers@[i].role_type
                },
            r matches Some(m) ==> exists|j: int|
                0 <= j < self.members@.len() && (#[trigger] self.members@[j]).id == claims.sub
                    && m.name@ == self.members@[j].info.name@,
    {
        let ti = match self.live_teacher_index(claims.sub) {
            Some(i) => i,
            None => {
                return None;
            },
        };
        let name = match self.member_name(claims.sub) {
            Some(n) => n,
            None => {
                proof {
                    assert(has_member_row(self.members@, self.teachers@[ti as int].member_id));
                }
                vstd::pervasive::unreached::<String>()
            },
        };
        Some(
            MeResponse {
                id: claims.sub,
                username: self.teachers[ti].username.clone(),
                name,
                role: self.teachers[ti].role_type,
                exp: claims.exp,
            },
        )
    }

    /// First-run bootstrap whose credential is already hashed: when no
    /// teacher row exists at all, create a member and a
    /// super-administrator teacher, as one unit. Returns whether the
    /// account was created, and succeeds whenever an identifier can
    /// still be allocated.
    pub fn init_admin_hashed(
        &mut self,
        name: String,
        username: String,
        password_hash: String,
        now: i64,
    ) -> (r: Result<bool, AppError>)
        requires
            old(self).wf(),
        ensures
            final(self).wf(),
            r is Err ==> *final(self) == *old(self) && r == Err::<bool, AppError>(AppError::Storage),
            r is Err <==> old(self).teachers@.len() == 0 && !old(self).can_alloc(),
            r == Ok::<bool, AppError>(false) <==> old(self).teachers@.len() > 0,
            r == Ok::<bool, AppError>(false) ==> *final(self) == *old(self),
            r == Ok::<bool, AppError>(true) <==> old(self).teachers@.len() == 0 && old(
                self,
            ).can_alloc(),
            r == Ok::<bool, AppError>(true) ==> {
                &&& final(self).members@ == old(self).members@.push(
                    (MemberRow {
                        id: old(self).next_id,
                        info: spec_bootstrap_member_dto(name, now),
                        created_at: now,
                        updated_at: now,
                        deleted_at: None,
                    }),
                )
                &&& final(self).next_id == old(self).next_id + 1
                &&& final(self).students == old(self).students
                &&& final(self).teachers@.len() == 1
                &&& final(self).teachers@[0].member_id == old(self).next_id
                &&& final(self).teachers@[0].username == username
                &&& final(self).teachers@[0].password_hash == password_hash
                &&& final(self).teachers@[0].role_type == RoleType::SuperAdmin
                &&& final(self).teachers@[0].is_live()
            },
    {
        if self.teachers.len() > 0 {
            return Ok(false);
        }
        if self.next_id == u128::MAX {
            return Err(AppError::Storage);
        }
        let hash = password_hash;
        let id = self.next_id;
        let dto = MemberDto {
            name,
            id_number: None,
            gender: None,
            birth_date: None,
            home_phone_number: None,
            mobile_phone_number: None,
            address: None,
            title: None,
            line_id: None,
            comment: None,
            joined_at: now,
        };
        self.members.push(
            MemberRow { id, info: dto, created_at: now, updated_at: now, deleted_at: None },
        );
        self.next_id = id + 1;
        proof {
            lemma_member_rows_extended(old(self).members@, self.members@);
        }
        let teacher = TeacherRow {
            member_id: id,
            username,
            password_hash: hash,
            role_type: RoleType::SuperAdmin,
            employment_type: crate::roles::EmploymentType::FullTime,
            responsibility: None,
            background: None,
            created_at: now,
            updated_at: now,
            deleted_at: None,
        };
        self.teachers.push(teacher);
        proof {
            assert(self.members@[self.members@.len() - 1].id == id);
        }
        Ok(true)
    }

    /// First-run bootstrap: hash the default credential, then create the
    /// member and super-administrator teacher as one unit when no teacher
    /// row exists. Returns whether the account was created.
    pub fn init_admin(
        &mut self,
        name: String,
        username: String,
        password: String,
        now: i64,
    ) -> (r: Result<bool, AppError>)
        requires
            old(self).wf(),
        ensures
            final(self).wf(),
            r is Err ==> *final(self) == *old(self) && r == Err::<bool, AppError>(AppError::Storage),
            r == Ok::<bool, AppError>(false) <==> old(self).teachers@.len() > 0,
            r == Ok::<bool, AppError>(false) ==> *final(self) == *old(self),
            r == Ok::<bool, AppError>(true) ==> {
                &&& old(self).teachers@.len() == 0
                &&& final(self).members@ == old(self).members@.push(
                    (MemberRow {
                        id: old(self).next_id,
                        info: spec_bootstrap_member_dto(name, now),
                        created_at: now,
                        updated_at: now,
                        deleted_at: None,
                    }),
                )
                &&& final(self).next_id == old(self).next_id + 1
                &&& final(self).students == old(self).students
                &&& final(self).teachers@.len() == 1
                &&& final(self).teachers@[0].member_id == old(self).next_id
                &&& final(self).teachers@[0].username == username
                &&& final(self).teachers@[0].role_type == RoleType::SuperAdmin
                &&& final(self).teachers@[0].is_live()
                &&& password_verifies(password@, final(self).teachers@[0].password_hash@)
            },
            old(self).teachers@.len() == 0 && r is Ok ==> r == Ok::<bool, AppError>(true),
    {
        if self.teachers.len() > 0 {
            return Ok(false);
        }
        let hash = match hash_password(password.as_str()) {
            Ok(h) => h,
            Err(e) => {
                return Err(e);
            },
        };
        self.init_admin_hashed(name, username, hash, now)
    }
}

} // verus!
