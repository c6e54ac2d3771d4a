//! The identity store: member rows plus teacher and student role
//! attachments, and the member-level operations. The role-attachment
//! operations live beside their row types.

use vstd::pervasive::VecAdditionalExecFns;
use vstd::prelude::*;

use crate::member::{valid_member_dto, MemberDto, MemberRow, MemberView, UpsertMemberRequest};
use crate::response::AppError;
use crate::student::StudentRow;
use crate::teacher::TeacherRow;

verus! {

broadcast use vstd::seq_lib::group_filter_ensures;

/// Some member row carries this identifier.
pub open spec fn has_member_row(s: Seq<MemberRow>, id: u128) -> bool {
    exists|i: int| 0 <= i < s.len() && (#[trigger] s[i]).id == id
}

/// Some live member row carries this identifier.
pub open spec fn has_live_member(s: Seq<MemberRow>, id: u128) -> bool {
    exists|i: int| 0 <= i < s.len() && (#[trigger] s[i]).id == id && s[i].is_live()
}

/// Some live member row already uses this national ID number.
pub open spec fn id_number_taken(s: Seq<MemberRow>, n: Seq<char>) -> bool {
    exists|i: int|
        0 <= i < s.len() && (#[trigger] s[i]).is_live() && (s[i].info.id_number matches Some(m)
            && m@ == n)
}

/// Some live teacher row is attached to this member identifier.
pub open spec fn has_live_teacher(s: Seq<TeacherRow>, id: u128) -> bool {
    exists|i: int| 0 <= i < s.len() && (#[trigger] s[i]).member_id == id && s[i].is_live()
}

/// Some live teacher row already uses this login username.
pub open spec fn username_taken(s: Seq<TeacherRow>, u: Seq<char>) -> bool {
    exists|i: int| 0 <= i < s.len() && (#[trigger] s[i]).is_live() && s[i].username@ == u
}

/// Index `i` holds the first live teacher row carrying this username —
/// the row a lookup by username answers with.
pub open spec fn is_first_username_match(s: Seq<TeacherRow>, u: Seq<char>, i: int) -> bool {
    &&& 0 <= i < s.len()
    &&& s[i].is_live()
    &&& s[i].username@ == u
    &&& (forall|k: int| 0 <= k < i ==> !((#[trigger] s[k]).is_live() && s[k].username@ == u))
}

/// Some live student row is attached to this member identifier.
pub open spec fn has_live_student(s: Seq<StudentRow>, id: u128) -> bool {
    exists|i: int| 0 <= i < s.len() && (#[trigger] s[i]).member_id == id && s[i].is_live()
}

/// A member key is present and resolves to a live member row.
pub open spec fn resolves_live(s: Seq<MemberRow>, key: Option<u128>) -> bool {
    key matches Some(id) && has_live_member(s, id)
}

/// The liveness predicate on member rows, as a single term every filter
/// shares.
pub open spec fn member_live_pred() -> spec_fn(MemberRow) -> bool {
    |m: MemberRow| m.is_live()
}

/// The liveness predicate on teacher rows.
pub open spec fn teacher_live_pred() -> spec_fn(TeacherRow) -> bool {
    |t: TeacherRow| t.is_live()
}

/// The liveness predicate on student rows.
pub open spec fn student_live_pred() -> spec_fn(StudentRow) -> bool {
    |t: StudentRow| t.is_live()
}

/// The live member rows, in storage order.
pub open spec fn live_members(s: Seq<MemberRow>) -> Seq<MemberRow> {
    s.filter(member_live_pred())
}

/// The live teacher rows, in storage order.
pub open spec fn live_teachers(s: Seq<TeacherRow>) -> Seq<TeacherRow> {
    s.filter(teacher_live_pred())
}

/// The live student rows, in storage order.
pub open spec fn live_students(s: Seq<StudentRow>) -> Seq<StudentRow> {
    s.filter(student_live_pred())
}

/// The name a view joins for a member identifier: the name of the stored
/// member row carrying the identifier, or the placeholder when no row
/// does.
pub open spec fn joined_name(members: Seq<MemberRow>, id: u128, name: Seq<char>) -> bool {
    if has_member_row(members, id) {
        exists|i: int|
            0 <= i < members.len() && (#[trigger] members[i]).id == id && members[i].info.name@
                == name
    } else {
        name == "unknown"@
    }
}

/// A soft-deleted member row never appears among the live rows a list
/// returns, however many live rows there are.
pub proof fn lemma_deleted_member_invisible(s: Seq<MemberRow>, i: int)
    requires
        0 <= i < s.len(),
        !s[i].is_live(),
    ensures
        forall|k: int|
            0 <= k < live_members(s).len() ==> (#[trigger] live_members(s)[k]) != s[i],
{
    assert forall|k: int|
        0 <= k < live_members(s).len() implies (#[trigger] live_members(s)[k]) != s[i] by {
        s.lemma_filter_pred(member_live_pred(), k);
    }
}

/// A soft-deleted teacher row never appears among the live rows a list
/// returns.
pub proof fn lemma_deleted_teacher_invisible(s: Seq<TeacherRow>, i: int)
    requires
        0 <= i < s.len(),
        !s[i].is_live(),
    ensures
        forall|k: int|
            0 <= k < live_teachers(s).len() ==> (#[trigger] live_teachers(s)[k]) != s[i],
{
    assert forall|k: int|
        0 <= k < live_teachers(s).len() implies (#[trigger] live_teachers(s)[k]) != s[i] by {
        s.lemma_filter_pred(teacher_live_pred(), k);
    }
}

/// A soft-deleted student row never appears among the live rows a list
/// returns.
pub proof fn lemma_deleted_student_invisible(s: Seq<StudentRow>, i: int)
    requires
        0 <= i < s.len(),
        !s[i].is_live(),
    ensures
        forall|k: int|
            0 <= k < live_students(s).len() ==> (#[trigger] live_students(s)[k]) != s[i],
{
    assert forall|k: int|
        0 <= k < live_students(s).len() implies (#[trigger] live_students(s)[k]) != s[i] by {
        s.lemma_filter_pred(student_live_pred(), k);
    }
}

/// The identifier the member upsert writes to: the key itself when it
/// resolves to a live member, else the next fresh identifier.
pub open spec fn upserted_member_id(pre: IdentityStore, key: Option<u128>) -> u128 {
    if resolves_live(pre.members@, key) {
        key.unwrap()
    } else {
        pre.next_id
    }
}

/// How the member table and the identifier allocator change when a member
/// is created or reused for a role attachment: a resolving key has every
/// base field of its row replaced and an update time stamped; any other key
/// makes a fresh row under the next identifier.
pub open spec fn member_upserted(
    pre: IdentityStore,
    post_members: Seq<MemberRow>,
    post_next: u128,
    key: Option<u128>,
    dto: MemberDto,
    now: i64,
) -> bool {
    if resolves_live(pre.members@, key) {
        &&& post_next == pre.next_id
        &&& exists|i: int|
            {
                &&& 0 <= i < pre.members@.len()
                &&& (#[trigger] pre.members@[i]).id == key.unwrap()
                &&& pre.members@[i].is_live()
                &&& post_members == pre.members@.update(
                    i,
                    (MemberRow {
                        id: key.unwrap(),
                        info: dto,
                        created_at: pre.members@[i].created_at,
                        updated_at: now,
                        deleted_at: None,
                    }),
                )
            }
    } else {
        &&& post_next == pre.next_id + 1
        &&& post_members == pre.members@.push(
            (MemberRow {
                id: pre.next_id,
                info: dto,
                created_at: now,
                updated_at: now,
                deleted_at: None,
            }),
        )
    }
}

/// The row the member upsert wrote is present and live afterwards.
pub proof fn lemma_upserted_member_present(
    pre: IdentityStore,
    post_members: Seq<MemberRow>,
    post_next: u128,
    key: Option<u128>,
    dto: MemberDto,
    now: i64,
)
    requires
        member_upserted(pre, post_members, post_next, key, dto, now),
    ensures
        has_member_row(post_members, upserted_member_id(pre, key)),
        has_live_member(post_members, upserted_member_id(pre, key)),
{
    if resolves_live(pre.members@, key) {
        let i = choose|i: int|
            {
                &&& 0 <= i < pre.members@.len()
                &&& (#[trigger] pre.members@[i]).id == key.unwrap()
                &&& pre.members@[i].is_live()
                &&& post_members == pre.members@.update(
                    i,
                    (MemberRow {
                        id: key.unwrap(),
                        info: dto,
                        created_at: pre.members@[i].created_at,
                        updated_at: now,
                        deleted_at: None,
                    }),
                )
            };
        assert(post_members[i].id == key.unwrap());
        assert(post_members[i].is_live());
    } else {
        assert(post_members[post_members.len() - 1].id == pre.next_id);
        assert(post_members[post_members.len() - 1].is_live());
    }
}

/// The member upsert keeps every pre-existing row's identifier in place,
/// so every identifier present before stays present.
pub proof fn lemma_member_upsert_preserves_ids(
    pre: IdentityStore,
    post_members: Seq<MemberRow>,
    post_next: u128,
    key: Option<u128>,
    dto: MemberDto,
    now: i64,
)
    requires
        member_upserted(pre, post_members, post_next, key, dto, now),
    ensures
        pre.members@.len() <= post_members.len(),
        forall|k: int|
            0 <= k < pre.members@.len() ==> (#[trigger] post_members[k]).id == pre.members@[k].id,
        forall|id: u128| has_member_row(pre.members@, id) ==> has_member_row(post_members, id),
{
    if resolves_live(pre.members@, key) {
        let i = choose|i: int|
            {
                &&& 0 <= i < pre.members@.len()
                &&& (#[trigger] pre.members@[i]).id == key.unwrap()
                &&& pre.members@[i].is_live()
                &&& post_members == pre.members@.update(
                    i,
                    (MemberRow {
                        id: key.unwrap(),
                        info: dto,
                        created_at: pre.members@[i].created_at,
                        updated_at: now,
                        deleted_at: None,
                    }),
                )
            };
        assert(post_members[i].id == pre.members@[i].id);
    }
    lemma_member_rows_extended(pre.members@, post_members);
}

/// In a well-formed store every role row's member identifier lies below
/// the allocator mark.
pub proof fn lemma_role_member_ids_bounded(s: IdentityStore)
    requires
        s.wf(),
    ensures
        forall|k: int|
            0 <= k < s.teachers@.len() ==> (#[trigger] s.teachers@[k]).member_id < s.next_id,
        forall|k: int|
            0 <= k < s.students@.len() ==> (#[trigger] s.students@[k]).member_id < s.next_id,
{
    assert forall|k: int|
        0 <= k < s.teachers@.len() implies (#[trigger] s.teachers@[k]).member_id < s.next_id by {
        assert(has_member_row(s.members@, s.teachers@[k].member_id));
        let w = choose|i: int|
            0 <= i < s.members@.len() && (#[trigger] s.members@[i]).id == s.teachers@[k].member_id;
        assert(s.members@[w].id < s.next_id);
    }
    assert forall|k: int|
        0 <= k < s.students@.len() implies (#[trigger] s.students@[k]).member_id < s.next_id by {
        assert(has_member_row(s.members@, s.students@[k].member_id));
        let w = choose|i: int|
            0 <= i < s.members@.len() && (#[trigger] s.members@[i]).id == s.students@[k].member_id;
        assert(s.members@[w].id < s.next_id);
    }
}

/// Rows that carry an identifier into a member table keep carrying one in
/// any table that preserves the identifiers of its prefix.
pub proof fn lemma_member_rows_extended(m0: Seq<MemberRow>, m1: Seq<MemberRow>)
    requires
        m0.len() <= m1.len(),
        forall|k: int| 0 <= k < m0.len() ==> (#[trigger] m1[k]).id == m0[k].id,
    ensures
        forall|id: u128| has_member_row(m0, id) ==> has_member_row(m1, id),
{
    assert forall|id: u128| has_member_row(m0, id) implies has_member_row(m1, id) by {
        let w = choose|i: int| 0 <= i < m0.len() && (#[trigger] m0[i]).id == id;
        assert(m1[w].id == id);
    }
}

/// The identity store: the member table, the two role tables keyed by
/// member identifier, and the identifier allocator.
pub struct IdentityStore {
    pub members: Vec<MemberRow>,
    pub teachers: Vec<TeacherRow>,
    pub students: Vec<StudentRow>,
    pub next_id: u128,
}

impl IdentityStore {
    /// Member identifiers are unique and below the allocator mark.
    pub open spec fn members_wf(self) -> bool {
        &&& (forall|i: int, j: int|
            0 <= i < j < self.members@.len() ==> (#[trigger] self.members@[i]).id != (
            #[trigger] self.members@[j]).id)
        &&& (forall|i: int|
            0 <= i < self.members@.len() ==> (#[trigger] self.members@[i]).id < self.next_id)
    }

    /// Every teacher row is backed by a member row, and a member holds at
    /// most one live teacher attachment.
    pub open spec fn teachers_wf(self) -> bool {
        &&& (forall|i: int|
            0 <= i < self.teachers@.len() ==> has_member_row(
                self.members@,
                (#[trigger] self.teachers@[i]).member_id,
            ))
        &&& (forall|i: int, j: int|
            0 <= i < j < self.teachers@.len() ==> !((#[trigger] self.teachers@[i]).is_live() && (
            #[trigger] self.teachers@[j]).is_live() && self.teachers@[i].member_id
                == self.teachers@[j].member_id))
    }

    /// Every student row is backed by a member row, and a member holds at
    /// most one live student attachment.
    pub open spec fn students_wf(self) -> bool {
        &&& (forall|i: int|
            0 <= i < self.students@.len() ==> has_member_row(
                self.members@,
                (#[trigger] self.students@[i]).member_id,
            ))
        &&& (forall|i: int, j: int|
            0 <= i < j < self.students@.len() ==> !((#[trigger] self.students@[i]).is_live() && (
            #[trigger] self.students@[j]).is_live() && self.students@[i].member_id
                == self.students@[j].member_id))
    }

    /// Well-formedness of the whole store.
    pub open spec fn wf(self) -> bool {
        self.members_wf() && self.teachers_wf() && self.students_wf()
    }

    /// A fresh identifier can still be allocated.
    pub open spec fn can_alloc(self) -> bool {
        self.next_id < u128::MAX
    }

    /// An empty store.
    pub fn new() -> (r: IdentityStore)
        ensures
            r.wf(),
            r.members@ =~= Seq::<MemberRow>::empty(),
            r.teachers@ =~= Seq::<TeacherRow>::empty(),
            r.students@ =~= Seq::<StudentRow>::empty(),
            r.can_alloc(),
    {
        IdentityStore { members: Vec::new(), teachers: Vec::new(), students: Vec::new(), next_id: 1 }
    }

    /// Index of the live member row carrying this identifier, if any.
    pub fn live_member_index(&self, id: u128) -> (r: Option<usize>)
        ensures
            match r {
                Some(i) => i < self.members@.len() && self.members@[i as int].id == id
                    && self.members@[i as int].is_live(),
                None => !has_live_member(self.members@, id),
            },
    {
        let mut i: usize = 0;
        while i < self.members.len()
            invariant
                i <= self.members@.len(),
                forall|k: int|
                    0 <= k < i ==> !((#[trigger] self.members@[k]).id == id
                        && self.members@[k].is_live()),
            decreases self.members@.len() - i,
        {
            if self.members[i].id == id && self.members[i].deleted_at.is_none() {
                return Some(i);
            }
            i += 1;
        }
        None
    }

    /// Index of the member row carrying this identifier, live or not.
    pub fn member_index_any(&self, id: u128) -> (r: Option<usize>)
        ensures
            match r {
                Some(i) => i < self.members@.len() && self.members@[i as int].id == id,
                None => !has_member_row(self.members@, id),
            },
    {
        let mut i: usize = 0;
        while i < self.members.len()
            invariant
                i <= self.members@.len(),
                forall|k: int| 0 <= k < i ==> (#[trigger] self.members@[k]).id != id,
            decreases self.members@.len() - i,
        {
            if self.members[i].id == id {
                return Some(i);
            }
            i += 1;
        }
        None
    }

    /// Find a live member by identifier. Soft-deleted rows are invisible.
    pub fn find_member_by_id(&self, id: u128) -> (r: Option<&MemberRow>)
        ensures
            match r {
                Some(m) => m.id == id && m.is_live() && has_live_member(self.members@, id) && exists|
                    i: int,
                | 0 <= i < self.members@.len() && (#[trigger] self.members@[i]) == *m,
                None => !has_live_member(self.members@, id),
            },
    {
        match self.live_member_index(id) {
            Some(i) => Some(&self.members[i]),
            None => None,
        }
    }

    /// Find a live member by national ID number. Soft-deleted rows are
    /// invisible.
    pub fn find_member_by_id_number(&self, id_number: &String) -> (r: Option<&MemberRow>)
        ensures
            match r {
                Some(m) => m.is_live() && (m.info.id_number matches Some(n) && n@ == id_number@)
                    && id_number_taken(self.members@, id_number@) && exists|i: int|
                    0 <= i < self.members@.len() && (#[trigger] self.members@[i]) == *m,
                None => !id_number_taken(self.members@, id_number@),
            },
    {
        let mut i: usize = 0;
        while i < self.members.len()
            invariant
                i <= self.members@.len(),
                forall|k: int|
                    0 <= k < i ==> !((#[trigger] self.members@[k]).is_live() && (
                    self.members@[k].info.id_number matches Some(m) && m@ == id_number@)),
            decreases self.members@.len() - i,
        {
            if self.members[i].deleted_at.is_none() {
                match self.members[i].info.id_number.as_ref() {
                    Some(n) => {
                        if *n == *id_number {
                            return Some(&self.members[i]);
                        }
                    },
                    None => {},
                }
            }
            i += 1;
        }
        None
    }

    /// The name held by the member row carrying this identifier, if any
    /// row does, live or not.
    pub fn member_name(&self, id: u128) -> (r: Option<String>)
        ensures
            match r {
                Some(n) => exists|i: int|
                    0 <= i < self.members@.len() && (#[trigger] self.members@[i]).id == id
                        && self.members@[i].info.name@ == n@,
                None => !has_member_row(self.members@, id),
            },
    {
        match self.member_index_any(id) {
            Some(i) => Some(self.members[i].info.name.clone()),
            None => None,
        }
    }

    /// Create or reuse a member for a role attachment. A present key that
    /// resolves to a live member has every base field replaced from the
    /// payload and an update time stamped; otherwise a fresh member is
    /// inserted from the payload. Returns the identifier of the member
    /// written.
    pub fn upsert_member_with_context(
        &mut self,
        member_id: Option<u128>,
        dto: MemberDto,
        now: i64,
    ) -> (r: Result<u128, AppError>)
        requires
            old(self).wf(),
        ensures
            final(self).wf(),
            final(self).teachers == old(self).teachers,
            final(self).students == old(self).students,
            r is Err ==> *final(self) == *old(self),
            r is Err <==> !resolves_live(old(self).members@, member_id) && !old(self).can_alloc(),
            r is Err ==> r == Err::<u128, AppError>(AppError::Storage),
            r is Ok ==> r == Ok::<u128, AppError>(upserted_member_id(*old(self), member_id))
                && member_upserted(
                *old(self),
                final(self).members@,
                final(self).next_id,
                member_id,
                dto,
                now,
            ),
    {
        let idx = match member_id {
            Some(id) => self.live_member_index(id),
            None => None,
        };
        match idx {
            Some(i) => {
                let row_id = self.members[i].id;
                let row_created = self.members[i].created_at;
                let updated = MemberRow {
                    id: row_id,
                    info: dto,
                    created_at: row_created,
                    updated_at: now,
                    deleted_at: None,
                };
                self.members.set(i, updated);
                proof {
                    lemma_member_rows_extended(old(self).members@, self.members@);
                }
                Ok(row_id)
            },
            None => {
                if self.next_id == u128::MAX {
                    return Err(AppError::Storage);
                }
                let id = self.next_id;
                self.members.push(
                    MemberRow { id, info: dto, created_at: now, updated_at: now, deleted_at: None },
                );
                self.next_id = id + 1;
                proof {
                    lemma_member_rows_extended(old(self).members@, self.members@);
                }
                Ok(id)
            },
        }
    }

    /// Insert a standalone member. The payload is validated first; a
    /// national ID number already used by a live member is a conflict.
    pub fn add_member(&mut self, req: UpsertMemberRequest, now: i64) -> (r: Result<u128, AppError>)
        requires
            old(self).wf(),
        ensures
            final(self).wf(),
            final(self).teachers == old(self).teachers,
            final(self).students == old(self).students,
            r is Err ==> *final(self) == *old(self),
            r == Err::<u128, AppError>(AppError::Validation) <==> !valid_member_dto(req.member_dto),
            r == Err::<u128, AppError>(AppError::Conflict) <==> valid_member_dto(req.member_dto) && (
            req.member_dto.id_number matches Some(n) && id_number_taken(old(self).members@, n@)),
            r == Err::<u128, AppError>(AppError::Storage) <==> valid_member_dto(req.member_dto) && !(
            req.member_dto.id_number matches Some(n) && id_number_taken(old(self).members@, n@))
                && !old(self).can_alloc(),
            r is Ok <==> valid_member_dto(req.member_dto) && !(req.member_dto.id_number matches Some(
                n,
            ) && id_number_taken(old(self).members@, n@)) && old(self).can_alloc(),
            r is Ok ==> {
                &&& r == Ok::<u128, AppError>(old(self).next_id)
                &&& final(self).next_id == old(self).next_id + 1
                &&& final(self).members@ == old(self).members@.push(
                    (MemberRow {
                        id: old(self).next_id,
                        info: req.member_dto,
                        created_at: now,
                        updated_at: now,
                        deleted_at: None,
                    }),
                )
            },
    {
        if !req.member_dto.validate() {
            return Err(AppError::Validation);
        }
        let taken = match &req.member_dto.id_number {
            Some(n) => self.find_member_by_id_number(n).is_some(),
            None => false,
        };
        if taken {
            return Err(AppError::Conflict);
        }
        self.upsert_member_with_context(None, req.member_dto, now)
    }

    /// Replace a member's base fields, or create the member when the
    /// identifier resolves to nothing live. Returns the written fields.
    pub fn update_member(&mut self, member_id: u128, req: UpsertMemberRequest, now: i64) -> (r:
        Result<MemberView, AppError>)
        requires
            old(self).wf(),
        ensures
            final(self).wf(),
            final(self).teachers == old(self).teachers,
            final(self).students == old(self).students,
            r is Err ==> *final(self) == *old(self),
            r == Err::<MemberView, AppError>(AppError::Validation) <==> !valid_member_dto(
                req.member_dto,
            ),
            r == Err::<MemberView, AppError>(AppError::Storage) <==> valid_member_dto(req.member_dto)
                && !has_live_member(old(self).members@, member_id) && !old(self).can_alloc(),
            r matches Ok(v) ==> v.member_dto == req.member_dto,
            valid_member_dto(req.member_dto) && has_live_member(old(self).members@, member_id)
                ==> r is Ok && final(self).next_id == old(self).next_id && exists|i: int|
                {
                    &&& 0 <= i < old(self).members@.len()
                    &&& (#[trigger] old(self).members@[i]).id == member_id
                    &&& old(self).members@[i].is_live()
                    &&& final(self).members@ == old(self).members@.update(
                        i,
                        (MemberRow {
                            id: member_id,
                            info: req.member_dto,
                            created_at: old(self).members@[i].created_at,
                            updated_at: now,
                            deleted_at: None,
                        }),
                    )
                },
            valid_member_dto(req.member_dto) && !has_live_member(old(self).members@, member_id)
                && old(self).can_alloc() ==> r is Ok && final(self).next_id == old(self).next_id + 1
                && final(self).members@ == old(self).members@.push(
                (MemberRow {
                    id: old(self).next_id,
                    info: req.member_dto,
                    created_at: now,
                    updated_at: now,
                    deleted_at: None,
                }),
            ),
    {
        if !req.member_dto.validate() {
            return Err(AppError::Validation);
        }
        let view_dto = req.member_dto.duplicate();
        match self.upsert_member_with_context(Some(member_id), req.member_dto, now) {
            Ok(_) => Ok(MemberView { member_dto: view_dto }),
            Err(e) => Err(e),
        }
    }

    /// Soft-delete a member: stamp the deletion and update times. The row
    /// stays in the store but becomes invisible to every read.
    pub fn delete_member(&mut self, member_id: u128, now: i64) -> (r: Result<(), AppError>)
        requires
            old(self).wf(),
        ensures
            final(self).wf(),
            final(self).teachers == old(self).teachers,
            final(self).students == old(self).students,
            final(self).next_id == old(self).next_id,
            r is Err ==> *final(self) == *old(self),
            r is Err <==> !has_live_member(old(self).members@, member_id),
            r is Err ==> r == Err::<(), AppError>(AppError::NotFound),
            r is Ok ==> exists|i: int|
                {
                    &&& 0 <= i < old(self).members@.len()
                    &&& (#[trigger] old(self).members@[i]).id == member_id
                    &&& old(self).members@[i].is_live()
                    &&& final(self).members@ == old(self).members@.update(
                        i,
                        (MemberRow {
                            id: member_id,
                            info: old(self).members@[i].info,
                            created_at: old(self).members@[i].created_at,
                            updated_at: now,
                            deleted_at: Some(now),
                        }),
                    )
                },
            r is Ok ==> !has_live_member(final(self).members@, member_id),
    {
        match self.live_member_index(member_id) {
            Some(i) => {
                let row_id = self.members[i].id;
                let row_created = self.members[i].created_at;
                let info = self.members[i].info.duplicate();
                let updated = MemberRow {
                    id: row_id,
                    info,
                    created_at: row_created,
                    updated_at: now,
                    deleted_at: Some(now),
                };
                self.members.set(i, updated);
                proof {
                    lemma_member_rows_extended(old(self).members@, self.members@);
                }
                Ok(())
            },
            None => Err(AppError::NotFound),
        }
    }

    /// List the live members. Soft-deleted rows never appear.
    pub fn get_members(&self) -> (r: Vec<MemberView>)
        ensures
            r@.len() == live_members(self.members@).len(),
            forall|k: int|
                0 <= k < r@.len() ==> (#[trigger] r@[k]).member_dto == live_members(
                    self.members@,
                )[k].info,
    {
        let mut result: Vec<MemberView> = Vec::new();
        let mut i: usize = 0;
        while i < self.members.len()
            invariant
                i <= self.members@.len(),
                result@.len() == live_members(self.members@.subrange(0, i as int)).len(),
                forall|k: int|
                    0 <= k < result@.len() ==> (#[trigger] result@[k]).member_dto == live_members(
                        self.members@.subrange(0, i as int),
                    )[k].info,
            decreases self.members@.len() - i,
        {
            let ghost pre = self.members@.subrange(0, i as int);
            let ghost elem = self.members@[i as int];
            if self.members[i].deleted_at.is_none() {
                result.push(MemberView { member_dto: self.members[i].info.duplicate() });
            }
            proof {
                pre.lemma_filter_push(elem, member_live_pred());
                assert(self.members@.subrange(0, i as int + 1) =~= pre.push(elem));
            }
            i += 1;
        }
        proof {
            assert(self.members@.subrange(0, self.members@.len() as int) =~= self.members@);
        }
        result
    }
}

} // verus!
