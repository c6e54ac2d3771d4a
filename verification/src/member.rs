//! The base identity record shared by all people in the system, and its
//! request/view shapes.

use vstd::prelude::*;

verus! {

/// The mutable base fields of a member. Timestamps are unix seconds.
#[derive(Clone, Debug)]
pub struct MemberDto {
    pub name: String,
    pub id_number: Option<String>,
    pub gender: Option<i16>,
    pub birth_date: Option<i64>,
    pub home_phone_number: Option<String>,
    pub mobile_phone_number: Option<String>,
    pub address: Option<String>,
    pub title: Option<String>,
    pub line_id: Option<String>,
    pub comment: Option<String>,
    pub joined_at: i64,
}

/// Field-level rules for member payloads: the name has at least two
/// characters, and a national ID number, when given, at least ten.
pub open spec fn valid_member_dto(d: MemberDto) -> bool {
    &&& d.name@.len() >= 2
    &&& (d.id_number matches Some(n) ==> n@.len() >= 10)
}

/// Copy an optional string, field for field.
pub fn clone_opt_string(s: &Option<String>) -> (r: Option<String>)
    ensures
        r == *s,
{
    match s {
        Some(x) => Some(x.clone()),
        None => None,
    }
}

impl MemberDto {
    /// Copy the payload, field for field.
    pub fn duplicate(&self) -> (r: MemberDto)
        ensures
            r == *self,
    {
        MemberDto {
            name: self.name.clone(),
            id_number: clone_opt_string(&self.id_number),
            gender: self.gender,
            birth_date: self.birth_date,
            home_phone_number: clone_opt_string(&self.home_phone_number),
            mobile_phone_number: clone_opt_string(&self.mobile_phone_number),
            address: clone_opt_string(&self.address),
            title: clone_opt_string(&self.title),
            line_id: clone_opt_string(&self.line_id),
            comment: clone_opt_string(&self.comment),
            joined_at: self.joined_at,
        }
    }

    /// Decide the field-level rules for this payload.
    pub fn validate(&self) -> (r: bool)
        ensures
            r == valid_member_dto(*self),
    {
        if self.name.as_str().unicode_len() < 2 {
            return false;
        }
        match &self.id_number {
            Some(n) => n.as_str().unicode_len() >= 10,
            None => true,
        }
    }
}

/// A stored member row: the identifier, the base fields, and the lifecycle
/// timestamps. A row is live while `deleted_at` is absent.
#[derive(Clone, Debug)]
pub struct MemberRow {
    pub id: u128,
    pub info: MemberDto,
    pub created_at: i64,
    pub updated_at: i64,
    pub deleted_at: Option<i64>,
}

impl MemberRow {
    /// A row is live until it is soft-deleted.
    pub open spec fn is_live(self) -> bool {
        self.deleted_at is None
    }
}

/// Payload for creating or replacing a member's base fields.
pub struct UpsertMemberRequest {
    pub member_dto: MemberDto,
}

/// Read shape of a member: its base fields.
pub struct MemberView {
    pub member_dto: MemberDto,
}

} // verus!
