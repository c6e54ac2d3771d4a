//! Role tiers and employment kinds for teacher records, and the decoded
//! identity claim that accompanies every authenticated request.

use vstd::prelude::*;

verus! {

/// Role tier of a teacher account. The storage layer keeps it as a small
/// integer code.
#[derive(Clone, Copy, Debug, PartialEq, Eq, Structural)]
pub enum RoleType {
    SuperAdmin,
    Admin,
}

impl RoleType {
    /// The integer code a role tier is stored under.
    pub open spec fn spec_code(self) -> i16 {
        match self {
            RoleType::SuperAdmin => 0,
            RoleType::Admin => 1,
        }
    }

    /// Encode the role tier as its storage code.
    pub fn code(self) -> (r: i16)
        ensures
            r == self.spec_code(),
    {
        match self {
            RoleType::SuperAdmin => 0,
            RoleType::Admin => 1,
        }
    }

    /// Decode a storage code; codes outside the known range are rejected.
    pub fn from_code(code: i16) -> (r: Option<RoleType>)
        ensures
            r == Some(RoleType::SuperAdmin) <==> code == 0,
            r == Some(RoleType::Admin) <==> code == 1,
            r is None <==> code != 0 && code != 1,
    {
        match code {
            0 => Some(RoleType::SuperAdmin),
            1 => Some(RoleType::Admin),
            _ => None,
        }
    }
}

/// Employment kind of a teacher. Stored as a small integer code; unknown
/// codes decode to `Volunteer`.
#[derive(Clone, Copy, Debug, PartialEq, Eq, Structural)]
pub enum EmploymentType {
    FullTime,
    HalfTime,
    Volunteer,
}

impl EmploymentType {
    /// The integer code an employment kind is stored under.
    pub open spec fn spec_code(self) -> i16 {
        match self {
            EmploymentType::FullTime => 0,
            EmploymentType::HalfTime => 1,
            EmploymentType::Volunteer => 2,
        }
    }

    /// Encode the employment kind as its storage code.
    pub fn code(self) -> (r: i16)
        ensures
            r == self.spec_code(),
    {
        match self {
            EmploymentType::FullTime => 0,
            EmploymentType::HalfTime => 1,
            EmploymentType::Volunteer => 2,
        }
    }

    /// Decode a storage code, mapping every unknown code to `Volunteer`.
    pub fn from_code(code: i16) -> (r: EmploymentType)
        ensures
            code == 0 ==> r == EmploymentType::FullTime,
            code == 1 ==> r == EmploymentType::HalfTime,
            code != 0 && code != 1 ==> r == EmploymentType::Volunteer,
    {
        match code {
            0 => EmploymentType::FullTime,
            1 => EmploymentType::HalfTime,
            _ => EmploymentType::Volunteer,
        }
    }
}

/// A decoded, already verified identity claim, handed to the core as plain
/// data. The core never decodes tokens itself.
#[derive(Clone, Copy, Debug)]
pub struct Claims {
    /// Identifier of the acting member.
    pub sub: u128,
    /// Role tier the actor holds.
    pub role: RoleType,
    /// Expiry of the claim, as a unix timestamp in seconds.
    pub exp: i64,
}

} // verus!
