use after_school::identity::IdentityStore;
use after_school::member::{MemberDto, UpsertMemberRequest};
use after_school::response::AppError;
use after_school::roles::{Claims, EmploymentType, RoleType};
use after_school::student::{AddStudentRequest, StudentDto, UpdateStudentRequest};
use after_school::teacher::AddTeacherRequest;

fn member_dto(name: &str) -> MemberDto {
    MemberDto {
        name: name.to_string(),
        id_number: None,
        gender: Some(1),
        birth_date: None,
        home_phone_number: None,
        mobile_phone_number: None,
        address: None,
        title: None,
        line_id: None,
        comment: None,
        joined_at: 1_700_000_000,
    }
}

fn student_dto() -> StudentDto {
    StudentDto {
        school_name: Some("Elm Street Elementary".to_string()),
        grade: Some(3),
        is_pg: Some(false),
        description: None,
        family_type: None,
        family_members: Some(4),
        breadwinner: None,
        occupation: None,
        subsidy: None,
        home_ownership: None,
        class_joined_at: 1_700_000_000,
    }
}

fn super_admin(sub: u128) -> Claims {
    Claims { sub, role: RoleType::SuperAdmin, exp: 2_000_000_000 }
}

#[test]
fn attach_student_without_key_creates_member_and_role() {
    let mut store = IdentityStore::new();
    let req = AddStudentRequest {
        member_id: None,
        member_dto: member_dto("Lina Chen"),
        student_dto: student_dto(),
    };
    assert!(store.add_student(req, 10).is_ok());
    assert_eq!(store.members.len(), 1);
    assert_eq!(store.students.len(), 1);
    // both rows exist and are linked by the same identifier
    assert_eq!(store.members[0].id, store.students[0].member_id);
    let views = store.get_students();
    assert_eq!(views.len(), 1);
    assert_eq!(views[0].member_id, store.members[0].id);
    assert_eq!(views[0].member_dto.name, "Lina Chen");
}

#[test]
fn attach_student_role_twice_conflicts() {
    let mut store = IdentityStore::new();
    let id = store
        .add_member(UpsertMemberRequest { member_dto: member_dto("Omar Haddad") }, 10)
        .unwrap();
    let first = AddStudentRequest {
        member_id: Some(id),
        member_dto: member_dto("Omar Haddad"),
        student_dto: student_dto(),
    };
    assert!(store.add_student(first, 11).is_ok());
    let second = AddStudentRequest {
        member_id: Some(id),
        member_dto: member_dto("Omar Haddad"),
        student_dto: student_dto(),
    };
    assert_eq!(store.add_student(second, 12), Err(AppError::Conflict));
    // no second role row was created
    assert_eq!(store.students.len(), 1);
}

#[test]
fn attach_student_failure_leaves_no_orphan_member() {
    let mut store = IdentityStore::new();
    let id = store
        .add_member(UpsertMemberRequest { member_dto: member_dto("Ana Flores") }, 10)
        .unwrap();
    let members_before = store.members.len();
    let req = AddStudentRequest {
        member_id: Some(id),
        member_dto: member_dto("a"), // too short: validation failure
        student_dto: student_dto(),
    };
    assert_eq!(store.add_student(req, 11), Err(AppError::Validation));
    assert_eq!(store.members.len(), members_before);
    assert_eq!(store.students.len(), 0);
}

#[test]
fn soft_deleted_student_never_listed_or_found() {
    let mut store = IdentityStore::new();
    let req = AddStudentRequest {
        member_id: None,
        member_dto: member_dto("Satoshi Ito"),
        student_dto: student_dto(),
    };
    store.add_student(req, 10).unwrap();
    let id = store.students[0].member_id;
    assert!(store.delete_student(id, 20).is_ok());
    assert!(store.get_students().is_empty());
    assert!(store.find_student_by_id(id).is_none());
    // the row itself is kept, only marked
    assert_eq!(store.students.len(), 1);
    assert_eq!(store.students[0].deleted_at, Some(20));
}

#[test]
fn duplicate_id_number_is_conflict() {
    let mut store = IdentityStore::new();
    let mut dto = member_dto("Mia Park");
    dto.id_number = Some("A123456789X".to_string());
    store.add_member(UpsertMemberRequest { member_dto: dto }, 10).unwrap();
    let mut dto2 = member_dto("Another Person");
    dto2.id_number = Some("A123456789X".to_string());
    assert_eq!(
        store.add_member(UpsertMemberRequest { member_dto: dto2 }, 11),
        Err(AppError::Conflict)
    );
    assert_eq!(store.members.len(), 1);
}

#[test]
fn short_name_or_id_number_fails_validation() {
    let mut store = IdentityStore::new();
    assert_eq!(
        store.add_member(UpsertMemberRequest { member_dto: member_dto("x") }, 10),
        Err(AppError::Validation)
    );
    let mut dto = member_dto("Valid Name");
    dto.id_number = Some("short".to_string());
    assert_eq!(
        store.add_member(UpsertMemberRequest { member_dto: dto }, 10),
        Err(AppError::Validation)
    );
    assert!(store.members.is_empty());
}

#[test]
fn update_member_replaces_every_base_field() {
    let mut store = IdentityStore::new();
    let mut dto = member_dto("Old Name");
    dto.address = Some("1 Old Road".to_string());
    let id = store.add_member(UpsertMemberRequest { member_dto: dto }, 10).unwrap();
    let fresh = member_dto("New Name"); // address absent: full replace, not merge
    let view = store
        .update_member(id, UpsertMemberRequest { member_dto: fresh }, 20)
        .unwrap();
    assert_eq!(view.member_dto.name, "New Name");
    assert_eq!(store.members[0].info.name, "New Name");
    assert_eq!(store.members[0].info.address, None);
    assert_eq!(store.members[0].updated_at, 20);
    assert_eq!(store.members[0].created_at, 10);
}

#[test]
fn update_member_creates_when_identifier_unknown() {
    let mut store = IdentityStore::new();
    let view = store
        .update_member(42, UpsertMemberRequest { member_dto: member_dto("Ghost Member") }, 10)
        .unwrap();
    assert_eq!(view.member_dto.name, "Ghost Member");
    assert_eq!(store.members.len(), 1);
    assert_ne!(store.members[0].id, 42);
}

#[test]
fn deleted_member_invisible_to_reads() {
    let mut store = IdentityStore::new();
    let id = store
        .add_member(UpsertMemberRequest { member_dto: member_dto("Fleeting One") }, 10)
        .unwrap();
    assert!(store.delete_member(id, 20).is_ok());
    assert!(store.get_members().is_empty());
    assert!(store.find_member_by_id(id).is_none());
    assert_eq!(store.delete_member(id, 30), Err(AppError::NotFound));
}

#[test]
fn add_teacher_requires_super_admin() {
    let mut store = IdentityStore::new();
    let admin = Claims { sub: 99, role: RoleType::Admin, exp: 2_000_000_000 };
    let req = AddTeacherRequest {
        member_id: None,
        username: "teacher1".to_string(),
        password: "password123".to_string(),
        employment_type: EmploymentType::HalfTime,
        responsibility: None,
        background: None,
        member_dto: member_dto("Tess Muller"),
    };
    assert_eq!(store.add_teacher(admin, req, 10), Err(AppError::Permission));
    assert!(store.teachers.is_empty());
}

#[test]
fn add_teacher_rejects_taken_username() {
    let mut store = IdentityStore::new();
    let req = AddTeacherRequest {
        member_id: None,
        username: "shared_name".to_string(),
        password: "password123".to_string(),
        employment_type: EmploymentType::FullTime,
        responsibility: None,
        background: None,
        member_dto: member_dto("First Teacher"),
    };
    assert!(store.add_teacher(super_admin(1), req, 10).is_ok());
    let req2 = AddTeacherRequest {
        member_id: None,
        username: "shared_name".to_string(),
        password: "password456".to_string(),
        employment_type: EmploymentType::FullTime,
        responsibility: None,
        background: None,
        member_dto: member_dto("Second Teacher"),
    };
    assert_eq!(store.add_teacher(super_admin(1), req2, 11), Err(AppError::Conflict));
    assert_eq!(store.teachers.len(), 1);
    // the failed attachment left no member behind either
    assert_eq!(store.members.len(), 1);
}

#[test]
fn attach_teacher_role_twice_conflicts() {
    let mut store = IdentityStore::new();
    let id = store
        .add_member(UpsertMemberRequest { member_dto: member_dto("Ken Adams") }, 10)
        .unwrap();
    let mk = |username: &str| AddTeacherRequest {
        member_id: Some(id),
        username: username.to_string(),
        password: "password123".to_string(),
        employment_type: EmploymentType::FullTime,
        responsibility: None,
        background: None,
        member_dto: member_dto("Ken Adams"),
    };
    assert!(store.add_teacher(super_admin(1), mk("ken_one"), 10).is_ok());
    assert_eq!(store.add_teacher(super_admin(1), mk("ken_two"), 11), Err(AppError::Conflict));
    assert_eq!(store.teachers.len(), 1);
}

#[test]
fn teacher_creation_stores_admin_tier_and_hash() {
    let mut store = IdentityStore::new();
    let req = AddTeacherRequest {
        member_id: None,
        username: "new_teacher".to_string(),
        password: "password123".to_string(),
        employment_type: EmploymentType::HalfTime,
        responsibility: Some("math".to_string()),
        background: None,
        member_dto: member_dto("Hana Suzuki"),
    };
    store.add_teacher(super_admin(1), req, 10).unwrap();
    let t = &store.teachers[0];
    // creation always stores the ordinary tier and full-time kind
    assert_eq!(t.role_type, RoleType::Admin);
    assert_eq!(t.employment_type, EmploymentType::FullTime);
    // the plaintext is never stored
    assert_ne!(t.password_hash, "password123");
}

#[test]
fn delete_teacher_gated_and_soft() {
    let mut store = IdentityStore::new();
    let req = AddTeacherRequest {
        member_id: None,
        username: "leaving".to_string(),
        password: "password123".to_string(),
        employment_type: EmploymentType::FullTime,
        responsibility: None,
        background: None,
        member_dto: member_dto("Short Stay"),
    };
    store.add_teacher(super_admin(1), req, 10).unwrap();
    let tid = store.teachers[0].member_id;
    let admin = Claims { sub: tid, role: RoleType::Admin, exp: 2_000_000_000 };
    assert_eq!(store.delete_teacher(admin, tid, 20), Err(AppError::Permission));
    assert!(store.delete_teacher(super_admin(1), tid, 20).is_ok());
    assert!(store.get_teachers().is_empty());
    assert!(store.find_teacher_by_id(tid).is_none());
    assert_eq!(store.teachers.len(), 1);
    assert_eq!(store.delete_teacher(super_admin(1), tid, 21), Err(AppError::NotFound));
}

#[test]
fn teacher_views_join_member_base_fields() {
    let mut store = IdentityStore::new();
    let mut dto = member_dto("Join Me");
    dto.address = Some("12 School Lane".to_string());
    let req = AddTeacherRequest {
        member_id: None,
        username: "joined".to_string(),
        password: "password123".to_string(),
        employment_type: EmploymentType::FullTime,
        responsibility: None,
        background: None,
        member_dto: dto,
    };
    store.add_teacher(super_admin(1), req, 10).unwrap();
    let views = store.get_teachers();
    assert_eq!(views.len(), 1);
    assert_eq!(views[0].username, "joined");
    assert_eq!(views[0].member_id, store.members[0].id);
    assert_eq!(views[0].member_dto.name, "Join Me");
    assert_eq!(views[0].member_dto.address, Some("12 School Lane".to_string()));
}

#[test]
fn update_student_replaces_fields_and_keeps_key() {
    let mut store = IdentityStore::new();
    let req = AddStudentRequest {
        member_id: None,
        member_dto: member_dto("Grow Ing"),
        student_dto: student_dto(),
    };
    store.add_student(req, 10).unwrap();
    let id = store.students[0].member_id;
    let mut new_student = student_dto();
    new_student.grade = Some(4);
    new_student.school_name = None;
    let view = store
        .update_student(
            id,
            UpdateStudentRequest { member_dto: member_dto("Grow Ing"), student_dto: new_student },
            20,
        )
        .unwrap();
    assert_eq!(view.member_id, id);
    assert_eq!(view.student_dto.grade, Some(4));
    assert_eq!(store.students[0].info.grade, Some(4));
    // full replace: the school name is gone, not merged
    assert_eq!(store.students[0].info.school_name, None);
    assert_eq!(store.students[0].updated_at, 20);
}

#[test]
fn exhausted_identifier_allocator_is_a_storage_failure() {
    let mut store = IdentityStore {
        members: Vec::new(),
        teachers: Vec::new(),
        students: Vec::new(),
        next_id: u128::MAX,
    };
    assert_eq!(
        store.add_member(UpsertMemberRequest { member_dto: member_dto("No Room Left") }, 10),
        Err(AppError::Storage)
    );
    assert!(store.members.is_empty());
}

#[test]
fn update_missing_student_not_found() {
    let mut store = IdentityStore::new();
    let req = UpdateStudentRequest { member_dto: member_dto("No Body"), student_dto: student_dto() };
    assert!(matches!(store.update_student(5, req, 10), Err(AppError::NotFound)));
}
