use after_school::announcement::{AnnouncementStore, UpsertAnnouncementRequest};
use after_school::auth::LoginRequest;
use after_school::identity::IdentityStore;
use after_school::member::MemberDto;
use after_school::permission::{authorize, require_super_admin};
use after_school::response::{AppError, AppResponse};
use after_school::roles::{Claims, EmploymentType, RoleType};
use after_school::teacher::{AddTeacherRequest, UpdateTeacherRequest};

fn member_dto(name: &str) -> MemberDto {
    MemberDto {
        name: name.to_string(),
        id_number: None,
        gender: None,
        birth_date: None,
        home_phone_number: None,
        mobile_phone_number: None,
        address: None,
        title: None,
        line_id: None,
        comment: None,
        joined_at: 1_700_000_000,
    }
}

fn super_admin(sub: u128) -> Claims {
    Claims { sub, role: RoleType::SuperAdmin, exp: 2_000_000_000 }
}

fn seeded_store() -> (IdentityStore, u128) {
    let mut store = IdentityStore::new();
    let req = AddTeacherRequest {
        member_id: None,
        username: "homeroom".to_string(),
        password: "correct horse".to_string(),
        employment_type: EmploymentType::FullTime,
        responsibility: None,
        background: None,
        member_dto: member_dto("Joan Rivers"),
    };
    store.add_teacher(super_admin(1), req, 10).unwrap();
    let id = store.teachers[0].member_id;
    (store, id)
}

#[test]
fn authorize_rules() {
    // a super administrator may always act
    assert!(authorize(10, RoleType::SuperAdmin, 20));
    // an ordinary administrator only on what they own
    assert!(authorize(10, RoleType::Admin, 10));
    assert!(!authorize(10, RoleType::Admin, 20));
    // the stricter gate ignores ownership entirely
    assert!(require_super_admin(RoleType::SuperAdmin));
    assert!(!require_super_admin(RoleType::Admin));
}

#[test]
fn login_accepts_the_right_password_only() {
    let (store, id) = seeded_store();
    let good = LoginRequest { username: "homeroom".to_string(), password: "correct horse".to_string() };
    assert_eq!(store.login_check(&good), Some((id, RoleType::Admin)));
    let bad = LoginRequest { username: "homeroom".to_string(), password: "wrong horse".to_string() };
    assert_eq!(store.login_check(&bad), None);
    let ghost = LoginRequest { username: "nobody".to_string(), password: "correct horse".to_string() };
    assert_eq!(store.login_check(&ghost), None);
}

#[test]
fn login_ignores_deleted_teachers() {
    let (mut store, id) = seeded_store();
    store.delete_teacher(super_admin(1), id, 20).unwrap();
    let req = LoginRequest { username: "homeroom".to_string(), password: "correct horse".to_string() };
    assert_eq!(store.login_check(&req), None);
}

#[test]
fn me_lookup_joins_teacher_and_member() {
    let (store, id) = seeded_store();
    let me = store
        .me_lookup(Claims { sub: id, role: RoleType::Admin, exp: 123 })
        .unwrap();
    assert_eq!(me.id, id);
    assert_eq!(me.username, "homeroom");
    assert_eq!(me.name, "Joan Rivers");
    assert_eq!(me.role, RoleType::Admin);
    assert_eq!(me.exp, 123);
    assert!(store.me_lookup(Claims { sub: id + 1, role: RoleType::Admin, exp: 123 }).is_none());
}

#[test]
fn init_admin_bootstraps_once() {
    let mut store = IdentityStore::new();
    let created = store
        .init_admin("Root".to_string(), "root".to_string(), "root-password".to_string(), 5)
        .unwrap();
    assert!(created);
    assert_eq!(store.teachers[0].role_type, RoleType::SuperAdmin);
    let req = LoginRequest { username: "root".to_string(), password: "root-password".to_string() };
    assert!(store.login_check(&req).is_some());
    // a second run is a no-op
    let again = store
        .init_admin("Root".to_string(), "root2".to_string(), "other-password".to_string(), 6)
        .unwrap();
    assert!(!again);
    assert_eq!(store.teachers.len(), 1);
    assert_eq!(store.members.len(), 1);
}

#[test]
fn bootstrap_on_exhausted_allocator_is_a_storage_failure() {
    let mut store = IdentityStore {
        members: Vec::new(),
        teachers: Vec::new(),
        students: Vec::new(),
        next_id: u128::MAX,
    };
    assert_eq!(
        store.init_admin("Root".to_string(), "root".to_string(), "root-password".to_string(), 5),
        Err(AppError::Storage)
    );
    assert!(store.teachers.is_empty());
    assert!(store.members.is_empty());
}

#[test]
fn teacher_self_update_allowed_and_stranger_denied() {
    let (mut store, id) = seeded_store();
    let update = |pw: Option<&str>| UpdateTeacherRequest {
        password: pw.map(|p| p.to_string()),
        employment_type: EmploymentType::HalfTime,
        responsibility: Some("homework club".to_string()),
        background: None,
        member_dto: member_dto("Joan Rivers"),
    };
    let stranger = Claims { sub: id + 7, role: RoleType::Admin, exp: 2_000_000_000 };
    assert!(matches!(
        store.update_teacher(stranger, id, update(None), 20),
        Err(AppError::Permission)
    ));
    let myself = Claims { sub: id, role: RoleType::Admin, exp: 2_000_000_000 };
    let view = store.update_teacher(myself, id, update(None), 21).unwrap();
    assert_eq!(view.employment_type, EmploymentType::HalfTime);
    assert_eq!(view.responsibility, Some("homework club".to_string()));
    // without a new password the credential is unchanged
    let req = LoginRequest { username: "homeroom".to_string(), password: "correct horse".to_string() };
    assert!(store.login_check(&req).is_some());
}

#[test]
fn teacher_password_change_takes_effect() {
    let (mut store, id) = seeded_store();
    let req = UpdateTeacherRequest {
        password: Some("fresh secret".to_string()),
        employment_type: EmploymentType::FullTime,
        responsibility: None,
        background: None,
        member_dto: member_dto("Joan Rivers"),
    };
    store.update_teacher(super_admin(1), id, req, 20).unwrap();
    let old = LoginRequest { username: "homeroom".to_string(), password: "correct horse".to_string() };
    assert_eq!(store.login_check(&old), None);
    let new = LoginRequest { username: "homeroom".to_string(), password: "fresh secret".to_string() };
    assert!(store.login_check(&new).is_some());
}

#[test]
fn short_replacement_password_fails_validation() {
    let (mut store, id) = seeded_store();
    let req = UpdateTeacherRequest {
        password: Some("short".to_string()),
        employment_type: EmploymentType::FullTime,
        responsibility: None,
        background: None,
        member_dto: member_dto("Joan Rivers"),
    };
    assert!(matches!(
        store.update_teacher(super_admin(1), id, req, 20),
        Err(AppError::Validation)
    ));
}

#[test]
fn announcements_are_owner_or_super_admin_gated() {
    let mut anns = AnnouncementStore::new();
    let identity = IdentityStore::new();
    let author = Claims { sub: 5, role: RoleType::Admin, exp: 2_000_000_000 };
    let id = anns
        .add_announcement(
            author,
            UpsertAnnouncementRequest { title: "Picnic".to_string(), content: "Friday".to_string() },
            10,
        )
        .unwrap();
    let stranger = Claims { sub: 6, role: RoleType::Admin, exp: 2_000_000_000 };
    let rewrite = || UpsertAnnouncementRequest {
        title: "Picnic moved".to_string(),
        content: "Saturday".to_string(),
    };
    assert!(matches!(
        anns.update_announcement(stranger, id, rewrite(), &identity, 20),
        Err(AppError::Permission)
    ));
    assert!(matches!(anns.delete_announcement(stranger, id, 20), Err(AppError::Permission)));
    let view = anns.update_announcement(author, id, rewrite(), &identity, 21).unwrap();
    assert_eq!(view.title, "Picnic moved");
    assert_eq!(view.updated_at, 21);
    // a super administrator may always act
    assert!(anns.delete_announcement(super_admin(99), id, 22).is_ok());
    assert!(anns.get_announcements(&identity).is_empty());
    assert!(matches!(
        anns.update_announcement(author, id, rewrite(), &identity, 23),
        Err(AppError::NotFound)
    ));
}

#[test]
fn announcement_views_join_publisher_names() {
    let mut anns = AnnouncementStore::new();
    let mut identity = IdentityStore::new();
    let member_id = identity
        .add_member(
            after_school::member::UpsertMemberRequest { member_dto: member_dto("Publisher P") },
            5,
        )
        .unwrap();
    let author = Claims { sub: member_id, role: RoleType::Admin, exp: 2_000_000_000 };
    anns.add_announcement(
        author,
        UpsertAnnouncementRequest { title: "Hello".to_string(), content: "World".to_string() },
        10,
    )
    .unwrap();
    let views = anns.get_announcements(&identity);
    assert_eq!(views.len(), 1);
    assert_eq!(views[0].name, "Publisher P");
    assert_eq!(views[0].title, "Hello");
}

#[test]
fn error_kinds_map_to_uniform_status_codes() {
    assert_eq!(AppError::Validation.status_code(), 400);
    assert_eq!(AppError::Permission.status_code(), 403);
    assert_eq!(AppError::NotFound.status_code(), 404);
    assert_eq!(AppError::Conflict.status_code(), 409);
    assert_eq!(AppError::Storage.status_code(), 500);
}

#[test]
fn response_envelope_carries_message_and_data() {
    let ok: AppResponse<u32> = AppResponse::success_with_data(7);
    assert_eq!(ok.message, "OK");
    assert_eq!(ok.data, Some(7));
    let plain: AppResponse<u32> = AppResponse::success("done".to_string());
    assert_eq!(plain.message, "done");
    assert_eq!(plain.data, None);
    let (kind, body) = AppResponse::<u32>::error(AppError::Conflict, "taken".to_string());
    assert_eq!(kind, AppError::Conflict);
    assert_eq!(body.message, "taken");
    assert_eq!(body.data, None);
}

#[test]
fn role_codes_round_trip_and_unknown_codes_are_handled() {
    assert_eq!(RoleType::SuperAdmin.code(), 0);
    assert_eq!(RoleType::Admin.code(), 1);
    assert_eq!(RoleType::from_code(0), Some(RoleType::SuperAdmin));
    assert_eq!(RoleType::from_code(1), Some(RoleType::Admin));
    assert_eq!(RoleType::from_code(7), None);
    assert_eq!(EmploymentType::FullTime.code(), 0);
    assert_eq!(EmploymentType::HalfTime.code(), 1);
    assert_eq!(EmploymentType::Volunteer.code(), 2);
    assert_eq!(EmploymentType::from_code(1), EmploymentType::HalfTime);
    // unknown employment codes decode to the volunteer kind
    assert_eq!(EmploymentType::from_code(42), EmploymentType::Volunteer);
}
