use after_school::grades::{GradeStore, UpsertStudentGradeRequest};
use after_school::identity::IdentityStore;
use after_school::member::{MemberDto, UpsertMemberRequest};
use after_school::response::AppError;
use after_school::student_info::{
    StudentExamDto, StudentInfoDto, StudentInfoStore, UpsertStudentInfoRequest,
};

fn member_dto(name: &str) -> MemberDto {
    MemberDto {
        name: name.to_string(),
        id_number: None,
        gender: None,
        birth_date: None,
        home_phone_number: None,
        mobile_phone_number: None,
        address: None,
        title: None,
        line_id: None,
        comment: None,
        joined_at: 1_700_000_000,
    }
}

fn grade_req(student_id: u128, year: i16, semester: i16) -> UpsertStudentGradeRequest {
    UpsertStudentGradeRequest {
        student_id,
        academic_year: year,
        semester,
        exam_type: 0,
        chinese_book: Some("reader one".to_string()),
        english_book: None,
        math_book: None,
        science_book: None,
        social_studies_book: None,
        chinese_score: Some(80),
        english_score: Some(70),
        math_score: None,
        science_score: None,
        social_studies_score: None,
        comment: Some("steady".to_string()),
    }
}

fn exam(semester: i16, exam_type: i16, chinese: i16) -> StudentExamDto {
    StudentExamDto {
        semester,
        exam_type,
        chinese_score: Some(chinese),
        english_score: None,
        math_score: None,
        science_score: None,
        social_studies_score: None,
    }
}

fn info_req(year: i16, exams: [StudentExamDto; 2]) -> UpsertStudentInfoRequest {
    UpsertStudentInfoRequest {
        info_dto: StudentInfoDto {
            academic_year: year,
            chinese_book: Some("book a".to_string()),
            english_book: None,
            math_book: None,
            science_book: None,
            social_studies_book: None,
            comment: None,
        },
        exams_dto: exams,
    }
}

#[test]
fn duplicate_grade_slot_is_conflict_and_no_second_row() {
    let mut grades = GradeStore::new();
    assert!(grades.add_grades(grade_req(5, 2024, 1), 10).is_ok());
    assert!(matches!(grades.add_grades(grade_req(5, 2024, 1), 11), Err(AppError::Conflict)));
    assert_eq!(grades.rows.len(), 1);
    // a different semester is a different slot
    assert!(grades.add_grades(grade_req(5, 2024, 2), 12).is_ok());
    assert_eq!(grades.rows.len(), 2);
}

#[test]
fn soft_deleted_grade_frees_the_slot() {
    let mut grades = GradeStore::new();
    let id = grades.add_grades(grade_req(5, 2024, 1), 10).unwrap();
    grades.delete_grades(id, 20).unwrap();
    let identity = IdentityStore::new();
    assert!(grades.get_grades(&identity).is_empty());
    assert!(grades.find_student_grade_by_id(id).is_none());
    // the pre-check only sees live rows, so the slot can be filled again
    assert!(grades.add_grades(grade_req(5, 2024, 1), 30).is_ok());
}

#[test]
fn update_grades_merges_optional_fields() {
    let mut grades = GradeStore::new();
    let identity = IdentityStore::new();
    let id = grades.add_grades(grade_req(5, 2024, 1), 10).unwrap();
    let patch = UpsertStudentGradeRequest {
        student_id: 5,
        academic_year: 2025,
        semester: 2,
        exam_type: 9, // ignored by updates
        chinese_book: None,
        english_book: Some("new english book".to_string()),
        math_book: None,
        science_book: None,
        social_studies_book: None,
        chinese_score: Some(95),
        english_score: None,
        math_score: None,
        science_score: None,
        social_studies_score: None,
        comment: Some("ignored by updates".to_string()),
    };
    let view = grades.update_grades(id, patch, &identity, 20).unwrap();
    let row = &grades.rows[0];
    // replaced outright
    assert_eq!(row.academic_year, 2025);
    assert_eq!(row.semester, 2);
    // merged: a supplied value wins, an absent one keeps the old value
    assert_eq!(row.chinese_score, Some(95));
    assert_eq!(row.english_score, Some(70));
    assert_eq!(row.chinese_book, Some("reader one".to_string()));
    assert_eq!(row.english_book, Some("new english book".to_string()));
    // never touched by updates
    assert_eq!(row.exam_type, 0);
    assert_eq!(row.comment, Some("steady".to_string()));
    // the view mirrors the row, with the comment left out
    assert_eq!(view.academic_year, 2025);
    assert_eq!(view.chinese_score, Some(95));
    assert_eq!(view.comment, None);
    assert_eq!(view.updated_at, 20);
}

#[test]
fn update_missing_grade_is_not_found() {
    let mut grades = GradeStore::new();
    let identity = IdentityStore::new();
    assert!(matches!(
        grades.update_grades(77, grade_req(5, 2024, 1), &identity, 10),
        Err(AppError::NotFound)
    ));
}

#[test]
fn grade_views_carry_member_names() {
    let mut grades = GradeStore::new();
    let mut identity = IdentityStore::new();
    let member_id = identity
        .add_member(UpsertMemberRequest { member_dto: member_dto("Named Student") }, 5)
        .unwrap();
    grades.add_grades(grade_req(member_id, 2024, 1), 10).unwrap();
    grades.add_grades(grade_req(9999, 2024, 1), 11).unwrap();
    let views = grades.get_grades(&identity);
    assert_eq!(views.len(), 2);
    assert_eq!(views[0].name, "Named Student");
    assert_eq!(views[1].name, "unknown");
}

#[test]
fn info_upsert_keeps_children_absent_from_payload() {
    let mut infos = StudentInfoStore::new();
    let identity = IdentityStore::new();
    let info_id = infos
        .add_student_infos(3, info_req(2024, [exam(1, 0, 60), exam(2, 0, 65)]), 10)
        .unwrap();
    assert_eq!(infos.exams.len(), 2);
    // a later update supplying only semester-1 slots
    let view = infos
        .update_student_infos(3, info_req(2024, [exam(1, 0, 90), exam(1, 1, 85)]), &identity, 20)
        .unwrap();
    assert_eq!(view.id, info_id);
    assert_eq!(view.name, "unknown");
    assert_eq!(view.exams_dto, vec![exam(1, 0, 90), exam(1, 1, 85)]);
    assert_eq!(infos.exams.len(), 3);
    // the matching semester-1 child was overwritten in place
    assert_eq!(infos.exams[0].info_id, info_id);
    assert_eq!(infos.exams[0].semester, 1);
    assert_eq!(infos.exams[0].chinese_score, Some(90));
    assert_eq!(infos.exams[0].updated_at, 20);
    // the semester-2 child was left exactly as it was
    assert_eq!(infos.exams[1].semester, 2);
    assert_eq!(infos.exams[1].chinese_score, Some(65));
    assert_eq!(infos.exams[1].updated_at, 10);
    // the unmatched payload entry was inserted as a new child
    assert_eq!(infos.exams[2].semester, 1);
    assert_eq!(infos.exams[2].exam_type, 1);
    assert_eq!(infos.exams[2].chinese_score, Some(85));
}

#[test]
fn info_update_without_matching_year_is_not_found() {
    let mut infos = StudentInfoStore::new();
    let identity = IdentityStore::new();
    infos.add_student_infos(3, info_req(2024, [exam(1, 0, 60), exam(2, 0, 65)]), 10).unwrap();
    assert!(matches!(
        infos.update_student_infos(
            3,
            info_req(2025, [exam(1, 0, 90), exam(2, 0, 91)]),
            &identity,
            20
        ),
        Err(AppError::NotFound)
    ));
    assert!(matches!(
        infos.update_student_infos(
            4,
            info_req(2024, [exam(1, 0, 90), exam(2, 0, 91)]),
            &identity,
            20
        ),
        Err(AppError::NotFound)
    ));
}

#[test]
fn duplicate_info_year_is_conflict() {
    let mut infos = StudentInfoStore::new();
    infos.add_student_infos(3, info_req(2024, [exam(1, 0, 60), exam(2, 0, 65)]), 10).unwrap();
    assert!(matches!(
        infos.add_student_infos(3, info_req(2024, [exam(1, 0, 70), exam(2, 0, 75)]), 11),
        Err(AppError::Conflict)
    ));
    assert_eq!(infos.infos.len(), 1);
    assert_eq!(infos.exams.len(), 2);
    // another year, and another student, are separate records
    assert!(infos.add_student_infos(3, info_req(2025, [exam(1, 0, 70), exam(2, 0, 75)]), 12).is_ok());
    assert!(infos.add_student_infos(4, info_req(2024, [exam(1, 0, 70), exam(2, 0, 75)]), 13).is_ok());
}

#[test]
fn info_update_overwrites_parent_fields() {
    let mut infos = StudentInfoStore::new();
    let identity = IdentityStore::new();
    infos.add_student_infos(3, info_req(2024, [exam(1, 0, 60), exam(2, 0, 65)]), 10).unwrap();
    let mut req = info_req(2024, [exam(1, 0, 61), exam(2, 0, 66)]);
    req.info_dto.chinese_book = None;
    req.info_dto.comment = Some("caught up".to_string());
    infos.update_student_infos(3, req, &identity, 20).unwrap();
    let row = &infos.infos[0];
    // full replace of the parent's fields, unlike the children's merge
    assert_eq!(row.info.chinese_book, None);
    assert_eq!(row.info.comment, Some("caught up".to_string()));
    assert_eq!(row.updated_at, 20);
    assert_eq!(row.created_at, 10);
}

#[test]
fn deleting_student_infos_removes_rows_and_children() {
    let mut infos = StudentInfoStore::new();
    infos.add_student_infos(3, info_req(2024, [exam(1, 0, 60), exam(2, 0, 65)]), 10).unwrap();
    infos.add_student_infos(3, info_req(2025, [exam(1, 0, 70), exam(2, 0, 75)]), 11).unwrap();
    infos.add_student_infos(8, info_req(2024, [exam(1, 0, 50), exam(2, 0, 55)]), 12).unwrap();
    infos.delete_student_infos(3).unwrap();
    assert_eq!(infos.infos.len(), 1);
    assert_eq!(infos.infos[0].student_id, 8);
    assert_eq!(infos.exams.len(), 2);
    assert!(infos.exams.iter().all(|e| e.info_id == infos.infos[0].id));
    assert!(matches!(infos.delete_student_infos(3), Err(AppError::NotFound)));
}

#[test]
fn listing_infos_joins_names_and_children() {
    let mut infos = StudentInfoStore::new();
    let mut identity = IdentityStore::new();
    let member_id = identity
        .add_member(UpsertMemberRequest { member_dto: member_dto("Info Holder") }, 5)
        .unwrap();
    infos
        .add_student_infos(member_id, info_req(2024, [exam(1, 0, 60), exam(2, 0, 65)]), 10)
        .unwrap();
    let views = infos.get_student_infos(&identity);
    assert_eq!(views.len(), 1);
    assert_eq!(views[0].name, "Info Holder");
    assert_eq!(views[0].info_dto.academic_year, 2024);
    assert_eq!(views[0].exams_dto.len(), 2);
    assert_eq!(views[0].exams_dto[0], exam(1, 0, 60));
    assert_eq!(views[0].exams_dto[1], exam(2, 0, 65));
}
