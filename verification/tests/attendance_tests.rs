use after_school::attendance::{AttendanceStore, AttendanceStudent, UpsertAttendanceRequest};
use after_school::calendar::{parse_date, DateYmd};
use after_school::response::AppError;

fn entry(student_id: u128, present: bool) -> AttendanceStudent {
    AttendanceStudent { student_id, attendance_status: present, note: None }
}

fn roster(entries: Vec<AttendanceStudent>) -> UpsertAttendanceRequest {
    UpsertAttendanceRequest { note: None, attendance_students: entries }
}

#[test]
fn parse_date_derives_compact_key() {
    let (date, key) = parse_date("2024-01-05").unwrap();
    assert_eq!(key, "20240105");
    assert_eq!(date, DateYmd { year: 2024, month: 1, day: 5 });
}

#[test]
fn parse_date_rejects_malformed_strings() {
    for bad in [
        "2024-1-05",
        "20240105",
        "2024/01/05",
        "2024-13-01",
        "2024-00-10",
        "2024-04-31",
        "2024-01-00",
        "x024-01-05",
        "2024-01-05 ",
        "",
    ] {
        assert!(matches!(parse_date(bad), Err(AppError::Validation)), "accepted {:?}", bad);
    }
}

#[test]
fn parse_date_knows_leap_years() {
    assert!(parse_date("2024-02-29").is_ok());
    assert!(parse_date("2000-02-29").is_ok());
    assert!(matches!(parse_date("2023-02-29"), Err(AppError::Validation)));
    assert!(matches!(parse_date("1900-02-29"), Err(AppError::Validation)));
}

#[test]
fn create_roster_uses_derived_key_and_conflicts_on_second_call() {
    let mut store = AttendanceStore::new();
    assert!(store.add_attendance_record("2024-01-05", roster(vec![entry(1, true)]), 10).is_ok());
    let view = store.get_attendance_record("2024-01-05").unwrap();
    assert_eq!(view.id, "20240105");
    assert_eq!(
        store.add_attendance_record("2024-01-05", roster(vec![entry(2, true)]), 11),
        Err(AppError::Conflict)
    );
    assert_eq!(store.records.len(), 1);
}

#[test]
fn create_roster_stores_the_submitted_note() {
    let mut store = AttendanceStore::new();
    let req = UpsertAttendanceRequest {
        note: Some("first day of term".to_string()),
        attendance_students: vec![entry(1, true)],
    };
    store.add_attendance_record("2024-03-01", req, 10).unwrap();
    let view = store.get_attendance_record("2024-03-01").unwrap();
    assert_eq!(view.note, Some("first day of term".to_string()));
}

#[test]
fn replace_roster_keeps_only_new_entries() {
    let mut store = AttendanceStore::new();
    store
        .add_attendance_record("2024-01-05", roster(vec![entry(1, true), entry(2, false)]), 10)
        .unwrap();
    store
        .update_attendance("2024-01-05", roster(vec![entry(3, true), entry(4, true)]), 20)
        .unwrap();
    let view = store.get_attendance_record("2024-01-05").unwrap();
    let ids: Vec<u128> = view.attendance_students.iter().map(|s| s.student_id).collect();
    assert_eq!(ids, vec![3, 4]);
    assert!(!ids.contains(&1));
    assert!(!ids.contains(&2));
    assert_eq!(view.updated_at, 20);
}

#[test]
fn replace_roster_leaves_other_dates_alone() {
    let mut store = AttendanceStore::new();
    store.add_attendance_record("2024-01-05", roster(vec![entry(1, true)]), 10).unwrap();
    store.add_attendance_record("2024-01-06", roster(vec![entry(2, true)]), 11).unwrap();
    store.update_attendance("2024-01-05", roster(vec![entry(9, false)]), 20).unwrap();
    let other = store.get_attendance_record("2024-01-06").unwrap();
    assert_eq!(other.attendance_students.len(), 1);
    assert_eq!(other.attendance_students[0].student_id, 2);
}

#[test]
fn replace_roster_sets_note_and_can_empty_the_roster() {
    let mut store = AttendanceStore::new();
    store.add_attendance_record("2024-01-05", roster(vec![entry(1, true)]), 10).unwrap();
    let req = UpsertAttendanceRequest {
        note: Some("field trip".to_string()),
        attendance_students: vec![],
    };
    store.update_attendance("2024-01-05", req, 20).unwrap();
    let view = store.get_attendance_record("2024-01-05").unwrap();
    assert_eq!(view.note, Some("field trip".to_string()));
    assert!(view.attendance_students.is_empty());
}

#[test]
fn replace_missing_roster_is_not_found() {
    let mut store = AttendanceStore::new();
    assert_eq!(
        store.update_attendance("2024-01-05", roster(vec![entry(1, true)]), 10),
        Err(AppError::NotFound)
    );
    assert!(matches!(store.get_attendance_record("2024-01-05"), Err(AppError::NotFound)));
}

#[test]
fn bad_date_is_rejected_before_any_write() {
    let mut store = AttendanceStore::new();
    assert_eq!(
        store.add_attendance_record("2024-02-30", roster(vec![entry(1, true)]), 10),
        Err(AppError::Validation)
    );
    assert!(store.records.is_empty());
    assert!(store.entries.is_empty());
}

#[test]
fn entry_details_survive_the_round_trip() {
    let mut store = AttendanceStore::new();
    let req = UpsertAttendanceRequest {
        note: None,
        attendance_students: vec![AttendanceStudent {
            student_id: 7,
            attendance_status: false,
            note: Some("sick".to_string()),
        }],
    };
    store.add_attendance_record("2024-05-17", req, 10).unwrap();
    let view = store.get_attendance_record("2024-05-17").unwrap();
    assert_eq!(view.id, "20240517");
    assert_eq!(view.attendance_students.len(), 1);
    let s = &view.attendance_students[0];
    assert_eq!(s.student_id, 7);
    assert!(!s.attendance_status);
    assert_eq!(s.note, Some("sick".to_string()));
}
