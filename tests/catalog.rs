use family_photos::catalog::{batches, new_photos, reconcile, removed_photos, INSERT_BATCH_SIZE};
use family_photos::datetime::DateTime;
use family_photos::photo::{Photo, PhotoBody, SimpleUser, User};
use family_photos::scan::{is_candidate, parse_image, scan_user_photos, ScanEntry};
use family_photos::storage::{join_path, FileStorage, StorageResolver};

fn when() -> DateTime {
    DateTime { year: 2016, month: 9, day: 22, hour: 16, minute: 4, second: 30 }
}

fn row(id: i64, user: &str, folder: Option<&str>, name: &str) -> Photo {
    Photo {
        id,
        user_id: user.to_string(),
        name: name.to_string(),
        created_at: when(),
        file_size: 10,
        folder: folder.map(|f| f.to_string()),
    }
}

fn draft(user: &str, folder: Option<&str>, name: &str) -> PhotoBody {
    PhotoBody::new(
        user.to_string(),
        name.to_string(),
        when(),
        10,
        folder.map(|f| f.to_string()),
    )
}

fn entry(name: &str, depth: usize, parent: Option<&str>, ts: Option<DateTime>) -> ScanEntry {
    ScanEntry {
        file_name: name.to_string(),
        depth,
        is_dir: false,
        parent_name: parent.map(|p| p.to_string()),
        file_len: Some(1234),
        timestamp: ts,
    }
}

#[test]
fn rescan_with_one_new_file_inserts_it_alone() {
    let user = "anna".to_string();
    let existing = vec![
        row(1, "anna", None, "a.jpg"),
        row(2, "anna", Some("trip"), "b.jpg"),
        row(3, "anna", None, "c.jpg"),
    ];
    let found = vec![
        draft("anna", None, "a.jpg"),
        draft("anna", Some("trip"), "b.jpg"),
        draft("anna", None, "c.jpg"),
        draft("anna", Some("trip"), "d.jpg"),
    ];
    let r = reconcile(&user, &found, &existing, &vec![true, true, true]);
    assert_eq!(r.inserts.len(), 1);
    assert_eq!(r.inserts[0].full_name(), "trip/d.jpg");
    assert!(r.deletions.is_empty());
}

#[test]
fn rescan_after_a_removal_deletes_its_row() {
    let user = "anna".to_string();
    let existing = vec![
        row(1, "anna", None, "a.jpg"),
        row(2, "anna", Some("trip"), "b.jpg"),
        row(3, "anna", None, "c.jpg"),
    ];
    let found = vec![draft("anna", None, "a.jpg"), draft("anna", None, "c.jpg")];
    let r = reconcile(&user, &found, &existing, &vec![true, false, true]);
    assert!(r.inserts.is_empty());
    assert_eq!(r.deletions, vec![2]);
}

#[test]
fn rows_of_other_users_neither_match_nor_go() {
    let user = "anna".to_string();
    let existing = vec![row(1, "ben", None, "a.jpg"), row(2, "anna", None, "b.jpg")];
    let found = vec![draft("anna", None, "a.jpg")];
    assert_eq!(new_photos(&user, &found, &existing).len(), 1);
    assert_eq!(removed_photos(&user, &existing, &vec![false, true]), Vec::<i64>::new());
    // a folder and a name that spell the same full name are the same photo
    let nested = vec![row(5, "anna", Some("x"), "y.jpg")];
    assert!(new_photos(&user, &vec![draft("anna", None, "x/y.jpg")], &nested).is_empty());
}

#[test]
fn batches_of_inserts() {
    assert_eq!(batches(0, INSERT_BATCH_SIZE), vec![]);
    assert_eq!(batches(512, 512), vec![(0, 512)]);
    assert_eq!(batches(1025, 512), vec![(0, 512), (512, 1024), (1024, 1025)]);
}

#[test]
fn photo_paths() {
    let p = row(42, "anna", Some("trip"), "b.jpg");
    assert_eq!(p.full_name(), "trip/b.jpg");
    assert_eq!(p.partial_path(), "anna/trip/b.jpg");
    assert_eq!(p.partial_preview_path(), "42.jpg");
    assert_eq!(p.partial_thumbnail_path(), "42.jpg");
    assert_eq!(row(-7, "anna", None, "c.HEIC").partial_thumbnail_path(), "-7.heic");
    assert_eq!(row(1000, "anna", None, "c.heif").partial_thumbnail_path(), "1000.heif");
    assert_eq!(row(0, "anna", None, "c.jpg").full_name(), "c.jpg");
    let mut d = draft("anna", None, "a.jpg");
    d.set_file_size(99);
    assert_eq!(d.file_size(), 99);
}

#[test]
fn scan_entries_become_drafts() {
    let user = "anna".to_string();
    let mut dir = entry("trip", 1, Some("anna"), Some(when()));
    dir.is_dir = true;
    let entries = vec![
        dir,
        entry("a.jpg", 1, Some("anna"), Some(when())),
        entry("a.jpg.json", 1, Some("anna"), Some(when())),
        entry("b.jpg", 2, Some("trip"), Some(when())),
        entry("c.jpg", 2, Some("trip"), None),
    ];
    assert!(!is_candidate(&entries[0]));
    assert!(!is_candidate(&entries[2]));
    let drafts = scan_user_photos(&user, &entries);
    assert_eq!(drafts.len(), 2);
    assert_eq!(drafts[0].full_name(), "a.jpg");
    assert_eq!(drafts[1].full_name(), "trip/b.jpg");
    assert_eq!(drafts[1].file_size(), 1234);
    let mut unknown_len = entry("d.jpg", 1, None, Some(when()));
    unknown_len.file_len = None;
    assert_eq!(parse_image(&user, &unknown_len).unwrap().file_size(), 0);
    assert!(parse_image(&user, &entry("e.jpg", 2, None, Some(when()))).is_none());
}

#[test]
fn storage_paths() {
    let s = StorageResolver::new("/data".to_string(), "/data/.previews/".to_string());
    assert_eq!(s.resolve_photo("anna/a.jpg"), "/data/anna/a.jpg");
    assert_eq!(s.resolve_preview("1.jpg"), "/data/.previews/1.jpg");
    assert_eq!(s.resolve_photo("/abs/a.jpg"), "/abs/a.jpg");
    let f = FileStorage::new("/data".to_string(), None);
    assert_eq!(f.resolve_preview("1.jpg"), "/data/.preview/1.jpg");
    assert_eq!(join_path(&String::new(), "a"), "a");
}

#[test]
fn simple_user_of_user() {
    let u = User { id: "anna".to_string(), name: "Anna".to_string(), password_hash: "h".to_string() };
    let s = SimpleUser::from(u);
    assert_eq!(s.user_id, "anna");
    assert_eq!(s.display_name, "Anna");
}
