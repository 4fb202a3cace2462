use family_photos::datetime::DateTime;
use family_photos::exif_data::{get_exif_timestamp, parse_exif_date_time, read_exif_orientation};
use family_photos::name_timestamp::{get_regex_timestamp, timestamp_from_stem};
use family_photos::names::{extension, file_stem};
use family_photos::sidecar::{parse_unsigned, sidecar_path, GooglePhotoJsonData, GooglePhotoTimestamp};
use family_photos::timestamp::{get_timestamp_for_path, wants_image_data};

fn moment(year: i32, month: u8, day: u8, hour: u8, minute: u8, second: u8) -> DateTime {
    DateTime { year, month, day, hour, minute, second }
}

fn sidecar(creation: Option<&str>, taken: Option<&str>) -> GooglePhotoJsonData {
    GooglePhotoJsonData {
        creation_time: creation.map(|t| GooglePhotoTimestamp { timestamp: t.to_string() }),
        photo_taken_time: taken.map(|t| GooglePhotoTimestamp { timestamp: t.to_string() }),
    }
}

#[test]
fn timestamp_test_regex_timestamp() {
    let expected_date = Some(moment(2016, 9, 22, 16, 4, 30));
    assert_eq!(get_regex_timestamp("IMG_20160922_160430.jpg"), expected_date);
    assert_eq!(get_regex_timestamp("IMG_2016-09-22-16-04-30.jpg"), expected_date);
    assert_eq!(get_regex_timestamp("20160922.jpg"), Some(moment(2016, 9, 22, 0, 0, 0)));
    assert_eq!(get_regex_timestamp("2016_09_22.jpg"), Some(moment(2016, 9, 22, 0, 0, 0)));
    assert_eq!(get_regex_timestamp("2016__09_22.jpg"), None);
    assert_eq!(get_regex_timestamp("random-1474560270000.jpg"), expected_date);
    assert_eq!(get_regex_timestamp("random-IMG_2016-09-22-160430 (5).jpg"), expected_date);
}

#[test]
fn data_scan_test_regex_timestamp() {
    let expected_date = Some(moment(2016, 9, 22, 16, 4, 30));
    assert_eq!(get_regex_timestamp("IMG_20160922_160430.jpg"), expected_date);
    assert_eq!(get_regex_timestamp("IMG_2016-09-22-16-04-30.jpg"), expected_date);
    assert_eq!(get_regex_timestamp("20160922.jpg"), Some(moment(2016, 9, 22, 0, 0, 0)));
    assert_eq!(get_regex_timestamp("random-1474560270000.jpg"), expected_date);
    assert_eq!(get_regex_timestamp("random-IMG_2016-09-22-160430 (5).jpg"), expected_date);
}

#[test]
fn json_parsing() {
    let json = r#"{
        "creationTime": {
            "timestamp": "1437327811",
            "formatted": "19 iul. 2015, 17:43:31 UTC"
        },
        "photoTakenTime": {
            "timestamp": "1435786122",
            "formatted": "1 iul. 2015, 21:28:42 UTC"
        }
    }"#;

    let value: serde_json::Value = serde_json::from_str(json).unwrap();
    let field = |key: &str| {
        value
            .get(key)
            .and_then(|v| v.get("timestamp"))
            .and_then(|t| t.as_str())
            .map(|t| GooglePhotoTimestamp { timestamp: t.to_string() })
    };
    let data = GooglePhotoJsonData {
        creation_time: field("creationTime"),
        photo_taken_time: field("photoTakenTime"),
    };
    assert_eq!(data.u64_creation_time(), Some(1437327811));
    assert_eq!(data.u64_photo_taken_time(), Some(1435786122));
}

#[test]
fn sidecar_prefers_the_time_the_photo_was_taken() {
    let data = sidecar(Some("1437327811"), Some("1435786122"));
    assert_eq!(data.json_timestamp(), Some(1435786122));
    assert_eq!(
        get_timestamp_for_path("/photos/IMG_20160922_160430.jpg", Some(&data), None),
        Some(moment(2015, 7, 1, 21, 28, 42))
    );
}

#[test]
fn sidecar_falls_back_to_creation_time() {
    let data = sidecar(Some("1437327811"), Some("not a number"));
    assert_eq!(data.json_timestamp(), Some(1437327811));
    assert_eq!(
        get_timestamp_for_path("/photos/x.jpg", Some(&data), None),
        Some(moment(2015, 7, 19, 17, 43, 31))
    );
    let empty = sidecar(None, None);
    assert_eq!(empty.json_timestamp(), None);
}

#[test]
fn unsigned_numbers_read_like_str_parse() {
    assert_eq!(parse_unsigned("0"), Some(0));
    assert_eq!(parse_unsigned("+42"), Some(42));
    assert_eq!(parse_unsigned("18446744073709551615"), Some(u64::MAX));
    assert_eq!(parse_unsigned("18446744073709551616"), None);
    assert_eq!(parse_unsigned(""), None);
    assert_eq!(parse_unsigned("+"), None);
    assert_eq!(parse_unsigned("-1"), None);
    assert_eq!(parse_unsigned("12a"), None);
}

#[test]
fn file_name_parts() {
    // only the final component of a path is read
    assert_eq!(get_regex_timestamp("/2016-09-22/x.jpg"), None);
    assert_eq!(get_regex_timestamp("/a/.."), None);
    assert_eq!(get_regex_timestamp("/a/20160922.jpg/"), Some(moment(2016, 9, 22, 0, 0, 0)));
    assert_eq!(file_stem("archive.tar.gz"), "archive.tar");
    assert_eq!(file_stem(".hidden"), ".hidden");
    assert_eq!(extension("photo.JPG"), Some("JPG".to_string()));
    assert_eq!(extension(".hidden"), None);
    assert_eq!(extension("noext"), None);
}

#[test]
fn stems_of_each_pattern() {
    assert_eq!(timestamp_from_stem("2016-09-22-16-04-30"), Some(moment(2016, 9, 22, 16, 4, 30)));
    assert_eq!(timestamp_from_stem("20160922"), Some(moment(2016, 9, 22, 0, 0, 0)));
    assert_eq!(timestamp_from_stem("20161322"), None);
    assert_eq!(timestamp_from_stem("x1474560270000y"), Some(moment(2016, 9, 22, 16, 4, 30)));
    assert_eq!(timestamp_from_stem("no digits"), None);
    // an invalid date and time in the first match is not retried further on
    assert_eq!(timestamp_from_stem("2016-13-22-16-04-30"), None);
}

#[test]
fn unix_seconds_to_moment() {
    let at = |secs: &str| get_timestamp_for_path("/p/x.jpg", Some(&sidecar(None, Some(secs))), None);
    assert_eq!(at("1474560270"), Some(moment(2016, 9, 22, 16, 4, 30)));
    assert_eq!(at("0"), Some(moment(1970, 1, 1, 0, 0, 0)));
    // out of the calendar's range: the file name is read instead
    assert_eq!(at("9223372036854775807"), None);
    assert_eq!(
        get_timestamp_for_path("/p/20160922.jpg", Some(&sidecar(None, Some("9223372036854775807"))), None),
        Some(moment(2016, 9, 22, 0, 0, 0))
    );
}

#[test]
fn exif_date_text() {
    assert_eq!(
        parse_exif_date_time(&b"2016:09:22 16:04:30".to_vec()),
        Some(moment(2016, 9, 22, 16, 4, 30))
    );
    assert_eq!(parse_exif_date_time(&b"2016:02:30 16:04:30".to_vec()), None);
    assert_eq!(parse_exif_date_time(&b"2016-09-22 16:04:30".to_vec()), None);
    assert_eq!(parse_exif_date_time(&b"2016:09:22 16:04:3".to_vec()), None);
}

/// A little-endian TIFF file whose primary directory holds a `DateTime`
/// and an `Orientation` field.
fn tiff_with_date_and_orientation() -> Vec<u8> {
    let mut b: Vec<u8> = vec![b'I', b'I', 42, 0, 8, 0, 0, 0];
    // two entries
    b.extend_from_slice(&[2, 0]);
    // Orientation (0x112), SHORT, count 1, value 6
    b.extend_from_slice(&[0x12, 0x01, 3, 0, 1, 0, 0, 0, 6, 0, 0, 0]);
    // DateTime (0x132), ASCII, count 20, at offset 38
    b.extend_from_slice(&[0x32, 0x01, 2, 0, 20, 0, 0, 0, 38, 0, 0, 0]);
    // no next directory
    b.extend_from_slice(&[0, 0, 0, 0]);
    b.extend_from_slice(b"2016:09:22 16:04:30\0");
    b
}

#[test]
fn exif_fields_of_an_image() {
    let data = tiff_with_date_and_orientation();
    assert_eq!(get_exif_timestamp("/p/a.tif", &data), Some(moment(2016, 9, 22, 16, 4, 30)));
    assert_eq!(read_exif_orientation("/p/a.tif", &data), Some(6));
    // a video is not read for EXIF fields
    assert_eq!(get_exif_timestamp("/p/a.mp4", &data), None);
    assert_eq!(get_exif_timestamp("/p/a.tif", &vec![1, 2, 3]), None);
}

#[test]
fn exif_comes_before_the_file_name() {
    let data = tiff_with_date_and_orientation();
    assert!(wants_image_data("/p/IMG_20200101_000000.tif", None));
    assert_eq!(
        get_timestamp_for_path("/p/IMG_20200101_000000.tif", None, Some(&data)),
        Some(moment(2016, 9, 22, 16, 4, 30))
    );
    assert_eq!(
        get_timestamp_for_path("/p/IMG_20200101_000000.tif", None, None),
        Some(moment(2020, 1, 1, 0, 0, 0))
    );
    let json = sidecar(None, Some("0"));
    assert!(!wants_image_data("/p/a.jpg", Some(&json)));
    assert!(!wants_image_data("/p/a.mp4", None));
}

#[test]
fn companion_file_lies_beside_the_photo() {
    assert_eq!(sidecar_path("/p/IMG_1.jpg"), "/p/IMG_1.jpg.json");
}
