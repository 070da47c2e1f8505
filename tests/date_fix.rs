use exif_date_fix::error::{write_error, Error, IoKind};
use exif_date_fix::layout::{
    album_dir, get_misc_photos_data, has_json_extension, join_path, select_album_files,
};
use exif_date_fix::record::{Album, ExifSnapshot, Misc, PhotoRecord};
use exif_date_fix::stamp::stamp_job;
use exif_date_fix::timestamp::{
    resolve, Timestamp, FOUR_DIGIT_YEAR_MAX_SECS, FOUR_DIGIT_YEAR_MIN_SECS, MAX_UTC_SECS, MIN_UTC_SECS,
};

fn photo(uri: &str, creation: i64, taken: Vec<i64>) -> PhotoRecord {
    PhotoRecord {
        uri: uri.to_string(),
        creation_timestamp: creation,
        exif_data: taken
            .into_iter()
            .map(|t| ExifSnapshot { upload_ip: "1.2.3.4".to_string(), taken_timestamp: t })
            .collect(),
        backup_uri: "x".to_string(),
        title: None,
    }
}

#[test]
fn resolve_falls_back_to_creation_when_taken_is_zero() {
    let t = resolve(1600000000, 0).unwrap();
    assert_eq!(t, Timestamp::from_seconds(1600000000).unwrap());
    assert_eq!(t.secs, 1600000000);
}

#[test]
fn resolve_trusts_any_nonzero_taken_time() {
    assert_eq!(resolve(1600000000, 1650000000).unwrap().secs, 1650000000);
    assert_eq!(resolve(1600000000, 1).unwrap().secs, 1);
    assert_eq!(resolve(1600000000, -5).unwrap().secs, -5);
    assert_eq!(resolve(0, 1650000000).unwrap().secs, 1650000000);
}

#[test]
fn resolve_rejects_times_without_a_date() {
    assert_eq!(resolve(0, i64::MAX), Err(Error::TimestampOutOfRange));
    assert_eq!(resolve(i64::MIN, 0), Err(Error::TimestampOutOfRange));
    assert_eq!(resolve(1600000000, MAX_UTC_SECS + 1), Err(Error::TimestampOutOfRange));
    assert_eq!(resolve(MIN_UTC_SECS - 1, 0), Err(Error::TimestampOutOfRange));
}

#[test]
fn calendar_bounds_are_exact() {
    assert_eq!(Timestamp::from_seconds(MAX_UTC_SECS).unwrap().secs, MAX_UTC_SECS);
    assert_eq!(Timestamp::from_seconds(MIN_UTC_SECS).unwrap().secs, MIN_UTC_SECS);
    assert!(Timestamp::from_seconds(MAX_UTC_SECS + 1).is_none());
    assert!(Timestamp::from_seconds(MIN_UTC_SECS - 1).is_none());
}

#[test]
fn exif_text_of_known_instant() {
    let t = Timestamp::from_seconds(1700000000).unwrap();
    assert_eq!(t.exif_text(), "2023:11:14 22:13:20");
}

#[test]
fn exif_text_of_epoch_and_bounds() {
    assert_eq!(Timestamp::from_seconds(0).unwrap().exif_text(), "1970:01:01 00:00:00");
    assert_eq!(
        Timestamp::from_seconds(MAX_UTC_SECS).unwrap().exif_text(),
        "+262142:12:31 23:59:59"
    );
}

#[test]
fn stamping_twice_gives_the_same_tag_text() {
    let p = photo("a.jpg", 1600000000, vec![1650000000]);
    let first = stamp_job("export", &p).unwrap();
    let second = stamp_job("export", &p).unwrap();
    assert_eq!(first.tag_text, second.tag_text);
    assert_eq!(first.image_path, second.image_path);
}

#[test]
fn photo_without_snapshot_is_an_error() {
    let p = photo("a.jpg", 1600000000, vec![]);
    assert_eq!(p.taken_timestamp(), Err(Error::MissingExifSnapshot));
    assert_eq!(p.resolved_time(), Err(Error::MissingExifSnapshot));
    assert_eq!(stamp_job("export", &p).unwrap_err(), Error::MissingExifSnapshot);
}

#[test]
fn only_first_snapshot_counts() {
    let p = photo("a.jpg", 1600000000, vec![0, 1650000000]);
    let job = stamp_job("export", &p).unwrap();
    assert_eq!(job.tag_text, "2020:09:13 12:26:40");
}

#[test]
fn album_photo_is_stamped_with_taken_time() {
    let album = Album {
        name: "Trip".to_string(),
        description: "".to_string(),
        last_modified_timestamp: 1600000001,
        photos: vec![photo("a.jpg", 1600000000, vec![1650000000])],
    };
    let job = stamp_job("export", &album.photos[0]).unwrap();
    assert_eq!(job.image_path, "export/a.jpg");
    assert_eq!(job.tag_text, "2022:04:15 05:20:00");
}

#[test]
fn misc_photo_out_of_range_is_an_error() {
    let misc = Misc { photos: vec![photo("b.jpg", 1600000000, vec![i64::MAX])] };
    assert_eq!(stamp_job("export", &misc.photos[0]).unwrap_err(), Error::TimestampOutOfRange);
}

#[test]
fn discovery_keeps_exactly_json_files() {
    let names: Vec<String> = vec!["a.json", "notes.txt", "b.json", "c.json"]
        .into_iter()
        .map(String::from)
        .collect();
    let picked = select_album_files(&names);
    assert_eq!(picked, vec!["a.json".to_string(), "b.json".to_string(), "c.json".to_string()]);
}

#[test]
fn json_extension_edge_cases() {
    assert!(has_json_extension("album_1.json"));
    assert!(has_json_extension("a.b.json"));
    assert!(!has_json_extension(".json"));
    assert!(!has_json_extension("json"));
    assert!(!has_json_extension("a.JSON"));
    assert!(!has_json_extension("a.json.txt"));
    assert!(!has_json_extension("ajson"));
    assert!(select_album_files(&Vec::new()).is_empty());
}

#[test]
fn paths_under_the_export_root() {
    assert_eq!(join_path("root", "a.jpg"), "root/a.jpg");
    assert_eq!(join_path("root/", "a.jpg"), "root/a.jpg");
    assert_eq!(join_path("", "a.jpg"), "a.jpg");
    assert_eq!(
        get_misc_photos_data("/data/export"),
        "/data/export/your_facebook_activity/posts/your_uncategorized_photos.json"
    );
    assert_eq!(album_dir("export/"), "export/your_facebook_activity/posts/album");
}

#[test]
fn error_messages_are_the_carried_text() {
    let d = "expected value at line 1".to_string();
    assert_eq!(Error::ParseError(d.clone()).message(), d);
    assert_eq!(Error::IoError(d.clone()).message(), d);
    assert_eq!(Error::UnsupportedFormat(d.clone()).message(), d);
    assert_eq!(Error::TagWriteError(d.clone()).message(), d);
    assert_eq!(Error::TimestampOutOfRange.message(), "timestamp has no calendar date");
    assert_ne!(Error::TimestampOutOfRange.message(), Error::MissingExifSnapshot.message());
}

#[test]
fn exif_text_of_earliest_instant() {
    assert_eq!(
        Timestamp::from_seconds(MIN_UTC_SECS).unwrap().exif_text(),
        "-262143:01:01 00:00:00"
    );
}

#[test]
fn error_message_carries_detail() {
    assert_eq!(
        Error::IoError("no such file".to_string()).message(),
        "no such file"
    );
    assert_eq!(Error::MissingExifSnapshot.message(), "photo record has no EXIF snapshot");
}

#[test]
fn photos_differing_only_in_other_fields_get_the_same_stamp() {
    let p = photo("a.jpg", 1600000000, vec![1700000000]);
    let mut q = photo("a.jpg", 1600000000, vec![1700000000, 5]);
    q.exif_data[0].upload_ip = "5.6.7.8".to_string();
    q.title = Some("t".to_string());
    q.backup_uri = "y".to_string();
    let a = stamp_job("export", &p).unwrap();
    let b = stamp_job("export", &q).unwrap();
    assert_eq!(a.tag_text, "2023:11:14 22:13:20");
    assert_eq!(a.tag_text, b.tag_text);
    assert_eq!(a.image_path, b.image_path);
}

#[test]
fn four_digit_year_bounds_are_exact() {
    assert_eq!(
        Timestamp::from_seconds(FOUR_DIGIT_YEAR_MIN_SECS).unwrap().exif_text(),
        "0000:01:01 00:00:00"
    );
    assert_eq!(
        Timestamp::from_seconds(FOUR_DIGIT_YEAR_MAX_SECS).unwrap().exif_text(),
        "9999:12:31 23:59:59"
    );
    assert_eq!(
        Timestamp::from_seconds(FOUR_DIGIT_YEAR_MIN_SECS - 1).unwrap().exif_text(),
        "-0001:12:31 23:59:59"
    );
    assert_eq!(
        Timestamp::from_seconds(FOUR_DIGIT_YEAR_MAX_SECS + 1).unwrap().exif_text(),
        "+10000:01:01 00:00:00"
    );
}

#[test]
fn write_failures_are_classified() {
    let d = || "m".to_string();
    assert_eq!(write_error(false, true, IoKind::Other, d()), Error::IoError(d()));
    assert_eq!(write_error(true, false, IoKind::Other, d()), Error::UnsupportedFormat(d()));
    assert_eq!(write_error(true, true, IoKind::Unsupported, d()), Error::UnsupportedFormat(d()));
    assert_eq!(write_error(true, true, IoKind::InvalidData, d()), Error::TagWriteError(d()));
    assert_eq!(write_error(true, true, IoKind::InvalidInput, d()), Error::TagWriteError(d()));
    assert_eq!(write_error(true, true, IoKind::Other, d()), Error::TagWriteError(d()));
    assert_eq!(write_error(true, true, IoKind::System, d()), Error::IoError(d()));
}

#[test]
fn four_digit_years_have_the_exif_shape() {
    let job = stamp_job("export", &photo("a.jpg", 0, vec![253402300799])).unwrap();
    assert_eq!(job.tag_text.len(), 19);
    assert_eq!(job.tag_text, "9999:12:31 23:59:59");
}
