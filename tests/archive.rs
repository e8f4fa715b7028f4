use wegli_api::archive::{download_file_name, is_csv_name, pick_csv};
use wegli_api::export::{Export, ExportDownload, ExportJson, ExportType};
use wegli_api::text::ends_with;
use wegli_api::timestamp::{date_time_to_export_timestamp, date_time_to_rfc3339, rfc3339_to_date_time, Timestamp};

#[test]
fn rfc3339_writing() {
    let t = Timestamp { seconds: 1668391318, nanos: 56_000_000, offset_seconds: 3600 };
    assert_eq!(date_time_to_rfc3339(&t), Some("2022-11-14T03:01:58.056+01:00".to_string()));
    let utc = Timestamp { seconds: 0, nanos: 0, offset_seconds: 0 };
    assert_eq!(date_time_to_rfc3339(&utc), Some("1970-01-01T00:00:00.000+00:00".to_string()));
    let bad_offset = Timestamp { seconds: 0, nanos: 0, offset_seconds: 90_000 };
    assert_eq!(date_time_to_rfc3339(&bad_offset), None);
    let bad_instant = Timestamp { seconds: i64::MAX, nanos: 0, offset_seconds: 0 };
    assert_eq!(date_time_to_rfc3339(&bad_instant), None);
}

#[test]
fn rfc3339_round_trip() {
    let text = "2023-10-25T09:41:42.638+01:00";
    let t = rfc3339_to_date_time(text).unwrap();
    assert_eq!(date_time_to_rfc3339(&t), Some(text.to_string()));
}

#[test]
fn export_timestamp_writing() {
    let t = Timestamp { seconds: 1698222180, nanos: 0, offset_seconds: 3600 };
    assert_eq!(date_time_to_export_timestamp(&t), Some("2023-10-25 09:23:00 .000+0100".to_string()));
}

#[test]
fn export_record_round_trip() {
    let export = Export {
        export_type: ExportType::NOTICES,
        file_extension: "csv".to_string(),
        created_at: Timestamp { seconds: 1668996139, nanos: 396_000_000, offset_seconds: 3600 },
        download: ExportDownload { filename: "notices-47.zip".to_string(), url: "https://x/notices-47.zip".to_string() },
    };
    let json = ExportJson::from(&export).unwrap();
    assert_eq!(json.export_type, "notices");
    assert_eq!(json.created_at, "2022-11-21T03:02:19.396+01:00");
    assert_eq!(json.file_extension, "csv");
    assert_eq!(json.download.filename, "notices-47.zip");
    let back = Export::try_from(&json).unwrap();
    assert_eq!(back.created_at, export.created_at);
}

#[test]
fn download_names() {
    assert_eq!(
        download_file_name("https://www.weg.li/rails/active_storage/blobs/redirect/abc/notices-47.zip").unwrap(),
        "notices-47.zip"
    );
    assert_eq!(download_file_name("data:text/plain,HelloWorld").unwrap(), "file.zip");
    assert_eq!(download_file_name("https://example.com").unwrap(), "");
    assert_eq!(download_file_name("https://example.com/exports/").unwrap(), "");
    assert_eq!(download_file_name("https://example.com/a/b/notices.zip?x=1").unwrap(), "notices.zip");
    assert_eq!(download_file_name("not a url"), Err(url::ParseError::RelativeUrlWithoutBase));
}

#[test]
fn suffix_check() {
    assert!(ends_with("notices.csv", ".csv"));
    assert!(ends_with(".csv", ".csv"));
    assert!(!ends_with("csv", ".csv"));
    assert!(!ends_with("notices.csv.zip", ".csv"));
    assert!(ends_with("anything", ""));
}

#[test]
fn csv_names() {
    assert!(is_csv_name("notices-47.csv"));
    assert!(is_csv_name("NOTICES.CSV"));
    assert!(is_csv_name("Übersicht.Csv"));
    assert!(!is_csv_name("notices-47.zip"));
    assert!(!is_csv_name("csv"));
}

#[test]
fn last_csv_is_picked() {
    let names: Vec<String> = ["a.csv", "b.txt", "c.CSV", "d.zip"].iter().map(|s| s.to_string()).collect();
    assert_eq!(pick_csv(&names), Some(2));
    let none: Vec<String> = ["a.txt", "b.zip"].iter().map(|s| s.to_string()).collect();
    assert_eq!(pick_csv(&none), None);
    assert_eq!(pick_csv(&Vec::new()), None);
}
