use peep::error::PeepError;
use peep::file_utils::{
    describe_file, description_for, extract_file_name, extract_file_type, file_type_for,
    same_text, FileType,
};

#[test]
fn file_name_is_the_stem() {
    assert_eq!(extract_file_name("data/iris.csv"), Some("iris"));
    assert_eq!(extract_file_name("iris.parquet"), Some("iris"));
    assert_eq!(extract_file_name("/tmp/archive.tar.gz"), Some("archive.tar"));
    assert_eq!(extract_file_name("plain"), Some("plain"));
    assert_eq!(extract_file_name(".hidden"), Some(".hidden"));
}

#[test]
fn file_name_is_missing_without_a_last_component() {
    assert_eq!(extract_file_name(""), None);
    assert_eq!(extract_file_name("/"), None);
    assert_eq!(extract_file_name("data/.."), None);
}

#[test]
fn file_type_is_told_by_the_extension() {
    assert!(matches!(extract_file_type("data/iris.csv"), Ok(FileType::Csv)));
    assert!(matches!(extract_file_type("iris.parquet"), Ok(FileType::Parquet)));
    assert!(matches!(extract_file_type("a.b.csv"), Ok(FileType::Csv)));
}

#[test]
fn unknown_extension_is_not_supported() {
    assert!(matches!(extract_file_type("iris.txt"), Err(PeepError::UnsupportedFormat)));
    assert!(matches!(extract_file_type("iris.CSV"), Err(PeepError::UnsupportedFormat)));
    assert!(matches!(extract_file_type("iris.csv.gz"), Err(PeepError::UnsupportedFormat)));
    assert!(matches!(extract_file_type("iris."), Err(PeepError::UnsupportedFormat)));
}

#[test]
fn missing_extension_is_reported() {
    assert!(matches!(extract_file_type("iris"), Err(PeepError::MissingExtension)));
    assert!(matches!(extract_file_type(".csv"), Err(PeepError::MissingExtension)));
    assert!(matches!(extract_file_type("csv/iris"), Err(PeepError::MissingExtension)));
    assert!(matches!(extract_file_type(""), Err(PeepError::MissingExtension)));
}

#[test]
fn file_type_for_reads_an_extension() {
    assert!(matches!(file_type_for(Some("parquet")), Ok(FileType::Parquet)));
    assert!(matches!(file_type_for(Some("csv")), Ok(FileType::Csv)));
    assert!(matches!(file_type_for(Some("")), Err(PeepError::UnsupportedFormat)));
    assert!(matches!(file_type_for(Some("parquets")), Err(PeepError::UnsupportedFormat)));
    assert!(matches!(file_type_for(None), Err(PeepError::MissingExtension)));
}

#[test]
fn same_text_compares_characters() {
    assert!(same_text("", ""));
    assert!(same_text("csv", "csv"));
    assert!(!same_text("csv", "csw"));
    assert!(!same_text("csv", "cs"));
    assert!(!same_text("cs", "csv"));
    assert!(same_text("données", "données"));
    assert!(!same_text("données", "donnees"));
}

#[test]
fn describe_file_gives_label_and_format() {
    match describe_file("data/iris.csv") {
        Ok((label, format)) => {
            assert_eq!(label, "iris");
            assert_eq!(format, FileType::Csv);
        }
        Err(e) => panic!("unexpected failure: {:?}", e),
    }
    match describe_file("/x/y/trips.2024.parquet") {
        Ok((label, format)) => {
            assert_eq!(label, "trips.2024");
            assert_eq!(format, FileType::Parquet);
        }
        Err(e) => panic!("unexpected failure: {:?}", e),
    }
}

#[test]
fn describe_file_fails_on_the_name_first() {
    assert!(matches!(describe_file(""), Err(PeepError::MissingFileName)));
    assert!(matches!(describe_file("/"), Err(PeepError::MissingFileName)));
    assert!(matches!(describe_file("iris"), Err(PeepError::MissingExtension)));
    assert!(matches!(describe_file("iris.json"), Err(PeepError::UnsupportedFormat)));
}

#[test]
fn description_for_puts_stem_and_extension_together() {
    assert!(matches!(description_for(None, Some("csv")), Err(PeepError::MissingFileName)));
    assert!(matches!(description_for(None, None), Err(PeepError::MissingFileName)));
    assert!(matches!(description_for(Some("a"), None), Err(PeepError::MissingExtension)));
    assert!(matches!(description_for(Some("a"), Some("b")), Err(PeepError::UnsupportedFormat)));
    match description_for(Some("a"), Some("parquet")) {
        Ok((label, format)) => {
            assert_eq!(label, "a");
            assert_eq!(format, FileType::Parquet);
        }
        Err(e) => panic!("unexpected failure: {:?}", e),
    }
}

#[test]
fn failures_have_their_text() {
    assert_eq!(PeepError::MissingFileName.message(), "File should have a name");
    assert_eq!(PeepError::MissingExtension.message(), "Unable to read file extension");
    assert_eq!(
        PeepError::UnsupportedFormat.message(),
        "File type not supported (parquet and csv only)"
    );
    assert_eq!(PeepError::NoColumns.message(), "PeepFrame should have column names");
    assert_eq!(PeepError::DataAccess("no schema".to_string()).message(), "no schema");
    assert_eq!(PeepError::Query("bad query".to_string()).message(), "bad query");
}
