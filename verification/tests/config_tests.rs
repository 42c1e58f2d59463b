use parquet_dict_rewrite::config::{FormatVersion, WriterConfiguration};
use parquet_dict_rewrite::error::RewriteError;
use parquet_dict_rewrite::rewrite::BATCH_ROW_LIMIT;

#[test]
fn rewrite_configuration_enables_dictionary_encoding() {
    let config = WriterConfiguration::dictionary_rewrite();
    assert!(config.dictionary_enabled);
    assert_eq!(config.version, FormatVersion::V1_0);
}

#[test]
fn configuration_keeps_its_parts() {
    let config = WriterConfiguration::new(FormatVersion::V2_0, false);
    assert_eq!(config.version, FormatVersion::V2_0);
    assert!(!config.dictionary_enabled);
}

#[test]
fn batch_row_limit_is_positive() {
    assert!(BATCH_ROW_LIMIT >= 1);
}

#[test]
fn error_messages_carry_their_text() {
    let io = RewriteError::IoError("cannot open".to_string());
    assert_eq!(io.message(), "cannot open");
    let format = RewriteError::FormatError("bad footer".to_string());
    assert_eq!(format.message(), "bad footer");
}
