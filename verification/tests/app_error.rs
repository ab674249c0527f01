use golem_wordle::app_error::{AppError, AppErrorKind, AppResult, AppResultExt, WORDS_FILE_PATH};

#[test]
fn to_string_should_begin_with_the_kind_in_brackets() {
    assert_eq!(
        AppError::NoWords.to_string(),
        "[NoWords] No words found in file."
    );
    assert_eq!(
        AppError::StdIoRead.to_string(),
        "[StdIoRead] Failed to read stdio."
    );
    assert_eq!(
        AppError::InvalidCharset.to_string(),
        "[InvalidCharset] The Words file ('assets/words.txt') contains invalid UTF-8 characters"
    );
    assert_eq!(
        AppError::InvalidGuessLength(5).to_string(),
        "[InvalidGuessLength] Your guess word must be 5 letters long."
    );
}

#[test]
fn to_string_should_print_the_expected_length_in_decimal() {
    assert_eq!(
        AppError::InvalidGuessLength(0).to_string(),
        "[InvalidGuessLength] Your guess word must be 0 letters long."
    );
    assert_eq!(
        AppError::InvalidGuessLength(1203).to_string(),
        "[InvalidGuessLength] Your guess word must be 1203 letters long."
    );
    assert_eq!(
        AppError::InvalidGuessLength(usize::MAX).to_string(),
        format!(
            "[InvalidGuessLength] Your guess word must be {} letters long.",
            usize::MAX
        )
    );
}

#[test]
fn kind_should_drop_what_the_error_carries() {
    assert_eq!(AppError::NoWords.kind(), AppErrorKind::NoWords);
    assert_eq!(AppError::StdIoRead.kind(), AppErrorKind::StdIoRead);
    assert_eq!(AppError::InvalidCharset.kind(), AppErrorKind::InvalidCharset);
    assert_eq!(
        AppError::InvalidGuessLength(7).kind(),
        AppErrorKind::InvalidGuessLength
    );
    assert_eq!(AppErrorKind::InvalidGuessLength.as_str(), "InvalidGuessLength");
    assert_eq!(AppErrorKind::NoWords.as_str(), "NoWords");
    assert_eq!(AppErrorKind::StdIoRead.as_str(), "StdIoRead");
    assert_eq!(AppErrorKind::InvalidCharset.as_str(), "InvalidCharset");
}

#[test]
fn err_as_string_should_replace_the_error_by_its_message() {
    let failed: AppResult<u8> = Err(AppError::InvalidGuessLength(5));
    let passed: AppResult<u8> = Ok(7);

    assert_eq!(
        failed.err_as_string(),
        Err("[InvalidGuessLength] Your guess word must be 5 letters long.".to_string())
    );
    assert_eq!(passed.err_as_string(), Ok(7));
}

#[test]
fn words_file_path_should_name_the_bundled_list() {
    assert_eq!(WORDS_FILE_PATH, "assets/words.txt");
}
