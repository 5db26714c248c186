use zfs_manager::text::{ascii_alnum, white_space};
use zfs_manager::ZfsError;
use zfs_manager::{parse_dataset_mounted_state, parse_key_available_state, parse_key_status};

#[test]
fn key_loaded_state() {
    assert_eq!(parse_key_available_state("available").unwrap(), true);
    assert_eq!(parse_key_available_state("unavailable").unwrap(), false);
    assert_eq!(parse_key_available_state(" available").unwrap(), true);
    assert_eq!(parse_key_available_state(" unavailable").unwrap(), false);
    assert_eq!(parse_key_available_state("available ").unwrap(), true);
    assert_eq!(parse_key_available_state("unavailable ").unwrap(), false);
    assert_eq!(parse_key_available_state(" available ").unwrap(), true);
    assert_eq!(parse_key_available_state(" unavailable ").unwrap(), false);

    parse_key_available_state("yes").unwrap_err();
    parse_key_available_state("no").unwrap_err();
    parse_key_available_state(" ").unwrap_err();
    parse_key_available_state(".").unwrap_err();
    parse_key_available_state("2222").unwrap_err();
}

#[test]
fn is_mounted_state() {
    assert_eq!(parse_dataset_mounted_state("yes").unwrap(), true);
    assert_eq!(parse_dataset_mounted_state("no").unwrap(), false);
    assert_eq!(parse_dataset_mounted_state(" yes").unwrap(), true);
    assert_eq!(parse_dataset_mounted_state(" no").unwrap(), false);
    assert_eq!(parse_dataset_mounted_state("yes ").unwrap(), true);
    assert_eq!(parse_dataset_mounted_state("no ").unwrap(), false);
    assert_eq!(parse_dataset_mounted_state(" yes ").unwrap(), true);
    assert_eq!(parse_dataset_mounted_state(" no ").unwrap(), false);

    parse_dataset_mounted_state("available").unwrap_err();
    parse_dataset_mounted_state("unavailable").unwrap_err();
    parse_dataset_mounted_state(" ").unwrap_err();
    parse_dataset_mounted_state(".").unwrap_err();
    parse_dataset_mounted_state("2222").unwrap_err();
}

#[test]
fn unexpected_tokens_are_named_untrimmed() {
    assert_eq!(
        parse_key_available_state(" yes "),
        Err(ZfsError::UnexpectedStateForKey(" yes ".to_string()))
    );
    assert_eq!(
        parse_dataset_mounted_state("maybe\n"),
        Err(ZfsError::UnexpectedStateForMount("maybe\n".to_string()))
    );
}

#[test]
fn token_vocabulary_is_exact() {
    assert_eq!(parse_key_status("available"), Ok(true));
    assert_eq!(parse_key_status("unavailable"), Ok(false));
    assert_eq!(parse_key_status("-"), Ok(true));
    assert_eq!(parse_key_status(" - "), Ok(true));
    assert_eq!(
        parse_key_status("--"),
        Err(ZfsError::UnexpectedStateForKey("--".to_string()))
    );
    assert_eq!(
        parse_key_status("Available"),
        Err(ZfsError::UnexpectedStateForKey("Available".to_string()))
    );
    assert_eq!(
        parse_key_available_state("-"),
        Err(ZfsError::UnexpectedStateForKey("-".to_string()))
    );
    assert_eq!(
        parse_dataset_mounted_state("-"),
        Err(ZfsError::UnexpectedStateForMount("-".to_string()))
    );
    assert_eq!(
        parse_dataset_mounted_state("YES"),
        Err(ZfsError::UnexpectedStateForMount("YES".to_string()))
    );
    assert_eq!(
        parse_key_available_state(""),
        Err(ZfsError::UnexpectedStateForKey(String::new()))
    );
}

#[test]
fn character_classes_agree_with_std() {
    for u in 0u32..=0x10FFFF {
        if let Some(c) = char::from_u32(u) {
            assert_eq!(white_space(c), c.is_whitespace(), "{:?}", c);
            assert_eq!(ascii_alnum(c), c.is_ascii_alphanumeric(), "{:?}", c);
        }
    }
}
