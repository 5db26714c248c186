use zfs_manager::check_and_sanitize_zfs_dataset_name;
use zfs_manager::ZfsError;

#[test]
fn test_valid_zfs_dataset_names() {
    let f = check_and_sanitize_zfs_dataset_name;

    f("pool/dataset1").unwrap();
    f("pool/dataset_2").unwrap();
    f("pool.dataset/dataset-3").unwrap();
    f("pool.dataset/dataset:3").unwrap();
    f("pool:1/dataset.with.multiple.levels").unwrap();
    f(" pool:1/dataset.with.multiple.levels").unwrap();
    f(" pool:1/dataset.with.multiple.levels  ").unwrap();
}

#[test]
fn test_invalid_zfs_dataset_names() {
    let f = check_and_sanitize_zfs_dataset_name;

    f("").unwrap_err();
    f("_R").unwrap_err();
    f("-R").unwrap_err();
    f(":R").unwrap_err();
    f(".R").unwrap_err();
    f(" _R").unwrap_err();
    f(" -R").unwrap_err();
    f(" :R").unwrap_err();
    f(" .R").unwrap_err();
    f("pool/_R").unwrap_err();
    f("pool/-R").unwrap_err();
    f("pool/:R").unwrap_err();
    f("pool/.R").unwrap_err();
    f("pool/ _R").unwrap_err();
    f("pool/ -R").unwrap_err();
    f("pool/ :R").unwrap_err();
    f("pool/ .R").unwrap_err();
    f("pool/dataset name").unwrap_err();
    f("pool/dataset!").unwrap_err();
    f("pool/dataset@name").unwrap_err();
    f("pool//dataset").unwrap_err();
    f("pool/ dataset").unwrap_err();
}

#[test]
fn accepted_name_is_trimmed() {
    assert_eq!(
        check_and_sanitize_zfs_dataset_name("  pool/ds:1 \t\n"),
        Ok("pool/ds:1".to_string())
    );
    assert_eq!(
        check_and_sanitize_zfs_dataset_name("\u{3000}pool\u{a0}"),
        Ok("pool".to_string())
    );
}

#[test]
fn padding_does_not_change_accepted_name() {
    for name in ["a", "pool/ds", "Z9/a-b_c.d:e", "p/q/r/s"] {
        let plain = check_and_sanitize_zfs_dataset_name(name);
        assert_eq!(plain, Ok(name.to_string()));
        for (before, after) in [(" ", ""), ("", "\t"), ("\n ", " \r\n"), ("\u{2003}", "\u{85}")] {
            let padded = format!("{}{}{}", before, name, after);
            assert_eq!(check_and_sanitize_zfs_dataset_name(&padded), plain);
        }
    }
}

#[test]
fn rejected_name_is_reported_trimmed() {
    assert_eq!(
        check_and_sanitize_zfs_dataset_name("  pool//ds "),
        Err(ZfsError::DatasetNameIsInvalid("pool//ds".to_string()))
    );
    assert_eq!(
        check_and_sanitize_zfs_dataset_name("   "),
        Err(ZfsError::DatasetNameIsInvalid(String::new()))
    );
}

#[test]
fn malformed_names_are_rejected() {
    let bad = [
        "pool/a b",
        "pool/a\tb",
        "pool;rm",
        "pool/$(x)",
        "pool/a`b`",
        "pool/é",
        "pool/",
        "/pool",
        "pool//a",
        "pool/.hidden",
        "pool/:a",
        "-pool",
        "pool/a|b",
        "pool/a&b",
        "pool/a>b",
    ];
    for name in bad {
        assert!(
            matches!(
                check_and_sanitize_zfs_dataset_name(name),
                Err(ZfsError::DatasetNameIsInvalid(_))
            ),
            "{:?} should be rejected",
            name
        );
    }
}

#[test]
fn every_allowed_character_passes() {
    let mut name = String::from("a");
    for c in ('a'..='z').chain('A'..='Z').chain('0'..='9') {
        name.push(c);
    }
    name.push_str("-_.:/b");
    assert_eq!(check_and_sanitize_zfs_dataset_name(&name), Ok(name.clone()));
}
