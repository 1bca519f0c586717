use le_ext::options::{FileOptions, FileOptionsExt};

#[test]
fn defaults_have_no_encryption() {
    let opts = FileOptions::new();
    assert!(opts.deprecated_encryption_password().is_none());
    assert!(!opts.is_large_file());
}

#[test]
fn builder_sets_password() {
    let opts = FileOptions::new().with_deprecated_encryption(b"secret");
    assert_eq!(opts.deprecated_encryption_password(), Some(&b"secret".to_vec()));
}

#[test]
fn shim_matches_builder() {
    let through_shim =
        FileOptionsExt::with_deprecated_encryption(FileOptions::new(), b"secret");
    let through_builder = FileOptions::new().with_deprecated_encryption(b"secret");
    assert_eq!(
        through_shim.deprecated_encryption_password(),
        through_builder.deprecated_encryption_password()
    );
    assert_eq!(through_shim.is_large_file(), through_builder.is_large_file());
}

#[test]
fn shim_preserves_other_options() {
    let opts = FileOptions::new().large_file(true);
    let opts = FileOptionsExt::with_deprecated_encryption(opts, b"pw");
    assert!(opts.is_large_file());
    assert_eq!(opts.deprecated_encryption_password(), Some(&b"pw".to_vec()));
}

#[test]
fn later_password_replaces_earlier() {
    let opts = FileOptions::new()
        .with_deprecated_encryption(b"first")
        .with_deprecated_encryption(b"second");
    assert_eq!(opts.deprecated_encryption_password(), Some(&b"second".to_vec()));
}

#[test]
fn empty_password_is_taken_as_given() {
    let opts = FileOptions::new().with_deprecated_encryption(b"");
    assert_eq!(opts.deprecated_encryption_password(), Some(&Vec::new()));
}
