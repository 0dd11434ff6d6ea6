use fnsd::domain::path::normalize_vault_path;
use fnsd::{CoreError, RemoteMillis, ResourceKind, SyncBatch, VaultName, VaultPath};
use std::path::PathBuf;

#[test]
fn vault_path_normalizes_separators_and_dots() {
    let p = VaultPath::new("notes\\daily/./2024//today.md").unwrap();
    assert_eq!(p.as_str(), "notes/daily/2024/today.md");
    assert_eq!(p.clone().into_string(), "notes/daily/2024/today.md");
    assert_eq!(p.to_string(), "notes/daily/2024/today.md");
}

#[test]
fn vault_path_trailing_slash_is_dropped() {
    assert_eq!(normalize_vault_path("a/b/").unwrap(), "a/b");
}

#[test]
fn vault_path_rejects_empty_and_padded() {
    assert_eq!(VaultPath::new(""), Err(CoreError::EmptyPath));
    assert_eq!(VaultPath::new(" a"), Err(CoreError::EmptyPath));
    assert_eq!(VaultPath::new("a\t"), Err(CoreError::EmptyPath));
    assert_eq!(VaultPath::new("./"), Err(CoreError::EmptyPath));
    assert_eq!(VaultPath::new("."), Err(CoreError::EmptyPath));
}

#[test]
fn vault_path_rejects_control_characters() {
    assert_eq!(VaultPath::new("a\u{0}b"), Err(CoreError::InvalidPath));
    assert_eq!(VaultPath::new("a\nb"), Err(CoreError::InvalidPath));
    assert_eq!(VaultPath::new("a\u{85}b"), Err(CoreError::InvalidPath));
}

#[test]
fn vault_path_rejects_absolute_paths() {
    assert_eq!(VaultPath::new("/etc/passwd"), Err(CoreError::AbsolutePath));
    assert_eq!(VaultPath::new("\\\\server\\share"), Err(CoreError::AbsolutePath));
    assert_eq!(VaultPath::new("C:/Users"), Err(CoreError::AbsolutePath));
    assert_eq!(VaultPath::new("c:notes"), Err(CoreError::AbsolutePath));
}

#[test]
fn vault_path_rejects_traversal_and_colon_segments() {
    assert_eq!(VaultPath::new("a/../b"), Err(CoreError::ParentTraversal));
    assert_eq!(VaultPath::new("a/b:/c"), Err(CoreError::InvalidPath));
    // The first refused piece decides the error.
    assert_eq!(VaultPath::new("ab:/../y"), Err(CoreError::InvalidPath));
    assert_eq!(VaultPath::new("x:/../y"), Err(CoreError::AbsolutePath));
    assert_eq!(VaultPath::new("../x:"), Err(CoreError::ParentTraversal));
}

#[test]
fn vault_path_keeps_unicode_and_inner_spaces() {
    let p = VaultPath::new("日记/my note.md").unwrap();
    assert_eq!(p.as_str(), "日记/my note.md");
    assert_eq!(p.segments(), vec!["日记".to_string(), "my note.md".to_string()]);
}

#[test]
fn vault_path_normalization_is_idempotent_on_concrete_paths() {
    for input in ["a\\b\\c.md", "./x/./y", "dir//file", "z"] {
        let once = VaultPath::new(input).unwrap();
        let twice = VaultPath::new(once.as_str()).unwrap();
        assert_eq!(once, twice);
    }
}

#[test]
fn vault_path_normal_form_that_is_padded_is_refused_again() {
    let once = VaultPath::new("./ a").unwrap();
    assert_eq!(once.as_str(), " a");
    assert_eq!(VaultPath::new(once.as_str()), Err(CoreError::EmptyPath));
}

#[test]
fn vault_path_to_path_buf_under_root() {
    let p = VaultPath::new("a/b/c.md").unwrap();
    let root = PathBuf::from("vault");
    let expected: PathBuf = ["vault", "a", "b", "c.md"].iter().collect();
    assert_eq!(p.to_path_buf_under(&root), expected);
}

#[test]
fn vault_path_from_str() {
    let p: VaultPath = "x\\y".parse().unwrap();
    assert_eq!(p.as_str(), "x/y");
}

#[test]
fn vault_name_accepts_plain_names() {
    let n = VaultName::new("My Vault").unwrap();
    assert_eq!(n.as_str(), "My Vault");
    assert_eq!(n.clone().to_string(), "My Vault");
    let parsed: VaultName = "Work".parse().unwrap();
    assert_eq!(parsed.as_str(), "Work");
}

#[test]
fn vault_name_rejects_bad_names() {
    assert_eq!(VaultName::new(""), Err(CoreError::EmptyVaultName));
    assert_eq!(VaultName::new(" padded"), Err(CoreError::EmptyVaultName));
    assert_eq!(VaultName::new("a/b"), Err(CoreError::InvalidVaultName));
    assert_eq!(VaultName::new("a\\b"), Err(CoreError::InvalidVaultName));
    assert_eq!(VaultName::new("a\u{7f}b"), Err(CoreError::InvalidVaultName));
}

#[test]
fn remote_millis_rejects_negative() {
    assert_eq!(RemoteMillis::new(-1), Err(CoreError::InvalidTimestamp));
    assert_eq!(RemoteMillis::new(0).unwrap().as_i64(), 0);
    assert_eq!(RemoteMillis::new(1_700_000_000_000).unwrap().as_i64(), 1_700_000_000_000);
}

#[test]
fn sync_batch_starts_empty() {
    let t = RemoteMillis::new(42).unwrap();
    let b: SyncBatch<u8> = SyncBatch::new(t);
    assert_eq!(b.context, None);
    assert_eq!(b.last_time, t);
    assert!(b.items.is_empty() && b.deleted.is_empty() && b.missing.is_empty());
}

#[test]
fn core_error_messages() {
    assert_eq!(CoreError::EmptyPath.message(), "vault path is empty");
    assert_eq!(CoreError::InvalidTimestamp.message(), "timestamp is invalid");
    assert_ne!(ResourceKind::Note, ResourceKind::File);
}

#[test]
fn remote_millis_conversions() {
    assert_eq!(RemoteMillis::try_from(42i64).unwrap().as_i64(), 42);
    assert_eq!(RemoteMillis::try_from(-1i64), Err(CoreError::InvalidTimestamp));
    assert_eq!(i64::from(RemoteMillis::new(7).unwrap()), 7);
}

#[test]
fn names_and_paths_as_str_refs() {
    let name = VaultName::new("Vault").unwrap();
    let path = VaultPath::new("a\\b").unwrap();
    let name_ref: &str = name.as_ref();
    let path_ref: &str = path.as_ref();
    assert_eq!(name_ref, "Vault");
    assert_eq!(path_ref, "a/b");
}
