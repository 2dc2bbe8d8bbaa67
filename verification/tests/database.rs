use nix::sys::statfs as fs;
use nix::sys::statfs::{FsType, FUSE_SUPER_MAGIC, NFS_SUPER_MAGIC, OVERLAYFS_SUPER_MAGIC};
use rust_tmpl::database::{
    check_database_url, check_filesystem, sqlite_probe_path, supported_local_filesystem, verify_sqlite_filesystem,
    BTRFS_SUPER_MAGIC, EXT4_SUPER_MAGIC, OVERLAYFS_SUPER_MAGIC as OVERLAYFS, TMPFS_MAGIC,
    XFS_SUPER_MAGIC,
};

#[test]
fn accepts_memory_and_known_local_filesystems() {
    assert!(verify_sqlite_filesystem(":memory:").is_ok());
    assert!(verify_sqlite_filesystem("new-local-database.db").is_ok());
    assert!(supported_local_filesystem(OVERLAYFS_SUPER_MAGIC.0));
}

#[test]
fn rejects_network_filesystems_and_unknown_types() {
    assert!(!supported_local_filesystem(NFS_SUPER_MAGIC.0));
    assert!(!supported_local_filesystem(FUSE_SUPER_MAGIC.0));
    assert!(!supported_local_filesystem(FsType(0).0));
}

#[test]
fn magic_numbers_are_the_ones_nix_knows() {
    assert_eq!(EXT4_SUPER_MAGIC, fs::EXT4_SUPER_MAGIC.0);
    assert_eq!(XFS_SUPER_MAGIC, fs::XFS_SUPER_MAGIC.0);
    assert_eq!(BTRFS_SUPER_MAGIC, fs::BTRFS_SUPER_MAGIC.0);
    assert_eq!(TMPFS_MAGIC, fs::TMPFS_MAGIC.0);
    assert_eq!(OVERLAYFS, fs::OVERLAYFS_SUPER_MAGIC.0);
    for magic in [EXT4_SUPER_MAGIC, XFS_SUPER_MAGIC, BTRFS_SUPER_MAGIC, TMPFS_MAGIC, OVERLAYFS] {
        assert!(supported_local_filesystem(magic));
    }
}

#[test]
fn empty_path_needs_no_filesystem() {
    assert!(verify_sqlite_filesystem("").is_ok());
}

#[test]
fn probe_path_falls_back_to_parent_or_current_directory() {
    assert_eq!(sqlite_probe_path("data/app.db", true), "data/app.db");
    assert_eq!(sqlite_probe_path("data/app.db", false), "data");
    assert_eq!(sqlite_probe_path("/var/lib/app.db", false), "/var/lib");
    assert_eq!(sqlite_probe_path("app.db", false), ".");
    assert_eq!(sqlite_probe_path("/", false), ".");
}

#[test]
fn verdict_messages() {
    assert_eq!(check_filesystem("app.db", Ok(EXT4_SUPER_MAGIC)), Ok(()));
    assert_eq!(
        check_filesystem("app.db", Ok(NFS_SUPER_MAGIC.0)),
        Err(format!(
            "SQLite database 'app.db' is on unsupported filesystem type {:?}; only ext4, XFS, Btrfs, tmpfs and OverlayFS are accepted",
            NFS_SUPER_MAGIC
        ))
    );
    assert_eq!(
        check_filesystem("app.db", Ok(-5)),
        Err("SQLite database 'app.db' is on unsupported filesystem type FsType(-5); only ext4, XFS, Btrfs, tmpfs and OverlayFS are accepted".to_string())
    );
    assert_eq!(
        check_filesystem("x/app.db", Err("ENOENT: No such file or directory".to_string())),
        Err("cannot inspect filesystem for 'x/app.db': ENOENT: No such file or directory".to_string())
    );
}

#[test]
fn missing_directory_cannot_be_inspected() {
    let r = verify_sqlite_filesystem("/definitely/not/a/real/dir/app.db");
    let message = r.unwrap_err();
    assert!(message.starts_with("cannot inspect filesystem for '/definitely/not/a/real/dir/app.db': "));
}

#[test]
fn database_urls_are_parsed_then_checked() {
    let (_, filename) = check_database_url("sqlite://new-local-database.db").unwrap();
    assert_eq!(filename, "new-local-database.db");
    assert!(matches!(
        check_database_url("sqlite://app.db?mode=nonsense"),
        Err(rust_tmpl::database::DatabaseUrlError::Invalid(_))
    ));
    assert!(matches!(
        check_database_url("sqlite:///definitely/not/a/real/dir/app.db"),
        Err(rust_tmpl::database::DatabaseUrlError::UnsupportedFilesystem(_))
    ));
}
