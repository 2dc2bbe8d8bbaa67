//! Where the SQLite database may live. SQLite's write-ahead log needs a local
//! filesystem, so a database file is accepted only on ext4, XFS, Btrfs, tmpfs
//! or OverlayFS; an in-memory database is always accepted.
use vstd::prelude::*;
use crate::text::{decimal_int, push_decimal_i64};

verus! {

/// The filesystem magic number of ext4 (`EXT4_SUPER_MAGIC`).
pub const EXT4_SUPER_MAGIC: i64 = 0xef53;

/// The filesystem magic number of XFS (`XFS_SUPER_MAGIC`).
pub const XFS_SUPER_MAGIC: i64 = 0x5846_5342;

/// The filesystem magic number of Btrfs (`BTRFS_SUPER_MAGIC`).
pub const BTRFS_SUPER_MAGIC: i64 = 0x9123_683e;

/// The filesystem magic number of tmpfs (`TMPFS_MAGIC`).
pub const TMPFS_MAGIC: i64 = 0x0102_1994;

/// The filesystem magic number of OverlayFS (`OVERLAYFS_SUPER_MAGIC`).
pub const OVERLAYFS_SUPER_MAGIC: i64 = 0x794c_7630;

/// The local filesystems a database file may live on.
pub open spec fn is_supported_filesystem(filesystem_type: i64) -> bool {
    ||| filesystem_type == EXT4_SUPER_MAGIC
    ||| filesystem_type == XFS_SUPER_MAGIC
    ||| filesystem_type == BTRFS_SUPER_MAGIC
    ||| filesystem_type == TMPFS_MAGIC
    ||| filesystem_type == OVERLAYFS_SUPER_MAGIC
}

/// Whether a filesystem, given by its magic number, is one that a database
/// file may live on.
pub fn supported_local_filesystem(filesystem_type: i64) -> (r: bool)
    ensures
        r == is_supported_filesystem(filesystem_type),
{
    filesystem_type == EXT4_SUPER_MAGIC || filesystem_type == XFS_SUPER_MAGIC || filesystem_type
        == BTRFS_SUPER_MAGIC || filesystem_type == TMPFS_MAGIC || filesystem_type
        == OVERLAYFS_SUPER_MAGIC
}

/// Whether `std::path::Path` considers the paths `a` and `b` equal (it
/// compares their components).
pub uninterp spec fn paths_equal(a: Seq<char>, b: Seq<char>) -> bool;

/// `std::path::Path::parent` of `path`, as text.
pub uninterp spec fn path_parent(path: Seq<char>) -> Option<Seq<char>>;

/// Calls `PartialEq::eq` on `Path::new(a)` and `Path::new(b)`. Paths are
/// compared by their components, so the same text is the same path.
#[verifier::external_body]
fn same_path(a: &str, b: &str) -> (r: bool)
    ensures
        r == paths_equal(a@, b@),
        a@ == b@ ==> r,
{
    std::path::Path::new(a) == std::path::Path::new(b)
}

/// Calls `Path::parent` on `Path::new(path)`; the parent of a path given as
/// text is text again.
#[verifier::external_body]
fn parent_of(path: &str) -> (r: Option<String>)
    ensures
        match r {
            Some(p) => path_parent(path@) == Some(p@),
            None => path_parent(path@) is None,
        },
{
    std::path::Path::new(path).parent().map(|p| p.to_string_lossy().into_owned())
}

/// Calls `Path::exists` on `Path::new(path)`. What is on disk is not stated.
#[verifier::external_body]
fn path_exists(path: &str) -> bool {
    std::path::Path::new(path).exists()
}

/// Calls `nix::sys::statfs::statfs` on `path` and takes the magic number of
/// the filesystem it reports, or the error's message. What is on disk is
/// not stated.
#[verifier::external_body]
fn filesystem_magic(path: &str) -> Result<i64, String> {
    nix::sys::statfs::statfs(path).map(|s| i64::from(s.filesystem_type().0)).map_err(
        |e| e.to_string(),
    )
}

/// A database needs no filesystem check when it lives in memory or has no
/// file name.
pub open spec fn needs_no_filesystem_check(database_path: Seq<char>) -> bool {
    paths_equal(database_path, ":memory:"@) || database_path.len() == 0
}

/// The path whose filesystem is inspected: the database file itself when it
/// exists, else its parent directory, or `.` when the path has no parent or
/// an empty one.
pub open spec fn spec_probe_path(database_path: Seq<char>, exists: bool) -> Seq<char> {
    if exists {
        database_path
    } else {
        match path_parent(database_path) {
            Some(parent) => if parent.len() > 0 { parent } else { "."@ },
            None => "."@,
        }
    }
}

/// The verdict on a database path, given what inspecting its filesystem
/// found: the filesystem's magic number or the inspection's error message.
pub open spec fn filesystem_verdict(database_path: Seq<char>, inspected: Result<i64, Seq<char>>) -> Result<(), Seq<char>> {
    match inspected {
        Err(e) => Err("cannot inspect filesystem for '"@ + database_path + "': "@ + e),
        Ok(t) => if is_supported_filesystem(t) {
            Ok(())
        } else {
            Err(
                "SQLite database '"@ + database_path + "' is on unsupported filesystem type FsType("@
                    + decimal_int(t as int)
                    + "); only ext4, XFS, Btrfs, tmpfs and OverlayFS are accepted"@,
            )
        },
    }
}

/// A result with its error message as text.
pub open spec fn result_text(r: Result<(), String>) -> Result<(), Seq<char>> {
    match r {
        Ok(()) => Ok(()),
        Err(e) => Err(e@),
    }
}

/// What an inspection found, with its error message as text.
pub open spec fn inspection_text(r: Result<i64, String>) -> Result<i64, Seq<char>> {
    match r {
        Ok(t) => Ok(t),
        Err(e) => Err(e@),
    }
}

/// The path whose filesystem tells where the database at `database_path`
/// lives, given whether that path exists.
pub fn sqlite_probe_path(database_path: &str, exists: bool) -> (r: String)
    ensures
        r@ == spec_probe_path(database_path@, exists),
{
    if exists {
        return database_path.to_owned();
    }
    match parent_of(database_path) {
        Some(parent) => {
            if parent.as_str().unicode_len() > 0 {
                parent
            } else {
                String::from_str(".")
            }
        },
        None => String::from_str("."),
    }
}

/// The verdict on the database at `database_path`, given what inspecting
/// the filesystem of its probe path found.
pub fn check_filesystem(database_path: &str, inspected: Result<i64, String>) -> (r: Result<(), String>)
    ensures
        result_text(r) == filesystem_verdict(database_path@, inspection_text(inspected)),
{
    match inspected {
        Err(e) => {
            let mut message = String::from_str("cannot inspect filesystem for '");
            message.append(database_path);
            message.append("': ");
            message.append(e.as_str());
            Err(message)
        },
        Ok(t) => {
            if supported_local_filesystem(t) {
                Ok(())
            } else {
                let mut message = String::from_str("SQLite database '");
                message.append(database_path);
                message.append("' is on unsupported filesystem type FsType(");
                push_decimal_i64(&mut message, t);
                message.append("); only ext4, XFS, Btrfs, tmpfs and OverlayFS are accepted");
                Err(message)
            }
        },
    }
}

/// `verdict` is a verdict that checking the database path `database_path`
/// can give: acceptance without looking at the disk for an in-memory
/// database or one without a file name, otherwise [`filesystem_verdict`] of
/// what inspecting the disk found.
pub open spec fn is_path_verdict(database_path: Seq<char>, verdict: Result<(), Seq<char>>) -> bool {
    if needs_no_filesystem_check(database_path) {
        verdict is Ok
    } else {
        exists|inspected: Result<i64, Seq<char>>|
            verdict == #[trigger] filesystem_verdict(database_path, inspected)
    }
}

/// Checks that the database at `database_path` lives on a supported local
/// filesystem. An in-memory database (`:memory:`), or one without a file
/// name, is accepted without looking at the disk. Otherwise the filesystem
/// of the probe path is inspected, and the verdict is
/// [`filesystem_verdict`] of what that found.
pub fn verify_sqlite_filesystem(database_path: &str) -> (r: Result<(), String>)
    ensures
        is_path_verdict(database_path@, result_text(r)),
        database_path@ == ":memory:"@ ==> r is Ok,
{
    if same_path(database_path, ":memory:") || database_path.unicode_len() == 0 {
        return Ok(());
    }
    let exists = path_exists(database_path);
    let probe = sqlite_probe_path(database_path, exists);
    let inspected = filesystem_magic(probe.as_str());
    let ghost seen = inspection_text(inspected);
    let r = check_filesystem(database_path, inspected);
    assert(result_text(r) == filesystem_verdict(database_path@, seen));
    r
}

/// Why a database URL is refused.
#[derive(Debug)]
pub enum DatabaseUrlError {
    /// The URL is not a SQLite URL; the parser's message.
    Invalid(String),
    /// The database file is not on a supported local filesystem; the message
    /// of [`verify_sqlite_filesystem`].
    UnsupportedFilesystem(String),
}

#[verifier::external_type_specification]
#[verifier::external_body]
pub struct ExSqliteConnectOptions(sqlx::sqlite::SqliteConnectOptions);

/// What `SqliteConnectOptions::from_str` makes of the database URL `db_uri`:
/// `None` when it refuses the URL; `Some(None)` when the URL's database is
/// `:memory:`; `Some(Some(file))` otherwise, with `file` the options'
/// `get_filename` as text (the part between the scheme and `?`,
/// percent-decoded). Each depends on the URL's text alone; the file name the
/// parse gives a `:memory:` database does not (it is drawn from a
/// process-wide counter) and is not named.
pub uninterp spec fn sqlite_url_target(db_uri: Seq<char>) -> Option<Option<Seq<char>>>;

/// Calls `SqliteConnectOptions::from_str` on `db_uri` and takes the options
/// with their `get_filename` as text, or the error's message. States that
/// it succeeds exactly when `sqlite_url_target` says the URL parses, and
/// that the file name is the URL's database file unless the database is in
/// memory.
#[verifier::external_body]
fn parse_sqlite_url(db_uri: &str) -> (r: Result<(sqlx::sqlite::SqliteConnectOptions, String), String>)
    ensures
        r is Ok <==> sqlite_url_target(db_uri@) is Some,
        r matches Ok((_, f)) ==> (sqlite_url_target(db_uri@) matches Some(Some(file)) ==> f@ == file),
{
    let options = db_uri.parse::<sqlx::sqlite::SqliteConnectOptions>().map_err(|e| e.to_string())?;
    let filename = options.get_filename().to_string_lossy().into_owned();
    Ok((options, filename))
}

/// Reads the database URL and checks where its database lives, before any
/// connection is opened: `Invalid` exactly when the URL does not parse;
/// otherwise the URL's database file (for an in-memory database, the name
/// the parse gives it) is checked with [`verify_sqlite_filesystem`], and
/// the URL's connection options come back with the checked file name when it
/// is accepted, or `UnsupportedFilesystem` with the verdict's message.
pub fn check_database_url(db_uri: &str) -> (r: Result<
    (sqlx::sqlite::SqliteConnectOptions, String),
    DatabaseUrlError,
>)
    ensures
        (r matches Err(DatabaseUrlError::Invalid(_))) <==> sqlite_url_target(db_uri@) is None,
        r matches Ok((_, f)) ==> is_path_verdict(f@, Ok(())) && (sqlite_url_target(db_uri@) matches Some(Some(file)) ==> f@ == file),
        r matches Err(DatabaseUrlError::UnsupportedFilesystem(m)) ==> (sqlite_url_target(db_uri@) matches Some(Some(file)) ==> is_path_verdict(file, Err(m@))),
        r matches Err(DatabaseUrlError::UnsupportedFilesystem(m)) ==> exists|filename: Seq<char>|
            #[trigger] is_path_verdict(filename, Err(m@)),
{
    let (options, filename) = match parse_sqlite_url(db_uri) {
        Ok(parsed) => parsed,
        Err(message) => return Err(DatabaseUrlError::Invalid(message)),
    };
    match verify_sqlite_filesystem(filename.as_str()) {
        Ok(()) => Ok((options, filename)),
        Err(message) => {
            let ghost checked = filename@;
            assert(is_path_verdict(checked, Err(message@)));
            let r = Err(DatabaseUrlError::UnsupportedFilesystem(message));
            assert(r matches Err(DatabaseUrlError::UnsupportedFilesystem(m)) && is_path_verdict(
                checked,
                Err(m@),
            ));
            r
        },
    }
}

} // verus!
