//! The operations the editor shell exposes to its front end.
//!
//! Each operation is a pure request/response decision: the surrounding
//! process observes the filesystem (does the path exist, what did the
//! metadata query say, what did a read or write return) and hands the
//! observation in as plain values; the functions here decide what to
//! answer, which action to perform next, and with which error text a
//! request is rejected.  No state survives from one request to the
//! next.

use vstd::prelude::*;

use crate::decimal::decimal_string;
use crate::decimal::u64_to_decimal;
use crate::info::FileInfo;
use crate::info::PathStatus;
use crate::messages::conflict_message;
use crate::messages::conflict_text;
use crate::messages::failure_message;
use crate::messages::failure_text;
use crate::messages::not_found_message;
use crate::messages::not_found_text;
use crate::messages::parent_missing_message;
use crate::messages::parent_missing_text;
use crate::messages::info_failure_message;
use crate::messages::info_failure_text;
use crate::messages::status_failure_message;
use crate::messages::status_failure_text;
use crate::messages::too_large_message;
use crate::messages::too_large_text;

verus! {

/// The largest file the open flow is willing to read, in bytes (10 MiB).
pub const MAX_FILE_BYTES: u64 = 10 * 1024 * 1024;

/// The operation name in a failed write's error text.
pub open spec fn save_operation() -> Seq<char> {
    "保存文件"@
}

/// The operation name in a failed read's error text.
pub open spec fn read_operation() -> Seq<char> {
    "读取文件"@
}

/// The operation name in a failed directory creation's error text.
pub open spec fn create_operation() -> Seq<char> {
    "创建目录"@
}

/// The greeting returned for `name`.
pub open spec fn greeting(name: Seq<char>) -> Seq<char> {
    "Hello, "@ + name + "! You've been greeted from Rust!"@
}

/// Returns the greeting for `name`.
pub fn greet(name: &str) -> (r: String)
    ensures
        r@ == greeting(name@),
{
    let mut r = String::from_str("Hello, ");
    r.append(name);
    r.append("! You've been greeted from Rust!");
    r
}

/// Passes a successful result through unchanged and turns a failure
/// into the descriptive text for `operation` on `path`.
pub fn handle_file_error<T>(result: Result<T, String>, operation: &str, path: &str) -> (r: Result<
    T,
    String,
>)
    ensures
        result matches Ok(v) ==> (r matches Ok(w) && w == v),
        result matches Err(cause) ==> (r matches Err(e) && e@ == failure_message(
            operation@,
            path@,
            cause@,
        )),
{
    match result {
        Ok(v) => Ok(v),
        Err(err) => Err(failure_text(operation, path, err.as_str())),
    }
}

/// The write the save flow asks the surrounding process to perform:
/// store exactly `content` at `path`, overwriting what is there.
pub struct WriteRequest {
    /// The chosen destination path.
    pub path: String,
    /// The full text to store.
    pub content: String,
}

/// A save to a chosen path is allowed unless the path has a parent
/// directory and that parent does not exist.
pub open spec fn save_allowed(parent: Option<Seq<char>>, parent_exists: bool) -> bool {
    parent is Some ==> parent_exists
}

/// What the save flow does with `content` once a path is chosen:
/// either the content, unchanged, reaches the write, or the flow stops
/// with the missing-parent error and nothing is written.
pub open spec fn save_outcome(
    content: Seq<char>,
    parent: Option<Seq<char>>,
    parent_exists: bool,
) -> Result<Seq<char>, Seq<char>> {
    match parent {
        Some(p) => if parent_exists {
            Ok(content)
        } else {
            Err(parent_missing_message(p))
        },
        None => Ok(content),
    }
}

/// Validates a chosen save path and builds the write request.
///
/// `parent` is the path's parent directory, when it has one, and
/// `parent_exists` reports whether that parent exists.  A missing
/// parent rejects the request — the save flow never creates it — and
/// no write request is produced, so no file comes into being.
pub fn save_file_request(
    path: String,
    content: String,
    parent: Option<&str>,
    parent_exists: bool,
) -> (r: Result<WriteRequest, String>)
    ensures
        r is Ok <==> save_allowed(parent.deep_view(), parent_exists),
        r matches Ok(w) ==> (w.path == path && w.content == content),
        r matches Ok(w) ==> save_outcome(content@, parent.deep_view(), parent_exists)
            == Ok::<Seq<char>, Seq<char>>(content@),
        r matches Err(e) ==> save_outcome(content@, parent.deep_view(), parent_exists)
            == Err::<Seq<char>, Seq<char>>(e@),
{
    match parent {
        Some(p) => {
            if parent_exists {
                Ok(WriteRequest { path, content })
            } else {
                Err(parent_missing_text(p))
            }
        },
        None => Ok(WriteRequest { path, content }),
    }
}

/// Maps the write's outcome to the save flow's answer.
pub fn save_write_outcome(path: &str, write: Result<(), String>) -> (r: Result<(), String>)
    ensures
        write is Ok ==> r is Ok,
        write matches Err(cause) ==> (r matches Err(e) && e@ == failure_message(
            save_operation(),
            path@,
            cause@,
        )),
{
    handle_file_error(write, "保存文件", path)
}

/// A size report is within the limit only when the metadata query
/// succeeded with at most [`MAX_FILE_BYTES`] bytes.  A file whose size
/// could not be determined is not known to be within the limit, so it
/// does not pass.
pub open spec fn size_within_limit(size: Option<u64>) -> bool {
    match size {
        Some(n) => n <= MAX_FILE_BYTES,
        None => false,
    }
}

/// The open flow reads a chosen file only when it exists and its
/// reported size is within the limit.
pub open spec fn open_allowed(path_exists: bool, size: Option<u64>) -> bool {
    path_exists && size_within_limit(size)
}

/// The error the open flow answers when it refuses to read.
pub open spec fn open_deny_message(path: Seq<char>, path_exists: bool, size: Option<u64>) -> Seq<char> {
    if !path_exists {
        not_found_message(path)
    } else {
        too_large_message(path)
    }
}

/// What the open flow answers for a chosen path, given the
/// observations and what the read (when one is performed) returned:
/// a refused request never reaches the read, and an allowed one hands
/// the read's bytes back unchanged.
pub open spec fn open_outcome(
    path: Seq<char>,
    path_exists: bool,
    size: Option<u64>,
    read: Result<Seq<char>, Seq<char>>,
) -> Result<Seq<char>, Seq<char>> {
    if !open_allowed(path_exists, size) {
        Err(open_deny_message(path, path_exists, size))
    } else {
        match read {
            Ok(c) => Ok(c),
            Err(cause) => Err(failure_message(read_operation(), path, cause)),
        }
    }
}

/// Decides whether the open flow may read the chosen file.
///
/// `path_exists` reports whether the path exists; `size` is the byte
/// size the metadata query reported, or absent when the query failed.
/// A missing file is refused, and so is a file not known to be within
/// the size limit — over the limit or of unknown size — in each case
/// before any read, so no partial content is ever returned.
pub fn open_file_plan(path: &str, path_exists: bool, size: Option<u64>) -> (r: Result<(), String>)
    ensures
        r is Ok <==> open_allowed(path_exists, size),
        r matches Err(e) ==> e@ == open_deny_message(path@, path_exists, size),
{
    if !path_exists {
        Err(not_found_text(path))
    } else {
        match size {
            Some(n) => {
                if n > MAX_FILE_BYTES {
                    Err(too_large_text(path))
                } else {
                    Ok(())
                }
            },
            None => Err(too_large_text(path)),
        }
    }
}

/// Maps the read's outcome to the open flow's answer: the content,
/// unchanged, or the descriptive read error.
pub fn open_read_outcome(path: &str, read: Result<String, String>) -> (r: Result<String, String>)
    ensures
        read matches Ok(c) ==> (r matches Ok(d) && d == c),
        read matches Err(cause) ==> (r matches Err(e) && e@ == failure_message(
            read_operation(),
            path@,
            cause@,
        )),
{
    handle_file_error(read, "读取文件", path)
}

/// Answers whether `path` is a regular file.
///
/// A missing path answers `false`; an existing path answers what the
/// metadata reported, so a directory (or any other non-file kind)
/// answers `false` rather than an error.  Only a failed metadata query
/// on an existing path is an error.
pub fn check_file_exists(path: &str, status: PathStatus) -> (r: Result<bool, String>)
    requires
        status.wf(),
    ensures
        status is Missing ==> r == Ok::<bool, String>(false),
        status matches PathStatus::Found(m) ==> r == Ok::<bool, String>(m.is_file),
        status matches PathStatus::Found(m) && m.is_dir ==> r == Ok::<bool, String>(false),
        status matches PathStatus::Inaccessible(cause) ==> (r matches Err(e) && e@
            == status_failure_message(path@, cause@)),
{
    match status {
        PathStatus::Missing => Ok(false),
        PathStatus::Found(m) => Ok(m.is_file),
        PathStatus::Inaccessible(cause) => Err(status_failure_text(path, cause.as_str())),
    }
}

/// Builds the metadata snapshot for `path`.
///
/// A missing path is not an error: the snapshot carries the existence
/// flag `false`, a zero size, no last-modified value, and the path
/// itself.  An existing path's snapshot copies what the metadata query
/// reported, with the last-modified time rendered in decimal seconds.
/// Only a failed metadata query on an existing path is an error.
pub fn get_file_info(path: String, status: PathStatus) -> (r: Result<FileInfo, String>)
    requires
        status.wf(),
    ensures
        r matches Ok(info) ==> (info.wf() && info.path == path),
        r is Err <==> status is Inaccessible,
        status is Missing ==> (r matches Ok(info) && !info.exists),
        status matches PathStatus::Found(m) ==> (r matches Ok(info) && info.exists && info.is_file
            == m.is_file && info.is_dir == m.is_dir && info.size == m.len && info.readonly
            == m.readonly && (match m.modified_secs {
            Some(t) => info.last_modified matches Some(s) && s@ == decimal_string(t as nat),
            None => info.last_modified is None,
        })),
        status matches PathStatus::Inaccessible(cause) ==> (r matches Err(e) && e@
            == info_failure_message(path@, cause@)),
{
    match status {
        PathStatus::Missing => Ok(
            FileInfo {
                exists: false,
                is_file: false,
                is_dir: false,
                size: 0,
                last_modified: None,
                readonly: false,
                path,
            },
        ),
        PathStatus::Found(m) => {
            let last_modified = match m.modified_secs {
                Some(t) => Some(u64_to_decimal(t)),
                None => None,
            };
            Ok(
                FileInfo {
                    exists: true,
                    is_file: m.is_file,
                    is_dir: m.is_dir,
                    size: m.len,
                    last_modified,
                    readonly: m.readonly,
                    path,
                },
            )
        },
        PathStatus::Inaccessible(cause) => {
            let e = info_failure_text(path.as_str(), cause.as_str());
            Err(e)
        },
    }
}

/// What the directory-creation flow decides to do.
pub enum CreatePlan {
    /// The path already is a directory: succeed without doing anything.
    AlreadyDirectory,
    /// The path exists and is not a directory: answer this conflict
    /// error and do nothing.
    Reject(String),
    /// The path does not exist: create the full directory chain.
    Create,
}

/// A directory request is allowed unless the path exists as something
/// other than a directory.
pub open spec fn create_allowed(path_exists: bool, is_dir: bool) -> bool {
    !path_exists || is_dir
}

/// A directory request performs a creation exactly when the path does
/// not exist yet.
pub open spec fn create_creates(path_exists: bool, is_dir: bool) -> bool {
    !path_exists
}

/// Decides what the directory-creation flow does with `path`.
///
/// `path_exists` and `is_dir` report what the process observed about the
/// path.  An existing directory succeeds as a no-op, an existing
/// non-directory is a conflict, and a missing path is created.
pub fn create_directory_plan(path: &str, path_exists: bool, is_dir: bool) -> (r: CreatePlan)
    ensures
        r is Reject <==> !create_allowed(path_exists, is_dir),
        r matches CreatePlan::Reject(e) ==> e@ == conflict_message(path@),
        r is Create <==> create_creates(path_exists, is_dir),
        r is AlreadyDirectory <==> (create_allowed(path_exists, is_dir) && !create_creates(
            path_exists,
            is_dir,
        )),
{
    if path_exists {
        if is_dir {
            CreatePlan::AlreadyDirectory
        } else {
            CreatePlan::Reject(conflict_text(path))
        }
    } else {
        CreatePlan::Create
    }
}

/// Maps the creation's outcome to the flow's answer.
pub fn create_directory_outcome(path: &str, create: Result<(), String>) -> (r: Result<(), String>)
    ensures
        create is Ok ==> r is Ok,
        create matches Err(cause) ==> (r matches Err(e) && e@ == failure_message(
            create_operation(),
            path@,
            cause@,
        )),
{
    handle_file_error(create, "创建目录", path)
}

/// Directory creation is idempotent.  On a path that does not exist
/// the request is allowed and performs the creation; once the path is
/// an existing directory, a repeated request is still allowed and
/// performs nothing, so both invocations succeed and the directory the
/// first one left behind is untouched.  The decision depends only on
/// the observed state, never on the path, so this holds of every path.
pub proof fn lemma_create_directory_idempotent()
    ensures
        create_allowed(false, false) && create_creates(false, false),
        create_allowed(true, true) && !create_creates(true, true),
{
}

/// Saving and then opening the same path round-trips the content.
/// When the chosen path's parent exists, the save flow hands exactly
/// `content` to the write; the file the write leaves behind passes the
/// open checks whenever its reported size is within the limit; and the
/// open flow answers the bytes the read delivers, unchanged.
pub proof fn lemma_save_open_round_trip(
    path: Seq<char>,
    content: Seq<char>,
    parent: Option<Seq<char>>,
    parent_exists: bool,
    size: u64,
)
    requires
        save_allowed(parent, parent_exists),
        size <= MAX_FILE_BYTES,
    ensures
        save_outcome(content, parent, parent_exists) == Ok::<Seq<char>, Seq<char>>(content),
        open_allowed(true, Some(size)),
        open_outcome(path, true, Some(size), Ok(content)) == Ok::<Seq<char>, Seq<char>>(content),
{
}

} // verus!
