//! The error texts the operations hand back to the front end.
//!
//! Every failure is reported as a human-readable string that combines
//! the attempted path with the underlying cause.  The spec functions
//! here pin each message down to the exact character sequence, so the
//! contracts of the operations can say precisely which text comes back
//! on which input.

use vstd::prelude::*;

verus! {

/// The text reported when a dialog was dismissed without a choice.
pub open spec fn no_selection_message() -> Seq<char> {
    "未选择文件"@
}

/// The text for an operation on `path` that failed with `cause`.
pub open spec fn failure_message(operation: Seq<char>, path: Seq<char>, cause: Seq<char>) -> Seq<char> {
    operation + " '"@ + path + "' 失败: "@ + cause
}

/// The text reported when the file to open does not exist.
pub open spec fn not_found_message(path: Seq<char>) -> Seq<char> {
    "文件 '"@ + path + "' 不存在"@
}

/// The text reported when the file to open is not known to be within
/// the size limit.
pub open spec fn too_large_message(path: Seq<char>) -> Seq<char> {
    "文件 '"@ + path + "' 过大，超过10MB限制"@
}

/// The text reported when the chosen save path has a missing parent.
pub open spec fn parent_missing_message(parent: Seq<char>) -> Seq<char> {
    "保存路径 '"@ + parent + "' 的父目录不存在"@
}

/// The text reported when a directory is requested over an existing
/// non-directory path.
pub open spec fn conflict_message(path: Seq<char>) -> Seq<char> {
    "路径 '"@ + path + "' 已存在但不是目录"@
}

/// The text reported when the existence check's metadata query failed.
pub open spec fn status_failure_message(path: Seq<char>, cause: Seq<char>) -> Seq<char> {
    "检查文件 '"@ + path + "' 状态失败: "@ + cause
}

/// The text reported when the snapshot's metadata query failed.
pub open spec fn info_failure_message(path: Seq<char>, cause: Seq<char>) -> Seq<char> {
    "获取文件 '"@ + path + "' 信息失败: "@ + cause
}

/// Builds the dismissed-dialog text.
pub fn no_selection_text() -> (r: String)
    ensures
        r@ == no_selection_message(),
{
    String::from_str("未选择文件")
}

/// Builds the text for an operation on `path` that failed with `cause`.
pub fn failure_text(operation: &str, path: &str, cause: &str) -> (r: String)
    ensures
        r@ == failure_message(operation@, path@, cause@),
{
    let mut r = String::from_str(operation);
    r.append(" '");
    r.append(path);
    r.append("' 失败: ");
    r.append(cause);
    r
}

/// Builds the missing-file text.
pub fn not_found_text(path: &str) -> (r: String)
    ensures
        r@ == not_found_message(path@),
{
    let mut r = String::from_str("文件 '");
    r.append(path);
    r.append("' 不存在");
    r
}

/// Builds the over-the-size-limit text.
pub fn too_large_text(path: &str) -> (r: String)
    ensures
        r@ == too_large_message(path@),
{
    let mut r = String::from_str("文件 '");
    r.append(path);
    r.append("' 过大，超过10MB限制");
    r
}

/// Builds the missing-parent text.
pub fn parent_missing_text(parent: &str) -> (r: String)
    ensures
        r@ == parent_missing_message(parent@),
{
    let mut r = String::from_str("保存路径 '");
    r.append(parent);
    r.append("' 的父目录不存在");
    r
}

/// Builds the path-conflict text.
pub fn conflict_text(path: &str) -> (r: String)
    ensures
        r@ == conflict_message(path@),
{
    let mut r = String::from_str("路径 '");
    r.append(path);
    r.append("' 已存在但不是目录");
    r
}

/// Builds the failed-existence-check text.
pub fn status_failure_text(path: &str, cause: &str) -> (r: String)
    ensures
        r@ == status_failure_message(path@, cause@),
{
    let mut r = String::from_str("检查文件 '");
    r.append(path);
    r.append("' 状态失败: ");
    r.append(cause);
    r
}

/// Builds the failed-snapshot text.
pub fn info_failure_text(path: &str, cause: &str) -> (r: String)
    ensures
        r@ == info_failure_message(path@, cause@),
{
    let mut r = String::from_str("获取文件 '");
    r.append(path);
    r.append("' 信息失败: ");
    r.append(cause);
    r
}

} // verus!
