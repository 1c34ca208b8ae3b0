use mdshell::dialog::filter_extension_text;
use mdshell::dialog::filter_label_text;
use mdshell::dialog::open_dialog_title_text;
use mdshell::dialog::require_selection;
use mdshell::dialog::save_dialog_title_text;
use mdshell::info::Metadata;
use mdshell::info::PathStatus;
use mdshell::ops::check_file_exists;
use mdshell::ops::create_directory_outcome;
use mdshell::ops::create_directory_plan;
use mdshell::ops::get_file_info;
use mdshell::ops::greet;
use mdshell::ops::handle_file_error;
use mdshell::ops::open_file_plan;
use mdshell::ops::open_read_outcome;
use mdshell::ops::save_file_request;
use mdshell::ops::save_write_outcome;
use mdshell::ops::CreatePlan;
use mdshell::ops::MAX_FILE_BYTES;

fn found(is_file: bool, is_dir: bool, len: u64, readonly: bool, modified: Option<u64>) -> PathStatus {
    PathStatus::Found(Metadata { is_file, is_dir, len, readonly, modified_secs: modified })
}

#[test]
fn greet_formats_the_greeting() {
    assert_eq!(greet("World"), "Hello, World! You've been greeted from Rust!");
    assert_eq!(greet(""), "Hello, ! You've been greeted from Rust!");
}

#[test]
fn dialog_cancellation_is_an_error_for_open_and_save() {
    let open_choice: Option<String> = None;
    let r = require_selection(open_choice);
    assert_eq!(r, Err("未选择文件".to_string()));
    let save_choice: Option<String> = None;
    let r = require_selection(save_choice);
    assert_eq!(r, Err("未选择文件".to_string()));
}

#[test]
fn dialog_choice_is_passed_through() {
    let r = require_selection(Some("/tmp/notes.md".to_string()));
    assert_eq!(r, Ok("/tmp/notes.md".to_string()));
}

#[test]
fn dialog_configuration_restricts_to_markdown() {
    assert_eq!(filter_label_text(), "Markdown");
    assert_eq!(filter_extension_text(), "md");
    assert_eq!(save_dialog_title_text(), "保存Markdown文件");
    assert_eq!(open_dialog_title_text(), "打开Markdown文件");
}

#[test]
fn get_file_info_missing_path_has_default_fields() {
    let r = get_file_info("/no/such/file.md".to_string(), PathStatus::Missing);
    let info = r.expect("a missing path is not an error");
    assert!(!info.exists);
    assert!(!info.is_file);
    assert!(!info.is_dir);
    assert_eq!(info.size, 0);
    assert_eq!(info.last_modified, None);
    assert!(!info.readonly);
    assert_eq!(info.path, "/no/such/file.md");
}

#[test]
fn get_file_info_copies_the_metadata() {
    let r = get_file_info(
        "/tmp/a.md".to_string(),
        found(true, false, 1024, true, Some(1700000000)),
    );
    let info = r.unwrap();
    assert!(info.exists);
    assert!(info.is_file);
    assert!(!info.is_dir);
    assert_eq!(info.size, 1024);
    assert_eq!(info.last_modified, Some("1700000000".to_string()));
    assert!(info.readonly);
    assert_eq!(info.path, "/tmp/a.md");
}

#[test]
fn get_file_info_without_modified_time() {
    let r = get_file_info("/tmp/a.md".to_string(), found(true, false, 5, false, None));
    assert_eq!(r.unwrap().last_modified, None);
}

#[test]
fn get_file_info_renders_timestamps_in_decimal() {
    for (secs, text) in [
        (0u64, "0"),
        (7, "7"),
        (42, "42"),
        (1024, "1024"),
        (u64::MAX, "18446744073709551615"),
    ] {
        let r = get_file_info("/tmp/a.md".to_string(), found(true, false, 1, false, Some(secs)));
        assert_eq!(r.unwrap().last_modified, Some(text.to_string()));
    }
}

#[test]
fn get_file_info_metadata_failure_is_an_error() {
    let r = get_file_info(
        "/tmp/a.md".to_string(),
        PathStatus::Inaccessible("permission denied".to_string()),
    );
    assert_eq!(
        r,
        Err("获取文件 '/tmp/a.md' 信息失败: permission denied".to_string())
    );
}

#[test]
fn check_file_exists_true_only_for_regular_files() {
    let r = check_file_exists("/tmp/a.md", found(true, false, 3, false, None));
    assert_eq!(r, Ok(true));
    let r = check_file_exists("/tmp/dir", found(false, true, 0, false, None));
    assert_eq!(r, Ok(false));
    let r = check_file_exists("/no/such", PathStatus::Missing);
    assert_eq!(r, Ok(false));
}

#[test]
fn check_file_exists_metadata_failure_is_an_error() {
    let r = check_file_exists(
        "/tmp/a.md",
        PathStatus::Inaccessible("permission denied".to_string()),
    );
    assert_eq!(
        r,
        Err("检查文件 '/tmp/a.md' 状态失败: permission denied".to_string())
    );
}

#[test]
fn create_directory_is_idempotent() {
    // First request: the path does not exist, so the flow creates it.
    let first = create_directory_plan("/tmp/a/b/c", false, false);
    assert!(matches!(first, CreatePlan::Create));
    assert_eq!(create_directory_outcome("/tmp/a/b/c", Ok(())), Ok(()));
    // Second request: the directory the first one made is there, so the
    // flow succeeds without doing anything.
    let second = create_directory_plan("/tmp/a/b/c", true, true);
    assert!(matches!(second, CreatePlan::AlreadyDirectory));
}

#[test]
fn create_directory_over_a_file_is_a_conflict() {
    let plan = create_directory_plan("/tmp/a.md", true, false);
    match plan {
        CreatePlan::Reject(e) => {
            assert_eq!(e, "路径 '/tmp/a.md' 已存在但不是目录")
        }
        _ => panic!("an existing non-directory must be rejected"),
    }
}

#[test]
fn create_directory_failure_is_reported() {
    let r = create_directory_outcome("/tmp/a/b", Err("disk full".to_string()));
    assert_eq!(r, Err("创建目录 '/tmp/a/b' 失败: disk full".to_string()));
}

#[test]
fn open_file_rejects_an_oversized_file() {
    let r = open_file_plan("/tmp/big.md", true, Some(MAX_FILE_BYTES + 1));
    assert_eq!(
        r,
        Err("文件 '/tmp/big.md' 过大，超过10MB限制".to_string())
    );
}

#[test]
fn open_file_reads_at_the_size_limit() {
    assert_eq!(open_file_plan("/tmp/a.md", true, Some(MAX_FILE_BYTES)), Ok(()));
    assert_eq!(open_file_plan("/tmp/a.md", true, Some(0)), Ok(()));
}

#[test]
fn open_file_refuses_an_unknown_size() {
    // A failed metadata query leaves the file's size unknown, so it is
    // not known to be within the limit and the read is refused.
    assert_eq!(
        open_file_plan("/tmp/a.md", true, None),
        Err("文件 '/tmp/a.md' 过大，超过10MB限制".to_string())
    );
}

#[test]
fn open_file_rejects_a_missing_file() {
    let r = open_file_plan("/no/such.md", false, None);
    assert_eq!(r, Err("文件 '/no/such.md' 不存在".to_string()));
}

#[test]
fn open_read_failure_is_reported() {
    let r = open_read_outcome("/tmp/a.md", Err("interrupted".to_string()));
    assert_eq!(r, Err("读取文件 '/tmp/a.md' 失败: interrupted".to_string()));
}

#[test]
fn save_with_missing_parent_fails_without_a_write() {
    let r = save_file_request(
        "/no/dir/a.md".to_string(),
        "# notes".to_string(),
        Some("/no/dir"),
        false,
    );
    assert!(r.is_err());
    assert_eq!(
        r.err().unwrap(),
        "保存路径 '/no/dir' 的父目录不存在"
    );
}

#[test]
fn save_without_a_parent_proceeds() {
    let r = save_file_request("/".to_string(), "x".to_string(), None, false);
    let w = r.unwrap();
    assert_eq!(w.path, "/");
    assert_eq!(w.content, "x");
}

#[test]
fn save_write_failure_is_reported() {
    let r = save_write_outcome("/tmp/a.md", Err("read-only filesystem".to_string()));
    assert_eq!(
        r,
        Err("保存文件 '/tmp/a.md' 失败: read-only filesystem".to_string())
    );
}

#[test]
fn save_then_open_round_trips_the_content() {
    let content = "# Title\n\nSome *Markdown* text.\n";
    // The save flow hands the content to the write unchanged.
    let w = save_file_request(
        "/tmp/doc.md".to_string(),
        content.to_string(),
        Some("/tmp"),
        true,
    )
    .unwrap();
    assert_eq!(w.content, content);
    assert_eq!(save_write_outcome(&w.path, Ok(())), Ok(()));
    // The written file exists within the limit, so the open flow reads
    // it, and answers what the read delivers unchanged.
    let stored = w.content;
    assert_eq!(open_file_plan("/tmp/doc.md", true, Some(stored.len() as u64)), Ok(()));
    let r = open_read_outcome("/tmp/doc.md", Ok(stored));
    assert_eq!(r, Ok(content.to_string()));
}

#[test]
fn empty_content_round_trips() {
    let w = save_file_request("/tmp/e.md".to_string(), String::new(), Some("/tmp"), true).unwrap();
    assert_eq!(w.content, "");
    assert_eq!(open_file_plan("/tmp/e.md", true, Some(0)), Ok(()));
    assert_eq!(open_read_outcome("/tmp/e.md", Ok(w.content)), Ok(String::new()));
}

#[test]
fn handle_file_error_passes_success_through() {
    let r: Result<u32, String> = handle_file_error(Ok(7), "保存文件", "/tmp/a.md");
    assert_eq!(r, Ok(7));
}

#[test]
fn handle_file_error_describes_the_failure() {
    let r: Result<u32, String> =
        handle_file_error(Err("denied".to_string()), "保存文件", "/tmp/a.md");
    assert_eq!(r, Err("保存文件 '/tmp/a.md' 失败: denied".to_string()));
}
