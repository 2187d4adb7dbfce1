use debot_core::filesystem::{
    DirEntry, EditFileTool, EditRequest, IoFailure, IoKind, ListDirTool, ListOutcome,
    ReadFileTool, WriteFileTool, WriteOutcome,
};
use debot_core::params::{ParamMap, ParamValue};
use debot_core::paths::{expand_path, expand_with_home};
use debot_core::shell::{render_output, truncate_output, CommandOutcome, CommandOutput, ExecTool};

fn edit_req(old: &str, new: &str) -> EditRequest {
    EditRequest {
        shown: "f.txt".to_string(),
        path: "f.txt".to_string(),
        old_text: old.to_string(),
        new_text: new.to_string(),
    }
}

fn failure(kind: IoKind, message: &str) -> IoFailure {
    IoFailure { kind, message: message.to_string() }
}

#[test]
fn edit_absent_text_is_not_found() {
    let r = EditFileTool::new().plan(&edit_req("baz", "x"), Ok("foo bar foo".to_string()));
    assert_eq!(r, Err("Error: old_text not found in file. Make sure it matches exactly.".to_string()));
}

#[test]
fn edit_ambiguous_text_reports_count() {
    let r = EditFileTool::new().plan(&edit_req("foo", "x"), Ok("foo bar foo".to_string()));
    assert_eq!(
        r,
        Err("Warning: old_text appears 2 times. Please provide more context to make it unique."
            .to_string())
    );
}

#[test]
fn edit_unique_text_is_replaced_once() {
    let r = EditFileTool::new().plan(&edit_req("bar ", ""), Ok("foo bar foo".to_string()));
    assert_eq!(r, Ok("foo foo".to_string()));
    let r = EditFileTool::new().plan(&edit_req("bar", "baz"), Ok("foo bar foo".to_string()));
    assert_eq!(r, Ok("foo baz foo".to_string()));
    let r = EditFileTool::new().plan(&edit_req("bar", ""), Ok("foo bar foo".to_string()));
    assert_eq!(r, Ok("foo  foo".to_string()));
}

#[test]
fn edit_counts_without_overlap() {
    let r = EditFileTool::new().plan(&edit_req("aa", "b"), Ok("aaa".to_string()));
    assert_eq!(r, Ok("ba".to_string()));
}

#[test]
fn edit_empty_pattern() {
    let r = EditFileTool::new().plan(&edit_req("", "new"), Ok("".to_string()));
    assert_eq!(r, Ok("new".to_string()));
    let r = EditFileTool::new().plan(&edit_req("", "new"), Ok("ab".to_string()));
    assert_eq!(
        r,
        Err("Warning: old_text appears 3 times. Please provide more context to make it unique."
            .to_string())
    );
}

#[test]
fn edit_read_failures() {
    let t = EditFileTool::new();
    let r = t.plan(&edit_req("a", "b"), Err(failure(IoKind::NotFound, "gone")));
    assert_eq!(r, Err("Error: File not found: f.txt".to_string()));
    let r = t.plan(&edit_req("a", "b"), Err(failure(IoKind::PermissionDenied, "denied")));
    assert_eq!(r, Err("Error reading file: denied".to_string()));
}

#[test]
fn edit_write_results() {
    let t = EditFileTool::new();
    assert_eq!(t.finish("f.txt", Ok(())), "Successfully edited f.txt");
    assert_eq!(
        t.finish("f.txt", Err(failure(IoKind::PermissionDenied, "x"))),
        "Error: Permission denied: f.txt"
    );
    assert_eq!(t.finish("f.txt", Err(failure(IoKind::Other, "disk full"))), "Error writing file: disk full");
}

#[test]
fn edit_prepare_checks_parameters_in_order() {
    let t = EditFileTool::new();
    let mut p = ParamMap::new();
    assert_eq!(t.prepare(&p).unwrap_err(), "Error: Missing required parameter 'path'");
    p.insert("path".into(), "a.txt".into());
    assert_eq!(t.prepare(&p).unwrap_err(), "Error: Missing required parameter 'old_text'");
    p.insert("old_text".into(), "x".into());
    assert_eq!(t.prepare(&p).unwrap_err(), "Error: Missing required parameter 'new_text'");
    p.insert("new_text".into(), "y".into());
    let q = t.prepare(&p).unwrap();
    assert_eq!(q.shown, "a.txt");
    assert_eq!(q.path, "a.txt");
    assert_eq!(q.old_text, "x");
    assert_eq!(q.new_text, "y");
}

#[test]
fn list_empty_directory() {
    let r = ListDirTool::new().finish("D", ListOutcome::Entries(vec![]));
    assert_eq!(r, "Directory D is empty");
}

#[test]
fn list_sorts_by_name() {
    let entries = vec![
        DirEntry { name: "b.txt".into(), is_dir: false },
        DirEntry { name: "a.txt".into(), is_dir: false },
        DirEntry { name: "sub".into(), is_dir: true },
    ];
    let r = ListDirTool::new().finish("D", ListOutcome::Entries(entries));
    assert_eq!(r, "\u{1F4C4} a.txt\n\u{1F4C4} b.txt\n\u{1F4C1} sub");
}

#[test]
fn list_failures() {
    let t = ListDirTool::new();
    assert_eq!(
        t.finish("D", ListOutcome::StatFailed(failure(IoKind::NotFound, "x"))),
        "Error: Directory not found: D"
    );
    assert_eq!(t.finish("D", ListOutcome::StatFailed(failure(IoKind::Other, "odd"))), "Error: odd");
    assert_eq!(t.finish("D", ListOutcome::NotADirectory), "Error: Not a directory: D");
    assert_eq!(
        t.finish("D", ListOutcome::ReadFailed(failure(IoKind::PermissionDenied, "x"))),
        "Error: Permission denied: D"
    );
    assert_eq!(
        t.finish("D", ListOutcome::ReadFailed(failure(IoKind::Other, "io"))),
        "Error listing directory: io"
    );
}

#[test]
fn read_results() {
    let t = ReadFileTool::new();
    assert_eq!(t.finish("x", Ok("body".into())), "body");
    assert_eq!(t.finish("x", Err(failure(IoKind::NotFound, "n"))), "Error: File not found: x");
    assert_eq!(t.finish("x", Err(failure(IoKind::PermissionDenied, "n"))), "Error: Permission denied: x");
    assert_eq!(t.finish("x", Err(failure(IoKind::Other, "bad"))), "Error reading file: bad");
    assert_eq!(t.prepare(&ParamMap::new()).unwrap_err(), "Error: Missing required parameter 'path'");
}

#[test]
fn write_results() {
    let t = WriteFileTool::new();
    assert_eq!(t.finish("x", "h\u{e9}llo", WriteOutcome::Written), "Successfully wrote 6 bytes to x");
    assert_eq!(
        t.finish("x", "a", WriteOutcome::DirsFailed("no".into())),
        "Error creating directories: no"
    );
    assert_eq!(
        t.finish("x", "a", WriteOutcome::Failed(failure(IoKind::PermissionDenied, "p"))),
        "Error: Permission denied: x"
    );
    assert_eq!(
        t.finish("x", "a", WriteOutcome::Failed(failure(IoKind::NotFound, "nf"))),
        "Error writing file: nf"
    );
    let mut p = ParamMap::new();
    p.insert("path".into(), "x".into());
    assert_eq!(t.prepare(&p).unwrap_err(), "Error: Missing required parameter 'content'");
}

#[test]
fn exec_echo_output() {
    let t = ExecTool::new(60, None);
    let r = t.finish(CommandOutcome::Completed(CommandOutput {
        stdout: b"hi\n".to_vec(),
        stderr: vec![],
        exit_code: Some(0),
    }));
    assert_eq!(r, "hi\n");
    assert!(r.contains("hi"));
}

#[test]
fn exec_timeout_names_duration() {
    let r = ExecTool::new(2, None).finish(CommandOutcome::TimedOut);
    assert_eq!(r, "Error: Command timed out after 2 seconds");
    assert!(r.contains("timed out"));
}

#[test]
fn exec_truncates_long_output() {
    let big = "x".repeat(20000);
    let r = ExecTool::new(60, None).finish(CommandOutcome::Completed(CommandOutput {
        stdout: big.clone().into_bytes(),
        stderr: vec![],
        exit_code: Some(0),
    }));
    assert_eq!(r, format!("{}... (truncated, 10000 more chars)", "x".repeat(10000)));
    assert_eq!(truncate_output("short".into()), "short");
}

#[test]
fn exec_stderr_and_exit_code() {
    let r = render_output(Some("out".into()), Some("bad\n".into()), Some(2));
    assert_eq!(r, "out\nSTDERR:\nbad\n\n\nExit code: 2");
    let r = render_output(None, Some("  \n".into()), None);
    assert_eq!(r, "\nExit code: -1");
    assert_eq!(render_output(None, None, Some(0)), "(no output)");
}

#[test]
fn exec_decodes_invalid_utf8_lossily() {
    let r = ExecTool::new(60, None).finish(CommandOutcome::Completed(CommandOutput {
        stdout: vec![b'a', 0xff, b'b'],
        stderr: vec![],
        exit_code: Some(0),
    }));
    assert_eq!(r, "a\u{fffd}b");
}

#[test]
fn exec_spawn_failure() {
    let r = ExecTool::new(60, None).finish(CommandOutcome::SpawnFailed("no shell".into()));
    assert_eq!(r, "Error executing command: no shell");
}

#[test]
fn exec_working_dir_overrides_default() {
    let t = ExecTool::new(60, Some("/srv".into()));
    let mut p = ParamMap::new();
    assert_eq!(t.prepare(&p).unwrap_err(), "Error: Missing required parameter 'command'");
    p.insert("command".into(), "ls".into());
    let q = t.prepare(&p).unwrap();
    assert_eq!(q.working_dir, Some("/srv".to_string()));
    assert_eq!(q.timeout_secs, 60);
    p.insert("working_dir".into(), "/tmp".into());
    assert_eq!(t.prepare(&p).unwrap().working_dir, Some("/tmp".to_string()));
    let none = ExecTool::new(5, None).prepare(&p).unwrap();
    assert_eq!(none.command, "ls");
}

#[test]
fn paths_expand_home() {
    assert_eq!(expand_with_home("~/notes/a.md", Some("/home/u")), "/home/u/notes/a.md");
    assert_eq!(expand_with_home("~/x", None), "~/x");
    assert_eq!(expand_with_home("/abs/x", Some("/home/u")), "/abs/x");
    assert_eq!(expand_with_home("~x", Some("/home/u")), "~x");
    assert_eq!(expand_path("rel/y"), "rel/y");
}

#[test]
fn params_coerce_values() {
    let m = ParamMap::from_values(vec![
        ("a".to_string(), ParamValue::Text("s".into())),
        ("b".to_string(), ParamValue::Integer(-42)),
        ("c".to_string(), ParamValue::Boolean(true)),
        ("d".to_string(), ParamValue::Other("1.5".into())),
        ("a".to_string(), ParamValue::Integer(7)),
    ]);
    assert_eq!(m.get("a").map(|s| s.as_str()), Some("7"));
    assert_eq!(m.get("b").map(|s| s.as_str()), Some("-42"));
    assert_eq!(m.get("c").map(|s| s.as_str()), Some("true"));
    assert_eq!(m.get("d").map(|s| s.as_str()), Some("1.5"));
    assert!(m.get("e").is_none());
    assert_eq!(ParamValue::Integer(i64::MIN).to_text(), "-9223372036854775808");
    assert_eq!(ParamValue::Boolean(false).to_text(), "false");
}
