use nocelium::tools::{
    deleted_summary, edited_summary, format_search_results, no_chat_context, react_target, reacted_summary,
    sent_summary, store_summary, write_summary, FileToolError, NomenSearchInput, NomenStoreInput, NomenToolError,
    ShellToolError, ShellToolInput, ShellToolOutput, WriteFileInput,
};

#[test]
fn shell_output_rendering() {
    let o = |out: &str, err: &str, code: Option<i32>| ShellToolOutput { stdout: out.into(), stderr: err.into(), exit_code: code };
    assert_eq!(o("hi\n", "", Some(0)).render(), "hi\n");
    assert_eq!(o("", "boom", Some(2)).render(), "STDERR: boom\n[exit code: 2]");
    assert_eq!(o("a", "b", None).render(), "a\nSTDERR: b");
    assert_eq!(o("", "", Some(-1)).render(), "\n[exit code: -1]");
    assert_eq!(o("", "", None).render(), "");
}

#[test]
fn input_defaults() {
    let s = ShellToolInput { command: "ls".into(), working_dir: None, timeout_secs: None };
    assert_eq!(s.timeout(), 30);
    let s = ShellToolInput { command: "ls".into(), working_dir: None, timeout_secs: Some(5) };
    assert_eq!(s.timeout(), 5);
    assert_eq!(NomenSearchInput { query: "q".into(), limit: None }.effective_limit(), 5);
    assert_eq!(NomenSearchInput { query: "q".into(), limit: Some(9) }.effective_limit(), 9);
    let st = NomenStoreInput { topic: "t".into(), summary: "s".into(), detail: None };
    assert_eq!(st.detail_or_summary(), "s");
    let st = NomenStoreInput { topic: "t".into(), summary: "s".into(), detail: Some("d".into()) };
    assert_eq!(st.detail_or_summary(), "d");
}

#[test]
fn error_texts() {
    assert_eq!(FileToolError::Io("denied".into()).message(), "IO error: denied");
    assert_eq!(NomenToolError::Memory("x".into()).message(), "Memory error: x");
    assert_eq!(ShellToolError::ExecutionError("e".into()).message(), "Command execution failed: e");
    assert_eq!(ShellToolError::Timeout(30).message(), "Command timed out after 30 seconds");
}

#[test]
fn tool_answers() {
    let w = WriteFileInput { path: "/tmp/x".into(), content: "héllo".into() };
    assert_eq!(write_summary(&w), "Written 6 bytes to /tmp/x");
    assert_eq!(store_summary("a/b", "d1"), "Stored memory: a/b (d_tag: d1)");
    assert_eq!(sent_summary("5"), "Sent message_id=5");
    assert_eq!(edited_summary("5"), "Edited message_id=5");
    assert_eq!(deleted_summary("5"), "Deleted message_id=5");
    assert_eq!(reacted_summary("👍", "5"), "Reacted 👍 to message_id=5");
}

#[test]
fn search_answers() {
    assert_eq!(format_search_results(&vec![]), "No memories found.");
    let r = vec![("a".to_string(), "one".to_string()), ("b".to_string(), "two".to_string())];
    assert_eq!(format_search_results(&r), "1. [a]: one\n2. [b]: two");
}

#[test]
fn reaction_targets() {
    assert_eq!(react_target(Some("1".into()), Some("2".into())).unwrap(), "1");
    assert_eq!(react_target(None, Some("2".into())).unwrap(), "2");
    match react_target(None, None) {
        Err(NomenToolError::Memory(m)) => assert_eq!(m, "No message_id to react to"),
        _ => panic!(),
    }
    match no_chat_context() {
        NomenToolError::Memory(m) => assert_eq!(m, "No active Telegram context"),
    }
}
