use puppycoder::codec::{
    AddMemory, AddNewTodo, CompleteTodo, FindInFile, ForgetMemory, ListFolderContent, ReadFile,
    RemoveFile, ToolCallParameters, WriteFile,
};
use puppycoder::dispatch::{contains_text, decimal_text, path_escapes_root, search_text, FsAction, FsEvent};
use puppycoder::codec::DecodeError;
use puppycoder::project::{Project, ToolError, MEMORY_CAPACITY};
use puppycoder::registry::Tool;

fn project() -> Project {
    let mut p = Project::new();
    p.folder_path = "/work".to_string();
    p
}

fn finished(a: FsAction) -> Result<String, ToolError> {
    match a {
        FsAction::Finish(r) => r,
        other => panic!("expected a finished call, got {:?}", other),
    }
}

fn read(path: &str, start: u32, count: u32) -> ToolCallParameters {
    ToolCallParameters::ReadFile(ReadFile { linenumber_count: count, path: path.to_string(), start_line_number: start })
}

fn write(path: &str, content: &str, line: u32) -> ToolCallParameters {
    ToolCallParameters::WriteFile(WriteFile { content: content.to_string(), linenumber: line, path: path.to_string() })
}

#[test]
fn read_file_flow() {
    let mut p = project();
    let call = read("notes.txt", 1, 1);
    match p.step(&call, &FsEvent::Start) {
        FsAction::ReadText { path } => assert_eq!(path, "/work/notes.txt"),
        other => panic!("{:?}", other),
    }
    assert_eq!(finished(p.step(&call, &FsEvent::Text("a\nb\nc".to_string()))), Ok("b".to_string()));
    assert_eq!(finished(p.step(&call, &FsEvent::Missing)), Err(ToolError::FileMissing));
    assert_eq!(
        finished(p.step(&call, &FsEvent::Failed("denied".to_string()))),
        Err(ToolError::Io("denied".to_string()))
    );
    assert_eq!(finished(p.step(&call, &FsEvent::Done)), Err(ToolError::UnexpectedEvent));
}

#[test]
fn read_past_end_of_three_line_file() {
    let mut p = project();
    let call = read("f.txt", 10, 5);
    assert_eq!(finished(p.step(&call, &FsEvent::Text("x\ny\nz".to_string()))), Ok(String::new()));
}

#[test]
fn write_file_flow() {
    let mut p = project();
    let call = write("dir/f.txt", "a\nb", 1);
    match p.step(&call, &FsEvent::Start) {
        FsAction::ReadText { path } => assert_eq!(path, "/work/dir/f.txt"),
        other => panic!("{:?}", other),
    }
    match p.step(&call, &FsEvent::Text("x\ny\nz".to_string())) {
        FsAction::WriteText { path, text } => {
            assert_eq!(path, "/work/dir/f.txt");
            assert_eq!(text, "x\na\nb");
        }
        other => panic!("{:?}", other),
    }
    match p.step(&call, &FsEvent::Missing) {
        FsAction::WriteText { text, .. } => assert_eq!(text, "\na\nb"),
        other => panic!("{:?}", other),
    }
    assert_eq!(finished(p.step(&call, &FsEvent::Done)), Ok("file written".to_string()));
}

#[test]
fn write_to_forbidden_name_is_refused() {
    let mut p = project();
    p.forbidden_files.push(".env".to_string());
    let call = write("sub/.env", "KEY=1", 0);
    assert_eq!(finished(p.step(&call, &FsEvent::Start)), Ok("write refused: forbidden file".to_string()));
    let allowed = write("sub/env", "KEY=1", 0);
    assert!(matches!(p.step(&allowed, &FsEvent::Start), FsAction::ReadText { .. }));
}

#[test]
fn remove_missing_file_is_not_an_error() {
    let mut p = project();
    let call = ToolCallParameters::RemoveFile(RemoveFile { path: "gone.txt".to_string() });
    match p.step(&call, &FsEvent::Start) {
        FsAction::Remove { path } => assert_eq!(path, "/work/gone.txt"),
        other => panic!("{:?}", other),
    }
    assert_eq!(finished(p.step(&call, &FsEvent::Missing)), Ok("file does not exist".to_string()));
    assert_eq!(finished(p.step(&call, &FsEvent::Done)), Ok("file removed".to_string()));
}

#[test]
fn list_folder_flow() {
    let mut p = project();
    let call = ToolCallParameters::ListFolderContent(ListFolderContent { path: "src".to_string() });
    assert!(matches!(p.step(&call, &FsEvent::Start), FsAction::List { .. }));
    let entries = vec!["/work/src/a.rs".to_string(), "/work/src/b.rs".to_string()];
    assert_eq!(
        finished(p.step(&call, &FsEvent::Entries(entries))),
        Ok("/work/src/a.rs\n/work/src/b.rs".to_string())
    );
    assert_eq!(finished(p.step(&call, &FsEvent::Missing)), Ok("path does not exist".to_string()));
}

#[test]
fn find_in_file_flow() {
    let mut p = project();
    let call = ToolCallParameters::FindInFile(FindInFile { path: "lib.rs".to_string(), pattern: "fn".to_string() });
    assert!(matches!(p.step(&call, &FsEvent::Start), FsAction::ReadText { .. }));
    let text = "use x;\nfn a() {}\n\npub fn b() {}\n".to_string();
    assert_eq!(finished(p.step(&call, &FsEvent::Text(text))), Ok("2: fn a() {}\n4: pub fn b() {}".to_string()));
    assert_eq!(finished(p.step(&call, &FsEvent::Text("nothing".to_string()))), Ok("no matches".to_string()));
    assert_eq!(search_text("a\nb\na", "a"), "1: a\n3: a");
    assert_eq!(search_text("", "a"), "no matches");
}

#[test]
fn paths_leaving_the_folder_are_refused() {
    assert!(path_escapes_root("/etc/passwd"));
    assert!(path_escapes_root("../x"));
    assert!(path_escapes_root("a/../../x"));
    assert!(path_escapes_root(".."));
    assert!(!path_escapes_root("a/..b/c"));
    assert!(!path_escapes_root("a..b"));
    assert!(!path_escapes_root("src/main.rs"));
    let mut p = project();
    let call = read("../secret", 0, 1);
    assert_eq!(finished(p.step(&call, &FsEvent::Start)), Err(ToolError::OutsideRoot("../secret".to_string())));
}

#[test]
fn todo_tools() {
    let mut p = project();
    let add = ToolCallParameters::AddNewTodo(AddNewTodo { content: "write docs".to_string(), name: Some("docs".to_string()) });
    assert_eq!(finished(p.step(&add, &FsEvent::Start)), Ok("todo added".to_string()));
    assert_eq!(p.todo_items.len(), 1);
    assert!(!p.todo_items[0].done);
    let done = ToolCallParameters::CompleteTodo(CompleteTodo { name: "docs".to_string() });
    assert_eq!(finished(p.step(&done, &FsEvent::Start)), Ok("todo completed".to_string()));
    assert!(p.todo_items[0].done);
    let missing = ToolCallParameters::CompleteTodo(CompleteTodo { name: "tests".to_string() });
    assert_eq!(finished(p.step(&missing, &FsEvent::Start)), Err(ToolError::NotFound("tests".to_string())));
    assert_eq!(finished(p.step(&add, &FsEvent::Done)), Err(ToolError::UnexpectedEvent));
    assert_eq!(p.todo_items.len(), 1);
}

#[test]
fn memory_cap_refuses_without_dropping() {
    let mut p = project();
    for k in 0..MEMORY_CAPACITY {
        let add = ToolCallParameters::AddMemory(AddMemory { content: format!("m{}", k), name: Some(format!("n{}", k)) });
        assert_eq!(finished(p.step(&add, &FsEvent::Start)), Ok("memory added".to_string()));
    }
    assert_eq!(p.memories.len(), 20);
    let extra = ToolCallParameters::AddMemory(AddMemory { content: "one more".to_string(), name: None });
    assert_eq!(
        finished(p.step(&extra, &FsEvent::Start)),
        Ok("memory is full: forget a memory before adding another".to_string())
    );
    assert_eq!(p.memories.len(), 20);
    assert_eq!(p.memories[0].content, "m0");
    assert_eq!(p.memories[19].content, "m19");
    let forget = ToolCallParameters::ForgetMemory(ForgetMemory { name: "n3".to_string() });
    assert_eq!(finished(p.step(&forget, &FsEvent::Start)), Ok("memory forgotten".to_string()));
    assert_eq!(p.memories.len(), 19);
    assert_eq!(p.memories[3].content, "m4");
    assert_eq!(finished(p.step(&extra, &FsEvent::Start)), Ok("memory added".to_string()));
    assert_eq!(p.memories[19].content, "one more");
    assert_eq!(finished(p.step(&forget, &FsEvent::Start)), Err(ToolError::NotFound("n3".to_string())));
}

#[test]
fn error_descriptions() {
    assert_eq!(ToolError::FileMissing.describe(), "file does not exist");
    assert_eq!(ToolError::Io("boom".to_string()).describe(), "boom");
    assert_eq!(ToolError::LineOutOfRange.describe(), "line number out of range");
    assert_eq!(
        ToolError::BadCall(DecodeError::UnknownTool("rm".to_string())).describe(),
        "unknown tool: rm"
    );
    assert_eq!(
        ToolError::BadCall(DecodeError::MalformedArguments { tool: Tool::ReadFile, field: "path".to_string() })
            .describe(),
        "malformed argument: path"
    );
}

#[test]
fn substring_search_and_decimals() {
    assert!(contains_text("hello world", "lo w"));
    assert!(contains_text("abc", ""));
    assert!(contains_text("abc", "abc"));
    assert!(!contains_text("abc", "abcd"));
    assert!(!contains_text("abc", "ac"));
    assert!(contains_text("grüße", "üß"));
    assert_eq!(decimal_text(0), "0");
    assert_eq!(decimal_text(7), "7");
    assert_eq!(decimal_text(10), "10");
    assert_eq!(decimal_text(1203), "1203");
    assert_eq!(decimal_text(u64::MAX), "18446744073709551615");
}
