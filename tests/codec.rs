use puppycoder::codec::{
    AddMemory, AddNewTodo, ArgField, ArgRecord, ArgValue, CompleteTodo, DecodeError, FindInFile,
    ForgetMemory, ListFolderContent, ReadFile, RemoveFile, ToolCallParameters, WriteFile,
};
use puppycoder::registry::{tool_by_name, tools, ParamKind, Tool};
use puppycoder::text::{snake_to_human_case, snake_to_pascal_case, str_eq};

fn field(key: &str, value: ArgValue) -> ArgField {
    ArgField { key: key.to_string(), value }
}

fn text(s: &str) -> ArgValue {
    ArgValue::Text(s.to_string())
}

fn samples() -> Vec<ToolCallParameters> {
    vec![
        ToolCallParameters::ReadFile(ReadFile {
            linenumber_count: 5,
            path: "src/main.rs".to_string(),
            start_line_number: 2,
        }),
        ToolCallParameters::WriteFile(WriteFile {
            content: "a\nb".to_string(),
            linenumber: 1,
            path: "out.txt".to_string(),
        }),
        ToolCallParameters::RemoveFile(RemoveFile { path: "old.txt".to_string() }),
        ToolCallParameters::AddNewTodo(AddNewTodo { content: "write tests".to_string(), name: None }),
        ToolCallParameters::AddNewTodo(AddNewTodo {
            content: "ship".to_string(),
            name: Some("release".to_string()),
        }),
        ToolCallParameters::CompleteTodo(CompleteTodo { name: "release".to_string() }),
        ToolCallParameters::AddMemory(AddMemory {
            content: "uses tabs".to_string(),
            name: Some("style".to_string()),
        }),
        ToolCallParameters::ForgetMemory(ForgetMemory { name: "style".to_string() }),
        ToolCallParameters::ListFolderContent(ListFolderContent { path: ".".to_string() }),
        ToolCallParameters::FindInFile(FindInFile {
            path: "lib.rs".to_string(),
            pattern: "fn ".to_string(),
        }),
    ]
}

#[test]
fn round_trip_every_variant() {
    for v in samples() {
        let args = v.get_args();
        let back = ToolCallParameters::parse(v.get_name(), &args);
        assert_eq!(back, Ok(v.clone()));
    }
}

#[test]
fn unknown_tool_is_rejected() {
    let args = ArgRecord { fields: vec![field("path", text("a"))] };
    for name in ["", "read", "READ_FILE", "read_file ", "delete_everything"] {
        assert_eq!(
            ToolCallParameters::parse(name, &args),
            Err(DecodeError::UnknownTool(name.to_string()))
        );
    }
}

#[test]
fn missing_required_field_is_malformed() {
    let args = ArgRecord { fields: vec![field("path", text("a")), field("start_line_number", ArgValue::Integer(0))] };
    assert_eq!(
        ToolCallParameters::parse("read_file", &args),
        Err(DecodeError::MalformedArguments { tool: Tool::ReadFile, field: "linenumber_count".to_string() })
    );
}

#[test]
fn wrong_type_is_malformed() {
    let args = ArgRecord {
        fields: vec![field("content", text("x")), field("linenumber", text("3")), field("path", text("p"))],
    };
    assert_eq!(
        ToolCallParameters::parse("write_file", &args),
        Err(DecodeError::MalformedArguments { tool: Tool::WriteFile, field: "linenumber".to_string() })
    );
    let other = ArgRecord { fields: vec![field("path", ArgValue::Other)] };
    assert_eq!(
        ToolCallParameters::parse("remove_file", &other),
        Err(DecodeError::MalformedArguments { tool: Tool::RemoveFile, field: "path".to_string() })
    );
}

#[test]
fn integer_beyond_u32_is_malformed() {
    let args = ArgRecord {
        fields: vec![
            field("linenumber_count", ArgValue::Integer(1u64 << 32)),
            field("path", text("p")),
            field("start_line_number", ArgValue::Integer(0)),
        ],
    };
    assert_eq!(
        ToolCallParameters::parse("read_file", &args),
        Err(DecodeError::MalformedArguments { tool: Tool::ReadFile, field: "linenumber_count".to_string() })
    );
    let max = ArgRecord {
        fields: vec![
            field("linenumber_count", ArgValue::Integer(u32::MAX as u64)),
            field("path", text("p")),
            field("start_line_number", ArgValue::Integer(0)),
        ],
    };
    assert!(ToolCallParameters::parse("read_file", &max).is_ok());
}

#[test]
fn optional_name_may_be_null_or_absent() {
    let null = ArgRecord { fields: vec![field("content", text("c")), field("name", ArgValue::Null)] };
    let absent = ArgRecord { fields: vec![field("content", text("c"))] };
    let expected = ToolCallParameters::AddMemory(AddMemory { content: "c".to_string(), name: None });
    assert_eq!(ToolCallParameters::parse("add_memory", &null), Ok(expected.clone()));
    assert_eq!(ToolCallParameters::parse("add_memory", &absent), Ok(expected));
    let null_required = ArgRecord { fields: vec![field("name", ArgValue::Null)] };
    assert_eq!(
        ToolCallParameters::parse("forget_memory", &null_required),
        Err(DecodeError::MalformedArguments { tool: Tool::ForgetMemory, field: "name".to_string() })
    );
}

#[test]
fn extra_fields_are_ignored_and_first_member_wins() {
    let args = ArgRecord {
        fields: vec![field("verbose", ArgValue::Other), field("path", text("first")), field("path", text("second"))],
    };
    assert_eq!(
        ToolCallParameters::parse("list_folder_content", &args),
        Ok(ToolCallParameters::ListFolderContent(ListFolderContent { path: "first".to_string() }))
    );
}

#[test]
fn encoding_follows_schema_order() {
    let v = ToolCallParameters::FindInFile(FindInFile { path: "a".to_string(), pattern: "b".to_string() });
    assert_eq!(v.get_name(), "find_in_file");
    assert_eq!(v.tool(), Tool::FindInFile);
    assert_eq!(v.get_args(), ArgRecord { fields: vec![field("path", text("a")), field("pattern", text("b"))] });
    let t = ToolCallParameters::AddNewTodo(AddNewTodo { content: "c".to_string(), name: None });
    assert_eq!(t.get_args(), ArgRecord { fields: vec![field("content", text("c")), field("name", ArgValue::Null)] });
}

#[test]
fn catalogue_names_and_descriptions() {
    let all = tools();
    assert_eq!(all.len(), 9);
    let names: Vec<&str> = all.iter().map(|t| t.get_name()).collect();
    assert_eq!(
        names,
        vec![
            "read_file", "write_file", "remove_file", "add_new_todo", "complete_todo", "add_memory",
            "forget_memory", "list_folder_content", "find_in_file"
        ]
    );
    for t in &all {
        assert_eq!(tool_by_name(t.get_name()), Some(*t));
    }
    assert_eq!(tool_by_name("nothing"), None);
    assert_eq!(Tool::ReadFile.get_description(), "Read file contents");
    assert_eq!(
        Tool::AddMemory.get_description(),
        "Add which is always available for you however you can only keep 20 memories at a time"
    );
}

#[test]
fn catalogue_parameters() {
    let ps = Tool::ReadFile.get_parameters();
    let names: Vec<&str> = ps.iter().map(|p| p.name).collect();
    assert_eq!(names, vec!["linenumber_count", "path", "start_line_number"]);
    assert_eq!(ps[0].kind, ParamKind::Integer);
    assert!(ps.iter().all(|p| p.required));
    let todo = Tool::AddNewTodo.get_parameters();
    assert_eq!(todo[1].name, "name");
    assert!(!todo[1].required);
    assert_eq!(todo[1].kind, ParamKind::Text);
}

#[test]
fn tool_display_names() {
    assert_eq!(Tool::ReadFile.to_string(), "Read File");
    assert_eq!(Tool::ListFolderContent.to_string(), "List Folder Content");
    assert_eq!(Tool::AddNewTodo.to_string(), "Add New Todo");
}

#[test]
fn case_conversions() {
    assert_eq!(snake_to_pascal_case("read_file"), "ReadFile");
    assert_eq!(snake_to_pascal_case("find_in_file"), "FindInFile");
    assert_eq!(snake_to_pascal_case(""), "");
    assert_eq!(snake_to_pascal_case("a__b_"), "AB");
    assert_eq!(snake_to_human_case("read_file"), "Read File");
    assert_eq!(snake_to_human_case("a__b"), "A  B");
    assert_eq!(snake_to_human_case("ß_x"), "SS X");
}

#[test]
fn string_equality() {
    assert!(str_eq("abc", "abc"));
    assert!(!str_eq("abc", "abd"));
    assert!(!str_eq("ab", "abc"));
    assert!(str_eq("", ""));
}
