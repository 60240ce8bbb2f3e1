//! The closed catalogue of tools offered to the model: one name, one
//! description and one parameter schema per tool.

use vstd::prelude::*;

verus! {

/// One tool of the catalogue.
#[derive(Debug, Clone, Copy, PartialEq, Eq, Hash, Structural)]
pub enum Tool {
    ReadFile,
    WriteFile,
    RemoveFile,
    AddNewTodo,
    CompleteTodo,
    AddMemory,
    ForgetMemory,
    ListFolderContent,
    FindInFile,
}

/// The registered identifier of a tool.
pub open spec fn tool_name(t: Tool) -> Seq<char> {
    match t {
        Tool::ReadFile => "read_file"@,
        Tool::WriteFile => "write_file"@,
        Tool::RemoveFile => "remove_file"@,
        Tool::AddNewTodo => "add_new_todo"@,
        Tool::CompleteTodo => "complete_todo"@,
        Tool::AddMemory => "add_memory"@,
        Tool::ForgetMemory => "forget_memory"@,
        Tool::ListFolderContent => "list_folder_content"@,
        Tool::FindInFile => "find_in_file"@,
    }
}

/// Whether `name` is the identifier of some tool of the catalogue.
pub open spec fn is_registered(name: Seq<char>) -> bool {
    exists|t: Tool| tool_name(t) == name
}

/// The text shown to the model for a tool.
pub open spec fn tool_description(t: Tool) -> Seq<char> {
    match t {
        Tool::ReadFile => "Read file contents"@,
        Tool::WriteFile => "Write file contents"@,
        Tool::RemoveFile => "Remove file"@,
        Tool::AddNewTodo => "Add new todo item for your self"@,
        Tool::CompleteTodo => "Complete todo item"@,
        Tool::AddMemory => "Add which is always available for you however you can only keep 20 memories at a time"@,
        Tool::ForgetMemory => "You can forget memories with this tool to free up space"@,
        Tool::ListFolderContent => "List folder content"@,
        Tool::FindInFile => "Find content in file"@,
    }
}

/// The type a parameter's value must have.
#[derive(Debug, Clone, Copy, PartialEq, Eq, Hash, Structural)]
pub enum ParamKind {
    Text,
    Integer,
}

/// What the catalogue states of one parameter.
pub struct ParamDef {
    pub name: Seq<char>,
    pub description: Seq<char>,
    pub kind: ParamKind,
    pub required: bool,
}

/// One parameter of a tool's schema.
#[derive(Debug, Clone, Copy)]
pub struct ParamSpec {
    pub name: &'static str,
    pub description: &'static str,
    pub kind: ParamKind,
    pub required: bool,
}

impl View for ParamSpec {
    type V = ParamDef;

    open spec fn view(&self) -> ParamDef {
        ParamDef {
            name: self.name@,
            description: self.description@,
            kind: self.kind,
            required: self.required,
        }
    }
}

/// The parameter schema of each tool, ordered by parameter name.
pub open spec fn tool_params(t: Tool) -> Seq<ParamDef> {
    match t {
        Tool::ReadFile => seq![
            ParamDef { name: "linenumber_count"@, description: "Length of the content you want to read. Default is full file"@, kind: ParamKind::Integer, required: true },
            ParamDef { name: "path"@, description: "Path of file you want to read"@, kind: ParamKind::Text, required: true },
            ParamDef { name: "start_line_number"@, description: "Offset from which you want to read the file. Default is 0"@, kind: ParamKind::Integer, required: true },
        ],
        Tool::WriteFile => seq![
            ParamDef { name: "content"@, description: "Content you want to write in file"@, kind: ParamKind::Text, required: true },
            ParamDef { name: "linenumber"@, description: "Linenumber from which you want to write to the file."@, kind: ParamKind::Integer, required: true },
            ParamDef { name: "path"@, description: "Path of file you want to write"@, kind: ParamKind::Text, required: true },
        ],
        Tool::RemoveFile => seq![
            ParamDef { name: "path"@, description: "Path of file you want to delete"@, kind: ParamKind::Text, required: true },
        ],
        Tool::AddNewTodo => seq![
            ParamDef { name: "content"@, description: "Content of the todo item"@, kind: ParamKind::Text, required: true },
            ParamDef { name: "name"@, description: "Name of the todo item"@, kind: ParamKind::Text, required: false },
        ],
        Tool::CompleteTodo => seq![
            ParamDef { name: "name"@, description: "Name of the todo item you want to complete"@, kind: ParamKind::Text, required: true },
        ],
        Tool::AddMemory => seq![
            ParamDef { name: "content"@, description: "Content you want to remember"@, kind: ParamKind::Text, required: true },
            ParamDef { name: "name"@, description: "Name of the memory"@, kind: ParamKind::Text, required: false },
        ],
        Tool::ForgetMemory => seq![
            ParamDef { name: "name"@, description: "Name of the memory you want to forget"@, kind: ParamKind::Text, required: true },
        ],
        Tool::ListFolderContent => seq![
            ParamDef { name: "path"@, description: "Path of the folder you want to list"@, kind: ParamKind::Text, required: true },
        ],
        Tool::FindInFile => seq![
            ParamDef { name: "path"@, description: "Path of the file in which you want to search"@, kind: ParamKind::Text, required: true },
            ParamDef { name: "pattern"@, description: "Pattern you want to search"@, kind: ParamKind::Text, required: true },
        ],
    }
}

/// Every tool of the catalogue, in catalogue order.
pub open spec fn all_tools() -> Seq<Tool> {
    seq![
        Tool::ReadFile,
        Tool::WriteFile,
        Tool::RemoveFile,
        Tool::AddNewTodo,
        Tool::CompleteTodo,
        Tool::AddMemory,
        Tool::ForgetMemory,
        Tool::ListFolderContent,
        Tool::FindInFile,
    ]
}

/// Distinct tools have distinct identifiers.
pub proof fn lemma_tool_name_injective(a: Tool, b: Tool)
    ensures
        tool_name(a) == tool_name(b) ==> a == b,
{
    if tool_name(a) == tool_name(b) {
        reveal_strlit("read_file");
        reveal_strlit("write_file");
        reveal_strlit("remove_file");
        reveal_strlit("add_new_todo");
        reveal_strlit("complete_todo");
        reveal_strlit("add_memory");
        reveal_strlit("forget_memory");
        reveal_strlit("list_folder_content");
        reveal_strlit("find_in_file");
        assert(tool_name(a).len() == tool_name(b).len());
        if a != b {
            assert(tool_name(a)[0] != tool_name(b)[0] || tool_name(a)[1] != tool_name(b)[1]
                || tool_name(a).len() != tool_name(b).len());
        }
    }
}

/// Every tool of the catalogue, in catalogue order.
pub fn tools() -> (r: Vec<Tool>)
    ensures
        r@ == all_tools(),
{
    let r = vec![
        Tool::ReadFile,
        Tool::WriteFile,
        Tool::RemoveFile,
        Tool::AddNewTodo,
        Tool::CompleteTodo,
        Tool::AddMemory,
        Tool::ForgetMemory,
        Tool::ListFolderContent,
        Tool::FindInFile,
    ];
    assert(r@ =~= all_tools());
    r
}

/// Looks a tool up by its registered identifier.
pub fn tool_by_name(name: &str) -> (r: Option<Tool>)
    ensures
        r is None <==> !is_registered(name@),
        forall|t: Tool| tool_name(t) == name@ <==> r == Some(t),
{
    let r = if crate::text::str_eq(name, "read_file") {
        Some(Tool::ReadFile)
    } else if crate::text::str_eq(name, "write_file") {
        Some(Tool::WriteFile)
    } else if crate::text::str_eq(name, "remove_file") {
        Some(Tool::RemoveFile)
    } else if crate::text::str_eq(name, "add_new_todo") {
        Some(Tool::AddNewTodo)
    } else if crate::text::str_eq(name, "complete_todo") {
        Some(Tool::CompleteTodo)
    } else if crate::text::str_eq(name, "add_memory") {
        Some(Tool::AddMemory)
    } else if crate::text::str_eq(name, "forget_memory") {
        Some(Tool::ForgetMemory)
    } else if crate::text::str_eq(name, "list_folder_content") {
        Some(Tool::ListFolderContent)
    } else if crate::text::str_eq(name, "find_in_file") {
        Some(Tool::FindInFile)
    } else {
        None
    };
    proof {
        assert forall|t: Tool| tool_name(t) == name@ <==> r == Some(t) by {
            if let Some(u) = r {
                lemma_tool_name_injective(t, u);
            }
        }
        if r is None {
            assert forall|t: Tool| tool_name(t) != name@ by {}
        } else {
            assert(tool_name(r->Some_0) == name@);
        }
    }
    r
}

impl Tool {
    pub fn get_name(&self) -> (r: &'static str)
        ensures
            r@ == tool_name(*self),
    {
        match self {
            Tool::ReadFile => "read_file",
            Tool::WriteFile => "write_file",
            Tool::RemoveFile => "remove_file",
            Tool::AddNewTodo => "add_new_todo",
            Tool::CompleteTodo => "complete_todo",
            Tool::AddMemory => "add_memory",
            Tool::ForgetMemory => "forget_memory",
            Tool::ListFolderContent => "list_folder_content",
            Tool::FindInFile => "find_in_file",
        }
    }

    pub fn get_description(&self) -> (r: &'static str)
        ensures
            r@ == tool_description(*self),
    {
        match self {
            Tool::ReadFile => "Read file contents",
            Tool::WriteFile => "Write file contents",
            Tool::RemoveFile => "Remove file",
            Tool::AddNewTodo => "Add new todo item for your self",
            Tool::CompleteTodo => "Complete todo item",
            Tool::AddMemory => "Add which is always available for you however you can only keep 20 memories at a time",
            Tool::ForgetMemory => "You can forget memories with this tool to free up space",
            Tool::ListFolderContent => "List folder content",
            Tool::FindInFile => "Find content in file",
        }
    }

    /// The tool's name in words for people to read (`Read File`).
    pub fn to_string(&self) -> (r: String)
        ensures
            r@ == crate::text::human_of(tool_name(*self)),
    {
        crate::text::snake_to_human_case(self.get_name())
    }

    /// The parameter schema of this tool.
    pub fn get_parameters(&self) -> (r: Vec<ParamSpec>)
        ensures
            r@.map_values(|p: ParamSpec| p@) == tool_params(*self),
    {
        let r = match self {
            Tool::ReadFile => vec![
                ParamSpec { name: "linenumber_count", description: "Length of the content you want to read. Default is full file", kind: ParamKind::Integer, required: true },
                ParamSpec { name: "path", description: "Path of file you want to read", kind: ParamKind::Text, required: true },
                ParamSpec { name: "start_line_number", description: "Offset from which you want to read the file. Default is 0", kind: ParamKind::Integer, required: true },
            ],
            Tool::WriteFile => vec![
                ParamSpec { name: "content", description: "Content you want to write in file", kind: ParamKind::Text, required: true },
                ParamSpec { name: "linenumber", description: "Linenumber from which you want to write to the file.", kind: ParamKind::Integer, required: true },
                ParamSpec { name: "path", description: "Path of file you want to write", kind: ParamKind::Text, required: true },
            ],
            Tool::RemoveFile => vec![
                ParamSpec { name: "path", description: "Path of file you want to delete", kind: ParamKind::Text, required: true },
            ],
            Tool::AddNewTodo => vec![
                ParamSpec { name: "content", description: "Content of the todo item", kind: ParamKind::Text, required: true },
                ParamSpec { name: "name", description: "Name of the todo item", kind: ParamKind::Text, required: false },
            ],
            Tool::CompleteTodo => vec![
                ParamSpec { name: "name", description: "Name of the todo item you want to complete", kind: ParamKind::Text, required: true },
            ],
            Tool::AddMemory => vec![
                ParamSpec { name: "content", description: "Content you want to remember", kind: ParamKind::Text, required: true },
                ParamSpec { name: "name", description: "Name of the memory", kind: ParamKind::Text, required: false },
            ],
            Tool::ForgetMemory => vec![
                ParamSpec { name: "name", description: "Name of the memory you want to forget", kind: ParamKind::Text, required: true },
            ],
            Tool::ListFolderContent => vec![
                ParamSpec { name: "path", description: "Path of the folder you want to list", kind: ParamKind::Text, required: true },
            ],
            Tool::FindInFile => vec![
                ParamSpec { name: "path", description: "Path of the file in which you want to search", kind: ParamKind::Text, required: true },
                ParamSpec { name: "pattern", description: "Pattern you want to search", kind: ParamKind::Text, required: true },
            ],
        };
        assert(r@.map_values(|p: ParamSpec| p@) =~= tool_params(*self));
        r
    }
}

} // verus!
