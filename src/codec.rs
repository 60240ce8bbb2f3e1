//! The tool-call codec: a typed call turns into its tool's name and an
//! argument record, and a name with a record is decoded back, checked against
//! the parameter schema of the catalogue.

use vstd::prelude::*;
use crate::registry::{is_registered, tool_name, tool_params, ParamDef, ParamKind, ParamSpec, Tool};

verus! {

#[derive(Debug, Clone, PartialEq, Eq)]
pub struct ReadFile {
    pub linenumber_count: u32,
    pub path: String,
    pub start_line_number: u32,
}

#[derive(Debug, Clone, PartialEq, Eq)]
pub struct WriteFile {
    pub content: String,
    pub linenumber: u32,
    pub path: String,
}

#[derive(Debug, Clone, PartialEq, Eq)]
pub struct RemoveFile {
    pub path: String,
}

#[derive(Debug, Clone, PartialEq, Eq)]
pub struct AddNewTodo {
    pub content: String,
    pub name: Option<String>,
}

#[derive(Debug, Clone, PartialEq, Eq)]
pub struct CompleteTodo {
    pub name: String,
}

#[derive(Debug, Clone, PartialEq, Eq)]
pub struct AddMemory {
    pub content: String,
    pub name: Option<String>,
}

#[derive(Debug, Clone, PartialEq, Eq)]
pub struct ForgetMemory {
    pub name: String,
}

#[derive(Debug, Clone, PartialEq, Eq)]
pub struct ListFolderContent {
    pub path: String,
}

#[derive(Debug, Clone, PartialEq, Eq)]
pub struct FindInFile {
    pub path: String,
    pub pattern: String,
}

/// A decoded tool call, one variant per tool.
#[derive(Debug, Clone, PartialEq, Eq)]
pub enum ToolCallParameters {
    ReadFile(ReadFile),
    WriteFile(WriteFile),
    RemoveFile(RemoveFile),
    AddNewTodo(AddNewTodo),
    CompleteTodo(CompleteTodo),
    AddMemory(AddMemory),
    ForgetMemory(ForgetMemory),
    ListFolderContent(ListFolderContent),
    FindInFile(FindInFile),
}

/// One argument value as the model sent it.
#[derive(Debug, Clone, PartialEq, Eq)]
pub enum ArgValue {
    Text(String),
    /// A non-negative integral number.
    Integer(u64),
    Null,
    /// Any other value: a negative or fractional number, a boolean, an array
    /// or an object.
    Other,
}

#[derive(Debug, Clone, PartialEq, Eq)]
pub struct ArgField {
    pub key: String,
    pub value: ArgValue,
}

/// The arguments of one tool call: the members of a JSON object, in order.
#[derive(Debug, Clone, PartialEq, Eq)]
pub struct ArgRecord {
    pub fields: Vec<ArgField>,
}

#[derive(Debug, Clone, PartialEq, Eq)]
pub enum DecodeError {
    /// No tool of the catalogue has this name.
    UnknownTool(String),
    /// The named parameter is missing, null where it is required, or of the
    /// wrong type.
    MalformedArguments { tool: Tool, field: String },
}

/// The value of the first member named `key`, if any.
pub open spec fn lookup(fields: Seq<ArgField>, key: Seq<char>) -> Option<ArgValue>
    decreases fields.len(),
{
    if fields.len() == 0 {
        None
    } else if fields[0].key@ == key {
        Some(fields[0].value)
    } else {
        lookup(fields.drop_first(), key)
    }
}

/// Whether a parameter accepts the value found for it.
pub open spec fn accepts(p: ParamDef, v: Option<ArgValue>) -> bool {
    match v {
        Some(ArgValue::Text(_)) => p.kind == ParamKind::Text,
        Some(ArgValue::Integer(n)) => p.kind == ParamKind::Integer && n <= u32::MAX,
        Some(ArgValue::Other) => false,
        Some(ArgValue::Null) | None => !p.required,
    }
}

/// The name of the first parameter of `params` that rejects its value.
pub open spec fn first_rejected(fields: Seq<ArgField>, params: Seq<ParamDef>) -> Option<Seq<char>>
    decreases params.len(),
{
    if params.len() == 0 {
        None
    } else if !accepts(params[0], lookup(fields, params[0].name)) {
        Some(params[0].name)
    } else {
        first_rejected(fields, params.drop_first())
    }
}

/// Whether every parameter of `params` accepts its value.
pub open spec fn conforms(fields: Seq<ArgField>, params: Seq<ParamDef>) -> bool {
    first_rejected(fields, params) is None
}

pub open spec fn text_of(v: Option<ArgValue>) -> String {
    match v {
        Some(ArgValue::Text(s)) => s,
        _ => arbitrary(),
    }
}

pub open spec fn int_of(v: Option<ArgValue>) -> u32 {
    match v {
        Some(ArgValue::Integer(n)) => n as u32,
        _ => 0,
    }
}

pub open spec fn opt_text_of(v: Option<ArgValue>) -> Option<String> {
    match v {
        Some(ArgValue::Text(s)) => Some(s),
        _ => None,
    }
}

/// The tool a call is for.
pub open spec fn tool_of(p: ToolCallParameters) -> Tool {
    match p {
        ToolCallParameters::ReadFile(_) => Tool::ReadFile,
        ToolCallParameters::WriteFile(_) => Tool::WriteFile,
        ToolCallParameters::RemoveFile(_) => Tool::RemoveFile,
        ToolCallParameters::AddNewTodo(_) => Tool::AddNewTodo,
        ToolCallParameters::CompleteTodo(_) => Tool::CompleteTodo,
        ToolCallParameters::AddMemory(_) => Tool::AddMemory,
        ToolCallParameters::ForgetMemory(_) => Tool::ForgetMemory,
        ToolCallParameters::ListFolderContent(_) => Tool::ListFolderContent,
        ToolCallParameters::FindInFile(_) => Tool::FindInFile,
    }
}

/// The call of tool `t` whose arguments are read from `fields`.
pub open spec fn build(t: Tool, fields: Seq<ArgField>) -> ToolCallParameters {
    match t {
        Tool::ReadFile => ToolCallParameters::ReadFile(ReadFile {
            linenumber_count: int_of(lookup(fields, "linenumber_count"@)),
            path: text_of(lookup(fields, "path"@)),
            start_line_number: int_of(lookup(fields, "start_line_number"@)),
        }),
        Tool::WriteFile => ToolCallParameters::WriteFile(WriteFile {
            content: text_of(lookup(fields, "content"@)),
            linenumber: int_of(lookup(fields, "linenumber"@)),
            path: text_of(lookup(fields, "path"@)),
        }),
        Tool::RemoveFile => ToolCallParameters::RemoveFile(RemoveFile {
            path: text_of(lookup(fields, "path"@)),
        }),
        Tool::AddNewTodo => ToolCallParameters::AddNewTodo(AddNewTodo {
            content: text_of(lookup(fields, "content"@)),
            name: opt_text_of(lookup(fields, "name"@)),
        }),
        Tool::CompleteTodo => ToolCallParameters::CompleteTodo(CompleteTodo {
            name: text_of(lookup(fields, "name"@)),
        }),
        Tool::AddMemory => ToolCallParameters::AddMemory(AddMemory {
            content: text_of(lookup(fields, "content"@)),
            name: opt_text_of(lookup(fields, "name"@)),
        }),
        Tool::ForgetMemory => ToolCallParameters::ForgetMemory(ForgetMemory {
            name: text_of(lookup(fields, "name"@)),
        }),
        Tool::ListFolderContent => ToolCallParameters::ListFolderContent(ListFolderContent {
            path: text_of(lookup(fields, "path"@)),
        }),
        Tool::FindInFile => ToolCallParameters::FindInFile(FindInFile {
            path: text_of(lookup(fields, "path"@)),
            pattern: text_of(lookup(fields, "pattern"@)),
        }),
    }
}

/// The members of an argument record, as name and value.
pub open spec fn members(fields: Seq<ArgField>) -> Seq<(Seq<char>, ArgValue)> {
    fields.map_values(|f: ArgField| (f.key@, f.value))
}

/// The members that encoding a call gives: one per parameter of its tool's
/// schema, in schema order, an absent optional value as null.
pub open spec fn record_of(v: ToolCallParameters) -> Seq<(Seq<char>, ArgValue)> {
    match v {
        ToolCallParameters::ReadFile(a) => seq![
            ("linenumber_count"@, ArgValue::Integer(a.linenumber_count as u64)),
            ("path"@, ArgValue::Text(a.path)),
            ("start_line_number"@, ArgValue::Integer(a.start_line_number as u64)),
        ],
        ToolCallParameters::WriteFile(a) => seq![
            ("content"@, ArgValue::Text(a.content)),
            ("linenumber"@, ArgValue::Integer(a.linenumber as u64)),
            ("path"@, ArgValue::Text(a.path)),
        ],
        ToolCallParameters::RemoveFile(a) => seq![
            ("path"@, ArgValue::Text(a.path)),
        ],
        ToolCallParameters::AddNewTodo(a) => seq![
            ("content"@, ArgValue::Text(a.content)),
            ("name"@, opt_value(a.name)),
        ],
        ToolCallParameters::CompleteTodo(a) => seq![
            ("name"@, ArgValue::Text(a.name)),
        ],
        ToolCallParameters::AddMemory(a) => seq![
            ("content"@, ArgValue::Text(a.content)),
            ("name"@, opt_value(a.name)),
        ],
        ToolCallParameters::ForgetMemory(a) => seq![
            ("name"@, ArgValue::Text(a.name)),
        ],
        ToolCallParameters::ListFolderContent(a) => seq![
            ("path"@, ArgValue::Text(a.path)),
        ],
        ToolCallParameters::FindInFile(a) => seq![
            ("path"@, ArgValue::Text(a.path)),
            ("pattern"@, ArgValue::Text(a.pattern)),
        ],
    }
}

/// `fields` is an encoding of the call `v`.
pub open spec fn encodes(v: ToolCallParameters, fields: Seq<ArgField>) -> bool {
    conforms(fields, tool_params(tool_of(v))) && build(tool_of(v), fields) == v
}

/// `r` is what decoding a call of the tool named `name` from `fields` gives.
pub open spec fn decodes_to(
    name: Seq<char>,
    fields: Seq<ArgField>,
    r: Result<ToolCallParameters, DecodeError>,
) -> bool {
    &&& !is_registered(name) ==> (r matches Err(DecodeError::UnknownTool(n)) && n@ == name)
    &&& forall|t: Tool| #[trigger] tool_name(t) == name ==> {
        if conforms(fields, tool_params(t)) {
            r == Ok::<ToolCallParameters, DecodeError>(build(t, fields))
        } else {
            r matches Err(DecodeError::MalformedArguments { tool, field }) && tool == t && Some(
                field@,
            ) == first_rejected(fields, tool_params(t))
        }
    }
}

proof fn lemma_conforms_at(fields: Seq<ArgField>, params: Seq<ParamDef>, i: int)
    requires
        conforms(fields, params),
        0 <= i < params.len(),
    ensures
        accepts(params[i], lookup(fields, params[i].name)),
    decreases params.len(),
{
    if i > 0 {
        lemma_conforms_at(fields, params.drop_first(), i - 1);
    }
}

/// The position of the first member named `key`.
fn find_field(fields: &Vec<ArgField>, key: &str) -> (r: Option<usize>)
    ensures
        match r {
            Some(i) => i < fields@.len() && lookup(fields@, key@) == Some(fields@[i as int].value),
            None => lookup(fields@, key@) is None,
        },
{
    let n = fields.len();
    let mut i: usize = 0;
    assert(fields@.subrange(0, n as int) =~= fields@);
    while i < n
        invariant
            n == fields@.len(),
            i <= n,
            lookup(fields@, key@) == lookup(fields@.subrange(i as int, n as int), key@),
        decreases n - i,
    {
        let ghost rest = fields@.subrange(i as int, n as int);
        assert(rest[0] == fields@[i as int]);
        if crate::text::str_eq(fields[i].key.as_str(), key) {
            return Some(i);
        }
        assert(rest.drop_first() =~= fields@.subrange(i + 1, n as int));
        i = i + 1;
    }
    None
}

/// Whether parameter `p` accepts the value that `fields` gives it.
fn accepts_field(fields: &Vec<ArgField>, p: &ParamSpec) -> (r: bool)
    ensures
        r == accepts(p@, lookup(fields@, p.name@)),
{
    match find_field(fields, p.name) {
        None => !p.required,
        Some(i) => match &fields[i].value {
            ArgValue::Text(_) => p.kind == ParamKind::Text,
            ArgValue::Integer(n) => p.kind == ParamKind::Integer && *n <= 0xffff_ffffu64,
            ArgValue::Other => false,
            ArgValue::Null => !p.required,
        },
    }
}

/// The position of the first parameter that rejects its value.
fn first_rejected_index(fields: &Vec<ArgField>, params: &Vec<ParamSpec>) -> (r: Option<usize>)
    ensures
        match r {
            Some(i) => i < params@.len() && first_rejected(
                fields@,
                params@.map_values(|p: ParamSpec| p@),
            ) == Some(params@[i as int].name@),
            None => conforms(fields@, params@.map_values(|p: ParamSpec| p@)),
        },
{
    let ghost all = params@.map_values(|p: ParamSpec| p@);
    let n = params.len();
    let mut i: usize = 0;
    assert(all.subrange(0, n as int) =~= all);
    while i < n
        invariant
            n == params@.len(),
            all == params@.map_values(|p: ParamSpec| p@),
            i <= n,
            first_rejected(fields@, all) == first_rejected(fields@, all.subrange(i as int, n as int)),
        decreases n - i,
    {
        let ghost rest = all.subrange(i as int, n as int);
        assert(rest[0] == params@[i as int]@);
        if !accepts_field(fields, &params[i]) {
            return Some(i);
        }
        assert(rest.drop_first() =~= all.subrange(i + 1, n as int));
        i = i + 1;
    }
    None
}

fn text_arg(fields: &Vec<ArgField>, key: &str) -> (r: String)
    requires
        lookup(fields@, key@) matches Some(ArgValue::Text(_)),
    ensures
        r == text_of(lookup(fields@, key@)),
{
    match find_field(fields, key) {
        Some(i) => match &fields[i].value {
            ArgValue::Text(s) => s.clone(),
            _ => String::new(),
        },
        None => String::new(),
    }
}

fn int_arg(fields: &Vec<ArgField>, key: &str) -> (r: u32)
    requires
        lookup(fields@, key@) matches Some(ArgValue::Integer(n)) && n <= u32::MAX,
    ensures
        r == int_of(lookup(fields@, key@)),
{
    match find_field(fields, key) {
        Some(i) => match &fields[i].value {
            ArgValue::Integer(n) => *n as u32,
            _ => 0,
        },
        None => 0,
    }
}

fn opt_text_arg(fields: &Vec<ArgField>, key: &str) -> (r: Option<String>)
    ensures
        r == opt_text_of(lookup(fields@, key@)),
{
    match find_field(fields, key) {
        Some(i) => match &fields[i].value {
            ArgValue::Text(s) => Some(s.clone()),
            _ => None,
        },
        None => None,
    }
}

/// The call of tool `t` read from arguments that its schema accepts.
fn build_call(t: Tool, fields: &Vec<ArgField>) -> (r: ToolCallParameters)
    requires
        conforms(fields@, tool_params(t)),
    ensures
        r == build(t, fields@),
{
    let ghost ps = tool_params(t);
    proof {
        assert forall|i: int| 0 <= i < ps.len() implies accepts(ps[i], lookup(fields@, ps[i].name)) by {
            lemma_conforms_at(fields@, ps, i);
        }
    }
    match t {
        Tool::ReadFile => {
            assert(ps[0].name == "linenumber_count"@);
            assert(ps[1].name == "path"@);
            assert(ps[2].name == "start_line_number"@);
            ToolCallParameters::ReadFile(ReadFile {
                linenumber_count: int_arg(fields, "linenumber_count"),
                path: text_arg(fields, "path"),
                start_line_number: int_arg(fields, "start_line_number"),
            })
        },
        Tool::WriteFile => {
            assert(ps[0].name == "content"@);
            assert(ps[1].name == "linenumber"@);
            assert(ps[2].name == "path"@);
            ToolCallParameters::WriteFile(WriteFile {
                content: text_arg(fields, "content"),
                linenumber: int_arg(fields, "linenumber"),
                path: text_arg(fields, "path"),
            })
        },
        Tool::RemoveFile => {
            assert(ps[0].name == "path"@);
            ToolCallParameters::RemoveFile(RemoveFile {
                path: text_arg(fields, "path"),
            })
        },
        Tool::AddNewTodo => {
            assert(ps[0].name == "content"@);
            assert(ps[1].name == "name"@);
            ToolCallParameters::AddNewTodo(AddNewTodo {
                content: text_arg(fields, "content"),
                name: opt_text_arg(fields, "name"),
            })
        },
        Tool::CompleteTodo => {
            assert(ps[0].name == "name"@);
            ToolCallParameters::CompleteTodo(CompleteTodo {
                name: text_arg(fields, "name"),
            })
        },
        Tool::AddMemory => {
            assert(ps[0].name == "content"@);
            assert(ps[1].name == "name"@);
            ToolCallParameters::AddMemory(AddMemory {
                content: text_arg(fields, "content"),
                name: opt_text_arg(fields, "name"),
            })
        },
        Tool::ForgetMemory => {
            assert(ps[0].name == "name"@);
            ToolCallParameters::ForgetMemory(ForgetMemory {
                name: text_arg(fields, "name"),
            })
        },
        Tool::ListFolderContent => {
            assert(ps[0].name == "path"@);
            ToolCallParameters::ListFolderContent(ListFolderContent {
                path: text_arg(fields, "path"),
            })
        },
        Tool::FindInFile => {
            assert(ps[0].name == "path"@);
            assert(ps[1].name == "pattern"@);
            ToolCallParameters::FindInFile(FindInFile {
                path: text_arg(fields, "path"),
                pattern: text_arg(fields, "pattern"),
            })
        },
    }
}

/// The parameter names of the catalogue are pairwise distinct.
proof fn lemma_arg_keys_distinct()
    ensures
        "content"@ != "linenumber"@,
        "content"@ != "linenumber_count"@,
        "content"@ != "name"@,
        "content"@ != "path"@,
        "content"@ != "pattern"@,
        "content"@ != "start_line_number"@,
        "linenumber"@ != "linenumber_count"@,
        "linenumber"@ != "name"@,
        "linenumber"@ != "path"@,
        "linenumber"@ != "pattern"@,
        "linenumber"@ != "start_line_number"@,
        "linenumber_count"@ != "name"@,
        "linenumber_count"@ != "path"@,
        "linenumber_count"@ != "pattern"@,
        "linenumber_count"@ != "start_line_number"@,
        "name"@ != "path"@,
        "name"@ != "pattern"@,
        "name"@ != "start_line_number"@,
        "path"@ != "pattern"@,
        "path"@ != "start_line_number"@,
        "pattern"@ != "start_line_number"@,
{
    reveal_strlit("content");
    assert("content"@.len() == 7);
    reveal_strlit("linenumber");
    assert("linenumber"@.len() == 10);
    reveal_strlit("linenumber_count");
    assert("linenumber_count"@.len() == 16);
    reveal_strlit("name");
    assert("name"@.len() == 4);
    reveal_strlit("path");
    assert("path"@.len() == 4);
    reveal_strlit("pattern");
    assert("pattern"@.len() == 7);
    reveal_strlit("start_line_number");
    assert("start_line_number"@.len() == 17);
    assert("content"@[0] != "pattern"@[0]);
    assert("name"@[0] != "path"@[0]);
}

fn arg_field(key: &str, value: ArgValue) -> (r: ArgField)
    ensures
        r.key@ == key@,
        r.value == value,
{
    ArgField { key: String::from_str(key), value }
}

pub open spec fn opt_value(v: Option<String>) -> ArgValue {
    match v {
        Some(s) => ArgValue::Text(s),
        None => ArgValue::Null,
    }
}

fn opt_text_value(v: &Option<String>) -> (r: ArgValue)
    ensures
        r == opt_value(*v),
{
    match v {
        Some(s) => ArgValue::Text(s.clone()),
        None => ArgValue::Null,
    }
}

fn opt_string_dup(v: &Option<String>) -> (r: Option<String>)
    ensures
        r == *v,
{
    match v {
        Some(s) => Some(s.clone()),
        None => None,
    }
}

impl ToolCallParameters {
    /// The tool this call is for.
    pub fn tool(&self) -> (r: Tool)
        ensures
            r == tool_of(*self),
    {
        match self {
            ToolCallParameters::ReadFile(_) => Tool::ReadFile,
            ToolCallParameters::WriteFile(_) => Tool::WriteFile,
            ToolCallParameters::RemoveFile(_) => Tool::RemoveFile,
            ToolCallParameters::AddNewTodo(_) => Tool::AddNewTodo,
            ToolCallParameters::CompleteTodo(_) => Tool::CompleteTodo,
            ToolCallParameters::AddMemory(_) => Tool::AddMemory,
            ToolCallParameters::ForgetMemory(_) => Tool::ForgetMemory,
            ToolCallParameters::ListFolderContent(_) => Tool::ListFolderContent,
            ToolCallParameters::FindInFile(_) => Tool::FindInFile,
        }
    }

    /// The registered name of the tool this call is for.
    pub fn get_name(&self) -> (r: &'static str)
        ensures
            r@ == tool_name(tool_of(*self)),
    {
        self.tool().get_name()
    }

    /// A copy of this call.
    pub fn duplicate(&self) -> (r: Self)
        ensures
            r == *self,
    {
        match self {
            ToolCallParameters::ReadFile(a) => ToolCallParameters::ReadFile(ReadFile {
                linenumber_count: a.linenumber_count,
                path: a.path.clone(),
                start_line_number: a.start_line_number,
            }),
            ToolCallParameters::WriteFile(a) => ToolCallParameters::WriteFile(WriteFile {
                content: a.content.clone(),
                linenumber: a.linenumber,
                path: a.path.clone(),
            }),
            ToolCallParameters::RemoveFile(a) => ToolCallParameters::RemoveFile(RemoveFile {
                path: a.path.clone(),
            }),
            ToolCallParameters::AddNewTodo(a) => ToolCallParameters::AddNewTodo(AddNewTodo {
                content: a.content.clone(),
                name: opt_string_dup(&a.name),
            }),
            ToolCallParameters::CompleteTodo(a) => ToolCallParameters::CompleteTodo(CompleteTodo {
                name: a.name.clone(),
            }),
            ToolCallParameters::AddMemory(a) => ToolCallParameters::AddMemory(AddMemory {
                content: a.content.clone(),
                name: opt_string_dup(&a.name),
            }),
            ToolCallParameters::ForgetMemory(a) => ToolCallParameters::ForgetMemory(ForgetMemory {
                name: a.name.clone(),
            }),
            ToolCallParameters::ListFolderContent(a) => ToolCallParameters::ListFolderContent(ListFolderContent {
                path: a.path.clone(),
            }),
            ToolCallParameters::FindInFile(a) => ToolCallParameters::FindInFile(FindInFile {
                path: a.path.clone(),
                pattern: a.pattern.clone(),
            }),
        }
    }

    /// Decodes a call of the tool named `name` from its arguments. An unknown
    /// name gives `UnknownTool`; otherwise the first parameter of the tool's
    /// schema that rejects its value gives `MalformedArguments`.
    pub fn parse(name: &str, args: &ArgRecord) -> (r: Result<ToolCallParameters, DecodeError>)
        ensures
            decodes_to(name@, args.fields@, r),
    {
        let t = match crate::registry::tool_by_name(name) {
            None => {
                return Err(DecodeError::UnknownTool(String::from_str(name)));
            },
            Some(t) => t,
        };
        let params = t.get_parameters();
        match first_rejected_index(&args.fields, &params) {
            Some(i) => Err(
                DecodeError::MalformedArguments { tool: t, field: String::from_str(params[i].name) },
            ),
            None => Ok(build_call(t, &args.fields)),
        }
    }

    /// The argument record of this call: one member per parameter of the
    /// tool's schema, in schema order, an absent optional value as null.
    pub fn get_args(&self) -> (r: ArgRecord)
        ensures
            encodes(*self, r.fields@),
            members(r.fields@) == record_of(*self),
            r.fields@.len() == tool_params(tool_of(*self)).len(),
            forall|i: int|
                0 <= i < r.fields@.len() ==> #[trigger] r.fields@[i].key@ == tool_params(
                    tool_of(*self),
                )[i].name,
    {
        let fields = match self {
            ToolCallParameters::ReadFile(a) => vec![
                arg_field("linenumber_count", ArgValue::Integer(a.linenumber_count as u64)),
                arg_field("path", ArgValue::Text(a.path.clone())),
                arg_field("start_line_number", ArgValue::Integer(a.start_line_number as u64)),
            ],
            ToolCallParameters::WriteFile(a) => vec![
                arg_field("content", ArgValue::Text(a.content.clone())),
                arg_field("linenumber", ArgValue::Integer(a.linenumber as u64)),
                arg_field("path", ArgValue::Text(a.path.clone())),
            ],
            ToolCallParameters::RemoveFile(a) => vec![
                arg_field("path", ArgValue::Text(a.path.clone())),
            ],
            ToolCallParameters::AddNewTodo(a) => vec![
                arg_field("content", ArgValue::Text(a.content.clone())),
                arg_field("name", opt_text_value(&a.name)),
            ],
            ToolCallParameters::CompleteTodo(a) => vec![
                arg_field("name", ArgValue::Text(a.name.clone())),
            ],
            ToolCallParameters::AddMemory(a) => vec![
                arg_field("content", ArgValue::Text(a.content.clone())),
                arg_field("name", opt_text_value(&a.name)),
            ],
            ToolCallParameters::ForgetMemory(a) => vec![
                arg_field("name", ArgValue::Text(a.name.clone())),
            ],
            ToolCallParameters::ListFolderContent(a) => vec![
                arg_field("path", ArgValue::Text(a.path.clone())),
            ],
            ToolCallParameters::FindInFile(a) => vec![
                arg_field("path", ArgValue::Text(a.path.clone())),
                arg_field("pattern", ArgValue::Text(a.pattern.clone())),
            ],
        };
        proof {
            reveal_with_fuel(lookup, 4);
            reveal_with_fuel(first_rejected, 4);
            lemma_arg_keys_distinct();
            let f = fields@;
            assert(members(f) =~= record_of(*self));
            assert(f.drop_first() =~= f.subrange(1, f.len() as int));
        }
        ArgRecord { fields }
    }
}

/// Decoding what encoding produced gives back the same call.
pub proof fn lemma_round_trip(
    v: ToolCallParameters,
    fields: Seq<ArgField>,
    r: Result<ToolCallParameters, DecodeError>,
)
    requires
        encodes(v, fields),
        decodes_to(tool_name(tool_of(v)), fields, r),
    ensures
        r == Ok::<ToolCallParameters, DecodeError>(v),
{
    assert(tool_name(tool_of(v)) == tool_name(tool_of(v)));
}

} // verus!
