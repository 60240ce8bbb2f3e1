//! A project: one conversation, one folder, its policy, its todo list and its
//! memory store.

use vstd::prelude::*;
use crate::codec::{AddMemory, AddNewTodo, CompleteTodo, DecodeError, ForgetMemory};
use crate::history::History;
use crate::llm::LLMModel;
use crate::registry::Tool;

verus! {

/// The most memories a project keeps at a time.
pub const MEMORY_CAPACITY: usize = 20;

#[derive(Debug)]
pub struct TodoItem {
    pub name: Option<String>,
    pub text: String,
    pub done: bool,
}

#[derive(Debug)]
pub struct MemoryItem {
    pub name: Option<String>,
    pub content: String,
}

/// Why a tool call failed.
#[derive(Debug, Clone, PartialEq, Eq)]
pub enum ToolError {
    /// The file to read does not exist.
    FileMissing,
    /// The file system reported this error.
    Io(String),
    /// No todo item or memory has this name.
    NotFound(String),
    /// The path is absolute or climbs out of the project folder.
    OutsideRoot(String),
    /// The write would reach a line past the largest index of the machine.
    LineOutOfRange,
    /// The step received an event that does not answer its last action.
    UnexpectedEvent,
    /// The model's call could not be decoded.
    BadCall(DecodeError),
}

#[derive(Debug)]
pub struct Project {
    pub name: String,
    pub model: LLMModel,
    pub output_token_count: u32,
    pub input_token_count: u32,
    /// In billionths of a dollar.
    pub input_token_cost: u64,
    /// In billionths of a dollar.
    pub output_token_cost: u64,
    pub todo_items: Vec<TodoItem>,
    pub memories: Vec<MemoryItem>,
    pub history: History,
    pub instructions: String,
    pub current_msg: String,
    pub activated_tools: Vec<Tool>,
    pub folder_path: String,
    /// File names that the write tool refuses to touch, in whatever folder.
    pub forbidden_files: Vec<String>,
    pub modified: bool,
    /// The ticket of the generation round in flight, if any.
    pub in_flight: Option<u64>,
    /// The ticket the next generation round gets.
    pub next_ticket: u64,
}

/// Whether an optional name is `name`.
pub open spec fn named(n: Option<String>, name: Seq<char>) -> bool {
    n matches Some(s) && s@ == name
}

/// `i` is the first position of `names` holding `name`.
pub open spec fn first_named(names: Seq<Option<String>>, name: Seq<char>, i: int) -> bool {
    &&& 0 <= i < names.len()
    &&& named(names[i], name)
    &&& forall|j: int| 0 <= j < i ==> !named(#[trigger] names[j], name)
}

pub open spec fn todo_names(items: Seq<TodoItem>) -> Seq<Option<String>> {
    items.map_values(|t: TodoItem| t.name)
}

pub open spec fn memory_names(items: Seq<MemoryItem>) -> Seq<Option<String>> {
    items.map_values(|m: MemoryItem| m.name)
}

/// Every field but the todo list and the memory store is the same.
pub open spec fn keeps_setup(before: Project, after: Project) -> bool {
    after == Project { todo_items: after.todo_items, memories: after.memories, ..before }
}

/// The todo list after adding `a`, and the answer.
pub open spec fn todo_added(
    before: Seq<TodoItem>,
    after: Seq<TodoItem>,
    a: AddNewTodo,
    r: Result<String, ToolError>,
) -> bool {
    &&& after == before.push(TodoItem { name: a.name, text: a.content, done: false })
    &&& r matches Ok(t) && t@ == "todo added"@
}

/// The todo list after completing the item named in `c`, and the answer.
pub open spec fn todo_completed(
    before: Seq<TodoItem>,
    after: Seq<TodoItem>,
    c: CompleteTodo,
    r: Result<String, ToolError>,
) -> bool {
    match r {
        Ok(t) => t@ == "todo completed"@ && exists|i: int|
            first_named(todo_names(before), c.name@, i) && after == before.update(
                i,
                TodoItem { name: before[i].name, text: before[i].text, done: true },
            ),
        Err(e) => e == ToolError::NotFound(c.name) && after == before && forall|j: int|
            0 <= j < before.len() ==> !named(#[trigger] todo_names(before)[j], c.name@),
    }
}

/// The memory store after adding `a`, and the answer: below capacity the
/// memory is appended, at capacity nothing changes and the answer says why.
pub open spec fn memory_added(
    before: Seq<MemoryItem>,
    after: Seq<MemoryItem>,
    a: AddMemory,
    r: Result<String, ToolError>,
) -> bool {
    if before.len() < MEMORY_CAPACITY {
        &&& after == before.push(MemoryItem { name: a.name, content: a.content })
        &&& r matches Ok(t) && t@ == "memory added"@
    } else {
        &&& after == before
        &&& r matches Ok(t) && t@ == "memory is full: forget a memory before adding another"@
    }
}

/// The memory store after forgetting the memory named in `f`, and the answer.
pub open spec fn memory_forgotten(
    before: Seq<MemoryItem>,
    after: Seq<MemoryItem>,
    f: ForgetMemory,
    r: Result<String, ToolError>,
) -> bool {
    match r {
        Ok(t) => t@ == "memory forgotten"@ && exists|i: int|
            first_named(memory_names(before), f.name@, i) && after == before.remove(i),
        Err(e) => e == ToolError::NotFound(f.name) && after == before && forall|j: int|
            0 <= j < before.len() ==> !named(#[trigger] memory_names(before)[j], f.name@),
    }
}

/// The position of the first name equal to `name`.
fn find_named(names: &Vec<Option<String>>, name: &str) -> (r: Option<usize>)
    ensures
        match r {
            Some(i) => first_named(names@, name@, i as int),
            None => forall|j: int| 0 <= j < names@.len() ==> !named(#[trigger] names@[j], name@),
        },
{
    let n = names.len();
    let mut i: usize = 0;
    while i < n
        invariant
            n == names@.len(),
            i <= n,
            forall|j: int| 0 <= j < i ==> !named(#[trigger] names@[j], name@),
        decreases n - i,
    {
        match &names[i] {
            Some(s) => {
                if crate::text::str_eq(s.as_str(), name) {
                    return Some(i);
                }
            },
            None => {},
        }
        i = i + 1;
    }
    None
}

fn opt_string_copy(v: &Option<String>) -> (r: Option<String>)
    ensures
        r == *v,
{
    match v {
        Some(s) => Some(s.clone()),
        None => None,
    }
}

impl Project {
    /// Appends an open todo item.
    pub fn add_todo(&mut self, a: &AddNewTodo) -> (r: Result<String, ToolError>)
        ensures
            todo_added(old(self).todo_items@, final(self).todo_items@, *a, r),
            keeps_setup(*old(self), *final(self)),
            final(self).memories@ == old(self).memories@,
    {
        let item = TodoItem { name: opt_string_copy(&a.name), text: a.content.clone(), done: false };
        self.todo_items.push(item);
        Ok(String::from_str("todo added"))
    }

    /// Marks the first todo item with the given name as done.
    pub fn complete_todo(&mut self, c: &CompleteTodo) -> (r: Result<String, ToolError>)
        ensures
            todo_completed(old(self).todo_items@, final(self).todo_items@, *c, r),
            keeps_setup(*old(self), *final(self)),
            final(self).memories@ == old(self).memories@,
    {
        let n = self.todo_items.len();
        let mut names: Vec<Option<String>> = Vec::new();
        let mut k: usize = 0;
        while k < n
            invariant
                n == self.todo_items@.len(),
                k <= n,
                names@ == todo_names(self.todo_items@).subrange(0, k as int),
            decreases n - k,
        {
            names.push(opt_string_copy(&self.todo_items[k].name));
            assert(names@ =~= todo_names(self.todo_items@).subrange(0, k + 1));
            k = k + 1;
        }
        assert(names@ =~= todo_names(self.todo_items@));
        match find_named(&names, c.name.as_str()) {
            Some(i) => {
                let old_item = &self.todo_items[i];
                let item = TodoItem {
                    name: opt_string_copy(&old_item.name),
                    text: old_item.text.clone(),
                    done: true,
                };
                self.todo_items.set(i, item);
                Ok(String::from_str("todo completed"))
            },
            None => Err(ToolError::NotFound(c.name.clone())),
        }
    }

    /// Stores a memory, unless the store is full: then the store is left as
    /// it is and the answer says so.
    pub fn add_memory(&mut self, a: &AddMemory) -> (r: Result<String, ToolError>)
        ensures
            memory_added(old(self).memories@, final(self).memories@, *a, r),
            keeps_setup(*old(self), *final(self)),
            final(self).todo_items@ == old(self).todo_items@,
    {
        if self.memories.len() >= MEMORY_CAPACITY {
            return Ok(String::from_str("memory is full: forget a memory before adding another"));
        }
        let item = MemoryItem { name: opt_string_copy(&a.name), content: a.content.clone() };
        self.memories.push(item);
        Ok(String::from_str("memory added"))
    }

    /// Removes the first memory with the given name.
    pub fn forget_memory(&mut self, f: &ForgetMemory) -> (r: Result<String, ToolError>)
        ensures
            memory_forgotten(old(self).memories@, final(self).memories@, *f, r),
            keeps_setup(*old(self), *final(self)),
            final(self).todo_items@ == old(self).todo_items@,
    {
        let n = self.memories.len();
        let mut names: Vec<Option<String>> = Vec::new();
        let mut k: usize = 0;
        while k < n
            invariant
                n == self.memories@.len(),
                k <= n,
                names@ == memory_names(self.memories@).subrange(0, k as int),
            decreases n - k,
        {
            names.push(opt_string_copy(&self.memories[k].name));
            assert(names@ =~= memory_names(self.memories@).subrange(0, k + 1));
            k = k + 1;
        }
        assert(names@ =~= memory_names(self.memories@));
        match find_named(&names, f.name.as_str()) {
            Some(i) => {
                self.memories.remove(i);
                Ok(String::from_str("memory forgotten"))
            },
            None => Err(ToolError::NotFound(f.name.clone())),
        }
    }
}

} // verus!
