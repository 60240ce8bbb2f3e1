//! The tool dispatcher. Executing a call alternates file-system work with
//! decisions; the decisions are `Project::step`, from the call and the last
//! file-system event to the next action, and the caller performs each action
//! and reports back what happened.

use vstd::prelude::*;
use vstd::string::*;
use crate::codec::ToolCallParameters;
use crate::patch::{joined, lines_of, patched, views, window};
use crate::project::{
    keeps_setup, memory_added, memory_forgotten, todo_added, todo_completed, Project, ToolError,
};
use crate::text::push_char;

verus! {

/// The path `Path::join` makes of a folder and a path inside it. The result
/// depends on the two texts alone.
pub uninterp spec fn joined_path(root: Seq<char>, rel: Seq<char>) -> Seq<char>;

/// The last component of a path as `Path::file_name` gives it, if any. The
/// result depends on the text alone.
pub uninterp spec fn file_name_of(path: Seq<char>) -> Option<Seq<char>>;

/// Relies on `Path::join`: `rel` resolved against `root`.
#[verifier::external_body]
fn join_path(root: &str, rel: &str) -> (r: String)
    ensures
        r@ == joined_path(root@, rel@),
{
    std::path::Path::new(root).join(rel).to_string_lossy().into_owned()
}

/// Relies on `Path::file_name`: the last component of `path`, if any.
#[verifier::external_body]
fn path_file_name(path: &str) -> (r: Option<String>)
    ensures
        match r {
            Some(n) => file_name_of(path@) == Some(n@),
            None => file_name_of(path@) is None,
        },
{
    std::path::Path::new(path).file_name().map(|n| n.to_string_lossy().into_owned())
}

/// Whether `needle` occurs in `hay` as a contiguous run of characters.
pub open spec fn is_infix(needle: Seq<char>, hay: Seq<char>) -> bool {
    exists|i: int|
        0 <= i && i + needle.len() <= hay.len() && #[trigger] hay.subrange(i, i + needle.len())
            == needle
}

/// Whether `needle` occurs in `hay` as a contiguous run of characters.
pub fn contains_text(hay: &str, needle: &str) -> (r: bool)
    ensures
        r == is_infix(needle@, hay@),
{
    let h = hay.unicode_len();
    let n = needle.unicode_len();
    if n > h {
        return false;
    }
    let mut i: usize = 0;
    while i <= h - n
        invariant
            h == hay@.len(),
            n == needle@.len(),
            n <= h,
            i <= h - n + 1,
            forall|k: int| 0 <= k < i ==> #[trigger] hay@.subrange(k, k + n) != needle@,
        decreases h - n + 1 - i,
    {
        let mut j: usize = 0;
        let mut same = true;
        while j < n
            invariant
                h == hay@.len(),
                n == needle@.len(),
                i + n <= h,
                j <= n,
                same ==> forall|m: int| 0 <= m < j ==> hay@[i + m] == needle@[m],
                !same ==> exists|m: int| 0 <= m < j && hay@[i + m] != needle@[m],
            decreases n - j,
        {
            if hay.get_char(i + j) != needle.get_char(j) {
                same = false;
            }
            j = j + 1;
        }
        if same {
            assert(hay@.subrange(i as int, i + n) =~= needle@);
            return true;
        }
        let ghost m = choose|m: int| 0 <= m < n && hay@[i + m] != needle@[m];
        assert(hay@.subrange(i as int, i + n)[m] != needle@[m]);
        i = i + 1;
    }
    assert forall|k: int| 0 <= k && k + needle@.len() <= hay@.len() implies #[trigger] hay@.subrange(
        k,
        k + needle@.len(),
    ) != needle@ by {
        assert(k < i);
    }
    false
}

pub open spec fn digit_char(d: nat) -> char {
    if d == 0 {
        '0'
    } else if d == 1 {
        '1'
    } else if d == 2 {
        '2'
    } else if d == 3 {
        '3'
    } else if d == 4 {
        '4'
    } else if d == 5 {
        '5'
    } else if d == 6 {
        '6'
    } else if d == 7 {
        '7'
    } else if d == 8 {
        '8'
    } else {
        '9'
    }
}

/// The decimal digits of `n`, without leading zeros.
pub open spec fn decimal(n: nat) -> Seq<char>
    decreases n,
{
    if n < 10 {
        seq![digit_char(n)]
    } else {
        decimal(n / 10).push(digit_char(n % 10))
    }
}

fn digit(d: u64) -> (r: char)
    requires
        d < 10,
    ensures
        r == digit_char(d as nat),
{
    if d == 0 {
        '0'
    } else if d == 1 {
        '1'
    } else if d == 2 {
        '2'
    } else if d == 3 {
        '3'
    } else if d == 4 {
        '4'
    } else if d == 5 {
        '5'
    } else if d == 6 {
        '6'
    } else if d == 7 {
        '7'
    } else if d == 8 {
        '8'
    } else {
        '9'
    }
}

/// The decimal digits of `n`, without leading zeros.
pub fn decimal_text(n: u64) -> (r: String)
    ensures
        r@ == decimal(n as nat),
    decreases n,
{
    if n < 10 {
        let mut s = String::new();
        push_char(&mut s, digit(n));
        assert(s@ =~= seq![digit_char(n as nat)]);
        s
    } else {
        let mut s = decimal_text(n / 10);
        push_char(&mut s, digit(n % 10));
        s
    }
}

/// Position `i` of `path` starts a `..` component.
pub open spec fn parent_at(path: Seq<char>, i: int) -> bool {
    &&& 0 <= i && i + 2 <= path.len()
    &&& path[i] == '.' && path[i + 1] == '.'
    &&& i == 0 || path[i - 1] == '/'
    &&& i + 2 == path.len() || path[i + 2] == '/'
}

/// A path that is absolute or holds a `..` component could leave the project
/// folder.
pub open spec fn escapes_root(path: Seq<char>) -> bool {
    (path.len() > 0 && path[0] == '/') || exists|i: int| parent_at(path, i)
}

/// Whether `path` could leave the folder it is resolved against.
pub fn path_escapes_root(path: &str) -> (r: bool)
    ensures
        r == escapes_root(path@),
{
    let n = path.unicode_len();
    if n > 0 && path.get_char(0) == '/' {
        return true;
    }
    let mut i: usize = 0;
    while i < n
        invariant
            n == path@.len(),
            i <= n,
            forall|j: int| 0 <= j < i ==> !parent_at(path@, j),
        decreases n - i,
    {
        if i + 1 < n && path.get_char(i) == '.' && path.get_char(i + 1) == '.' && (i == 0 || path.get_char(
            i - 1,
        ) == '/') && (i + 2 == n || path.get_char(i + 2) == '/') {
            assert(parent_at(path@, i as int));
            return true;
        }
        i = i + 1;
    }
    assert forall|j: int| !parent_at(path@, j) by {
        if 0 <= j < i {
        }
    }
    false
}

/// Whether the file that `path` names is on the `forbidden` list.
pub open spec fn is_forbidden(forbidden: Seq<Seq<char>>, path: Seq<char>) -> bool {
    file_name_of(path) matches Some(n) && forbidden.contains(n)
}

fn forbidden_path(forbidden: &Vec<String>, path: &str) -> (r: bool)
    ensures
        r == is_forbidden(views(forbidden@), path@),
{
    let found = path_file_name(path);
    if found.is_none() {
        return false;
    }
    let name = found.unwrap();
    let n = forbidden.len();
    let mut i: usize = 0;
    while i < n
        invariant
            n == forbidden@.len(),
            file_name_of(path@) == Some(name@),
            forall|j: int| 0 <= j < i ==> forbidden@[j]@ != name@,
        decreases n - i,
    {
        if crate::text::str_eq(forbidden[i].as_str(), name.as_str()) {
            let ghost v = views(forbidden@);
            assert(v.len() == forbidden@.len());
            assert(v[i as int] == forbidden@[i as int]@);
            assert(v[i as int] == name@);
            assert(v.contains(name@));
            return true;
        }
        i = i + 1;
    }
    assert(!views(forbidden@).contains(name@));
    false
}

/// The lines that contain `pattern`, each as its 1-based number, `: ` and
/// the line.
pub open spec fn hits(lines: Seq<Seq<char>>, pattern: Seq<char>) -> Seq<Seq<char>>
    decreases lines.len(),
{
    if lines.len() == 0 {
        Seq::empty()
    } else {
        let prev = hits(lines.drop_last(), pattern);
        if is_infix(pattern, lines.last()) {
            prev.push(decimal(lines.len()) + ": "@ + lines.last())
        } else {
            prev
        }
    }
}

/// What a search of `text` for `pattern` reports.
pub open spec fn search_report(text: Seq<char>, pattern: Seq<char>) -> Seq<char> {
    let h = hits(lines_of(text), pattern);
    if h.len() == 0 {
        "no matches"@
    } else {
        joined(h)
    }
}

/// Every line of `text` that contains `pattern`, numbered from 1, one per
/// line; `no matches` where there is none.
pub fn search_text(text: &str, pattern: &str) -> (r: String)
    ensures
        r@ == search_report(text@, pattern@),
{
    let lines = crate::patch::text_lines(text);
    let n = lines.len();
    let mut found: Vec<String> = Vec::new();
    let mut i: usize = 0;
    while i < n
        invariant
            n == lines@.len(),
            i <= n,
            views(lines@) == lines_of(text@),
            views(found@) == hits(views(lines@).subrange(0, i as int), pattern@),
        decreases n - i,
    {
        let ghost pre = views(lines@).subrange(0, i as int);
        let ghost next = views(lines@).subrange(0, i + 1);
        assert(next.drop_last() =~= pre);
        assert(next.last() == lines@[i as int]@);
        if contains_text(lines[i].as_str(), pattern) {
            let mut entry = decimal_text(i as u64 + 1);
            entry.append(": ");
            entry.append(lines[i].as_str());
            let ghost prev = found@;
            found.push(entry);
            assert(views(found@) =~= views(prev).push(entry@));
        }
        i = i + 1;
    }
    assert(views(lines@).subrange(0, n as int) =~= views(lines@));
    if found.len() == 0 {
        String::from_str("no matches")
    } else {
        crate::patch::join_lines(&found)
    }
}

/// What the file system reports back for the last action.
#[derive(Debug)]
pub enum FsEvent {
    /// No action was taken yet.
    Start,
    /// The file was read; this is its text.
    Text(String),
    /// The file or folder does not exist.
    Missing,
    /// The folder holds these paths, in the order the file system gave them.
    Entries(Vec<String>),
    /// The write or removal is done.
    Done,
    /// The file system reported this error.
    Failed(String),
}

pub enum EventView {
    Start,
    Text(Seq<char>),
    Missing,
    Entries(Seq<Seq<char>>),
    Done,
    Failed(String),
}

impl View for FsEvent {
    type V = EventView;

    open spec fn view(&self) -> EventView {
        match self {
            FsEvent::Start => EventView::Start,
            FsEvent::Text(t) => EventView::Text(t@),
            FsEvent::Missing => EventView::Missing,
            FsEvent::Entries(v) => EventView::Entries(views(v@)),
            FsEvent::Done => EventView::Done,
            FsEvent::Failed(e) => EventView::Failed(*e),
        }
    }
}

/// What the caller is to do next.
#[derive(Debug)]
pub enum FsAction {
    /// Read the whole file; answer `Text`, `Missing` or `Failed`.
    ReadText { path: String },
    /// Create the file's folders, then write `text` as the whole file from its
    /// start; answer `Done` or `Failed`.
    WriteText { path: String, text: String },
    /// Delete the file if it exists; answer `Done`, `Missing` or `Failed`.
    Remove { path: String },
    /// List the folder's immediate children; answer `Entries`, `Missing` or
    /// `Failed`.
    List { path: String },
    /// The call is over: this is its result.
    Finish(Result<String, ToolError>),
}

pub enum ActionView {
    ReadText(Seq<char>),
    WriteText(Seq<char>, Seq<char>),
    Remove(Seq<char>),
    List(Seq<char>),
    Finish(Result<Seq<char>, ToolError>),
}

impl View for FsAction {
    type V = ActionView;

    open spec fn view(&self) -> ActionView {
        match self {
            FsAction::ReadText { path } => ActionView::ReadText(path@),
            FsAction::WriteText { path, text } => ActionView::WriteText(path@, text@),
            FsAction::Remove { path } => ActionView::Remove(path@),
            FsAction::List { path } => ActionView::List(path@),
            FsAction::Finish(Ok(t)) => ActionView::Finish(Ok(t@)),
            FsAction::Finish(Err(e)) => ActionView::Finish(Err(*e)),
        }
    }
}

pub open spec fn finish_ok(t: Seq<char>) -> ActionView {
    ActionView::Finish(Ok(t))
}

pub open spec fn finish_err(e: ToolError) -> ActionView {
    ActionView::Finish(Err(e))
}

/// Whether the call works on files (and not on the todo list or memories).
pub open spec fn is_file_tool(call: ToolCallParameters) -> bool {
    call is ReadFile || call is WriteFile || call is RemoveFile || call is ListFolderContent
        || call is FindInFile
}

/// The write that patches `existing` with the call's content.
pub open spec fn write_action(
    path: Seq<char>,
    existing: Seq<char>,
    content: Seq<char>,
    line_number: u32,
) -> ActionView {
    if line_number + lines_of(content).len() <= usize::MAX {
        ActionView::WriteText(
            path,
            joined(patched(lines_of(existing), lines_of(content), line_number as int)),
        )
    } else {
        finish_err(ToolError::LineOutOfRange)
    }
}

/// The next action of a file tool call, from the project's folder and
/// forbidden names and the last event.
pub open spec fn file_step(
    root: Seq<char>,
    forbidden: Seq<Seq<char>>,
    call: ToolCallParameters,
    ev: EventView,
) -> ActionView {
    match call {
        ToolCallParameters::ReadFile(a) => match ev {
            EventView::Start => if escapes_root(a.path@) {
                finish_err(ToolError::OutsideRoot(a.path))
            } else {
                ActionView::ReadText(joined_path(root, a.path@))
            },
            EventView::Text(t) => finish_ok(
                joined(window(lines_of(t), a.start_line_number as int, a.linenumber_count as int)),
            ),
            EventView::Missing => finish_err(ToolError::FileMissing),
            EventView::Failed(e) => finish_err(ToolError::Io(e)),
            _ => finish_err(ToolError::UnexpectedEvent),
        },
        ToolCallParameters::WriteFile(a) => {
            let path = joined_path(root, a.path@);
            match ev {
                EventView::Start => if escapes_root(a.path@) {
                    finish_err(ToolError::OutsideRoot(a.path))
                } else if is_forbidden(forbidden, path) {
                    finish_ok("write refused: forbidden file"@)
                } else {
                    ActionView::ReadText(path)
                },
                EventView::Text(t) => write_action(path, t, a.content@, a.linenumber),
                EventView::Missing => write_action(path, Seq::empty(), a.content@, a.linenumber),
                EventView::Done => finish_ok("file written"@),
                EventView::Failed(e) => finish_err(ToolError::Io(e)),
                _ => finish_err(ToolError::UnexpectedEvent),
            }
        },
        ToolCallParameters::RemoveFile(a) => match ev {
            EventView::Start => if escapes_root(a.path@) {
                finish_err(ToolError::OutsideRoot(a.path))
            } else {
                ActionView::Remove(joined_path(root, a.path@))
            },
            EventView::Done => finish_ok("file removed"@),
            EventView::Missing => finish_ok("file does not exist"@),
            EventView::Failed(e) => finish_err(ToolError::Io(e)),
            _ => finish_err(ToolError::UnexpectedEvent),
        },
        ToolCallParameters::ListFolderContent(a) => match ev {
            EventView::Start => if escapes_root(a.path@) {
                finish_err(ToolError::OutsideRoot(a.path))
            } else {
                ActionView::List(joined_path(root, a.path@))
            },
            EventView::Entries(v) => finish_ok(joined(v)),
            EventView::Missing => finish_ok("path does not exist"@),
            EventView::Failed(e) => finish_err(ToolError::Io(e)),
            _ => finish_err(ToolError::UnexpectedEvent),
        },
        ToolCallParameters::FindInFile(a) => match ev {
            EventView::Start => if escapes_root(a.path@) {
                finish_err(ToolError::OutsideRoot(a.path))
            } else {
                ActionView::ReadText(joined_path(root, a.path@))
            },
            EventView::Text(t) => finish_ok(search_report(t, a.pattern@)),
            EventView::Missing => finish_err(ToolError::FileMissing),
            EventView::Failed(e) => finish_err(ToolError::Io(e)),
            _ => finish_err(ToolError::UnexpectedEvent),
        },
        _ => finish_err(ToolError::UnexpectedEvent),
    }
}

fn finish_text(s: &str) -> (r: FsAction)
    ensures
        r@ == finish_ok(s@),
{
    FsAction::Finish(Ok(String::from_str(s)))
}

fn write_step(path: String, existing: &str, content: &str, line_number: u32) -> (r: FsAction)
    ensures
        r@ == write_action(path@, existing@, content@, line_number),
{
    match crate::patch::patch_text(existing, content, line_number) {
        Some(text) => FsAction::WriteText { path, text },
        None => FsAction::Finish(Err(ToolError::LineOutOfRange)),
    }
}

impl Project {
    /// The next action of `call` after `event`. The todo and memory tools act
    /// on `Start` alone, on the project's own lists, and finish at once;
    /// the file tools leave the project as it is.
    pub fn step(&mut self, call: &ToolCallParameters, event: &FsEvent) -> (r: FsAction)
        ensures
            is_file_tool(*call) ==> r@ == file_step(
                old(self).folder_path@,
                views(old(self).forbidden_files@),
                *call,
                event@,
            ),
            is_file_tool(*call) || !(event is Start) ==> {
                &&& final(self).todo_items@ == old(self).todo_items@
                &&& final(self).memories@ == old(self).memories@
            },
            !is_file_tool(*call) && !(event is Start) ==> r@ == finish_err(
                ToolError::UnexpectedEvent,
            ),
            event is Start ==> match *call {
                ToolCallParameters::AddNewTodo(a) => r matches FsAction::Finish(res) && todo_added(
                    old(self).todo_items@,
                    final(self).todo_items@,
                    a,
                    res,
                ) && final(self).memories@ == old(self).memories@,
                ToolCallParameters::CompleteTodo(c) => r matches FsAction::Finish(res)
                    && todo_completed(old(self).todo_items@, final(self).todo_items@, c, res)
                    && final(self).memories@ == old(self).memories@,
                ToolCallParameters::AddMemory(a) => r matches FsAction::Finish(res)
                    && memory_added(old(self).memories@, final(self).memories@, a, res)
                    && final(self).todo_items@ == old(self).todo_items@,
                ToolCallParameters::ForgetMemory(f) => r matches FsAction::Finish(res)
                    && memory_forgotten(old(self).memories@, final(self).memories@, f, res)
                    && final(self).todo_items@ == old(self).todo_items@,
                _ => true,
            },
            keeps_setup(*old(self), *final(self)),
            is_file_tool(*call) || !(event is Start) ==> *final(self) == *old(self),
    {
        match call {
            ToolCallParameters::AddNewTodo(a) => match event {
                FsEvent::Start => FsAction::Finish(self.add_todo(a)),
                _ => FsAction::Finish(Err(ToolError::UnexpectedEvent)),
            },
            ToolCallParameters::CompleteTodo(c) => match event {
                FsEvent::Start => FsAction::Finish(self.complete_todo(c)),
                _ => FsAction::Finish(Err(ToolError::UnexpectedEvent)),
            },
            ToolCallParameters::AddMemory(a) => match event {
                FsEvent::Start => FsAction::Finish(self.add_memory(a)),
                _ => FsAction::Finish(Err(ToolError::UnexpectedEvent)),
            },
            ToolCallParameters::ForgetMemory(f) => match event {
                FsEvent::Start => FsAction::Finish(self.forget_memory(f)),
                _ => FsAction::Finish(Err(ToolError::UnexpectedEvent)),
            },
            _ => self.file_step(call, event),
        }
    }

    fn file_step(&self, call: &ToolCallParameters, event: &FsEvent) -> (r: FsAction)
        requires
            is_file_tool(*call),
        ensures
            r@ == file_step(self.folder_path@, views(self.forbidden_files@), *call, event@),
    {
        let root = self.folder_path.as_str();
        match call {
            ToolCallParameters::ReadFile(a) => match event {
                FsEvent::Start => if path_escapes_root(a.path.as_str()) {
                    FsAction::Finish(Err(ToolError::OutsideRoot(a.path.clone())))
                } else {
                    FsAction::ReadText { path: join_path(root, a.path.as_str()) }
                },
                FsEvent::Text(t) => FsAction::Finish(
                    Ok(
                        crate::patch::read_window(
                            t.as_str(),
                            a.start_line_number,
                            a.linenumber_count,
                        ),
                    ),
                ),
                FsEvent::Missing => FsAction::Finish(Err(ToolError::FileMissing)),
                FsEvent::Failed(e) => FsAction::Finish(Err(ToolError::Io(e.clone()))),
                _ => FsAction::Finish(Err(ToolError::UnexpectedEvent)),
            },
            ToolCallParameters::WriteFile(a) => {
                let path = join_path(root, a.path.as_str());
                match event {
                    FsEvent::Start => if path_escapes_root(a.path.as_str()) {
                        FsAction::Finish(Err(ToolError::OutsideRoot(a.path.clone())))
                    } else if forbidden_path(&self.forbidden_files, path.as_str()) {
                        finish_text("write refused: forbidden file")
                    } else {
                        FsAction::ReadText { path }
                    },
                    FsEvent::Text(t) => write_step(
                        path,
                        t.as_str(),
                        a.content.as_str(),
                        a.linenumber,
                    ),
                    FsEvent::Missing => {
                        proof {
                            reveal_strlit("");
                        }
                        assert(""@ =~= Seq::<char>::empty());
                        write_step(path, "", a.content.as_str(), a.linenumber)
                    },
                    FsEvent::Done => finish_text("file written"),
                    FsEvent::Failed(e) => FsAction::Finish(Err(ToolError::Io(e.clone()))),
                    _ => FsAction::Finish(Err(ToolError::UnexpectedEvent)),
                }
            },
            ToolCallParameters::RemoveFile(a) => match event {
                FsEvent::Start => if path_escapes_root(a.path.as_str()) {
                    FsAction::Finish(Err(ToolError::OutsideRoot(a.path.clone())))
                } else {
                    FsAction::Remove { path: join_path(root, a.path.as_str()) }
                },
                FsEvent::Done => finish_text("file removed"),
                FsEvent::Missing => finish_text("file does not exist"),
                FsEvent::Failed(e) => FsAction::Finish(Err(ToolError::Io(e.clone()))),
                _ => FsAction::Finish(Err(ToolError::UnexpectedEvent)),
            },
            ToolCallParameters::ListFolderContent(a) => match event {
                FsEvent::Start => if path_escapes_root(a.path.as_str()) {
                    FsAction::Finish(Err(ToolError::OutsideRoot(a.path.clone())))
                } else {
                    FsAction::List { path: join_path(root, a.path.as_str()) }
                },
                FsEvent::Entries(v) => FsAction::Finish(Ok(crate::patch::join_lines(v))),
                FsEvent::Missing => finish_text("path does not exist"),
                FsEvent::Failed(e) => FsAction::Finish(Err(ToolError::Io(e.clone()))),
                _ => FsAction::Finish(Err(ToolError::UnexpectedEvent)),
            },
            ToolCallParameters::FindInFile(a) => match event {
                FsEvent::Start => if path_escapes_root(a.path.as_str()) {
                    FsAction::Finish(Err(ToolError::OutsideRoot(a.path.clone())))
                } else {
                    FsAction::ReadText { path: join_path(root, a.path.as_str()) }
                },
                FsEvent::Text(t) => FsAction::Finish(Ok(search_text(t.as_str(), a.pattern.as_str()))),
                FsEvent::Missing => FsAction::Finish(Err(ToolError::FileMissing)),
                FsEvent::Failed(e) => FsAction::Finish(Err(ToolError::Io(e.clone()))),
                _ => FsAction::Finish(Err(ToolError::UnexpectedEvent)),
            },
            _ => FsAction::Finish(Err(ToolError::UnexpectedEvent)),
        }
    }
}

} // verus!
