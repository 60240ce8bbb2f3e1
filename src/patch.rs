//! Line-addressed file contents: splitting and joining, the write patch, the
//! read window and the line search.

use vstd::prelude::*;
use vstd::string::*;
use crate::text::push_char;

verus! {

/// The lines of a text as `str::lines` yields them: split at `\n`, a trailing
/// `\r` dropped from each line, no empty last line after a final `\n`. The
/// result depends on the text alone.
pub uninterp spec fn lines_of(s: Seq<char>) -> Seq<Seq<char>>;

/// The views of a list of strings.
pub open spec fn views(v: Seq<String>) -> Seq<Seq<char>> {
    v.map_values(|s: String| s@)
}

/// Relies on `str::lines`, each line copied into a `String`.
#[verifier::external_body]
fn split_lines(s: &str) -> (r: Vec<String>)
    ensures
        views(r@) == lines_of(s@),
        s@.len() == 0 ==> r@.len() == 0,
{
    s.lines().map(String::from).collect()
}

/// The lines of `text`.
pub fn text_lines(text: &str) -> (r: Vec<String>)
    ensures
        views(r@) == lines_of(text@),
        text@.len() == 0 ==> r@.len() == 0,
{
    split_lines(text)
}

/// The lines joined with `\n` between neighbours.
pub open spec fn joined(lines: Seq<Seq<char>>) -> Seq<char>
    decreases lines.len(),
{
    if lines.len() == 0 {
        Seq::empty()
    } else if lines.len() == 1 {
        lines[0]
    } else {
        joined(lines.drop_last()).push('\n') + lines.last()
    }
}

/// Joins lines with `\n` between neighbours.
pub fn join_lines(lines: &Vec<String>) -> (r: String)
    ensures
        r@ == joined(views(lines@)),
{
    let n = lines.len();
    let mut out = String::new();
    let mut i: usize = 0;
    while i < n
        invariant
            n == lines@.len(),
            i <= n,
            out@ == joined(views(lines@.subrange(0, i as int))),
        decreases n - i,
    {
        let ghost pre = views(lines@.subrange(0, i as int));
        let ghost next = views(lines@.subrange(0, i + 1));
        assert(next.drop_last() =~= pre);
        assert(next.last() == lines@[i as int]@);
        if i > 0 {
            push_char(&mut out, '\n');
        }
        out.append(lines[i].as_str());
        i = i + 1;
    }
    assert(lines@.subrange(0, n as int) =~= lines@);
    out
}

/// The line sequence after writing `content` over `existing` from line
/// `at` (0-based): lines before `at` and from `at + content.len()` on are
/// kept, the lines in between are replaced, and where `at` lies past the end
/// the gap is filled with empty lines.
pub open spec fn patched(existing: Seq<Seq<char>>, content: Seq<Seq<char>>, at: int) -> Seq<
    Seq<char>,
> {
    let n = existing.len() as int;
    let end = at + content.len();
    let len = if n > end {
        n
    } else {
        end
    };
    Seq::new(
        len as nat,
        |i: int|
            if at <= i < end {
                content[i - at]
            } else if i < n {
                existing[i]
            } else {
                Seq::empty()
            },
    )
}

/// Writes `content` over `existing` from line `line_number` on.
pub fn patch_lines(existing: &Vec<String>, content: &Vec<String>, line_number: usize) -> (r: Vec<
    String,
>)
    requires
        line_number + content@.len() <= usize::MAX,
    ensures
        views(r@) == patched(views(existing@), views(content@), line_number as int),
        r@.len() == patched(views(existing@), views(content@), line_number as int).len(),
{
    let n = existing.len();
    let end = line_number + content.len();
    let len = if n > end {
        n
    } else {
        end
    };
    let ghost goal = patched(views(existing@), views(content@), line_number as int);
    let mut out: Vec<String> = Vec::new();
    let mut i: usize = 0;
    while i < len
        invariant
            n == existing@.len(),
            end == line_number + content@.len(),
            len == goal.len(),
            goal == patched(views(existing@), views(content@), line_number as int),
            i <= len,
            views(out@) == goal.subrange(0, i as int),
        decreases len - i,
    {
        let line = if line_number <= i && i < end {
            content[i - line_number].clone()
        } else if i < n {
            existing[i].clone()
        } else {
            String::new()
        };
        let ghost prev = out@;
        out.push(line);
        assert(views(out@) =~= views(prev).push(line@));
        assert(goal.subrange(0, i + 1) =~= goal.subrange(0, i as int).push(goal[i as int]));
        i = i + 1;
    }
    assert(goal.subrange(0, len as int) =~= goal);
    out
}

/// The window of at most `count` lines from line `start` (0-based) on; empty
/// where `start` lies at or past the end.
pub open spec fn window(lines: Seq<Seq<char>>, start: int, count: int) -> Seq<Seq<char>> {
    let n = lines.len() as int;
    let lo = if start < n {
        start
    } else {
        n
    };
    let hi = if start + count < n {
        start + count
    } else {
        n
    };
    lines.subrange(lo, hi)
}

/// The lines of `lines` from `start` on, at most `count` of them.
pub fn select_lines(lines: &Vec<String>, start: u32, count: u32) -> (r: Vec<String>)
    ensures
        views(r@) == window(views(lines@), start as int, count as int),
        r@.len() == window(views(lines@), start as int, count as int).len(),
{
    let n = lines.len();
    let lo: usize = if (start as usize) < n {
        start as usize
    } else {
        n
    };
    let hi: usize = if (start as u64 + count as u64) < n as u64 {
        (start as u64 + count as u64) as usize
    } else {
        n
    };
    let mut out: Vec<String> = Vec::new();
    let mut i: usize = lo;
    while i < hi
        invariant
            n == lines@.len(),
            lo <= i <= hi <= n,
            views(out@) == views(lines@).subrange(lo as int, i as int),
        decreases hi - i,
    {
        let ghost prev = out@;
        out.push(lines[i].clone());
        assert(views(out@) =~= views(prev).push(lines@[i as int]@));
        assert(views(lines@).subrange(lo as int, i + 1) =~= views(lines@).subrange(lo as int, i as int).push(lines@[i as int]@));
        i = i + 1;
    }
    out
}

/// The text a read returns: the window of the file's lines, joined.
pub fn read_window(text: &str, start: u32, count: u32) -> (r: String)
    ensures
        r@ == joined(window(lines_of(text@), start as int, count as int)),
{
    let lines = text_lines(text);
    let picked = select_lines(&lines, start, count);
    join_lines(&picked)
}

/// The text a write leaves in the file: `content`'s lines written over the
/// lines of `existing` from `line_number` on, joined. `None` where the last
/// line written would lie past the largest index of the machine.
pub fn patch_text(existing: &str, content: &str, line_number: u32) -> (r: Option<String>)
    ensures
        r is Some <==> line_number + lines_of(content@).len() <= usize::MAX,
        r matches Some(t) ==> t@ == joined(
            patched(lines_of(existing@), lines_of(content@), line_number as int),
        ),
{
    let old_lines = text_lines(existing);
    let new_lines = text_lines(content);
    if new_lines.len() > usize::MAX - line_number as usize {
        return None;
    }
    let lines = patch_lines(&old_lines, &new_lines, line_number as usize);
    Some(join_lines(&lines))
}

} // verus!
