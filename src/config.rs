//! Reading `KEY=VALUE` settings out of a dotenv-style text.

use vstd::prelude::*;
use vstd::string::*;
use crate::patch::{lines_of, views};

verus! {

/// Position `i` holds the line's one and only `=`.
pub open spec fn sole_eq_at(line: Seq<char>, i: int) -> bool {
    &&& 0 <= i < line.len()
    &&& line[i] == '='
    &&& forall|j: int| 0 <= j < line.len() && j != i ==> line[j] != '='
}

/// The setting a line holds: the text before and after its one `=`, where
/// it has exactly one.
pub open spec fn env_entry(line: Seq<char>) -> Option<(Seq<char>, Seq<char>)> {
    if exists|i: int| sole_eq_at(line, i) {
        let i = choose|i: int| sole_eq_at(line, i);
        Some((line.subrange(0, i), line.subrange(i + 1, line.len() as int)))
    } else {
        None
    }
}

/// The settings of the lines, in order; lines without exactly one `=` are
/// skipped.
pub open spec fn env_entries(lines: Seq<Seq<char>>) -> Seq<(Seq<char>, Seq<char>)>
    decreases lines.len(),
{
    if lines.len() == 0 {
        Seq::empty()
    } else {
        let prev = env_entries(lines.drop_last());
        match env_entry(lines.last()) {
            Some(e) => prev.push(e),
            None => prev,
        }
    }
}

pub open spec fn pair_views(v: Seq<(String, String)>) -> Seq<(Seq<char>, Seq<char>)> {
    v.map_values(|p: (String, String)| (p.0@, p.1@))
}

/// The setting of one line, if it has exactly one `=`.
pub fn parse_env_line(line: &str) -> (r: Option<(String, String)>)
    ensures
        match r {
            Some(p) => env_entry(line@) == Some((p.0@, p.1@)),
            None => env_entry(line@) is None,
        },
{
    let n = line.unicode_len();
    let mut count: usize = 0;
    let mut pos: usize = 0;
    let mut i: usize = 0;
    while i < n
        invariant
            n == line@.len(),
            i <= n,
            count <= i,
            count == 0 ==> forall|j: int| 0 <= j < i ==> line@[j] != '=',
            count == 1 ==> pos < i && line@[pos as int] == '=' && forall|j: int|
                0 <= j < i && j != pos ==> line@[j] != '=',
            count >= 2 ==> exists|a: int, b: int|
                0 <= a < b < i && line@[a] == '=' && line@[b] == '=',
        decreases n - i,
    {
        if line.get_char(i) == '=' {
            if count == 1 {
                assert(line@[pos as int] == '=' && line@[i as int] == '=');
            }
            if count == 0 {
                pos = i;
            }
            if count < 2 {
                count = count + 1;
            }
        }
        i = i + 1;
    }
    if count == 1 {
        assert(sole_eq_at(line@, pos as int));
        let ghost c = choose|k: int| sole_eq_at(line@, k);
        assert(c == pos);
        let key = String::from_str(line.substring_char(0, pos));
        let value = String::from_str(line.substring_char(pos + 1, n));
        Some((key, value))
    } else {
        if count >= 2 {
            assert forall|k: int| !sole_eq_at(line@, k) by {
                let (a, b) = choose|a: int, b: int|
                    0 <= a < b < n && line@[a] == '=' && line@[b] == '=';
                if sole_eq_at(line@, k) {
                    assert(a == k && b == k);
                }
            }
        }
        None
    }
}

/// The settings of a dotenv-style text, in order of their lines.
pub fn parse_env(text: &str) -> (r: Vec<(String, String)>)
    ensures
        pair_views(r@) == env_entries(lines_of(text@)),
{
    let lines = crate::patch::text_lines(text);
    let n = lines.len();
    let mut out: Vec<(String, String)> = Vec::new();
    let mut i: usize = 0;
    while i < n
        invariant
            n == lines@.len(),
            i <= n,
            views(lines@) == lines_of(text@),
            pair_views(out@) == env_entries(views(lines@).subrange(0, i as int)),
        decreases n - i,
    {
        let ghost pre = views(lines@).subrange(0, i as int);
        let ghost next = views(lines@).subrange(0, i + 1);
        assert(next.drop_last() =~= pre);
        assert(next.last() == lines@[i as int]@);
        match parse_env_line(lines[i].as_str()) {
            Some(p) => {
                let ghost prev = out@;
                let ghost pv = (p.0@, p.1@);
                out.push(p);
                assert(pair_views(out@) =~= pair_views(prev).push(pv));
            },
            None => {},
        }
        i = i + 1;
    }
    assert(views(lines@).subrange(0, n as int) =~= views(lines@));
    out
}

} // verus!
