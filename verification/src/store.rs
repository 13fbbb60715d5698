//! Where an entry is stored, and which part of it is stored.
use vstd::prelude::*;
use vstd::string::*;
use crate::level::{Level, LevelMap};
use crate::state::State;
use crate::text::{
    copy_text, decimal, is_digit, lemma_decimal_injective, lemma_decimal_shape,
    lemma_marks_are_no_digits, push_decimal, text_of, text_of_str,
};

verus! {

/// The part of an entry that is written to disk. The session token and the
/// two paths are no part of it.
#[derive(Debug, PartialEq, Eq)]
pub struct Record {
    pub year: Option<i32>,
    pub day: Option<u32>,
    pub level: Level,
    pub title: Option<String>,
    pub stars: Option<u8>,
    pub input: Option<String>,
    pub brief: LevelMap,
    pub solution: LevelMap,
}

impl View for Record {
    type V = State;

    /// The entry that the record gives back: its own fields, an empty session
    /// token and no path.
    open spec fn view(&self) -> State {
        State {
            year: match self.year {
                Some(y) => Some(y as int),
                None => None,
            },
            day: match self.day {
                Some(d) => Some(d as int),
                None => None,
            },
            level: self.level,
            title: text_of(self.title),
            stars: match self.stars {
                Some(n) => Some(n as int),
                None => None,
            },
            input: text_of(self.input),
            brief: self.brief@,
            solution: self.solution@,
            cache_path: None,
            cookie_path: None,
            cookie: Seq::empty(),
        }
    }
}

impl Clone for Record {
    fn clone(&self) -> (copy: Record)
        ensures
            copy@ == self@,
    {
        Record {
            year: self.year,
            day: self.day,
            level: self.level,
            title: copy_text(&self.title),
            stars: self.stars,
            input: copy_text(&self.input),
            brief: self.brief.clone(),
            solution: self.solution.clone(),
        }
    }
}

/// `rel` below the directory `root`: the two joined by one separator, unless
/// `root` is empty or ends in one already.
pub open spec fn joined(root: Seq<char>, rel: Seq<char>) -> Seq<char> {
    if root.len() == 0 {
        rel
    } else if root.last() == '/' {
        root + rel
    } else {
        root + seq!['/'] + rel
    }
}

/// The place of the entry for `year` and `day`, from the workspace root.
pub open spec fn cache_file(year: int, day: int) -> Seq<char> {
    "./.aocf/cache/aoc"@ + decimal(year) + "_"@ + decimal(day) + ".json"@
}

/// The place of the entry for `year` and `day`: below the workspace root
/// where there is one, else below the current directory.
pub open spec fn path_for(year: int, day: int, root: Option<Seq<char>>) -> Seq<char> {
    match root {
        Some(r) => joined(r, cache_file(year, day)),
        None => cache_file(year, day),
    }
}

/// The place of the file that holds the session token.
pub open spec fn default_cookie_path(root: Option<Seq<char>>) -> Seq<char> {
    match root {
        Some(r) => joined(r, "./.aocf/cookie"@),
        None => "./.aocf/cookie"@,
    }
}

/// The path of `rel` below the directory `root`.
pub fn join(root: &str, rel: &str) -> (path: String)
    ensures
        path@ == joined(root@, rel@),
{
    let n = root.unicode_len();
    let mut path = String::from_str(root);
    if n > 0 && root.get_char(n - 1) != '/' {
        proof {
            reveal_strlit("/");
        }
        path.append("/");
    }
    path.append(rel);
    path
}

/// The path of `rel` below the workspace root, or `rel` itself where there is
/// no root.
pub fn below(root: Option<&str>, rel: &str) -> (path: String)
    ensures
        path@ == match root {
            Some(r) => joined(r@, rel@),
            None => rel@,
        },
{
    match root {
        Some(r) => join(r, rel),
        None => String::from_str(rel),
    }
}

/// The default place of the entry for `year` and `day`, given the workspace
/// root if there is one. The same arguments always give the same place, and
/// for one root no two problems share a place.
pub fn default_path(year: i32, day: u32, root: Option<&str>) -> (path: String)
    ensures
        path@ == path_for(year as int, day as int, text_of_str(root)),
{
    let name = cache_file_name(year, day);
    below(root, name.as_str())
}

/// The name of the entry for `year` and `day`, from the workspace root.
pub fn cache_file_name(year: i32, day: u32) -> (name: String)
    ensures
        name@ == cache_file(year as int, day as int),
{
    let mut name = String::from_str("./.aocf/cache/aoc");
    push_decimal(&mut name, year as i64);
    name.append("_");
    push_decimal(&mut name, day as i64);
    name.append(".json");
    name
}

/// What is put in front of a path below `root`.
pub open spec fn root_prefix(root: Option<Seq<char>>) -> Seq<char> {
    match root {
        Some(r) => joined(r, Seq::empty()),
        None => Seq::empty(),
    }
}

/// Two numbers in decimal, each followed by the same mark, are the same
/// texts only if they are the same numbers, provided that no number in
/// decimal holds the first character of the mark.
proof fn lemma_marked_numbers(a: int, b: int, mark: Seq<char>, x: Seq<char>, y: Seq<char>)
    requires
        decimal(a) + mark + x == decimal(b) + mark + y,
        mark.len() >= 1,
        !is_digit(mark[0]),
        mark[0] != '-',
    ensures
        a == b,
        x == y,
{
    let da = decimal(a);
    let db = decimal(b);
    let left = da + mark + x;
    let right = db + mark + y;
    lemma_decimal_shape(a);
    lemma_decimal_shape(b);
    // The mark starts where the shorter number ends, and there the longer
    // one still has a digit: so neither is shorter.
    if da.len() < db.len() {
        assert(right[da.len() as int] == db[da.len() as int]);
    }
    if db.len() < da.len() {
        assert(left[db.len() as int] == da[db.len() as int]);
    }
    assert(left.subrange(0, da.len() as int) == da);
    assert(right.subrange(0, db.len() as int) == db);
    lemma_decimal_injective(a, b);
    assert(left.subrange((da.len() + mark.len()) as int, left.len() as int) == x);
    assert(right.subrange((db.len() + mark.len()) as int, right.len() as int) == y);
}

/// Texts that are equal after the same start are equal.
proof fn lemma_same_start(start: Seq<char>, x: Seq<char>, y: Seq<char>)
    requires
        start + x == start + y,
    ensures
        x == y,
{
    assert(x == (start + x).subrange(start.len() as int, (start + x).len() as int));
    assert(y == (start + y).subrange(start.len() as int, (start + y).len() as int));
}

/// The default place is a start that depends on the root alone, then the
/// year, an underscore, the day and the ending.
proof fn lemma_default_path_parts(year: int, day: int, root: Option<Seq<char>>)
    ensures
        path_for(year, day, root) == (root_prefix(root) + "./.aocf/cache/aoc"@) + (decimal(
            year,
        ) + "_"@ + (decimal(day) + ".json"@ + Seq::<char>::empty())),
{
}

/// For one workspace root, the default place of the entry tells year and day:
/// two problems are stored in the same file only if they are the same
/// problem.
pub proof fn lemma_default_path_injective(
    year: int,
    day: int,
    other_year: int,
    other_day: int,
    root: Option<Seq<char>>,
)
    requires
        path_for(year, day, root) == path_for(other_year, other_day, root),
    ensures
        year == other_year,
        day == other_day,
{
    reveal_strlit("_");
    reveal_strlit(".json");
    lemma_marks_are_no_digits();
    lemma_default_path_parts(year, day, root);
    lemma_default_path_parts(other_year, other_day, root);
    let start = root_prefix(root) + "./.aocf/cache/aoc"@;
    let days = decimal(day) + ".json"@ + Seq::<char>::empty();
    let other_days = decimal(other_day) + ".json"@ + Seq::<char>::empty();
    lemma_same_start(
        start,
        decimal(year) + "_"@ + days,
        decimal(other_year) + "_"@ + other_days,
    );
    lemma_marked_numbers(year, other_year, "_"@, days, other_days);
    lemma_marked_numbers(day, other_day, ".json"@, Seq::empty(), Seq::empty());
}

/// The stored part of an entry is the entry itself but for the session token
/// and the two paths, which it leaves empty; and the stored part of what was
/// restored from it is the same again.
pub proof fn lemma_persisted_keeps(s: State)
    ensures
        s.persisted().year == s.year,
        s.persisted().day == s.day,
        s.persisted().level == s.level,
        s.persisted().title == s.title,
        s.persisted().stars == s.stars,
        s.persisted().input == s.input,
        s.persisted().brief == s.brief,
        s.persisted().solution == s.solution,
        s.persisted().cookie == Seq::<char>::empty(),
        s.persisted().cache_path is None,
        s.persisted().cookie_path is None,
        s.persisted().persisted() == s.persisted(),
{
}

} // verus!
