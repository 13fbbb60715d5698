//! The lines that tell the user where a problem stands.
use vstd::prelude::*;
use vstd::string::*;
use crate::aoc::Aoc;
use crate::error::Error;
use crate::level::Level;
use crate::state::State;
use crate::text::{decimal, digits, lemma_digits_shape, push_decimal, texts};

verus! {

/// `n` asterisks.
pub open spec fn stars_text(n: int) -> Seq<char> {
    Seq::new(n as nat, |i: int| '*')
}

/// The line that names the title, if there is one.
pub open spec fn title_lines(s: State) -> Seq<Seq<char>> {
    match s.title {
        Some(t) => seq!["title: "@ + t],
        None => Seq::empty(),
    }
}

/// The line for the solution of `level`, if there is one.
pub open spec fn solution_line(s: State, level: Level) -> Seq<Seq<char>> {
    if s.solution.contains_key(level) {
        seq!["    "@ + level.digit_text() + ") "@ + s.solution[level] + " "@]
    } else {
        Seq::empty()
    }
}

/// The lines that list the solutions, if there is any.
pub open spec fn solution_lines(s: State) -> Seq<Seq<char>> {
    if s.solution.contains_key(Level::First) || s.solution.contains_key(Level::Second) {
        seq!["solutions:"@] + solution_line(s, Level::First) + solution_line(s, Level::Second)
    } else {
        Seq::empty()
    }
}

/// The line that shows the stars, if a number of stars is set.
pub open spec fn stars_lines(s: State) -> Seq<Seq<char>> {
    match s.stars {
        Some(n) => seq!["stars: "@ + stars_text(n)],
        None => Seq::empty(),
    }
}

/// The status of a problem, line by line: year, day and level; then the
/// title, the solutions and the stars, as far as there are any. Without a year
/// or a day there is no status.
pub open spec fn status_lines(s: State) -> Option<Seq<Seq<char>>> {
    match (s.day, s.year) {
        (Some(d), Some(y)) => Some(
            seq!["year:  "@ + decimal(y), "day:   "@ + decimal(d), "level: "@ + s.level.name_text()]
                + title_lines(s) + solution_lines(s) + stars_lines(s),
        ),
        _ => None,
    }
}

/// Appends `line` to `lines`.
fn push_line(lines: &mut Vec<String>, line: String)
    ensures
        texts(final(lines)@) == texts(old(lines)@) + seq![line@],
{
    lines.push(line);
}

/// Appends to `lines` the line for the solution of `level`, if there is one.
fn push_solution(lines: &mut Vec<String>, aoc: &Aoc, level: Level)
    ensures
        texts(final(lines)@) == texts(old(lines)@) + solution_line(aoc@, level),
{
    match aoc.solution.get(level) {
        Some(answer) => {
            let mut line = String::from_str("    ");
            line.append(level.digit());
            line.append(") ");
            line.append(answer.as_str());
            line.append(" ");
            push_line(lines, line);
        },
        None => {},
    }
}

/// A text of `n` asterisks after `label`.
fn stars_line(label: &str, n: u8) -> (line: String)
    ensures
        line@ == label@ + stars_text(n as int),
{
    let mut line = String::from_str(label);
    let mut i: u8 = 0;
    while i < n
        invariant
            i <= n,
            line@ == label@ + stars_text(i as int),
        decreases n - i,
    {
        proof {
            reveal_strlit("*");
        }
        line.append("*");
        i += 1;
    }
    line
}

/// The status of the problem, line by line. Fails if the year or the day is
/// not set.
pub fn status(aoc: &Aoc) -> (lines: Result<Vec<String>, Error>)
    ensures
        match status_lines(aoc@) {
            Some(expected) => lines matches Ok(l) && texts(l@) == expected,
            None => lines == Err::<Vec<String>, Error>(Error::DayOrYearNotSet),
        },
{
    let (d, y) = match (aoc.day, aoc.year) {
        (Some(d), Some(y)) => (d, y),
        _ => {
            return Err(Error::DayOrYearNotSet);
        },
    };
    let mut lines: Vec<String> = Vec::new();
    let mut year = String::from_str("year:  ");
    push_decimal(&mut year, y as i64);
    push_line(&mut lines, year);
    let mut day = String::from_str("day:   ");
    push_decimal(&mut day, d as i64);
    push_line(&mut lines, day);
    let mut level = String::from_str("level: ");
    level.append(aoc.level.name());
    push_line(&mut lines, level);
    if let Some(t) = &aoc.title {
        let mut title = String::from_str("title: ");
        title.append(t.as_str());
        push_line(&mut lines, title);
    }
    if !aoc.solution.is_empty() {
        push_line(&mut lines, String::from_str("solutions:"));
        push_solution(&mut lines, aoc, Level::First);
        push_solution(&mut lines, aoc, Level::Second);
    }
    if let Some(n) = aoc.stars {
        push_line(&mut lines, stars_line("stars: ", n));
    }
    Ok(lines)
}

/// `n` blanks.
pub open spec fn blanks(n: int) -> Seq<char> {
    if n <= 0 {
        Seq::empty()
    } else {
        Seq::new(n as nat, |i: int| ' ')
    }
}

/// `s` with blanks in front, as many as it is shorter than `width`.
pub open spec fn pad_start(s: Seq<char>, width: int) -> Seq<char> {
    blanks(width - s.len()) + s
}

/// `s` with blanks behind, as many as it is shorter than `width`.
pub open spec fn pad_end(s: Seq<char>, width: int) -> Seq<char> {
    s + blanks(width - s.len())
}

/// The line of the summary for a problem: the year, the day in two columns,
/// the stars in two columns, and the title.
pub open spec fn summary_line(year: int, day: int, stars: int, title: Seq<char>) -> Seq<char> {
    decimal(year) + " "@ + pad_start(decimal(day), 2) + " "@ + pad_end(stars_text(stars), 2) + " "@
        + title
}

/// The day and the line with which the problem `s` stands in the summary of
/// `year`: none unless it is of that year and has a day, a title and a number
/// of stars.
pub open spec fn row_of(s: State, year: int) -> Option<(int, Seq<char>)> {
    match (s.year, s.day, s.title, s.stars) {
        (Some(y), Some(d), Some(t), Some(n)) => if y == year {
            Some((d, summary_line(y, d, n, t)))
        } else {
            None
        },
        _ => None,
    }
}

/// Where a row of `day` goes among `rows`: behind the last row whose day is
/// not later.
pub open spec fn place(rows: Seq<(int, Seq<char>)>, day: int) -> int
    decreases rows.len(),
{
    if rows.len() == 0 || rows.last().0 <= day {
        rows.len() as int
    } else {
        place(rows.drop_last(), day)
    }
}

/// The rows of the summary of `year`: those of `entries`, each put in its
/// place in the order in which the entries come.
pub open spec fn summary_rows(entries: Seq<State>, year: int) -> Seq<(int, Seq<char>)>
    decreases entries.len(),
{
    if entries.len() == 0 {
        Seq::empty()
    } else {
        let rows = summary_rows(entries.drop_last(), year);
        match row_of(entries.last(), year) {
            Some(row) => rows.insert(place(rows, row.0), row),
            None => rows,
        }
    }
}

/// The summary of `year`: one line for each problem of that year among
/// `entries` that has a day, a title and a number of stars, by day; problems
/// of the same day in the order in which they come.
pub open spec fn summary_lines(entries: Seq<State>, year: int) -> Seq<Seq<char>> {
    Seq::new(summary_rows(entries, year).len(), |i: int| summary_rows(entries, year)[i].1)
}

/// What each of the entries `v` stands for.
pub open spec fn states(v: Seq<Aoc>) -> Seq<State> {
    Seq::new(v.len(), |i: int| v[i]@)
}

/// The rows `v` as plain values.
pub open spec fn rows_of(v: Seq<(u32, String)>) -> Seq<(int, Seq<char>)> {
    Seq::new(v.len(), |i: int| (v[i].0 as int, v[i].1@))
}

/// Whether the days of `rows` never go down.
pub open spec fn by_day(rows: Seq<(int, Seq<char>)>) -> bool {
    forall|i: int, j: int| 0 <= i <= j < rows.len() ==> rows[i].0 <= rows[j].0
}

/// Among rows ordered by day, the place for a day is behind all rows that
/// are not later and before all that are.
pub proof fn lemma_place(rows: Seq<(int, Seq<char>)>, day: int)
    requires
        by_day(rows),
    ensures
        0 <= place(rows, day) <= rows.len(),
        forall|i: int| 0 <= i < place(rows, day) ==> rows[i].0 <= day,
        forall|i: int| place(rows, day) <= i < rows.len() ==> rows[i].0 > day,
    decreases rows.len(),
{
    if rows.len() > 0 && rows.last().0 > day {
        let front = rows.drop_last();
        assert(by_day(front)) by {
            assert forall|i: int, j: int| 0 <= i <= j < front.len() implies front[i].0
                <= front[j].0 by {
                assert(front[i] == rows[i] && front[j] == rows[j]);
            }
        }
        lemma_place(front, day);
        assert forall|i: int| 0 <= i < place(rows, day) implies rows[i].0 <= day by {
            assert(front[i] == rows[i]);
        }
        assert forall|i: int| place(rows, day) <= i < rows.len() implies rows[i].0 > day by {
            if i < front.len() {
                assert(front[i] == rows[i]);
            }
        }
    }
}

/// The summary is ordered by day.
pub proof fn lemma_summary_by_day(entries: Seq<State>, year: int)
    ensures
        by_day(summary_rows(entries, year)),
    decreases entries.len(),
{
    if entries.len() > 0 {
        lemma_summary_by_day(entries.drop_last(), year);
        let rows = summary_rows(entries.drop_last(), year);
        if let Some(row) = row_of(entries.last(), year) {
            lemma_place(rows, row.0);
            let k = place(rows, row.0);
            let out = rows.insert(k, row);
            // Every row of `out` but the one at `k` is a row of `rows`.
            assert forall|i: int, j: int| 0 <= i <= j < out.len() implies out[i].0
                <= out[j].0 by {
                if i > k {
                    assert(out[i] == rows[i - 1]);
                }
                if j > k {
                    assert(out[j] == rows[j - 1]);
                }
            }
        }
    }
}

/// The rows of `entries` for the summary of `year`, in the order in which
/// the entries come.
pub open spec fn listed_rows(entries: Seq<State>, year: int) -> Seq<(int, Seq<char>)>
    decreases entries.len(),
{
    if entries.len() == 0 {
        Seq::empty()
    } else {
        match row_of(entries.last(), year) {
            Some(row) => listed_rows(entries.drop_last(), year).push(row),
            None => listed_rows(entries.drop_last(), year),
        }
    }
}

/// The summary holds the rows of the entries, each as often as it is listed,
/// and nothing else: it is the list of rows in another order.
pub proof fn lemma_summary_holds_the_rows(entries: Seq<State>, year: int)
    ensures
        summary_rows(entries, year).to_multiset() == listed_rows(entries, year).to_multiset(),
        summary_rows(entries, year).len() == listed_rows(entries, year).len(),
    decreases entries.len(),
{
    broadcast use vstd::seq_lib::group_to_multiset_ensures;

    if entries.len() > 0 {
        lemma_summary_holds_the_rows(entries.drop_last(), year);
        lemma_summary_by_day(entries.drop_last(), year);
        let rows = summary_rows(entries.drop_last(), year);
        if let Some(row) = row_of(entries.last(), year) {
            lemma_place(rows, row.0);
            let k = place(rows, row.0);
            let out = rows.insert(k, row);
            // Taking the new row out again gives the rows before.
            assert(out[k] == row);
            assert(out.remove(k) =~= rows);
        }
    }
}

/// Whether a row is of the day `day`.
pub open spec fn of_day(day: int) -> spec_fn((int, Seq<char>)) -> bool {
    |row: (int, Seq<char>)| row.0 == day
}

/// Rows among which none is of the day `day` leave nothing when only the
/// rows of that day are kept.
proof fn lemma_no_row_of_day(rows: Seq<(int, Seq<char>)>, day: int)
    requires
        forall|i: int| 0 <= i < rows.len() ==> rows[i].0 != day,
    ensures
        rows.filter(of_day(day)) == Seq::<(int, Seq<char>)>::empty(),
    decreases rows.len(),
{
    reveal(Seq::filter);
    if rows.len() > 0 {
        lemma_no_row_of_day(rows.drop_last(), day);
    }
}

/// The rows of one day stand in the summary in the order in which they are
/// listed. With the order by day, this tells where every row stands.
pub proof fn lemma_summary_keeps_order(entries: Seq<State>, year: int, day: int)
    ensures
        summary_rows(entries, year).filter(of_day(day)) == listed_rows(entries, year).filter(
            of_day(day),
        ),
    decreases entries.len(),
{
    reveal_with_fuel(Seq::filter, 2);
    if entries.len() > 0 {
        lemma_summary_keeps_order(entries.drop_last(), year, day);
        lemma_summary_by_day(entries.drop_last(), year);
        let rows = summary_rows(entries.drop_last(), year);
        let listed = listed_rows(entries.drop_last(), year);
        if let Some(row) = row_of(entries.last(), year) {
            lemma_place(rows, row.0);
            let k = place(rows, row.0);
            let front = rows.subrange(0, k);
            let back = rows.subrange(k, rows.len() as int);
            let one = seq![row];
            assert(rows =~= front + back);
            assert(rows.insert(k, row) =~= front + one + back);
            Seq::filter_distributes_over_add(front, back, of_day(day));
            Seq::filter_distributes_over_add(front, one, of_day(day));
            Seq::filter_distributes_over_add(front + one, back, of_day(day));
            assert(one.drop_last() =~= Seq::<(int, Seq<char>)>::empty());
            assert(listed.push(row).drop_last() =~= listed);
            if day == row.0 {
                // Behind the new row stand later days only.
                lemma_no_row_of_day(back, day);
                assert(one.filter(of_day(day)) =~= one);
                assert(front.filter(of_day(day)) + one + Seq::<(int, Seq<char>)>::empty()
                    =~= front.filter(of_day(day)).push(row));
            } else {
                assert(one.filter(of_day(day)) =~= Seq::<(int, Seq<char>)>::empty());
                assert(front.filter(of_day(day)) + Seq::<(int, Seq<char>)>::empty() + back.filter(
                    of_day(day),
                ) =~= front.filter(of_day(day)) + back.filter(of_day(day)));
            }
        }
    }
}

/// A day of one digit is written in one character, any other in more.
proof fn lemma_one_digit(d: nat)
    ensures
        d < 10 ==> digits(d).len() == 1,
        d >= 10 ==> digits(d).len() >= 2,
{
    if d >= 10 {
        lemma_digits_shape(d / 10);
    }
}

/// The line of the summary for a problem.
fn summary_row(year: i32, day: u32, stars: u8, title: &str) -> (line: String)
    ensures
        line@ == summary_line(year as int, day as int, stars as int, title@),
{
    proof {
        reveal_strlit(" ");
        lemma_one_digit(day as nat);
    }
    let mut line = String::new();
    push_decimal(&mut line, year as i64);
    line.append(" ");
    if day < 10 {
        line.append(" ");
    }
    push_decimal(&mut line, day as i64);
    line.append(" ");
    let shown = stars_line("", stars);
    proof {
        reveal_strlit("");
    }
    line.append(shown.as_str());
    if stars == 0 {
        line.append(" ");
        line.append(" ");
    } else if stars == 1 {
        line.append(" ");
    }
    line.append(" ");
    line.append(title);
    line
}

/// The summary of one year, line by line: the year that is asked for, or
/// without one the year that is checked out.
pub fn summary(entries: &Vec<Aoc>, arg_year: Option<i32>, conf_year: i32) -> (lines: Vec<String>)
    ensures
        texts(lines@) == summary_lines(
            states(entries@),
            match arg_year {
                Some(y) => y as int,
                None => conf_year as int,
            },
        ),
{
    let year = match arg_year {
        Some(y) => y,
        None => conf_year,
    };
    let ghost all = states(entries@);
    let mut rows: Vec<(u32, String)> = Vec::new();
    let mut i: usize = 0;
    while i < entries.len()
        invariant
            i <= entries.len(),
            all == states(entries@),
            rows_of(rows@) == summary_rows(all.subrange(0, i as int), year as int),
        decreases entries.len() - i,
    {
        let entry = &entries[i];
        proof {
            assert(all.subrange(0, i + 1).drop_last() =~= all.subrange(0, i as int));
            lemma_summary_by_day(all.subrange(0, i as int), year as int);
        }
        match (entry.year, entry.day, &entry.title, entry.stars) {
            (Some(y), Some(d), Some(t), Some(n)) => {
                if y == year {
                    let line = summary_row(y, d, n, t.as_str());
                    let ghost before = rows_of(rows@);
                    let mut k: usize = rows.len();
                    assert(before.subrange(0, k as int) =~= before);
                    while k > 0 && rows[k - 1].0 > d
                        invariant
                            k <= rows.len(),
                            before == rows_of(rows@),
                            place(before, d as int) == place(before.subrange(0, k as int), d as int),
                        decreases k,
                    {
                        assert(before.subrange(0, k as int).drop_last() =~= before.subrange(
                            0,
                            k - 1,
                        ));
                        k -= 1;
                    }
                    rows.insert(k, (d, line));
                }
            },
            _ => {},
        }
        i += 1;
    }
    assert(all.subrange(0, entries.len() as int) =~= all);
    let mut lines: Vec<String> = Vec::new();
    let mut j: usize = 0;
    while j < rows.len()
        invariant
            j <= rows.len(),
            lines.len() == j,
            forall|m: int| 0 <= m < j ==> (#[trigger] lines@[m])@ == rows@[m].1@,
        decreases rows.len() - j,
    {
        lines.push(rows[j].1.clone());
        j += 1;
    }
    lines
}

} // verus!
