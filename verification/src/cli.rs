//! What the command line decides: which problem a command is about.
//!
//! Nothing here reads the clock. A function that may need today's date takes
//! it as a `Today`, which the caller reads; it is looked at only where the
//! options ask for today's problem.
use vstd::prelude::*;
use vstd::string::*;
use crate::conf::{Conf, Settings};
use crate::error::Error;
use crate::text::{decimal, push_decimal};

verus! {

/// A day of a month in a year.
#[derive(Clone, Copy, PartialEq, Eq, Structural, Debug)]
pub struct Today {
    pub day: u32,
    pub year: i32,
}

/// The ways to name a problem on the command line.
#[derive(Clone, Copy, PartialEq, Eq, Structural, Debug)]
pub struct AocfTimeDateOpts {
    /// Take today's day and year.
    pub now: bool,
    /// The day, given as an option.
    pub day: Option<u32>,
    /// The year, given as an option.
    pub year: Option<i32>,
    /// The day, given by position.
    pub problem_day: Option<u32>,
    /// The year, given by position.
    pub problem_year: Option<i32>,
}

impl AocfTimeDateOpts {
    /// The day and the year that the options name when today is `today`:
    /// today's with `now`; else the day given as an option, with the year
    /// given as an option; else the day given by position, with the year given
    /// by position; else none.
    pub open spec fn named(self, today: Today) -> (Option<u32>, Option<i32>) {
        if self.now {
            (Some(today.day), Some(today.year))
        } else if self.day is Some {
            (self.day, self.year)
        } else if self.problem_day is Some {
            (self.problem_day, self.problem_year)
        } else {
            (None, None)
        }
    }

    /// The day and the year that the options name when today is `today`.
    /// Without `now` the result does not depend on `today`.
    pub fn get_day_year(&self, today: Today) -> (named: (Option<u32>, Option<i32>))
        ensures
            named == self.named(today),
    {
        if self.now {
            (Some(today.day), Some(today.year))
        } else if let Some(d) = self.day {
            (Some(d), self.year)
        } else if let Some(d) = self.problem_day {
            (Some(d), self.problem_year)
        } else {
            (None, None)
        }
    }
}

/// The settings after a switch to `day`, and to `year` if one is given.
pub open spec fn switched(s: Settings, day: u32, year: Option<i32>) -> Settings {
    Settings {
        day: day as int,
        year: match year {
            Some(y) => y as int,
            None => s.year,
        },
        ..s
    }
}

/// What is said after a switch to the problem in `s`.
pub open spec fn switch_notice(s: Settings) -> Seq<char> {
    "switched to year "@ + decimal(s.year) + ", day "@ + decimal(s.day)
}

/// Whether `after` and `notice` are what a switch of `before` to `day` and
/// `year` gives. Without a day nothing is switched and the switch fails. With
/// one, the notice for the user is given if and only if the settings no longer
/// have the hash `conf_hash`.
pub open spec fn switch_done(
    before: Settings,
    after: Settings,
    notice: Result<Option<String>, Error>,
    conf_hash: u64,
    day: Option<u32>,
    year: Option<i32>,
) -> bool {
    match day {
        Some(d) => {
            &&& after == switched(before, d, year)
            &&& match notice {
                Ok(Some(text)) => after.hash() != conf_hash && text@ == switch_notice(after),
                Ok(None) => after.hash() == conf_hash,
                Err(_) => false,
            }
        },
        None => {
            &&& after == before
            &&& notice == Err::<Option<String>, Error>(Error::NoDayProvided)
        },
    }
}

/// Switches `conf` to `day`, and to `year` if one is given. Without a day
/// nothing is switched and the call fails. The notice for the user is returned
/// if the settings no longer have the hash `conf_hash`, which they had when
/// they were loaded.
pub fn switch(conf: &mut Conf, conf_hash: u64, day: Option<u32>, year: Option<i32>) -> (notice:
    Result<Option<String>, Error>)
    ensures
        switch_done(old(conf)@, final(conf)@, notice, conf_hash, day, year),
{
    match day {
        Some(d) => {
            conf.day = d;
        },
        None => {
            return Err(Error::NoDayProvided);
        },
    }
    if let Some(y) = year {
        conf.year = y;
    }
    if conf.changed_since(conf_hash) {
        let mut text = String::from_str("switched to year ");
        push_decimal(&mut text, conf.year as i64);
        text.append(", day ");
        push_decimal(&mut text, conf.day as i64);
        Ok(Some(text))
    } else {
        Ok(None)
    }
}

/// Switches `conf` to the problem that `args` name when today is `today`, as
/// `switch` does to the day and the year so named. Without a day named the
/// call fails with `NoDayProvided` and switches nothing.
pub fn checkout(conf: &mut Conf, conf_hash: u64, args: &AocfTimeDateOpts, today: Today) -> (notice:
    Result<Option<String>, Error>)
    ensures
        switch_done(
            old(conf)@,
            final(conf)@,
            notice,
            conf_hash,
            args.named(today).0,
            args.named(today).1,
        ),
{
    let (day, year) = args.get_day_year(today);
    switch(conf, conf_hash, day, year)
}

/// The problem that a command works on in place of the one that is checked
/// out: today's with `now`, else the given day of the year that is checked
/// out, else none, which leaves the command with the problem that is checked
/// out.
pub open spec fn other_problem(year: Option<i32>, now: bool, day: Option<u32>, today: Today)
    -> Option<(Option<i32>, Option<u32>)> {
    if now {
        Some((Some(today.year), Some(today.day)))
    } else if day is Some {
        Some((year, day))
    } else {
        None
    }
}

/// The problem that a command works on in place of the one that is checked
/// out, whose year is `year`, when today is `today`. Without `now` the result
/// does not depend on `today`.
pub fn retarget(year: Option<i32>, now: bool, day: Option<u32>, today: Today) -> (problem: Option<
    (Option<i32>, Option<u32>),
>)
    ensures
        problem == other_problem(year, now, day, today),
{
    if now {
        Some((Some(today.year), Some(today.day)))
    } else if let Some(d) = day {
        Some((year, Some(d)))
    } else {
        None
    }
}

} // verus!
