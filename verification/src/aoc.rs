//! The cache entry of one day's problem.
use vstd::prelude::*;
use vstd::string::*;
use crate::error::Error;
use crate::http::{
    asks, brief_call, brief_of, input_call, is_correct, read_brief, read_response, response_of,
    submit_call, verify, Call, Page, Request,
};
use crate::level::{Level, LevelMap};
use crate::state::State;
use crate::store::{below, default_cookie_path, default_path, path_for, Record};
use crate::text::{copy_text, text_of, text_of_str, trim};

verus! {

/// A cache entry for a single day: everything known about that day's problem.
#[derive(Debug, PartialEq, Eq)]
pub struct Aoc {
    pub year: Option<i32>,
    pub day: Option<u32>,
    pub level: Level,
    pub title: Option<String>,
    pub stars: Option<u8>,
    pub input: Option<String>,
    pub brief: LevelMap,
    pub solution: LevelMap,
    pub cache_path: Option<String>,
    pub cookie_path: Option<String>,
    pub cookie: String,
}

impl View for Aoc {
    type V = State;

    open spec fn view(&self) -> State {
        State {
            year: match self.year {
                Some(y) => Some(y as int),
                None => None,
            },
            day: match self.day {
                Some(d) => Some(d as int),
                None => None,
            },
            level: self.level,
            title: text_of(self.title),
            stars: match self.stars {
                Some(n) => Some(n as int),
                None => None,
            },
            input: text_of(self.input),
            brief: self.brief@,
            solution: self.solution@,
            cache_path: text_of(self.cache_path),
            cookie_path: text_of(self.cookie_path),
            cookie: self.cookie@,
        }
    }
}

impl Clone for Aoc {
    fn clone(&self) -> (copy: Aoc)
        ensures
            copy@ == self@,
    {
        Aoc {
            year: self.year,
            day: self.day,
            level: self.level,
            title: copy_text(&self.title),
            stars: self.stars,
            input: copy_text(&self.input),
            brief: self.brief.clone(),
            solution: self.solution.clone(),
            cache_path: copy_text(&self.cache_path),
            cookie_path: copy_text(&self.cookie_path),
            cookie: self.cookie.clone(),
        }
    }
}

/// How a text is to be had.
#[derive(Debug, PartialEq, Eq)]
pub enum Lookup {
    /// The text is in the cache: here it is.
    Cached(String),
    /// The text has to be fetched with this request.
    Fetch(Request),
}

impl Clone for Lookup {
    fn clone(&self) -> (copy: Lookup)
        ensures
            match self {
                Lookup::Cached(text) => copy matches Lookup::Cached(t) && t@ == text@,
                Lookup::Fetch(request) => copy matches Lookup::Fetch(r) && r@ == request@,
            },
    {
        match self {
            Lookup::Cached(text) => Lookup::Cached(text.clone()),
            Lookup::Fetch(request) => Lookup::Fetch(request.clone()),
        }
    }
}

/// Whether `lookup` hands out `cached` where there is one, and else asks for
/// `call`, or fails where year or day is missing.
pub open spec fn serves(
    lookup: Result<Lookup, Error>,
    cached: Option<Seq<char>>,
    call: Option<Call>,
) -> bool {
    match cached {
        Some(text) => lookup matches Ok(Lookup::Cached(t)) && t@ == text,
        None => match call {
            Some(c) => lookup matches Ok(Lookup::Fetch(r)) && r@ == c,
            None => lookup == Err::<Lookup, Error>(Error::DayOrYearNotSet),
        },
    }
}

/// The platform's answer to a submission.
#[derive(Debug, PartialEq, Eq)]
pub struct Verdict {
    /// What the platform said.
    pub response: String,
    /// The request for a fresh brief, where the answer was right.
    pub refresh: Option<Request>,
}

impl Clone for Verdict {
    fn clone(&self) -> (copy: Verdict)
        ensures
            copy.response@ == self.response@,
            match self.refresh {
                Some(request) => copy.refresh matches Some(r) && r@ == request@,
                None => copy.refresh is None,
            },
    {
        Verdict {
            response: self.response.clone(),
            refresh: match &self.refresh {
                Some(request) => Some(request.clone()),
                None => None,
            },
        }
    }
}

/// An entry and the file to write it to.
#[derive(Debug, PartialEq, Eq)]
pub struct Save {
    pub path: String,
    pub record: Record,
}

impl Clone for Save {
    fn clone(&self) -> (copy: Save)
        ensures
            copy@ == self@,
    {
        Save { path: self.path.clone(), record: self.record.clone() }
    }
}

impl View for Save {
    type V = (Seq<char>, State);

    open spec fn view(&self) -> (Seq<char>, State) {
        (self.path@, self.record@)
    }
}

/// A text that was fetched and stored, and what is to be written at once so
/// that the fetch is not lost.
#[derive(Debug, PartialEq, Eq)]
pub struct Stored {
    pub text: String,
    pub save: Save,
}

impl Clone for Stored {
    fn clone(&self) -> (copy: Stored)
        ensures
            copy.text@ == self.text@,
            copy.save@ == self.save@,
    {
        Stored { text: self.text.clone(), save: self.save.clone() }
    }
}

/// Whether `stored` hands out `text` and names, for writing, the file `place`
/// and the stored part of the state `after`.
pub open spec fn keeps(
    stored: Result<Stored, Error>,
    text: Seq<char>,
    place: Seq<char>,
    after: State,
) -> bool {
    stored matches Ok(s) && s.text@ == text && s.save@ == (place, after.persisted())
}

/// The title and the brief on a page that may be missing.
pub open spec fn brief_on(page: Option<&Page>) -> Option<(Seq<char>, Seq<char>)> {
    match page {
        Some(p) => brief_of(p.html@, p.markdown@),
        None => None,
    }
}

/// The state that a loaded record, or the failure to load one, stands for.
pub open spec fn found(stored: Result<Record, Error>) -> Result<State, Error> {
    match stored {
        Ok(record) => Ok(record@),
        Err(e) => Err(e),
    }
}

impl Default for Aoc {
    fn default() -> (aoc: Aoc)
        ensures
            aoc@ == State::fresh(),
    {
        Aoc::new()
    }
}

impl Aoc {
    /// An entry of which nothing is known yet: no year, no day, the first
    /// level, nothing cached and no session token.
    pub fn new() -> (aoc: Aoc)
        ensures
            aoc@ == State::fresh(),
    {
        Aoc {
            year: None,
            day: None,
            level: Level::First,
            title: None,
            stars: None,
            input: None,
            brief: LevelMap::new(),
            solution: LevelMap::new(),
            cache_path: None,
            cookie_path: None,
            cookie: String::new(),
        }
    }

    /// Sets the year.
    pub fn year(self, year: Option<i32>) -> (aoc: Aoc)
        ensures
            aoc@ == (State {
                year: match year {
                    Some(y) => Some(y as int),
                    None => None,
                },
                ..self@
            }),
    {
        let mut aoc = self;
        aoc.year = year;
        aoc
    }

    /// Sets the day.
    pub fn day(self, day: Option<u32>) -> (aoc: Aoc)
        ensures
            aoc@ == (State {
                day: match day {
                    Some(d) => Some(d as int),
                    None => None,
                },
                ..self@
            }),
    {
        let mut aoc = self;
        aoc.day = day;
        aoc
    }

    /// Sets the session token.
    pub fn cookie(self, cookie: &str) -> (aoc: Aoc)
        ensures
            aoc@ == (State { cookie: cookie@, ..self@ }),
    {
        let mut aoc = self;
        aoc.cookie = String::from_str(cookie);
        aoc
    }

    /// Sets the file from which the session token is read when none is set.
    pub fn cookie_file(self, path: &str) -> (aoc: Aoc)
        ensures
            aoc@ == (State { cookie_path: Some(path@), ..self@ }),
    {
        let mut aoc = self;
        aoc.cookie_path = Some(String::from_str(path));
        aoc
    }

    /// Sets the file in which the entry is stored, or with `None` goes back
    /// to the default place.
    pub fn cache(self, path: Option<&str>) -> (aoc: Aoc)
        ensures
            aoc@ == (State {
                cache_path: match path {
                    Some(p) => Some(p@),
                    None => None,
                },
                ..self@
            }),
    {
        let mut aoc = self;
        aoc.cache_path = match path {
            Some(p) => Some(String::from_str(p)),
            None => None,
        };
        aoc
    }

    /// Adds one star.
    fn add_star(&mut self)
        requires
            old(self)@.stars_count() < u8::MAX,
        ensures
            final(self)@ == old(self)@.starred(),
    {
        self.stars = match self.stars {
            Some(stars) => Some(stars + 1),
            None => Some(1),
        };
    }

    /// Moves from the first level to the second. On the second level the call
    /// fails and leaves the entry as it was.
    pub fn advance(&mut self) -> (moved: Result<(), Error>)
        ensures
            match old(self).level.successor() {
                Some(next) => moved == Ok::<(), Error>(()) && final(self)@ == (State {
                    level: next,
                    ..old(self)@
                }),
                None => moved == Err::<(), Error>(Error::AlreadyAtFinalLevel) && final(self)@
                    == old(self)@,
            },
    {
        match self.level.advance() {
            Ok(next) => {
                self.level = next;
                Ok(())
            },
            Err(e) => Err(e),
        }
    }

    /// The brief of the active level: from the cache if it is there and
    /// `force` is not set, else the request to fetch the problem's page, whose
    /// answer goes to `store_brief`. Fails if a fetch is needed and the year
    /// or the day is not set.
    pub fn get_brief(&self, force: bool) -> (lookup: Result<Lookup, Error>)
        ensures
            serves(lookup, self@.cached_brief(force), brief_call(self@)),
    {
        if !force {
            if let Some(text) = self.brief.get(self.level) {
                return Ok(Lookup::Cached(text.clone()));
            }
        }
        match crate::http::get_brief(self) {
            Ok(request) => Ok(Lookup::Fetch(request)),
            Err(e) => Err(e),
        }
    }

    /// Sets the title and stores the brief for the active level, both read
    /// from the problem's page, and returns the brief. A page that is no
    /// problem page is refused and changes nothing.
    fn put_brief(&mut self, page: &Page) -> (text: Result<String, Error>)
        ensures
            match brief_of(page.html@, page.markdown@) {
                Some((title, body)) => {
                    &&& final(self)@ == old(self)@.with_brief(title, body)
                    &&& text matches Ok(t) && t@ == body
                },
                None => {
                    &&& final(self)@ == old(self)@
                    &&& text == Err::<String, Error>(Error::MalformedPage)
                },
            },
    {
        match read_brief(page) {
            Some((title, body)) => {
                self.title = Some(title);
                self.brief.insert(self.level, body.clone());
                Ok(body)
            },
            None => Err(Error::MalformedPage),
        }
    }

    /// Takes the problem's page as fetched: sets the title, stores the brief
    /// for the active level and returns it, together with what is to be
    /// written at once to keep it. Nothing changes if the entry has no file to
    /// be written to, as no entry has for which a page could be asked, or if
    /// the page is no problem page.
    pub fn store_brief(&mut self, page: &Page, root: Option<&str>) -> (stored: Result<
        Stored,
        Error,
    >)
        ensures
            match (
                old(self)@.cache_place(text_of_str(root)),
                brief_of(page.html@, page.markdown@),
            ) {
                (Some(place), Some((title, body))) => {
                    &&& final(self)@ == old(self)@.with_brief(title, body)
                    &&& keeps(stored, body, place, final(self)@)
                },
                (Some(_), None) => {
                    &&& final(self)@ == old(self)@
                    &&& stored == Err::<Stored, Error>(Error::MalformedPage)
                },
                (None, _) => {
                    &&& final(self)@ == old(self)@
                    &&& stored == Err::<Stored, Error>(Error::DayOrYearNotSet)
                },
            },
    {
        let path = match self.cache_file(root) {
            Ok(path) => path,
            Err(e) => {
                return Err(e);
            },
        };
        match self.put_brief(page) {
            Ok(text) => Ok(Stored { text, save: Save { path, record: self.record() } }),
            Err(e) => Err(e),
        }
    }

    /// The input: from the cache if it is there and `force` is not set, else
    /// the request to fetch it, whose answer goes to `store_input`. Fails if a
    /// fetch is needed and the year or the day is not set.
    pub fn get_input(&self, force: bool) -> (lookup: Result<Lookup, Error>)
        ensures
            serves(lookup, self@.cached_input(force), input_call(self@)),
    {
        if !force {
            if let Some(text) = &self.input {
                return Ok(Lookup::Cached(text.clone()));
            }
        }
        match crate::http::get_input(self) {
            Ok(request) => Ok(Lookup::Fetch(request)),
            Err(e) => Err(e),
        }
    }

    /// Takes the input as fetched, stores it in place of any earlier one and
    /// returns it, together with what is to be written at once to keep it.
    /// Nothing changes if the entry has no file to be written to, as no entry
    /// has for which the input could be asked.
    pub fn store_input(&mut self, input: &str, root: Option<&str>) -> (stored: Result<
        Stored,
        Error,
    >)
        ensures
            match old(self)@.cache_place(text_of_str(root)) {
                Some(place) => {
                    &&& final(self)@ == old(self)@.with_input(input@)
                    &&& keeps(stored, input@, place, final(self)@)
                },
                None => {
                    &&& final(self)@ == old(self)@
                    &&& stored == Err::<Stored, Error>(Error::DayOrYearNotSet)
                },
            },
    {
        let path = match self.cache_file(root) {
            Ok(path) => path,
            Err(e) => {
                return Err(e);
            },
        };
        self.input = Some(String::from_str(input));
        Ok(Stored { text: String::from_str(input), save: Save { path, record: self.record() } })
    }

    /// The request that submits `solution` for the active level. Nothing is
    /// cached here: every call asks the platform. The page that answers goes
    /// to `judge`. Fails if the year or the day is not set.
    pub fn submit(&self, solution: &str) -> (request: Result<Request, Error>)
        ensures
            asks(request, submit_call(self@, solution@)),
    {
        crate::http::submit(self, solution)
    }

    /// Reads the page that answered a submission: what the platform said and,
    /// where the answer was right, the request for a fresh brief. Both go to
    /// `settle`, the second as the page it fetched, if any.
    pub fn judge(&self, page: &Page) -> (verdict: Verdict)
        ensures
            verdict.response@ == response_of(page.markdown@),
            match verdict.refresh {
                Some(r) => is_correct(response_of(page.markdown@)) && brief_call(self@) == Some(
                    r@,
                ),
                None => !is_correct(response_of(page.markdown@)) || brief_call(self@) is None,
            },
    {
        let response = read_response(page);
        let refresh = if verify(response.as_str()) {
            match crate::http::get_brief(self) {
                Ok(request) => Some(request),
                Err(_) => None,
            }
        } else {
            None
        };
        Verdict { response, refresh }
    }

    /// Closes a submission of `solution` to which the platform said
    /// `response`. If that says the answer was right: the solution is
    /// recorded for the active level, the brief is replaced by the one on
    /// `refreshed` if that is a problem page, a star is added and the level
    /// moves on; on the last level it stays. If not, nothing changes. Either
    /// way the platform's words are returned.
    pub fn settle(&mut self, solution: &str, response: &str, refreshed: Option<&Page>) -> (text:
        String)
        requires
            is_correct(response@) ==> old(self)@.stars_count() < u8::MAX,
        ensures
            final(self)@ == old(self)@.submitted(solution@, response@, brief_on(refreshed)),
            text@ == response@,
            !is_correct(response@) ==> final(self)@ == old(self)@,
            final(self).level.rank() >= old(self).level.rank(),
            final(self).level != old(self).level ==> old(self).level == Level::First && is_correct(
                response@,
            ),
            final(self)@.stars_count() >= old(self)@.stars_count(),
    {
        if verify(response) {
            self.solution.insert(self.level, String::from_str(solution));
            if let Some(page) = refreshed {
                let _ = self.put_brief(page);
            }
            self.add_star();
            let _ = self.advance();
        }
        String::from_str(response)
    }

    /// Closes a submission as `settle` does, on every entry. A right answer
    /// for which the count of stars has no room is refused with
    /// `TooManyStars` and changes nothing. Whatever the entry and the
    /// response, the level never goes back, it moves only from the first
    /// level and only on a right answer, and the stars never get fewer.
    pub fn try_settle(&mut self, solution: &str, response: &str, refreshed: Option<&Page>) -> (text:
        Result<String, Error>)
        ensures
            if is_correct(response@) && old(self)@.stars_count() >= u8::MAX {
                &&& final(self)@ == old(self)@
                &&& text == Err::<String, Error>(Error::TooManyStars)
            } else {
                &&& final(self)@ == old(self)@.submitted(
                    solution@,
                    response@,
                    brief_on(refreshed),
                )
                &&& text matches Ok(t) && t@ == response@
            },
            !is_correct(response@) ==> final(self)@ == old(self)@,
            final(self).level.rank() >= old(self).level.rank(),
            final(self).level != old(self).level ==> old(self).level == Level::First && is_correct(
                response@,
            ) && text is Ok,
            final(self)@.stars_count() >= old(self)@.stars_count(),
    {
        if verify(response) && self.stars == Some(u8::MAX) {
            Err(Error::TooManyStars)
        } else {
            Ok(self.settle(solution, response, refreshed))
        }
    }

    /// Reserved for the time until a problem is released. It takes nothing,
    /// returns nothing and changes nothing.
    pub fn get_time_until_release() {
    }

    /// The part of the entry that is written to disk.
    pub fn record(&self) -> (record: Record)
        ensures
            record@ == self@.persisted(),
    {
        Record {
            year: self.year,
            day: self.day,
            level: self.level,
            title: copy_text(&self.title),
            stars: self.stars,
            input: copy_text(&self.input),
            brief: self.brief.clone(),
            solution: self.solution.clone(),
        }
    }

    /// The entry that a record read from disk stands for.
    pub fn restore(record: Record) -> (aoc: Aoc)
        ensures
            aoc@ == record@,
    {
        Aoc {
            year: record.year,
            day: record.day,
            level: record.level,
            title: record.title,
            stars: record.stars,
            input: record.input,
            brief: record.brief,
            solution: record.solution,
            cache_path: None,
            cookie_path: None,
            cookie: String::new(),
        }
    }

    /// The default place of the file that holds the session token, given the
    /// workspace root if there is one.
    pub fn get_default_cookie_path(&self, root: Option<&str>) -> (path: String)
        ensures
            path@ == default_cookie_path(text_of_str(root)),
    {
        below(root, "./.aocf/cookie")
    }

    /// The default place of the entry, given the workspace root if there is
    /// one. Fails if the year or the day is not set.
    pub fn get_default_cache_path(&self, root: Option<&str>) -> (path: Result<String, Error>)
        ensures
            match (self@.year, self@.day) {
                (Some(y), Some(d)) => path matches Ok(p) && p@ == path_for(
                    y,
                    d,
                    text_of_str(root),
                ),
                _ => path == Err::<String, Error>(Error::DayOrYearNotSet),
            },
    {
        match (self.year, self.day) {
            (Some(y), Some(d)) => Ok(default_path(y, d, root)),
            _ => Err(Error::DayOrYearNotSet),
        }
    }

    /// The file in which the entry is stored: the one that was set, else the
    /// default place. Fails if the default is needed and the year or the day
    /// is not set.
    pub fn cache_file(&self, root: Option<&str>) -> (path: Result<String, Error>)
        ensures
            match self@.cache_place(text_of_str(root)) {
                Some(place) => path matches Ok(p) && p@ == place,
                None => path == Err::<String, Error>(Error::DayOrYearNotSet),
            },
    {
        match &self.cache_path {
            Some(p) => Ok(p.clone()),
            None => self.get_default_cache_path(root),
        }
    }

    /// What is to be written to keep the entry: the record and the file for
    /// it. Fails if the default place is needed and the year or the day is not
    /// set.
    pub fn write(&self, root: Option<&str>) -> (save: Result<Save, Error>)
        ensures
            match self@.cache_place(text_of_str(root)) {
                Some(place) => save matches Ok(s) && s@ == (place, self@.persisted()),
                None => save == Err::<Save, Error>(Error::DayOrYearNotSet),
            },
    {
        match self.cache_file(root) {
            Ok(path) => Ok(Save { path, record: self.record() }),
            Err(e) => Err(e),
        }
    }

    /// The file from which the stored entry is to be read. Fails if the
    /// default place is needed and the year or the day is not set.
    pub fn load(&self, root: Option<&str>) -> (path: Result<String, Error>)
        ensures
            match self@.cache_place(text_of_str(root)) {
                Some(place) => path matches Ok(p) && p@ == place,
                None => path == Err::<String, Error>(Error::DayOrYearNotSet),
            },
    {
        self.cache_file(root)
    }

    /// The file from which the session token is to be read before `init`:
    /// none if a token is set, else the file that was set, else the default
    /// place.
    pub fn cookie_source(&self, root: Option<&str>) -> (path: Option<String>)
        ensures
            text_of(path) == self@.cookie_place(text_of_str(root)),
    {
        if !self.cookie.as_str().is_empty() {
            None
        } else {
            match &self.cookie_path {
                Some(p) => Some(p.clone()),
                None => Some(self.get_default_cookie_path(root)),
            }
        }
    }

    /// Finishes building. `cookie_file` is what the file named by
    /// `cookie_source` holds, if it could be read; `stored` is what was found
    /// in the file named by `load`.
    ///
    /// Without a token, set or read, the call fails. A stored entry replaces
    /// everything but the token. A missing one (`NotFound`) is no failure and
    /// leaves the entry as built, and so does the failure of `load` to name a
    /// file (`DayOrYearNotSet`). Any other failure to load is handed on.
    pub fn init(self, cookie_file: Option<&str>, stored: Result<Record, Error>) -> (aoc: Result<
        Aoc,
        Error,
    >)
        ensures
            match self@.initialised(text_of_str(cookie_file), found(stored)) {
                Ok(state) => aoc matches Ok(a) && a@ == state,
                Err(e) => aoc == Err::<Aoc, Error>(e),
            },
    {
        let token = if !self.cookie.as_str().is_empty() {
            self.cookie.clone()
        } else {
            match cookie_file {
                Some(text) => trim(text),
                None => {
                    return Err(Error::NoCredentialFound);
                },
            }
        };
        match stored {
            Ok(record) => {
                let mut aoc = Aoc::restore(record);
                aoc.cookie = token;
                Ok(aoc)
            },
            Err(Error::NotFound) | Err(Error::DayOrYearNotSet) => {
                let mut aoc = self;
                aoc.cookie = token;
                Ok(aoc)
            },
            Err(e) => Err(e),
        }
    }
}

} // verus!
