//! The mathematical model of one day's problem and of the ways it changes.
use vstd::prelude::*;
use crate::error::Error;
use crate::http::is_correct;
use crate::level::Level;
use crate::store::{default_cookie_path, path_for};
use crate::text::trimmed;

verus! {

/// One day's problem as plain values: what `Aoc` stands for in contracts.
pub struct State {
    pub year: Option<int>,
    pub day: Option<int>,
    pub level: Level,
    pub title: Option<Seq<char>>,
    pub stars: Option<int>,
    pub input: Option<Seq<char>>,
    pub brief: Map<Level, Seq<char>>,
    pub solution: Map<Level, Seq<char>>,
    pub cache_path: Option<Seq<char>>,
    pub cookie_path: Option<Seq<char>>,
    pub cookie: Seq<char>,
}

impl State {
    /// The state of a problem of which nothing is known yet.
    pub open spec fn fresh() -> State {
        State {
            year: None,
            day: None,
            level: Level::First,
            title: None,
            stars: None,
            input: None,
            brief: Map::empty(),
            solution: Map::empty(),
            cache_path: None,
            cookie_path: None,
            cookie: Seq::empty(),
        }
    }

    /// The number of stars earned; none earned counts as zero.
    pub open spec fn stars_count(self) -> int {
        match self.stars {
            Some(n) => n,
            None => 0,
        }
    }

    /// The brief that a lookup returns without fetching: the one stored for
    /// the active level, unless a fresh copy is forced.
    pub open spec fn cached_brief(self, force: bool) -> Option<Seq<char>> {
        if !force && self.brief.contains_key(self.level) {
            Some(self.brief[self.level])
        } else {
            None
        }
    }

    /// The input that a lookup returns without fetching.
    pub open spec fn cached_input(self, force: bool) -> Option<Seq<char>> {
        if force {
            None
        } else {
            self.input
        }
    }

    /// The state after a brief was fetched: the title is replaced and the
    /// text is stored for the active level.
    pub open spec fn with_brief(self, title: Seq<char>, text: Seq<char>) -> State {
        State { title: Some(title), brief: self.brief.insert(self.level, text), ..self }
    }

    /// The state after the input was fetched.
    pub open spec fn with_input(self, text: Seq<char>) -> State {
        State { input: Some(text), ..self }
    }

    /// What asking for the brief comes to when a fetch would bring `title` and
    /// `text`: the brief that is handed out, the number of fetches made, and
    /// the state afterwards. The brief comes from the cache without a fetch,
    /// or from one fetch, which is stored.
    pub open spec fn served_brief(self, force: bool, title: Seq<char>, text: Seq<char>) -> (
        Seq<char>,
        nat,
        State,
    ) {
        match self.cached_brief(force) {
            Some(cached) => (cached, 0, self),
            None => (text, 1, self.with_brief(title, text)),
        }
    }

    /// What asking for the input comes to when a fetch would bring `text`:
    /// the input that is handed out, the number of fetches made, and the state
    /// afterwards.
    pub open spec fn served_input(self, force: bool, text: Seq<char>) -> (Seq<char>, nat, State) {
        match self.cached_input(force) {
            Some(cached) => (cached, 0, self),
            None => (text, 1, self.with_input(text)),
        }
    }

    /// The state after `answer` was accepted for the active level.
    pub open spec fn with_solution(self, answer: Seq<char>) -> State {
        State { solution: self.solution.insert(self.level, answer), ..self }
    }

    /// The state with one star more.
    pub open spec fn starred(self) -> State {
        State { stars: Some(self.stars_count() + 1), ..self }
    }

    /// The state on the next level, or the same state on the last level.
    pub open spec fn advanced(self) -> State {
        match self.level.successor() {
            Some(next) => State { level: next, ..self },
            None => self,
        }
    }

    /// The state after a submission was judged correct: the answer is
    /// recorded, the brief is replaced if a fresh one could be had, a star is
    /// added, and the level moves on if it can. The fresh brief belongs to the
    /// level that was active when the answer was given.
    pub open spec fn settled(
        self,
        answer: Seq<char>,
        refreshed: Option<(Seq<char>, Seq<char>)>,
    ) -> State {
        let solved = self.with_solution(answer);
        let briefed = match refreshed {
            Some((title, text)) => solved.with_brief(title, text),
            None => solved,
        };
        briefed.starred().advanced()
    }

    /// The state after a submission to which the platform answered
    /// `response`: settled if the answer was right, else as before.
    pub open spec fn submitted(
        self,
        answer: Seq<char>,
        response: Seq<char>,
        refreshed: Option<(Seq<char>, Seq<char>)>,
    ) -> State {
        if is_correct(response) {
            self.settled(answer, refreshed)
        } else {
            self
        }
    }

    /// The state as it comes back from disk: the session token and the two
    /// paths are not stored.
    pub open spec fn persisted(self) -> State {
        State { cache_path: None, cookie_path: None, cookie: Seq::empty(), ..self }
    }

    /// The file in which the entry is stored: the one that was set, else the
    /// default place, which needs year and day.
    pub open spec fn cache_place(self, root: Option<Seq<char>>) -> Option<Seq<char>> {
        match self.cache_path {
            Some(path) => Some(path),
            None => match (self.year, self.day) {
                (Some(y), Some(d)) => Some(path_for(y, d, root)),
                _ => None,
            },
        }
    }

    /// The file from which the session token is to be read: none if a token
    /// is set, else the file that was set, else the default place.
    pub open spec fn cookie_place(self, root: Option<Seq<char>>) -> Option<Seq<char>> {
        if self.cookie.len() > 0 {
            None
        } else {
            match self.cookie_path {
                Some(path) => Some(path),
                None => Some(default_cookie_path(root)),
            }
        }
    }

    /// The session token after initialisation: the one that was set, else
    /// what the token file holds, without white space around it.
    pub open spec fn token(self, cookie_file: Option<Seq<char>>) -> Option<Seq<char>> {
        if self.cookie.len() > 0 {
            Some(self.cookie)
        } else {
            match cookie_file {
                Some(text) => Some(trimmed(text)),
                None => None,
            }
        }
    }

    /// The state after initialisation. `cookie_file` is what the token file
    /// holds, if it could be read; `stored` is what was found on disk for this
    /// problem. A stored entry replaces everything but the token; a missing
    /// one is no failure, nor is it one to have no place to look in; any other
    /// failure to load is handed on.
    pub open spec fn initialised(
        self,
        cookie_file: Option<Seq<char>>,
        stored: Result<State, Error>,
    ) -> Result<State, Error> {
        match self.token(cookie_file) {
            None => Err(Error::NoCredentialFound),
            Some(token) => match stored {
                Ok(found) => Ok(State { cookie: token, ..found.persisted() }),
                Err(Error::NotFound) | Err(Error::DayOrYearNotSet) => Ok(
                    State { cookie: token, ..self },
                ),
                Err(e) => Err(e),
            },
        }
    }
}

/// One change that the library makes to an entry.
pub enum Op {
    /// A brief was fetched and stored.
    Brief { title: Seq<char>, text: Seq<char> },
    /// The input was fetched and stored.
    Input { text: Seq<char> },
    /// A submission was closed.
    Submit { answer: Seq<char>, response: Seq<char>, refreshed: Option<(Seq<char>, Seq<char>)> },
    /// The caller asked for the next level.
    Advance,
}

impl State {
    /// The state after the change `op`.
    pub open spec fn apply(self, op: Op) -> State {
        match op {
            Op::Brief { title, text } => self.with_brief(title, text),
            Op::Input { text } => self.with_input(text),
            Op::Submit { answer, response, refreshed } => self.submitted(
                answer,
                response,
                refreshed,
            ),
            Op::Advance => self.advanced(),
        }
    }

    /// The state after the changes `ops`, made one after the other.
    pub open spec fn run(self, ops: Seq<Op>) -> State
        decreases ops.len(),
    {
        if ops.len() == 0 {
            self
        } else {
            self.run(ops.drop_last()).apply(ops.last())
        }
    }
}

/// Whatever changes are made and in whatever order, the number of stars never
/// goes down and the level never goes back.
pub proof fn lemma_never_back(s: State, ops: Seq<Op>)
    ensures
        s.run(ops).stars_count() >= s.stars_count(),
        s.run(ops).level.rank() >= s.level.rank(),
    decreases ops.len(),
{
    if ops.len() > 0 {
        lemma_never_back(s, ops.drop_last());
    }
}

/// A change adds a brief or a solution for no level but the active one, and
/// nothing but a submission adds a solution.
pub proof fn lemma_texts_of_active_level(s: State, op: Op, level: Level)
    requires
        level != s.level,
    ensures
        s.apply(op).brief.contains_key(level) == s.brief.contains_key(level),
        s.apply(op).solution.contains_key(level) == s.solution.contains_key(level),
        !(op is Submit) ==> s.apply(op).solution == s.solution,
{
}

/// A submission that the platform does not call right changes nothing; one
/// that it calls right adds exactly one star and records the answer under the
/// level that was active.
pub proof fn lemma_star_by_right_answer(
    s: State,
    answer: Seq<char>,
    response: Seq<char>,
    refreshed: Option<(Seq<char>, Seq<char>)>,
)
    ensures
        !is_correct(response) ==> s.submitted(answer, response, refreshed) == s,
        is_correct(response) ==> s.submitted(answer, response, refreshed).stars_count()
            == s.stars_count() + 1,
        is_correct(response) ==> s.submitted(answer, response, refreshed).solution
            == s.solution.insert(s.level, answer),
        is_correct(response) ==> s.submitted(answer, response, refreshed).level.rank() == 2,
{
}

/// Asking for the brief twice without force hands out the same text both
/// times and fetches once at most: once if the brief was not in the cache,
/// never if it was, whatever a second fetch would have brought. Asking twice
/// with force fetches twice.
pub proof fn lemma_brief_fetched_once(
    s: State,
    title: Seq<char>,
    text: Seq<char>,
    later_title: Seq<char>,
    later_text: Seq<char>,
)
    ensures
        ({
            let first = s.served_brief(false, title, text);
            let second = first.2.served_brief(false, later_title, later_text);
            &&& second.0 == first.0
            &&& second.2 == first.2
            &&& first.1 + second.1 == if s.brief.contains_key(s.level) {
                0nat
            } else {
                1nat
            }
        }),
        ({
            let first = s.served_brief(true, title, text);
            let second = first.2.served_brief(true, later_title, later_text);
            &&& first.0 == text
            &&& second.0 == later_text
            &&& first.1 + second.1 == 2
        }),
{
}

/// Asking for the input twice without force hands out the same text both
/// times and fetches once at most: once if the input was not in the cache,
/// never if it was. Asking twice with force fetches twice.
pub proof fn lemma_input_fetched_once(s: State, text: Seq<char>, later_text: Seq<char>)
    ensures
        ({
            let first = s.served_input(false, text);
            let second = first.2.served_input(false, later_text);
            &&& second.0 == first.0
            &&& second.2 == first.2
            &&& first.1 + second.1 == if s.input is Some {
                0nat
            } else {
                1nat
            }
        }),
        ({
            let first = s.served_input(true, text);
            let second = first.2.served_input(true, later_text);
            &&& first.0 == text
            &&& second.0 == later_text
            &&& first.1 + second.1 == 2
        }),
{
}

} // verus!
