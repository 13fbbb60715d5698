//! The two sequential parts of a day's problem.
use vstd::prelude::*;
use crate::error::Error;
use crate::text::{copy_text, text_of};

verus! {

/// One of the two parts of a day's problem. `Second` is the last one.
#[derive(Clone, Copy, PartialEq, Eq, Structural, Debug, Hash, PartialOrd, Ord)]
pub enum Level {
    First,
    Second,
}

impl Level {
    /// The position of the level: 1 for `First`, 2 for `Second`.
    pub open spec fn rank(self) -> int {
        match self {
            Level::First => 1,
            Level::Second => 2,
        }
    }

    /// The level that follows, if there is one.
    pub open spec fn successor(self) -> Option<Level> {
        match self {
            Level::First => Some(Level::Second),
            Level::Second => None,
        }
    }

    /// The lower-case name under which the level is stored and shown.
    pub open spec fn name_text(self) -> Seq<char> {
        match self {
            Level::First => "first"@,
            Level::Second => "second"@,
        }
    }

    /// The digit by which the platform knows the level.
    pub open spec fn digit_text(self) -> Seq<char> {
        match self {
            Level::First => "1"@,
            Level::Second => "2"@,
        }
    }

    /// The lower-case name under which the level is stored and shown.
    pub fn name(&self) -> (text: &'static str)
        ensures
            text@ == self.name_text(),
    {
        match self {
            Level::First => "first",
            Level::Second => "second",
        }
    }

    /// The digit by which the platform knows the level.
    pub fn digit(&self) -> (text: &'static str)
        ensures
            text@ == self.digit_text(),
    {
        match self {
            Level::First => "1",
            Level::Second => "2",
        }
    }

    /// Moves from `First` to `Second`. There is no level after `Second`, so
    /// there the call fails and nothing else is ever returned.
    pub fn advance(self) -> (next: Result<Level, Error>)
        ensures
            next == match self.successor() {
                Some(level) => Ok::<Level, Error>(level),
                None => Err::<Level, Error>(Error::AlreadyAtFinalLevel),
            },
    {
        match self {
            Level::First => Ok(Level::Second),
            Level::Second => Err(Error::AlreadyAtFinalLevel),
        }
    }
}

impl Default for Level {
    fn default() -> (level: Level)
        ensures
            level == Level::First,
    {
        Level::First
    }
}

/// At most one text for each level.
#[derive(Debug, PartialEq, Eq)]
pub struct LevelMap {
    pub first: Option<String>,
    pub second: Option<String>,
}

impl View for LevelMap {
    type V = Map<Level, Seq<char>>;

    open spec fn view(&self) -> Map<Level, Seq<char>> {
        let none = Map::<Level, Seq<char>>::empty();
        let one = match self.first {
            Some(t) => none.insert(Level::First, t@),
            None => none,
        };
        match self.second {
            Some(t) => one.insert(Level::Second, t@),
            None => one,
        }
    }
}

impl LevelMap {
    /// A map without entries.
    pub fn new() -> (map: LevelMap)
        ensures
            map@ == Map::<Level, Seq<char>>::empty(),
    {
        LevelMap { first: None, second: None }
    }

    /// The text stored for `level`, if there is one.
    pub fn get(&self, level: Level) -> (text: Option<&String>)
        ensures
            text is Some <==> self@.contains_key(level),
            text matches Some(t) ==> t@ == self@[level],
    {
        match level {
            Level::First => self.first.as_ref(),
            Level::Second => self.second.as_ref(),
        }
    }

    /// Stores `text` for `level`, in place of what was stored for it before.
    pub fn insert(&mut self, level: Level, text: String)
        ensures
            final(self)@ == old(self)@.insert(level, text@),
    {
        match level {
            Level::First => {
                self.first = Some(text);
            },
            Level::Second => {
                self.second = Some(text);
            },
        }
    }

    /// Whether no level has a text.
    pub fn is_empty(&self) -> (empty: bool)
        ensures
            empty <==> self@ == Map::<Level, Seq<char>>::empty(),
    {
        proof {
            if self.first is Some {
                assert(self@.contains_key(Level::First));
            }
            if self.second is Some {
                assert(self@.contains_key(Level::Second));
            }
        }
        self.first.is_none() && self.second.is_none()
    }

    /// The entries in the order of their levels, `First` before `Second`.
    pub fn ordered(&self) -> (entries: Vec<(Level, String)>)
        ensures
            forall|i: int, j: int|
                0 <= i < j < entries.len() ==> (#[trigger] entries[i]).0.rank() < (
                #[trigger] entries[j]).0.rank(),
            forall|i: int|
                0 <= i < entries.len() ==> self@.contains_key((#[trigger] entries[i]).0)
                    && self@[entries[i].0] == entries[i].1@,
            forall|level: Level|
                self@.contains_key(level) ==> exists|i: int|
                    0 <= i < entries.len() && (#[trigger] entries[i]).0 == level,
    {
        let mut entries: Vec<(Level, String)> = Vec::new();
        if let Some(t) = &self.first {
            entries.push((Level::First, t.clone()));
        }
        if let Some(t) = &self.second {
            entries.push((Level::Second, t.clone()));
        }
        proof {
            if self.first is Some {
                assert(entries[0].0 == Level::First);
            }
            if self.second is Some {
                assert(entries[entries.len() - 1].0 == Level::Second);
            }
        }
        entries
    }
}

impl Clone for LevelMap {
    fn clone(&self) -> (copy: LevelMap)
        ensures
            copy@ == self@,
    {
        LevelMap { first: copy_text(&self.first), second: copy_text(&self.second) }
    }
}

} // verus!
