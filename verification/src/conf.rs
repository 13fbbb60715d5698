//! The settings of a workspace.
use std::collections::hash_map::DefaultHasher;
use std::hash::Hasher;
use vstd::bytes::{spec_u64_to_le_bytes, u64_to_le_bytes};
use vstd::prelude::*;
use vstd::std_specs::hash::DefaultHasherAdditionalSpecFns;
use vstd::string::*;
use vstd::utf8::encode_utf8;
use crate::text::{copy_text, text_of};

verus! {

/// How a solution is handed its input.
#[derive(Clone, Copy, PartialEq, Eq, Structural, Debug, Hash)]
pub enum ExecMode {
    Stdin,
    File,
}

/// The settings of a workspace: the problem that is checked out, the
/// programs to show and edit text with, and the program that runs a solution.
#[derive(Debug, PartialEq, Eq)]
pub struct Conf {
    pub year: i32,
    pub day: u32,
    pub editor: String,
    pub pager: String,
    pub program: Option<String>,
    pub mode: Option<ExecMode>,
}

/// The settings as plain values.
pub struct Settings {
    pub year: int,
    pub day: int,
    pub editor: Seq<char>,
    pub pager: Seq<char>,
    pub program: Option<Seq<char>>,
    pub mode: Option<ExecMode>,
}

impl View for Conf {
    type V = Settings;

    open spec fn view(&self) -> Settings {
        Settings {
            year: self.year as int,
            day: self.day as int,
            editor: self.editor@,
            pager: self.pager@,
            program: text_of(self.program),
            mode: self.mode,
        }
    }
}

impl Settings {
    /// The settings of a new workspace.
    pub open spec fn initial() -> Settings {
        Settings {
            year: 2015,
            day: 1,
            editor: "vim"@,
            pager: "less"@,
            program: None,
            mode: None,
        }
    }

    /// The one byte that tells whether and how `mode` is set.
    pub open spec fn mode_tag(self) -> u8 {
        match self.mode {
            None => 0,
            Some(ExecMode::Stdin) => 1,
            Some(ExecMode::File) => 2,
        }
    }

    /// What is fed to the hasher, piece by piece: year and day as eight bytes
    /// each, the year moved up by 2^31 so that it is not negative; the editor
    /// and the pager in UTF-8; a byte that tells whether `program` is set;
    /// `program` in UTF-8, or nothing; and the byte that stands for `mode`.
    /// Behind each text stands the byte 255, which no text holds, so that the
    /// end of one is not taken for the start of the next.
    pub open spec fn hash_input(self) -> Seq<Seq<u8>> {
        seq![
            spec_u64_to_le_bytes((self.year + 0x8000_0000) as u64),
            spec_u64_to_le_bytes(self.day as u64),
            encode_utf8(self.editor),
            seq![255u8],
            encode_utf8(self.pager),
            seq![255u8],
            seq![if self.program is Some { 1u8 } else { 0u8 }],
            match self.program {
                Some(e) => encode_utf8(e),
                None => Seq::empty(),
            },
            seq![255u8],
            seq![self.mode_tag()],
        ]
    }

    /// The hash of the settings: what the standard hasher makes of
    /// `hash_input`.
    pub open spec fn hash(self) -> u64 {
        DefaultHasher::spec_finish(self.hash_input())
    }
}

impl Default for Conf {
    fn default() -> (conf: Conf)
        ensures
            conf@ == Settings::initial(),
    {
        Conf {
            year: 2015,
            day: 1,
            editor: String::from_str("vim"),
            pager: String::from_str("less"),
            program: None,
            mode: None,
        }
    }
}

impl Clone for Conf {
    fn clone(&self) -> (copy: Conf)
        ensures
            copy@ == self@,
    {
        Conf {
            year: self.year,
            day: self.day,
            editor: self.editor.clone(),
            pager: self.pager.clone(),
            program: copy_text(&self.program),
            mode: self.mode,
        }
    }
}

fn one_byte(b: u8) -> (v: Vec<u8>)
    ensures
        v@ == seq![b],
{
    let mut v: Vec<u8> = Vec::new();
    v.push(b);
    v
}

impl Conf {
    /// A hash of the settings. Settings with the same values have the same
    /// hash, so that a hash that differs from an earlier one shows a change.
    pub fn calc_hash(&self) -> (hash: u64)
        ensures
            hash == self@.hash(),
    {
        let mut s = DefaultHasher::new();
        let year = u64_to_le_bytes((self.year as i64 + 0x8000_0000) as u64);
        s.write(year.as_slice());
        let day = u64_to_le_bytes(self.day as u64);
        s.write(day.as_slice());
        let stop = one_byte(255);
        s.write(self.editor.as_str().as_bytes());
        s.write(stop.as_slice());
        s.write(self.pager.as_str().as_bytes());
        s.write(stop.as_slice());
        match &self.program {
            Some(e) => {
                let tag = one_byte(1);
                s.write(tag.as_slice());
                s.write(e.as_str().as_bytes());
            },
            None => {
                let tag = one_byte(0);
                s.write(tag.as_slice());
                let nothing: Vec<u8> = Vec::new();
                s.write(nothing.as_slice());
            },
        }
        s.write(stop.as_slice());
        let mode = one_byte(
            match self.mode {
                None => 0,
                Some(ExecMode::Stdin) => 1,
                Some(ExecMode::File) => 2,
            },
        );
        s.write(mode.as_slice());
        assert(s@ =~= self@.hash_input());
        s.finish()
    }

    /// Whether the settings differ from those that had the hash `hash`, as
    /// far as the hashes tell: then they are to be written again.
    pub fn changed_since(&self, hash: u64) -> (changed: bool)
        ensures
            changed == (self@.hash() != hash),
    {
        self.calc_hash() != hash
    }
}

/// Settings with the same values have the same hash, and so a hash that
/// differs shows that a value has changed.
pub proof fn lemma_hash_tells_change(a: Settings, b: Settings)
    ensures
        a == b ==> a.hash() == b.hash(),
        a.hash() != b.hash() ==> a != b,
{
}

} // verus!
