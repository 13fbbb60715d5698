//! The full-screen viewer: its keys, and the text as it wants it.
use vstd::prelude::*;
use vstd::string::*;
use crate::text::{lines, replace, replaced, split_lines, text_of, texts};

verus! {

/// A key that was pressed.
#[derive(Clone, Copy, PartialEq, Eq, Structural, Debug)]
pub enum Key {
    Up,
    Down,
    PageUp,
    PageDown,
    Other,
}

/// What the terminal reported to the viewer.
#[derive(Clone, Copy, PartialEq, Eq, Structural, Debug)]
pub enum Event {
    /// A key was pressed.
    Key(Key),
    /// The terminal changed its size.
    Resize,
    /// Anything else, a failure to read included.
    Other,
}

/// What the viewer does next.
#[derive(Clone, Copy, PartialEq, Eq, Structural, Debug)]
pub enum Move {
    /// Scroll by this many lines, up if negative.
    ScrollLines(i32),
    /// Scroll by this many pages, up if negative.
    ScrollPages(i32),
    /// Clear the screen and lay the text out again.
    Resize,
    /// Leave the text as it is.
    Stay,
    /// Close the viewer.
    Quit,
}

/// What the viewer does on `event`: the arrow keys scroll by a line, the page
/// keys by a page, any other key closes the viewer, a new size lays the text
/// out again, and nothing else has an effect.
pub open spec fn move_for(event: Event) -> Move {
    match event {
        Event::Key(Key::Up) => Move::ScrollLines(-1i32),
        Event::Key(Key::Down) => Move::ScrollLines(1i32),
        Event::Key(Key::PageUp) => Move::ScrollPages(-1i32),
        Event::Key(Key::PageDown) => Move::ScrollPages(1i32),
        Event::Key(Key::Other) => Move::Quit,
        Event::Resize => Move::Resize,
        Event::Other => Move::Stay,
    }
}

/// What the viewer does on `event`.
pub fn on_event(event: Event) -> (next: Move)
    ensures
        next == move_for(event),
{
    match event {
        Event::Key(key) => match key {
            Key::Up => Move::ScrollLines(-1),
            Key::Down => Move::ScrollLines(1),
            Key::PageUp => Move::ScrollPages(-1),
            Key::PageDown => Move::ScrollPages(1),
            Key::Other => Move::Quit,
        },
        Event::Resize => Move::Resize,
        Event::Other => Move::Stay,
    }
}

/// The text that the `regex` crate makes of `text` when it puts `replacement`
/// in place of every match of the regular expression `pattern`, a `$name` in
/// the replacement standing for what the group of that name caught. `None`
/// stands for a pattern that the crate does not accept.
pub uninterp spec fn regex_replaced(
    pattern: Seq<char>,
    text: Seq<char>,
    replacement: Seq<char>,
) -> Option<Seq<char>>;

/// Compiles `pattern` with `regex::Regex::new` and rewrites `text` with
/// `Regex::replace_all`. Nothing is proved of the rewriting: the contract only
/// gives its result the name `regex_replaced`, which rests on the crate making
/// the same text of the same arguments every time.
#[verifier::external_body]
fn replace_matches(pattern: &str, text: &str, replacement: &str) -> (out: Option<String>)
    ensures
        text_of(out) == regex_replaced(pattern@, text@, replacement@),
{
    match regex::Regex::new(pattern) {
        Ok(re) => Some(re.replace_all(text, replacement).to_string()),
        Err(_) => None,
    }
}

/// A line in which code in emphasis has become emphasis on code: the
/// asterisks that stood inside the backquotes stand outside them.
pub open spec fn emphasised(line: Seq<char>) -> Seq<char> {
    match regex_replaced("`\\*(?P<content>.+?)\\*`"@, line, "*`$content`*"@) {
        Some(text) => text,
        None => line,
    }
}

/// The given lines, each followed by a line feed and then rewritten by
/// `emphasised`, one after the other.
pub open spec fn emphasised_lines(ls: Seq<Seq<char>>) -> Seq<char>
    decreases ls.len(),
{
    if ls.len() == 0 {
        Seq::empty()
    } else {
        emphasised_lines(ls.drop_last()) + emphasised(ls.last() + seq!['\n'])
    }
}

/// `text` with an escaped asterisk or two after a colon shown as code in
/// bold, and an escaped rule shown as a rule.
pub open spec fn unescaped(text: Seq<char>) -> Seq<char> {
    replaced(
        replaced(replaced(text, ": \\*\\*"@, ": **`**`**"@), ": \\*"@, ": **`*`**"@),
        "\\---"@,
        "---"@,
    )
}

/// A brief as the viewer wants it: emphasis moved out of code line by line,
/// then the escaped marks shown.
pub open spec fn pretty_text(text: Seq<char>) -> Seq<char> {
    unescaped(emphasised_lines(lines(text)))
}

/// The line `line` rewritten by `emphasised`.
fn emphasise(line: &str) -> (out: String)
    ensures
        out@ == emphasised(line@),
{
    match replace_matches("`\\*(?P<content>.+?)\\*`", line, "*`$content`*") {
        Some(text) => text,
        None => String::from_str(line),
    }
}

/// `text` with an escaped asterisk or two after a colon shown as code in
/// bold, and an escaped rule shown as a rule.
pub fn unescape(text: &str) -> (out: String)
    ensures
        out@ == unescaped(text@),
{
    let stars = replace(text, ": \\*\\*", ": **`**`**");
    let star = replace(stars.as_str(), ": \\*", ": **`*`**");
    replace(star.as_str(), "\\---", "---")
}

/// The brief `text` as the viewer wants it.
pub fn prettify(text: &str) -> (out: String)
    ensures
        out@ == pretty_text(text@),
{
    let all = split_lines(text);
    let mut joined = String::new();
    let mut i: usize = 0;
    assert(texts(all@).subrange(0, 0) =~= Seq::<Seq<char>>::empty());
    while i < all.len()
        invariant
            i <= all.len(),
            joined@ == emphasised_lines(texts(all@).subrange(0, i as int)),
        decreases all.len() - i,
    {
        proof {
            reveal_strlit("\n");
            assert("\n"@ =~= seq!['\n']);
            assert(texts(all@).subrange(0, i + 1).drop_last() =~= texts(all@).subrange(
                0,
                i as int,
            ));
        }
        let mut line = all[i].clone();
        line.append("\n");
        let shown = emphasise(line.as_str());
        joined.append(shown.as_str());
        i += 1;
    }
    assert(texts(all@).subrange(0, all.len() as int) =~= texts(all@));
    unescape(joined.as_str())
}

} // verus!
