//! What is asked of the platform, and how its pages are read.
//!
//! Nothing here talks to the network. A function that in the end needs a page
//! returns the `Request` to perform; a function that reads a page takes the
//! page as a `Page`: its HTML, and the Markdown that the caller has made of
//! its main part.
use vstd::prelude::*;
use vstd::string::*;
use crate::aoc::Aoc;
use crate::error::Error;
use crate::state::State;
use crate::text::{
    body_of, concat_lines, contains, decimal, has_substring, lines, push_decimal, split_lines,
    text_of, trim, trimmed,
};

verus! {

/// One exchange with the platform, to be performed by the caller.
#[derive(Debug, PartialEq, Eq)]
pub enum Request {
    /// Fetch `url`, sending `cookie` as the cookie header.
    Get { url: String, cookie: String },
    /// Post a form with the fields `level` and `answer` to `url`, sending
    /// `cookie` as the cookie header.
    Post { url: String, cookie: String, level: String, answer: String },
}

/// A `Request` as plain values.
pub enum Call {
    Get { url: Seq<char>, cookie: Seq<char> },
    Post { url: Seq<char>, cookie: Seq<char>, level: Seq<char>, answer: Seq<char> },
}

impl View for Request {
    type V = Call;

    open spec fn view(&self) -> Call {
        match self {
            Request::Get { url, cookie } => Call::Get { url: url@, cookie: cookie@ },
            Request::Post { url, cookie, level, answer } => Call::Post {
                url: url@,
                cookie: cookie@,
                level: level@,
                answer: answer@,
            },
        }
    }
}

impl Clone for Request {
    fn clone(&self) -> (copy: Request)
        ensures
            copy@ == self@,
    {
        match self {
            Request::Get { url, cookie } => Request::Get {
                url: url.clone(),
                cookie: cookie.clone(),
            },
            Request::Post { url, cookie, level, answer } => Request::Post {
                url: url.clone(),
                cookie: cookie.clone(),
                level: level.clone(),
                answer: answer.clone(),
            },
        }
    }
}

/// The address of the problem's page, once year and day are set.
pub open spec fn url_of(s: State) -> Option<Seq<char>> {
    match (s.day, s.year) {
        (Some(d), Some(y)) => Some(
            "https://adventofcode.com"@ + "/"@ + decimal(y) + "/day/"@ + decimal(d),
        ),
        _ => None,
    }
}

/// The cookie header that carries the session token.
pub open spec fn session_of(s: State) -> Seq<char> {
    "session="@ + s.cookie
}

/// The request for what stands at the problem's address followed by `suffix`.
pub open spec fn content_call(s: State, suffix: Seq<char>) -> Option<Call> {
    match url_of(s) {
        Some(url) => Some(Call::Get { url: url + suffix, cookie: session_of(s) }),
        None => None,
    }
}

/// The request for the problem's page.
pub open spec fn brief_call(s: State) -> Option<Call> {
    content_call(s, Seq::empty())
}

/// The request for the problem's input.
pub open spec fn input_call(s: State) -> Option<Call> {
    content_call(s, "/input"@)
}

/// The request that posts `answer` for the active level.
pub open spec fn submit_call(s: State, answer: Seq<char>) -> Option<Call> {
    match url_of(s) {
        Some(url) => Some(
            Call::Post {
                url: url + "/answer"@,
                cookie: session_of(s),
                level: s.level.digit_text(),
                answer: answer,
            },
        ),
        None => None,
    }
}

/// Whether `request` is the exchange `wanted`, or the failure that stands for
/// a missing year or day where none is wanted.
pub open spec fn asks(request: Result<Request, Error>, wanted: Option<Call>) -> bool {
    match wanted {
        Some(call) => request matches Ok(r) && r@ == call,
        None => request == Err::<Request, Error>(Error::DayOrYearNotSet),
    }
}

/// The address of the problem's page. Fails if the year or the day is not
/// set.
pub fn get_url(aoc: &Aoc) -> (url: Result<String, Error>)
    ensures
        match url_of(aoc@) {
            Some(u) => url matches Ok(text) && text@ == u,
            None => url == Err::<String, Error>(Error::DayOrYearNotSet),
        },
{
    match (aoc.day, aoc.year) {
        (Some(d), Some(y)) => {
            let mut url = String::from_str("https://adventofcode.com");
            url.append("/");
            push_decimal(&mut url, y as i64);
            url.append("/day/");
            push_decimal(&mut url, d as i64);
            Ok(url)
        },
        _ => Err(Error::DayOrYearNotSet),
    }
}

/// The cookie header that carries the session token of `aoc`.
pub fn session(aoc: &Aoc) -> (cookie: String)
    ensures
        cookie@ == session_of(aoc@),
{
    let mut cookie = String::from_str("session=");
    cookie.append(aoc.cookie.as_str());
    cookie
}

/// The request for what stands at the problem's address followed by
/// `suffix`. Fails if the year or the day is not set.
pub fn get_content(aoc: &Aoc, suffix: &str) -> (request: Result<Request, Error>)
    ensures
        asks(request, content_call(aoc@, suffix@)),
{
    match get_url(aoc) {
        Ok(base) => {
            let mut url = base;
            url.append(suffix);
            Ok(Request::Get { url, cookie: session(aoc) })
        },
        Err(e) => Err(e),
    }
}

/// The request for the problem's page, from which `read_brief` takes title
/// and brief. Fails if the year or the day is not set.
pub fn get_brief(aoc: &Aoc) -> (request: Result<Request, Error>)
    ensures
        asks(request, brief_call(aoc@)),
{
    proof {
        reveal_strlit("");
    }
    get_content(aoc, "")
}

/// The request for the problem's input, whose answer is the input as it
/// stands. Fails if the year or the day is not set.
pub fn get_input(aoc: &Aoc) -> (request: Result<Request, Error>)
    ensures
        asks(request, input_call(aoc@)),
{
    get_content(aoc, "/input")
}

/// The request that posts `solution` as the answer for the active level, from
/// whose answer `read_response` takes the platform's verdict. Fails if the
/// year or the day is not set.
pub fn submit(aoc: &Aoc, solution: &str) -> (request: Result<Request, Error>)
    ensures
        asks(request, submit_call(aoc@, solution@)),
{
    match get_url(aoc) {
        Ok(base) => {
            let mut url = base;
            url.append("/answer");
            Ok(
                Request::Post {
                    url,
                    cookie: session(aoc),
                    level: String::from_str(aoc.level.digit()),
                    answer: String::from_str(solution),
                },
            )
        },
        Err(e) => Err(e),
    }
}

/// What the first group of the regular expression `pattern` captures in the
/// leftmost match in `text`, as the `regex` crate finds it. The outer `None`
/// stands for a pattern that the crate does not accept; the inner one for a
/// text without a match, or a match in which the group took no part.
pub uninterp spec fn regex_group(pattern: Seq<char>, text: Seq<char>) -> Option<Option<Seq<char>>>;

/// Compiles `pattern` with `regex::Regex::new`, searches `text` with
/// `Regex::captures` and copies what group 1 holds. Nothing is proved of the
/// search itself: the contract only gives its result the name `regex_group`,
/// which rests on the crate finding the same match for the same pattern and
/// text every time.
#[verifier::external_body]
fn capture(pattern: &str, text: &str) -> (found: Option<Option<String>>)
    ensures
        match regex_group(pattern@, text@) {
            Some(group) => found matches Some(g) && text_of(g) == group,
            None => found is None,
        },
{
    match regex::Regex::new(pattern) {
        Ok(re) => Some(re.captures(text).and_then(|c| c.get(1)).map(|m| m.as_str().to_string())),
        Err(_) => None,
    }
}

/// The regular expression that matches an element named `section` and
/// captures what stands between its tags, as little as possible.
pub open spec fn section_pattern(section: Seq<char>) -> Seq<char> {
    "<"@ + section + ">((.|\n)*?)</"@ + section + ">"@
}

/// The text or, where there is none, the empty text.
pub open spec fn or_empty(text: Option<Seq<char>>) -> Seq<char> {
    match text {
        Some(t) => t,
        None => Seq::empty(),
    }
}

/// What stands in the first element `section` of `contents`.
pub open spec fn section_of(contents: Seq<char>, section: Seq<char>) -> Option<Seq<char>> {
    match regex_group(section_pattern(section), contents) {
        Some(group) => group,
        None => None,
    }
}

/// The problem's title on the page `brief`.
pub open spec fn title_of(brief: Seq<char>) -> Option<Seq<char>> {
    match regex_group("<h2>--- Day .*?: (.*?) ---</h2>"@, brief) {
        Some(group) => group,
        None => None,
    }
}

/// A page of the platform: its HTML as fetched, and the Markdown that was
/// made of its main part, which `get_main` cuts out.
#[derive(Debug, PartialEq, Eq)]
pub struct Page {
    pub html: String,
    pub markdown: String,
}

impl Clone for Page {
    fn clone(&self) -> (copy: Page)
        ensures
            copy.html@ == self.html@,
            copy.markdown@ == self.markdown@,
    {
        Page { html: self.html.clone(), markdown: self.markdown.clone() }
    }
}

/// The main part of the page `html`, or nothing where it has none.
pub open spec fn main_of(html: Seq<char>) -> Seq<char> {
    or_empty(section_of(html, "main"@))
}

/// The title and the brief on a problem page: the title that its HTML names,
/// or an empty one, and the body of its Markdown. A page whose Markdown has
/// under four lines is no problem page.
pub open spec fn brief_of(html: Seq<char>, markdown: Seq<char>) -> Option<(Seq<char>, Seq<char>)> {
    if lines(markdown).len() >= 4 {
        Some((or_empty(title_of(html)), body_of(markdown)))
    } else {
        None
    }
}

/// The platform's verdict on a page that answers a submission: the page's
/// Markdown without white space around it.
pub open spec fn response_of(markdown: Seq<char>) -> Seq<char> {
    trimmed(markdown)
}

/// Whether the verdict `text` says that the answer was right.
pub open spec fn is_correct(text: Seq<char>) -> bool {
    has_substring(text, "That's the right answer!"@)
}

/// What stands between the tags of the first element `section` of
/// `contents`; `None` if there is no such element, or if `section` makes no
/// valid pattern.
pub fn get_html_section(contents: &str, section: &str) -> (html: Option<String>)
    ensures
        text_of(html) == section_of(contents@, section@),
{
    let mut pattern = String::from_str("<");
    pattern.append(section);
    pattern.append(">((.|\n)*?)</");
    pattern.append(section);
    pattern.append(">");
    match capture(pattern.as_str(), contents) {
        Some(group) => group,
        None => None,
    }
}

/// The problem's title on the page `brief`, if it has one.
pub fn get_title(brief: &str) -> (title: Option<String>)
    ensures
        text_of(title) == title_of(brief@),
{
    match capture("<h2>--- Day .*?: (.*?) ---</h2>", brief) {
        Some(group) => group,
        None => None,
    }
}

/// The main part of the page `html` as it stands, or nothing where the page
/// has none: the HTML of which a `Page` holds the Markdown.
pub fn get_main(html: &str) -> (main: String)
    ensures
        main@ == main_of(html@),
{
    match get_html_section(html, "main") {
        Some(main) => main,
        None => String::new(),
    }
}

/// The body of a brief: the Markdown without its first two and its last two
/// lines, and without white space around what is left. Markdown of under
/// four lines has no body.
pub fn brief_body(markdown: &str) -> (body: Option<String>)
    ensures
        text_of(body) == if lines(markdown@).len() >= 4 {
            Some(body_of(markdown@))
        } else {
            None
        },
{
    let all = split_lines(markdown);
    if all.len() >= 4 {
        let middle = concat_lines(&all, 2, all.len() - 2);
        Some(trim(middle.as_str()))
    } else {
        None
    }
}

/// The title and the brief on the problem page `page`; `None` if the page is
/// no problem page.
pub fn read_brief(page: &Page) -> (brief: Option<(String, String)>)
    ensures
        match brief_of(page.html@, page.markdown@) {
            Some((title, body)) => brief matches Some(b) && b.0@ == title && b.1@ == body,
            None => brief is None,
        },
{
    match brief_body(page.markdown.as_str()) {
        Some(body) => {
            let title = match get_title(page.html.as_str()) {
                Some(t) => t,
                None => String::new(),
            };
            Some((title, body))
        },
        None => None,
    }
}

/// The platform's verdict on the page `page` that answers a submission.
pub fn read_response(page: &Page) -> (response: String)
    ensures
        response@ == response_of(page.markdown@),
{
    trim(page.markdown.as_str())
}

/// Whether the verdict `text` says that the answer was right.
pub fn verify(text: &str) -> (right: bool)
    ensures
        right == is_correct(text@),
{
    contains(text, "That's the right answer!")
}

} // verus!
