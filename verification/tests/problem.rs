use aocf::aoc::{Aoc, Lookup, Save, Stored, Verdict};
use aocf::error::Error;
use aocf::http::{get_main, Page, Request};
use aocf::level::{Level, LevelMap};
use aocf::store::Record;

const BRIEF_PAGE: &str = "<html><body><main>\n<article class=\"day-desc\"><h2>--- Day 1: The Tyranny of the Rocket Equation ---</h2><p>Santa has become stranded.</p><p>Fuel is needed.</p><p>What is the sum?</p></article>\n<p>To begin, get your puzzle input.</p>\n<p>You can also share this puzzle.</p>\n</main></body></html>";

const BRIEF_TEXT: &str =
    "Santa has become stranded.\n\nFuel is needed.\n\nWhat is the sum?\n\nTo begin, get your puzzle input.";

const SECOND_PAGE: &str = "<html><body><main>\n<article class=\"day-desc\"><h2>--- Day 1: The Tyranny of the Rocket Equation ---</h2><p>Santa has become stranded.</p></article>\n<p>Your puzzle answer was <code>42</code>.</p>\n<article><h2 id=\"part2\">--- Part Two ---</h2><p>Fuel itself requires fuel.</p></article>\n<p>Answer:</p>\n<p>You can also share this puzzle.</p>\n</main></body></html>";

const RIGHT_PAGE: &str = "<html><body><main>\n<article><p>That's the right answer!  You are <span class=\"day-success\">one gold star</span> closer to saving your vacation.</p></article>\n</main></body></html>";

const RIGHT_TEXT: &str = "That's the right answer! You are one gold star closer to saving your vacation.";

const WRONG_PAGE: &str = "<html><body><main>\n<article><p>That's not the right answer; your answer is too low.</p></article>\n</main></body></html>";

const WRONG_TEXT: &str = "That's not the right answer; your answer is too low.";

/// Makes the page that the library reads of what the platform sent.
fn page(html: &str) -> Page {
    Page { html: html.to_string(), markdown: html2md::parse_html(&get_main(html)) }
}

fn problem() -> Aoc {
    Aoc::new().year(Some(2019)).day(Some(1)).cookie("token")
}

fn brief_request() -> Request {
    Request::Get {
        url: "https://adventofcode.com/2019/day/1".to_string(),
        cookie: "session=token".to_string(),
    }
}

/// Stands for the platform: counts what it is asked and answers from a script.
struct Platform {
    calls: usize,
    brief: &'static str,
    input: &'static str,
    verdict: &'static str,
}

impl Platform {
    fn new(verdict: &'static str) -> Platform {
        Platform { calls: 0, brief: BRIEF_PAGE, input: "12\n14\n1969\n", verdict }
    }

    fn perform(&mut self, request: &Request) -> String {
        self.calls += 1;
        match request {
            Request::Get { url, .. } if url.ends_with("/input") => self.input.to_string(),
            Request::Get { .. } => self.brief.to_string(),
            Request::Post { .. } => self.verdict.to_string(),
        }
    }
}

fn brief(aoc: &mut Aoc, platform: &mut Platform, force: bool) -> String {
    match aoc.get_brief(force).unwrap() {
        Lookup::Cached(text) => text,
        Lookup::Fetch(request) => {
            let fetched = page(&platform.perform(&request));
            let stored = aoc.store_brief(&fetched, Some("/work")).unwrap();
            assert_eq!(stored.save, aoc.write(Some("/work")).unwrap());
            stored.text
        }
    }
}

fn input(aoc: &mut Aoc, platform: &mut Platform, force: bool) -> String {
    match aoc.get_input(force).unwrap() {
        Lookup::Cached(text) => text,
        Lookup::Fetch(request) => {
            let text = platform.perform(&request);
            let stored = aoc.store_input(&text, Some("/work")).unwrap();
            assert_eq!(stored.save, aoc.write(Some("/work")).unwrap());
            stored.text
        }
    }
}

fn submit(aoc: &mut Aoc, platform: &mut Platform, answer: &str) -> String {
    let request = aoc.submit(answer).unwrap();
    let answered = page(&platform.perform(&request));
    let Verdict { response, refresh } = aoc.judge(&answered);
    let refreshed = refresh.map(|request| page(&platform.perform(&request)));
    aoc.settle(answer, &response, refreshed.as_ref())
}

#[test]
fn new_entry_is_empty() {
    let aoc = Aoc::new();
    assert_eq!(aoc.year, None);
    assert_eq!(aoc.day, None);
    assert_eq!(aoc.level, Level::First);
    assert_eq!(aoc.title, None);
    assert_eq!(aoc.stars, None);
    assert_eq!(aoc.input, None);
    assert!(aoc.brief.is_empty());
    assert!(aoc.solution.is_empty());
    assert_eq!(aoc.cache_path, None);
    assert_eq!(aoc.cookie_path, None);
    assert_eq!(aoc.cookie, "");
    assert_eq!(aoc, Aoc::default());
}

#[test]
fn builders_set_one_field_each() {
    let aoc = Aoc::new()
        .year(Some(2020))
        .day(Some(5))
        .cookie("abc")
        .cookie_file("./examples/cookie")
        .cache(Some("/tmp/entry.json"));
    assert_eq!(aoc.year, Some(2020));
    assert_eq!(aoc.day, Some(5));
    assert_eq!(aoc.cookie, "abc");
    assert_eq!(aoc.cookie_path, Some("./examples/cookie".to_string()));
    assert_eq!(aoc.cache_path, Some("/tmp/entry.json".to_string()));
    assert_eq!(aoc.level, Level::First);
    let aoc = aoc.cache(None).year(None);
    assert_eq!(aoc.cache_path, None);
    assert_eq!(aoc.year, None);
    assert_eq!(aoc.day, Some(5));
}

#[test]
fn brief_is_fetched_once() {
    let mut aoc = problem();
    let mut platform = Platform::new(WRONG_PAGE);
    assert_eq!(aoc.get_brief(false), Ok(Lookup::Fetch(brief_request())));
    let first = brief(&mut aoc, &mut platform, false);
    let second = brief(&mut aoc, &mut platform, false);
    assert_eq!(first, BRIEF_TEXT);
    assert_eq!(second, first);
    assert_eq!(platform.calls, 1);
    assert_eq!(aoc.title, Some("The Tyranny of the Rocket Equation".to_string()));
    assert_eq!(aoc.brief.get(Level::First), Some(&BRIEF_TEXT.to_string()));
    assert_eq!(aoc.brief.get(Level::Second), None);
    assert_eq!(aoc.get_brief(false), Ok(Lookup::Cached(BRIEF_TEXT.to_string())));
}

#[test]
fn forced_brief_is_fetched_each_time() {
    let mut aoc = problem();
    let mut platform = Platform::new(WRONG_PAGE);
    let first = brief(&mut aoc, &mut platform, true);
    platform.brief = SECOND_PAGE;
    let second = brief(&mut aoc, &mut platform, true);
    assert_eq!(platform.calls, 2);
    assert_eq!(first, BRIEF_TEXT);
    assert_eq!(
        second,
        "Santa has become stranded.\n\nYour puzzle answer was `42`.\n\n\\--- Part Two ---\n----------\n\nFuel itself requires fuel.\n\nAnswer:"
    );
    assert_eq!(aoc.brief.get(Level::First), Some(&second));
    assert_eq!(aoc.get_brief(true), Ok(Lookup::Fetch(brief_request())));
}

#[test]
fn brief_is_kept_for_each_level() {
    let mut aoc = problem();
    let mut platform = Platform::new(WRONG_PAGE);
    let first = brief(&mut aoc, &mut platform, false);
    aoc.advance().unwrap();
    platform.brief = SECOND_PAGE;
    let second = brief(&mut aoc, &mut platform, false);
    assert_eq!(platform.calls, 2);
    assert_ne!(first, second);
    assert_eq!(aoc.brief.get(Level::First), Some(&first));
    assert_eq!(aoc.brief.get(Level::Second), Some(&second));
}

#[test]
fn page_without_brief_is_refused() {
    let mut aoc = problem();
    let before = aoc.clone();
    assert_eq!(
        aoc.store_brief(&page("<html><body>504 Gateway Time-out</body></html>"), None),
        Err(Error::MalformedPage)
    );
    assert_eq!(aoc, before);
    assert_eq!(aoc.store_brief(&page(""), Some("/work")), Err(Error::MalformedPage));
    assert_eq!(aoc, before);
    let short = Page { html: BRIEF_PAGE.to_string(), markdown: "1\n2\n3".to_string() };
    assert_eq!(aoc.store_brief(&short, None), Err(Error::MalformedPage));
    assert_eq!(aoc, before);
}

#[test]
fn fetched_text_is_to_be_written_at_once() {
    let mut aoc = problem();
    let stored = aoc.store_brief(&page(BRIEF_PAGE), Some("/work")).unwrap();
    assert_eq!(stored.text, BRIEF_TEXT);
    assert_eq!(stored.save.path, "/work/./.aocf/cache/aoc2019_1.json");
    assert_eq!(stored.save.record.brief.get(Level::First), Some(&BRIEF_TEXT.to_string()));
    assert_eq!(stored.save.record.title, Some("The Tyranny of the Rocket Equation".to_string()));
    assert_eq!(stored.save.record, aoc.record());
    let stored = aoc.store_input("12\n", None).unwrap();
    assert_eq!(
        stored,
        Stored {
            text: "12\n".to_string(),
            save: Save { path: "./.aocf/cache/aoc2019_1.json".to_string(), record: aoc.record() },
        }
    );
    assert_eq!(stored.save.record.input, Some("12\n".to_string()));
    let mut placed = Aoc::new().cache(Some("a.json"));
    assert_eq!(placed.store_input("1\n", Some("/work")).unwrap().save.path, "a.json");
    assert_eq!(placed.store_brief(&page(BRIEF_PAGE), None).unwrap().save.path, "a.json");
}

#[test]
fn nothing_is_stored_without_a_file_to_write_to() {
    let mut aoc = Aoc::new().year(Some(2019));
    assert_eq!(aoc.store_brief(&page(BRIEF_PAGE), Some("/work")), Err(Error::DayOrYearNotSet));
    assert_eq!(aoc.store_brief(&page(""), None), Err(Error::DayOrYearNotSet));
    assert_eq!(aoc.store_input("12\n", None), Err(Error::DayOrYearNotSet));
    assert_eq!(aoc, Aoc::new().year(Some(2019)));
}

#[test]
fn input_is_fetched_once() {
    let mut aoc = Aoc::new().year(Some(2019)).day(Some(1)).cookie("token");
    let mut platform = Platform::new(WRONG_PAGE);
    assert_eq!(
        aoc.get_input(false),
        Ok(Lookup::Fetch(Request::Get {
            url: "https://adventofcode.com/2019/day/1/input".to_string(),
            cookie: "session=token".to_string(),
        }))
    );
    let first = input(&mut aoc, &mut platform, false);
    assert_eq!(platform.calls, 1);
    assert_eq!(first, "12\n14\n1969\n");
    let second = input(&mut aoc, &mut platform, false);
    assert_eq!(platform.calls, 1);
    assert_eq!(second, first);
    assert_eq!(aoc.input, Some("12\n14\n1969\n".to_string()));
}

#[test]
fn forced_input_replaces_the_old_one() {
    let mut aoc = problem();
    let mut platform = Platform::new(WRONG_PAGE);
    input(&mut aoc, &mut platform, false);
    platform.input = "7\n";
    assert_eq!(input(&mut aoc, &mut platform, false), "12\n14\n1969\n");
    assert_eq!(input(&mut aoc, &mut platform, true), "7\n");
    assert_eq!(input(&mut aoc, &mut platform, true), "7\n");
    assert_eq!(platform.calls, 3);
    assert_eq!(aoc.input, Some("7\n".to_string()));
    aoc.advance().unwrap();
    assert_eq!(input(&mut aoc, &mut platform, false), "7\n");
    assert_eq!(platform.calls, 3);
}

#[test]
fn lookups_need_year_and_day() {
    assert_eq!(Aoc::new().get_brief(false), Err(Error::DayOrYearNotSet));
    assert_eq!(Aoc::new().year(Some(2019)).get_brief(true), Err(Error::DayOrYearNotSet));
    assert_eq!(Aoc::new().day(Some(1)).get_input(false), Err(Error::DayOrYearNotSet));
    assert_eq!(Aoc::new().submit("42"), Err(Error::DayOrYearNotSet));
    let mut cached = Aoc::new();
    cached.input = Some("1\n".to_string());
    assert_eq!(cached.get_input(false), Ok(Lookup::Cached("1\n".to_string())));
    assert_eq!(cached.get_input(true), Err(Error::DayOrYearNotSet));
}

#[test]
fn right_answer_on_first_level() {
    let mut aoc = problem();
    let mut platform = Platform::new(RIGHT_PAGE);
    platform.brief = SECOND_PAGE;
    assert_eq!(
        aoc.submit("42"),
        Ok(Request::Post {
            url: "https://adventofcode.com/2019/day/1/answer".to_string(),
            cookie: "session=token".to_string(),
            level: "1".to_string(),
            answer: "42".to_string(),
        })
    );
    let response = submit(&mut aoc, &mut platform, "42");
    assert_eq!(response, RIGHT_TEXT);
    assert_eq!(aoc.solution.get(Level::First), Some(&"42".to_string()));
    assert_eq!(aoc.solution.get(Level::Second), None);
    assert_eq!(aoc.stars, Some(1));
    assert_eq!(aoc.level, Level::Second);
    assert_eq!(platform.calls, 2);
    assert!(aoc.brief.get(Level::First).unwrap().contains("Part Two"));
    assert_eq!(aoc.brief.get(Level::Second), None);
}

#[test]
fn wrong_answer_changes_nothing() {
    let mut aoc = problem();
    let mut platform = Platform::new(WRONG_PAGE);
    brief(&mut aoc, &mut platform, false);
    let before = aoc.clone();
    let response = submit(&mut aoc, &mut platform, "42");
    assert_eq!(response, WRONG_TEXT);
    assert_eq!(aoc, before);
    assert!(aoc.solution.is_empty());
    assert_eq!(aoc.stars, None);
    assert_eq!(aoc.level, Level::First);
    assert_eq!(platform.calls, 2);
}

#[test]
fn right_answer_on_second_level() {
    let mut aoc = problem();
    let mut platform = Platform::new(RIGHT_PAGE);
    submit(&mut aoc, &mut platform, "42");
    assert_eq!(
        aoc.submit("43"),
        Ok(Request::Post {
            url: "https://adventofcode.com/2019/day/1/answer".to_string(),
            cookie: "session=token".to_string(),
            level: "2".to_string(),
            answer: "43".to_string(),
        })
    );
    let response = submit(&mut aoc, &mut platform, "43");
    assert_eq!(response, RIGHT_TEXT);
    assert_eq!(aoc.solution.get(Level::First), Some(&"42".to_string()));
    assert_eq!(aoc.solution.get(Level::Second), Some(&"43".to_string()));
    assert_eq!(aoc.stars, Some(2));
    assert_eq!(aoc.level, Level::Second);
    assert_eq!(aoc.brief.get(Level::Second), Some(&BRIEF_TEXT.to_string()));
}

#[test]
fn right_answer_without_fresh_brief() {
    let mut aoc = problem();
    let verdict = aoc.judge(&page(RIGHT_PAGE));
    assert_eq!(verdict.response, RIGHT_TEXT);
    assert_eq!(verdict.refresh, Some(brief_request()));
    let response = aoc.settle("42", &verdict.response, None);
    assert_eq!(response, RIGHT_TEXT);
    assert_eq!(aoc.stars, Some(1));
    assert_eq!(aoc.level, Level::Second);
    assert!(aoc.brief.is_empty());
    assert_eq!(aoc.title, None);
    let response = aoc.settle("43", RIGHT_TEXT, Some(&page("no page at all")));
    assert_eq!(response, RIGHT_TEXT);
    assert_eq!(aoc.stars, Some(2));
    assert!(aoc.brief.is_empty());
}

#[test]
fn wrong_answer_asks_for_no_brief() {
    let aoc = problem();
    let verdict = aoc.judge(&page(WRONG_PAGE));
    assert_eq!(verdict, Verdict { response: WRONG_TEXT.to_string(), refresh: None });
    let verdict = Aoc::new().judge(&page(RIGHT_PAGE));
    assert_eq!(verdict, Verdict { response: RIGHT_TEXT.to_string(), refresh: None });
}

#[test]
fn submission_is_closed_on_every_entry() {
    let mut aoc = problem();
    assert_eq!(aoc.try_settle("42", RIGHT_TEXT, None), Ok(RIGHT_TEXT.to_string()));
    assert_eq!(aoc.stars, Some(1));
    assert_eq!(aoc.level, Level::Second);
    assert_eq!(aoc.solution.get(Level::First), Some(&"42".to_string()));
    let before = aoc.clone();
    assert_eq!(aoc.try_settle("43", WRONG_TEXT, None), Ok(WRONG_TEXT.to_string()));
    assert_eq!(aoc, before);
    aoc.stars = Some(254);
    assert_eq!(aoc.try_settle("43", RIGHT_TEXT, None), Ok(RIGHT_TEXT.to_string()));
    assert_eq!(aoc.stars, Some(255));
    assert_eq!(aoc.level, Level::Second);
    let full = aoc.clone();
    assert_eq!(aoc.try_settle("44", RIGHT_TEXT, Some(&page(BRIEF_PAGE))), Err(Error::TooManyStars));
    assert_eq!(aoc, full);
    assert_eq!(aoc.try_settle("44", WRONG_TEXT, None), Ok(WRONG_TEXT.to_string()));
    assert_eq!(aoc, full);
    let mut first = problem();
    first.stars = Some(255);
    assert_eq!(first.try_settle("1", RIGHT_TEXT, None), Err(Error::TooManyStars));
    assert_eq!(first.level, Level::First);
    assert!(first.solution.is_empty());
    Aoc::get_time_until_release();
    assert_eq!(first.stars, Some(255));
}

#[test]
fn advance_from_second_fails() {
    let mut aoc = problem();
    assert_eq!(aoc.advance(), Ok(()));
    assert_eq!(aoc.level, Level::Second);
    let before = aoc.clone();
    assert_eq!(aoc.advance(), Err(Error::AlreadyAtFinalLevel));
    assert_eq!(aoc, before);
    assert_eq!(aoc.advance(), Err(Error::AlreadyAtFinalLevel));
    assert_eq!(aoc.level, Level::Second);
}

#[test]
fn stars_and_level_never_go_back() {
    let mut aoc = problem();
    let mut platform = Platform::new(RIGHT_PAGE);
    let mut stars = 0;
    let mut level = Level::First;
    for step in 0..12 {
        platform.verdict = if step % 3 == 0 { RIGHT_PAGE } else { WRONG_PAGE };
        match step % 4 {
            0 => {
                brief(&mut aoc, &mut platform, step % 8 == 0);
            }
            1 => {
                submit(&mut aoc, &mut platform, "42");
            }
            2 => {
                input(&mut aoc, &mut platform, false);
            }
            _ => {
                let _ = aoc.advance();
            }
        }
        let now = aoc.stars.unwrap_or(0);
        assert!(now >= stars);
        assert!(aoc.level >= level);
        stars = now;
        level = aoc.level;
    }
    assert_eq!(stars, 1);
    assert_eq!(level, Level::Second);
}

#[test]
fn missing_record_gives_fresh_entry() {
    let aoc = Aoc::new().year(Some(2020)).day(Some(5)).cookie("token");
    assert_eq!(aoc.load(None), Ok("./.aocf/cache/aoc2020_5.json".to_string()));
    let aoc = aoc.init(None, Err(Error::NotFound)).unwrap();
    assert_eq!(aoc.year, Some(2020));
    assert_eq!(aoc.day, Some(5));
    assert_eq!(aoc.level, Level::First);
    assert_eq!(aoc.stars, None);
    assert_eq!(aoc.cookie, "token");
    assert_eq!(aoc, Aoc::new().year(Some(2020)).day(Some(5)).cookie("token"));
}

fn stored() -> Record {
    let mut brief = LevelMap::new();
    brief.insert(Level::First, "part one".to_string());
    let mut solution = LevelMap::new();
    solution.insert(Level::First, "42".to_string());
    Record {
        year: Some(2019),
        day: Some(1),
        level: Level::Second,
        title: Some("The Tyranny of the Rocket Equation".to_string()),
        stars: Some(1),
        input: Some("12\n".to_string()),
        brief,
        solution,
    }
}

#[test]
fn stored_record_wins_over_what_was_built() {
    let built = Aoc::new().year(Some(2019)).day(Some(1)).cookie("token").cache(Some("/tmp/a.json"));
    let aoc = built.init(None, Ok(stored())).unwrap();
    assert_eq!(aoc.level, Level::Second);
    assert_eq!(aoc.stars, Some(1));
    assert_eq!(aoc.title, Some("The Tyranny of the Rocket Equation".to_string()));
    assert_eq!(aoc.input, Some("12\n".to_string()));
    assert_eq!(aoc.brief.get(Level::First), Some(&"part one".to_string()));
    assert_eq!(aoc.solution.get(Level::First), Some(&"42".to_string()));
    assert_eq!(aoc.cookie, "token");
    assert_eq!(aoc.cache_path, None);
    assert_eq!(aoc.cookie_path, None);
}

#[test]
fn token_is_read_from_its_file_when_none_is_set() {
    let built = Aoc::new().year(Some(2019)).day(Some(1));
    assert_eq!(built.cookie_source(None), Some("./.aocf/cookie".to_string()));
    assert_eq!(built.cookie_source(Some("/work")), Some("/work/./.aocf/cookie".to_string()));
    let aoc = built.init(Some("  53616c7465645f5f\n"), Err(Error::NotFound)).unwrap();
    assert_eq!(aoc.cookie, "53616c7465645f5f");
    let with_file = Aoc::new().cookie_file("./examples/cookie");
    assert_eq!(with_file.cookie_source(Some("/work")), Some("./examples/cookie".to_string()));
    let with_token = with_file.cookie("abc");
    assert_eq!(with_token.cookie_source(Some("/work")), None);
    let aoc = with_token.init(Some("other\n"), Ok(stored())).unwrap();
    assert_eq!(aoc.cookie, "abc");
}

#[test]
fn entry_without_a_place_to_look_in_is_built_as_it_is() {
    let built = Aoc::new().day(Some(5)).cookie("token");
    assert_eq!(built.load(None), Err(Error::DayOrYearNotSet));
    let stored = built.load(None).and_then(|_| Ok(stored()));
    let aoc = built.init(None, stored).unwrap();
    assert_eq!(aoc, Aoc::new().day(Some(5)).cookie("token"));
}

#[test]
fn init_fails_without_token_and_on_a_bad_record() {
    let built = Aoc::new().year(Some(2019)).day(Some(1));
    assert_eq!(built.clone().init(None, Ok(stored())), Err(Error::NoCredentialFound));
    assert_eq!(built.clone().init(None, Err(Error::ParseError)), Err(Error::NoCredentialFound));
    assert_eq!(built.clone().init(Some("abc"), Err(Error::ParseError)), Err(Error::ParseError));
    assert_eq!(
        built.clone().cookie("abc").init(None, Err(Error::ParseError)),
        Err(Error::ParseError)
    );
    assert_eq!(
        built.cookie("abc").init(None, Err(Error::MalformedPage)),
        Err(Error::MalformedPage)
    );
}

#[test]
fn record_leaves_token_and_paths_out() {
    let mut aoc = problem().cookie_file("./cookie").cache(Some("/tmp/a.json"));
    let mut platform = Platform::new(RIGHT_PAGE);
    input(&mut aoc, &mut platform, false);
    submit(&mut aoc, &mut platform, "42");
    let record = aoc.record();
    assert_eq!(record.year, Some(2019));
    assert_eq!(record.day, Some(1));
    assert_eq!(record.level, Level::Second);
    assert_eq!(record.stars, Some(1));
    assert_eq!(record.input, Some("12\n14\n1969\n".to_string()));
    assert_eq!(record.solution, aoc.solution);
    assert_eq!(record.brief, aoc.brief);
    assert_eq!(record.title, aoc.title);
    let back = Aoc::restore(record.clone());
    assert_eq!(back.cookie, "");
    assert_eq!(back.cache_path, None);
    assert_eq!(back.cookie_path, None);
    assert_eq!(back.record(), record);
    assert_eq!(back.cookie("token").cookie_file("./cookie").cache(Some("/tmp/a.json")), aoc);
}

#[test]
fn write_names_file_and_record() {
    let aoc = problem();
    assert_eq!(
        aoc.write(Some("/home/me/aoc")),
        Ok(Save { path: "/home/me/aoc/./.aocf/cache/aoc2019_1.json".to_string(), record: aoc.record() })
    );
    assert_eq!(
        aoc.write(None),
        Ok(Save { path: "./.aocf/cache/aoc2019_1.json".to_string(), record: aoc.record() })
    );
    let placed = aoc.cache(Some("elsewhere.json"));
    assert_eq!(placed.write(Some("/home/me/aoc")).unwrap().path, "elsewhere.json");
    assert_eq!(placed.load(Some("/home/me/aoc")), Ok("elsewhere.json".to_string()));
    assert_eq!(Aoc::new().write(None), Err(Error::DayOrYearNotSet));
    assert_eq!(Aoc::new().year(Some(2019)).load(Some("/x")), Err(Error::DayOrYearNotSet));
    assert_eq!(Aoc::new().cache(Some("a.json")).write(None).unwrap().path, "a.json");
}

#[test]
fn default_paths() {
    let aoc = problem();
    assert_eq!(aoc.get_default_cookie_path(None), "./.aocf/cookie");
    assert_eq!(aoc.get_default_cookie_path(Some("/work/")), "/work/./.aocf/cookie");
    assert_eq!(aoc.get_default_cache_path(Some("/work")), Ok("/work/./.aocf/cache/aoc2019_1.json".to_string()));
    assert_eq!(Aoc::new().day(Some(1)).get_default_cache_path(None), Err(Error::DayOrYearNotSet));
}
