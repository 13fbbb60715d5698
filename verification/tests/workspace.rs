use aocf::cli::{checkout, retarget, switch, AocfTimeDateOpts, Today};
use chrono::Datelike;
use aocf::conf::{Conf, ExecMode};
use aocf::error::Error;
use aocf::find_root;
use aocf::pretty::{on_event, prettify, unescape, Event, Key, Move};
use aocf::root::Candidate;
use aocf::store::{below, cache_file_name, default_path, join};

fn dir(path: &str, has_marker: bool, has_config: bool) -> Candidate {
    Candidate { path: path.to_string(), has_marker, has_config }
}

fn ancestors(of: &str, root: &str, has_marker: bool, has_config: bool) -> Vec<Candidate> {
    let mut path = of.to_string();
    let mut found = Vec::new();
    loop {
        let here = path == root;
        found.push(dir(&path, here && has_marker, here && has_config));
        match path.rfind('/') {
            Some(0) if path.len() > 1 => path.truncate(1),
            Some(i) if i > 0 => path.truncate(i),
            _ => break,
        }
    }
    found
}

#[test]
fn test_find_root() {
    let tmp_path = "/tmp/.tmpUwUaSn";
    let tmp_sub = format!("{}/{}", tmp_path, "im/in/a-subdir");
    // no `.aocf` yet
    assert!(find_root(&ancestors(tmp_path, tmp_path, false, false)).is_err());
    // `.aocf` without `.aocf/config`
    assert!(find_root(&ancestors(tmp_path, tmp_path, true, false)).is_err());
    assert!(find_root(&ancestors(tmp_path, tmp_path, true, true)).is_ok());
    let from_sub = ancestors(&tmp_sub, tmp_path, true, true);
    assert_eq!(from_sub.len(), 6);
    assert_eq!(find_root(&from_sub).unwrap(), tmp_path);
}

#[test]
fn nearest_root_is_found_first() {
    let dirs = vec![
        dir("/a/b/c", false, false),
        dir("/a/b", true, true),
        dir("/a", true, true),
        dir("/", false, false),
    ];
    assert_eq!(find_root(&dirs), Ok("/a/b".to_string()));
    assert_eq!(find_root(&dirs[2..].to_vec()), Ok("/a".to_string()));
    assert_eq!(find_root(&dirs[3..].to_vec()), Err(Error::NoConfigFound));
    assert_eq!(find_root(&Vec::new()), Err(Error::NoConfigFound));
}

#[test]
fn marker_without_config_is_no_root() {
    let dirs = vec![
        dir("/a/b/c", true, false),
        dir("/a/b", false, true),
        dir("/a", true, true),
        dir("/", true, true),
    ];
    assert_eq!(find_root(&dirs), Ok("/a".to_string()));
}

#[test]
fn paths_are_joined_by_one_separator() {
    assert_eq!(join("/work", "x.json"), "/work/x.json");
    assert_eq!(join("/work/", "x.json"), "/work/x.json");
    assert_eq!(join("/", "x.json"), "/x.json");
    assert_eq!(join("", "x.json"), "x.json");
    assert_eq!(join("rel/dir", "./.aocf/cookie"), "rel/dir/./.aocf/cookie");
    assert_eq!(join("/ünï", "é"), "/ünï/é");
    assert_eq!(below(Some("/work"), "a"), "/work/a");
    assert_eq!(below(None, "a"), "a");
}

#[test]
fn default_place_is_below_the_root() {
    assert_eq!(default_path(2019, 1, Some("/home/me/aoc")), "/home/me/aoc/./.aocf/cache/aoc2019_1.json");
    assert_eq!(default_path(2019, 1, Some("/home/me/aoc/")), "/home/me/aoc/./.aocf/cache/aoc2019_1.json");
    assert_eq!(default_path(2019, 1, Some("")), "./.aocf/cache/aoc2019_1.json");
    assert_eq!(default_path(2019, 1, None), "./.aocf/cache/aoc2019_1.json");
    assert_eq!(default_path(2020, 25, None), "./.aocf/cache/aoc2020_25.json");
    assert_eq!(default_path(2019, 1, Some("/a")), default_path(2019, 1, Some("/a")));
    assert_ne!(default_path(2019, 1, Some("/a")), default_path(2019, 2, Some("/a")));
    assert_ne!(default_path(2019, 1, Some("/a")), default_path(2018, 1, Some("/a")));
    assert_ne!(default_path(1, 11, Some("/a")), default_path(11, 1, Some("/a")));
}

#[test]
fn each_problem_has_its_own_file() {
    assert_eq!(cache_file_name(2019, 1), "./.aocf/cache/aoc2019_1.json");
    assert_eq!(cache_file_name(2015, 25), "./.aocf/cache/aoc2015_25.json");
    assert_eq!(cache_file_name(-1, 0), "./.aocf/cache/aoc-1_0.json");
    assert_ne!(cache_file_name(2019, 11), cache_file_name(20191, 1));
    assert_ne!(cache_file_name(201, 91), cache_file_name(2019, 1));
    let mut seen = Vec::new();
    for year in [-12, -1, 0, 1, 12, 2015, 2019, 20191] {
        for day in [0, 1, 2, 12, 21, 25, 120191] {
            let name = cache_file_name(year, day);
            assert!(!seen.contains(&name));
            seen.push(name);
        }
    }
}

#[test]
fn new_settings() {
    let conf = Conf::default();
    assert_eq!(conf.year, 2015);
    assert_eq!(conf.day, 1);
    assert_eq!(conf.editor, "vim");
    assert_eq!(conf.pager, "less");
    assert_eq!(conf.program, None);
    assert_eq!(conf.mode, None);
}

#[test]
fn hash_follows_the_values() {
    let conf = Conf::default();
    let hash = conf.calc_hash();
    assert_eq!(conf.clone().calc_hash(), hash);
    assert_eq!(Conf::default().calc_hash(), hash);
    assert!(!conf.changed_since(hash));
    let mut changed = Vec::new();
    changed.push(Conf { year: 2016, ..conf.clone() });
    changed.push(Conf { year: -2015, ..conf.clone() });
    changed.push(Conf { day: 2, ..conf.clone() });
    changed.push(Conf { editor: "vi".to_string(), ..conf.clone() });
    changed.push(Conf { pager: "more".to_string(), ..conf.clone() });
    changed.push(Conf { program: Some("".to_string()), ..conf.clone() });
    changed.push(Conf { program: Some("cargo run".to_string()), ..conf.clone() });
    changed.push(Conf { mode: Some(ExecMode::Stdin), ..conf.clone() });
    changed.push(Conf { mode: Some(ExecMode::File), ..conf.clone() });
    changed.push(Conf { editor: "vimless".to_string(), pager: "".to_string(), ..conf.clone() });
    let mut hashes = vec![hash];
    for other in changed {
        assert!(other.changed_since(hash));
        assert!(!hashes.contains(&other.calc_hash()));
        hashes.push(other.calc_hash());
    }
}

#[test]
fn switch_sets_day_and_year() {
    let mut conf = Conf::default();
    let hash = conf.calc_hash();
    assert_eq!(switch(&mut conf, hash, None, Some(2019)), Err(Error::NoDayProvided));
    assert_eq!(conf, Conf::default());
    assert_eq!(
        switch(&mut conf, hash, Some(3), Some(2019)),
        Ok(Some("switched to year 2019, day 3".to_string()))
    );
    assert_eq!(conf.year, 2019);
    assert_eq!(conf.day, 3);
    assert_eq!(conf.editor, "vim");
    assert_eq!(switch(&mut conf, hash, Some(4), None), Ok(Some("switched to year 2019, day 4".to_string())));
    assert_eq!(conf.year, 2019);
    assert_eq!(conf.day, 4);
    let hash = conf.calc_hash();
    assert_eq!(switch(&mut conf, hash, Some(4), Some(2019)), Ok(None));
    assert_eq!(switch(&mut conf, hash, Some(4), None), Ok(None));
    assert_eq!(conf.day, 4);
}

fn opts() -> AocfTimeDateOpts {
    AocfTimeDateOpts { now: false, day: None, year: None, problem_day: None, problem_year: None }
}

#[test]
fn options_name_day_and_year() {
    let today = Today { day: 24, year: 2022 };
    assert_eq!(opts().get_day_year(today), (None, None));
    assert_eq!(AocfTimeDateOpts { now: true, ..opts() }.get_day_year(today), (Some(24), Some(2022)));
    assert_eq!(
        AocfTimeDateOpts { now: true, day: Some(1), year: Some(2), problem_day: Some(3), problem_year: Some(4) }
            .get_day_year(today),
        (Some(24), Some(2022))
    );
    assert_eq!(AocfTimeDateOpts { day: Some(5), ..opts() }.get_day_year(today), (Some(5), None));
    assert_eq!(
        AocfTimeDateOpts { day: Some(5), year: Some(2019), problem_day: Some(7), problem_year: Some(2020), ..opts() }
            .get_day_year(today),
        (Some(5), Some(2019))
    );
    assert_eq!(
        AocfTimeDateOpts { problem_day: Some(7), problem_year: Some(2020), ..opts() }.get_day_year(today),
        (Some(7), Some(2020))
    );
    assert_eq!(
        AocfTimeDateOpts { year: Some(2019), problem_day: Some(7), ..opts() }.get_day_year(today),
        (Some(7), None)
    );
    assert_eq!(AocfTimeDateOpts { year: Some(2019), problem_year: Some(2020), ..opts() }.get_day_year(today), (None, None));
    let other = Today { day: 1, year: 1970 };
    assert_eq!(
        AocfTimeDateOpts { day: Some(5), year: Some(2019), ..opts() }.get_day_year(other),
        (Some(5), Some(2019))
    );
    assert_eq!(opts().get_day_year(other), (None, None));
    assert_eq!(AocfTimeDateOpts { now: true, ..opts() }.get_day_year(other), (Some(1), Some(1970)));
}

fn clock() -> Today {
    let now = chrono::Utc::now();
    Today { day: now.day(), year: now.year() }
}

#[test]
fn now_is_the_day_that_the_caller_reads_from_the_clock() {
    let today = clock();
    let (day, year) = AocfTimeDateOpts { now: true, ..opts() }.get_day_year(today);
    assert_eq!((day, year), (Some(today.day), Some(today.year)));
    assert!(matches!(day, Some(1..=31)));
    assert!(matches!(year, Some(2024..=9999)));
    let problem = retarget(Some(2015), true, Some(3), today);
    assert_eq!(problem, Some((Some(today.year), Some(today.day))));
}

#[test]
fn checkout_switches_to_what_the_options_name() {
    let mut conf = Conf::default();
    let hash = conf.calc_hash();
    let today = Today { day: 24, year: 2022 };
    assert_eq!(checkout(&mut conf, hash, &opts(), today), Err(Error::NoDayProvided));
    assert_eq!(conf, Conf::default());
    assert_eq!(
        checkout(
            &mut conf,
            hash,
            &AocfTimeDateOpts { problem_day: Some(9), problem_year: Some(2021), ..opts() },
            today
        ),
        Ok(Some("switched to year 2021, day 9".to_string()))
    );
    assert_eq!((conf.year, conf.day), (2021, 9));
    assert_eq!(
        checkout(&mut conf, hash, &AocfTimeDateOpts { day: Some(1), year: Some(2015), ..opts() }, today),
        Ok(None)
    );
    assert_eq!(conf, Conf::default());
    let notice = checkout(&mut conf, hash, &AocfTimeDateOpts { now: true, ..opts() }, today);
    assert_eq!(notice, Ok(Some("switched to year 2022, day 24".to_string())));
    assert_eq!((conf.year, conf.day), (2022, 24));
    let now = clock();
    let notice = checkout(&mut conf, hash, &AocfTimeDateOpts { now: true, ..opts() }, now).unwrap();
    assert_eq!((conf.year, conf.day), (now.year, now.day));
    assert_eq!(notice, Some(format!("switched to year {}, day {}", now.year, now.day)));
}

#[test]
fn commands_may_work_on_another_problem() {
    let today = Today { day: 24, year: 2022 };
    assert_eq!(retarget(Some(2019), true, None, today), Some((Some(2022), Some(24))));
    assert_eq!(retarget(Some(2019), true, Some(3), today), Some((Some(2022), Some(24))));
    assert_eq!(retarget(Some(2019), false, Some(3), today), Some((Some(2019), Some(3))));
    assert_eq!(retarget(None, false, Some(3), today), Some((None, Some(3))));
    assert_eq!(retarget(Some(2019), false, None, today), None);
    let other = Today { day: 1, year: 1970 };
    assert_eq!(retarget(Some(2019), false, Some(3), other), Some((Some(2019), Some(3))));
    assert_eq!(retarget(Some(2019), false, None, other), None);
}

#[test]
fn viewer_keys() {
    assert_eq!(on_event(Event::Key(Key::Up)), Move::ScrollLines(-1));
    assert_eq!(on_event(Event::Key(Key::Down)), Move::ScrollLines(1));
    assert_eq!(on_event(Event::Key(Key::PageUp)), Move::ScrollPages(-1));
    assert_eq!(on_event(Event::Key(Key::PageDown)), Move::ScrollPages(1));
    assert_eq!(on_event(Event::Key(Key::Other)), Move::Quit);
    assert_eq!(on_event(Event::Resize), Move::Resize);
    assert_eq!(on_event(Event::Other), Move::Stay);
}

#[test]
fn escaped_marks_are_shown() {
    assert_eq!(unescape("key: \\*\\* two"), "key: **`**`** two");
    assert_eq!(unescape("item: \\* one: \\*\\*"), "item: **`*`** one: **`**`**");
    assert_eq!(unescape("\\--- Part Two ---"), "--- Part Two ---");
    assert_eq!(unescape(":\\* \\* : *"), ":\\* \\* : *");
    assert_eq!(unescape(": \\*\\*\\*"), ": **`**`**\\*");
    assert_eq!(unescape(""), "");
}

#[test]
fn brief_is_made_ready_for_the_viewer() {
    assert_eq!(prettify("the fuel is `*2*`."), "the fuel is *`2`*.\n");
    assert_eq!(prettify("`*a*` and `*b c*`\r\n`*d*`\n"), "*`a`* and *`b c`*\n*`d`*\n");
    assert_eq!(prettify("key: \\*\\* two\nitem: \\* one"), "key: **`**`** two\nitem: **`*`** one\n");
    assert_eq!(prettify("\\--- Part Two ---\n----------"), "--- Part Two ---\n----------\n");
    assert_eq!(prettify("`*open\nclose*`"), "`*open\nclose*`\n");
    assert_eq!(prettify("plain\n\ntext\n"), "plain\n\ntext\n");
    assert_eq!(prettify(""), "");
}
