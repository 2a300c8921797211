use kinobot::commands::{add, greeting, list, lookup, ping, title_from_args};
use kinobot::index::TitleIndex;
use kinobot::markup::{code_block_message, plain_message};
use kinobot::store::WatchlistStore;
use kinobot::types::TitleEntry;
use kinobot::watchlist::{Watchlist, WatchlistEntry};

fn words(text: &str) -> Vec<String> {
    text.split(' ').filter(|w| !w.is_empty()).map(|w| w.to_string()).collect()
}

fn parasite() -> TitleEntry {
    TitleEntry {
        tconst: "tt6751668".to_string(),
        title_type: "movie".to_string(),
        primary_title: "Parasite".to_string(),
        original_title: "기생충".to_string(),
        is_adult: false,
        start_year: 2019,
        end_year: "".to_string(),
        runtime_minutes: "132".to_string(),
        genres: "Drama,Thriller".to_string(),
    }
}

#[test]
fn ping_answers_pong() {
    assert_eq!(ping(), "pong!");
}

#[test]
fn the_title_is_the_words_joined_in_lower_case() {
    assert_eq!(title_from_args(&words("Inception")), "inception");
    assert_eq!(title_from_args(&words("The Thing")), "the thing");
    assert_eq!(title_from_args(&words("SPIRITED   Away")), "spirited away");
    assert_eq!(title_from_args(&Vec::new()), "");
    assert_eq!(title_from_args(&vec!["ÀÉÎ".to_string(), "Ö".to_string()]), "àéî ö");
}

#[test]
fn a_message_holds_what_it_was_given() {
    assert_eq!(plain_message("hi *there*"), "hi *there*");
    assert_eq!(plain_message(""), "");
    assert_eq!(code_block_message("hello"), "```\nhello\n```");
    assert_eq!(code_block_message(""), "```\n\n```");
    assert_eq!(code_block_message("a\nb"), "```\na\nb\n```");
}

#[test]
fn add_then_list_shows_the_title() {
    let mut store = WatchlistStore::new(Watchlist::new());
    let outcome = add(&mut store, &words("inception"));
    assert_eq!(outcome.reply, "added");
    assert_eq!(outcome.to_persist, Some(store.snapshot()));
    assert_eq!(store.snapshot().titles(), vec!["inception".to_string()]);
    assert_eq!(list(&store.snapshot()), "```\ninception\n```");
}

#[test]
fn add_stores_the_title_in_lower_case_with_empty_fields() {
    let mut store = WatchlistStore::new(Watchlist::new());
    let outcome = add(&mut store, &words("The THING"));
    let saved = outcome.to_persist.unwrap();
    assert_eq!(saved.watchlist, vec![WatchlistEntry::titled("the thing".to_string())]);
}

#[test]
fn add_without_a_title_is_refused() {
    let mut store = WatchlistStore::new(Watchlist::new());
    add(&mut store, &words("alien"));
    let before = store.snapshot();
    for blank in [Vec::new(), vec!["".to_string()], vec![" ".to_string(), "\t".to_string()]] {
        let outcome = add(&mut store, &blank);
        assert_eq!(outcome.reply, "a title cannot be empty");
        assert!(outcome.to_persist.is_none());
        assert_eq!(store.snapshot(), before);
    }
}

#[test]
fn two_adds_in_either_order_are_both_listed() {
    for order in [["a", "b"], ["b", "a"]] {
        let mut store = WatchlistStore::new(Watchlist::new());
        for title in order {
            assert_eq!(add(&mut store, &words(title)).reply, "added");
        }
        let reply = list(&store.snapshot());
        assert_eq!(reply, format!("```\n{}\n{}\n```", order[0], order[1]));
        let listed = store.snapshot().titles();
        assert!(listed.contains(&"a".to_string()) && listed.contains(&"b".to_string()));
        assert_eq!(listed.len(), 2);
    }
}

#[test]
fn list_of_nothing_says_so() {
    assert_eq!(list(&Watchlist::new()), "(empty)");
}

#[test]
fn list_puts_each_title_on_a_line_of_its_own() {
    let watchlist = Watchlist {
        watchlist: vec![
            WatchlistEntry::titled("alien".to_string()),
            WatchlistEntry::titled("the thing".to_string()),
            WatchlistEntry::titled("alien".to_string()),
        ],
    };
    assert_eq!(list(&watchlist), "```\nalien\nthe thing\nalien\n```");
}

#[test]
fn lookup_shows_the_original_title_and_the_year() {
    let index = TitleIndex::build(vec![parasite()]);
    assert_eq!(lookup(&index, &words("parasite")), "기생충 (2019) -- directed by <unknown>");
    assert_eq!(lookup(&index, &words("PARASITE")), "기생충 (2019) -- directed by <unknown>");
    assert_eq!(lookup(&index, &words("기생충")), "기생충 (2019) -- directed by <unknown>");
}

#[test]
fn lookup_of_an_unknown_title_says_so() {
    let index = TitleIndex::build(vec![parasite()]);
    assert_eq!(
        lookup(&index, &words("nonexistent-film-xyz")),
        "couldn't find nonexistent-film-xyz"
    );
    assert_eq!(lookup(&index, &words("Para Site")), "couldn't find para site");
    assert_eq!(lookup(&index, &Vec::new()), "couldn't find ");
    let empty = TitleIndex::build(Vec::new());
    assert_eq!(lookup(&empty, &words("parasite")), "couldn't find parasite");
}

#[test]
fn lookup_joins_the_words_of_a_title() {
    let mut thing = parasite();
    thing.primary_title = "The Thing".to_string();
    thing.original_title = "The Thing".to_string();
    thing.start_year = 1982;
    let index = TitleIndex::build(vec![thing]);
    assert_eq!(lookup(&index, &words("the thing")), "The Thing (1982) -- directed by <unknown>");
    assert_eq!(lookup(&index, &words("thing")), "couldn't find thing");
}

#[test]
fn a_hello_is_greeted() {
    assert_eq!(greeting("hello"), Some("もしもし".to_string()));
    assert_eq!(greeting("Hello there"), Some("もしもし".to_string()));
    assert_eq!(greeting("HELLO!"), Some("もしもし".to_string()));
    assert_eq!(greeting("helloworld"), Some("もしもし".to_string()));
}

#[test]
fn anything_else_is_not_greeted() {
    assert_eq!(greeting(""), None);
    assert_eq!(greeting("hell"), None);
    assert_eq!(greeting(" hello"), None);
    assert_eq!(greeting("oh hello"), None);
    assert_eq!(greeting("/ping"), None);
}
