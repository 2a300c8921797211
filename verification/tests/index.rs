use kinobot::error::BotError;
use kinobot::index::TitleIndex;
use kinobot::types::TitleEntry;

fn record(id: &str, primary: &str, original: &str, year: u32) -> TitleEntry {
    TitleEntry {
        tconst: id.to_string(),
        title_type: "movie".to_string(),
        primary_title: primary.to_string(),
        original_title: original.to_string(),
        is_adult: false,
        start_year: year,
        end_year: "\\N".to_string(),
        runtime_minutes: "100".to_string(),
        genres: "Drama".to_string(),
    }
}

fn dataset() -> Vec<TitleEntry> {
    vec![
        record("tt1", "Parasite", "기생충", 2019),
        record("tt2", "The Thing", "The Thing", 1982),
        record("tt3", "The Thing", "The Thing", 2011),
        record("tt4", "Spirited Away", "Sen to Chihiro no kamikakushi", 2001),
        record("tt5", "Parasite", "Parasite", 1982),
    ]
}

fn id_of(hit: Option<TitleEntry>) -> Option<String> {
    hit.map(|e| e.tconst)
}

#[test]
fn find_does_not_care_about_case() {
    let index = TitleIndex::build(dataset());
    assert_eq!(id_of(index.find("Parasite")), Some("tt1".to_string()));
    assert_eq!(id_of(index.find("parasite")), Some("tt1".to_string()));
    assert_eq!(id_of(index.find("PARASITE")), Some("tt1".to_string()));
    assert_eq!(id_of(index.find("pArAsItE")), Some("tt1".to_string()));
    assert_eq!(index.find("Parasite"), index.find("parasite"));
}

#[test]
fn find_knows_the_original_title() {
    let index = TitleIndex::build(dataset());
    assert_eq!(id_of(index.find("기생충")), Some("tt1".to_string()));
    assert_eq!(id_of(index.find("sen to chihiro no kamikakushi")), Some("tt4".to_string()));
    assert_eq!(id_of(index.find("SPIRITED AWAY")), Some("tt4".to_string()));
}

#[test]
fn find_gives_the_whole_record() {
    let index = TitleIndex::build(dataset());
    assert_eq!(index.find("spirited away"), Some(dataset()[3].clone()));
}

#[test]
fn find_matches_whole_titles_only() {
    let index = TitleIndex::build(dataset());
    assert!(index.find("Thing").is_none());
    assert!(index.find("The").is_none());
    assert!(index.find("The Thing ").is_none());
    assert!(index.find(" The Thing").is_none());
    assert!(index.find("The  Thing").is_none());
    assert!(index.find("Parasit").is_none());
    assert!(index.find("기생").is_none());
    assert!(index.find("the thing").is_some());
}

#[test]
fn find_gives_none_for_a_title_that_is_not_there() {
    let index = TitleIndex::build(dataset());
    assert!(index.find("nonexistent-film-xyz").is_none());
    assert_eq!(index.get("nonexistent-film-xyz"), Err(BotError::NotFound));
}

#[test]
fn find_gives_none_for_the_empty_query() {
    let index = TitleIndex::build(vec![record("tt0", "", "", 0), record("tt1", "A", "", 1)]);
    assert!(index.find("").is_none());
    assert_eq!(index.get(""), Err(BotError::NotFound));
    assert_eq!(id_of(index.find("a")), Some("tt1".to_string()));
}

#[test]
fn find_in_an_empty_dataset_gives_none() {
    let index = TitleIndex::build(Vec::new());
    assert_eq!(index.len(), 0);
    assert!(index.find("parasite").is_none());
    assert!(index.find("").is_none());
}

#[test]
fn the_first_record_wins_where_titles_collide() {
    let index = TitleIndex::build(dataset());
    assert_eq!(index.len(), 5);
    let hit = index.find("the thing").unwrap();
    assert_eq!(hit.tconst, "tt2");
    assert_eq!(hit.start_year, 1982);
    assert_eq!(id_of(index.find("parasite")), Some("tt1".to_string()));
}

#[test]
fn an_original_title_wins_over_the_primary_title_of_a_later_record() {
    let index = TitleIndex::build(vec![
        record("tt1", "First", "Shared", 1),
        record("tt2", "Shared", "Second", 2),
    ]);
    assert_eq!(id_of(index.find("shared")), Some("tt1".to_string()));
    assert_eq!(id_of(index.find("second")), Some("tt2".to_string()));
    assert_eq!(id_of(index.find("first")), Some("tt1".to_string()));
}

#[test]
fn get_gives_what_find_gives() {
    let index = TitleIndex::build(dataset());
    assert_eq!(index.get("Spirited Away").ok(), index.find("Spirited Away"));
    assert_eq!(index.get("Parasite").unwrap().tconst, "tt1");
}
