use kinobot::dataset::{parse_titles, split};

#[test]
fn split_cuts_at_each_separator() {
    assert_eq!(split("a\tb\tc", '\t'), vec!["a", "b", "c"]);
    assert_eq!(split("abc", '\t'), vec!["abc"]);
    assert_eq!(split("", '\t'), vec![""]);
    assert_eq!(split("\t", '\t'), vec!["", ""]);
    assert_eq!(split("a\t\tb", '\t'), vec!["a", "", "b"]);
    assert_eq!(split("\ta\t", '\t'), vec!["", "a", ""]);
    assert_eq!(split("기생충,2019", ','), vec!["기생충", "2019"]);
}

#[test]
fn split_agrees_with_the_standard_library() {
    for s in ["", "\n", "a", "a\nb", "a\n", "\n\n", "x\ny\n\nz\n", "no newline", "\r\n"] {
        let expected: Vec<String> = s.split('\n').map(|p| p.to_string()).collect();
        assert_eq!(split(s, '\n'), expected, "{:?}", s);
    }
}

const HEADER: &str =
    "tconst\ttitleType\tprimaryTitle\toriginalTitle\tisAdult\tstartYear\tendYear\truntimeMinutes\tgenres";

#[test]
fn the_rows_after_the_header_become_records() {
    let text = format!(
        "{}\n{}\n{}\n",
        HEADER,
        "tt0084787\tmovie\tThe Thing\tThe Thing\t0\t1982\t\\N\t109\tHorror,Mystery,Sci-Fi",
        "tt6751668\tmovie\tParasite\t기생충\t0\t2019\t\\N\t132\tDrama,Thriller"
    );
    let records = parse_titles(&text);
    assert_eq!(records.len(), 2);
    assert_eq!(records[0].tconst, "tt0084787");
    assert_eq!(records[0].primary_title, "The Thing");
    assert_eq!(records[0].start_year, 1982);
    assert_eq!(records[0].genres, "Horror,Mystery,Sci-Fi");
    assert_eq!(records[1].original_title, "기생충");
    assert_eq!(records[1].start_year, 2019);
    assert!(!records[1].is_adult);
}

#[test]
fn the_header_is_never_a_record() {
    assert!(parse_titles(HEADER).is_empty());
    assert!(parse_titles(&format!("{}\n", HEADER)).is_empty());
    let nine = "tt1\tmovie\tA\tA\t1\t2000\t\\N\t90\tDrama";
    assert!(parse_titles(nine).is_empty());
    let records = parse_titles(&format!("{}\n{}", nine, nine));
    assert_eq!(records.len(), 1);
    assert!(records[0].is_adult);
}

#[test]
fn rows_of_another_length_are_passed_over() {
    let text = format!(
        "{}\n{}\n{}\n{}\n\n{}",
        HEADER,
        "tt1\tmovie\tA\tA\t0\t2000\t\\N\t90\tDrama",
        "tt2\tmovie\ttoo\tshort",
        "tt3\tmovie\tB\tB\t0\t\\N\t\\N\t90\tDrama\textra",
        "tt4\tshort\tC\tC\t0\t\\N\t\\N\t\\N\t\\N"
    );
    let records = parse_titles(&text);
    assert_eq!(records.len(), 2);
    assert_eq!(records[0].tconst, "tt1");
    assert_eq!(records[1].tconst, "tt4");
    assert_eq!(records[1].start_year, 0);
}

#[test]
fn an_empty_text_holds_no_record() {
    assert!(parse_titles("").is_empty());
    assert!(parse_titles("\n").is_empty());
    assert!(parse_titles("\n\n\n").is_empty());
}
