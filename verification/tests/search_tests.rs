use minigrep::count;
use minigrep::search;
use minigrep::search_case_insensitive;

#[test]
fn case_sensitive() {
    let query = "duct";
    let contents = "\
Rust:
safe, fast, productive.
Pick three.
Duct tape.";

    assert_eq!(vec!["safe, fast, productive."], search(query, contents));
}

#[test]
fn case_insensitive() {
    let query = "rUsT";
    let contents = "\
Rust:
safe, fast, productive.
Pick three.
Trust me.";

    assert_eq!(
        vec!["Rust:", "Trust me."],
        search_case_insensitive(query, contents)
    );
}

#[test]
fn is_count() {
    let results: Vec<&str> = vec!["I'm a result!"];

    assert_eq!("1", count(&results));
}

#[test]
fn insensitive_count_at_least_sensitive() {
    let contents = "Rust:\nsafe, fast, productive.\nPick three.\nTrust me.";
    let query = "rUsT";
    let sensitive = search(query, contents);
    let insensitive = search_case_insensitive(query, contents);
    assert!(insensitive.len() >= sensitive.len());
    assert_eq!(0, sensitive.len());
    assert_eq!("2", count(&insensitive));
}

#[test]
fn empty_content_matches_nothing() {
    let empty: Vec<&str> = Vec::new();
    assert_eq!(empty, search("a", ""));
    assert_eq!("0", count(&search("a", "")));
}

#[test]
fn empty_query_matches_every_line() {
    assert_eq!(vec!["one", "two", ""], search("", "one\ntwo\n\n"));
}

#[test]
fn trailing_line_without_newline_is_searched() {
    assert_eq!(vec!["tail"], search("tail", "head\ntail"));
}

#[test]
fn final_newline_adds_no_line() {
    assert_eq!(vec!["only"], search("only", "only\n"));
    assert_eq!(vec!["only"], search("", "only\n"));
}

#[test]
fn carriage_return_is_not_part_of_the_line() {
    assert_eq!(vec!["mix"], search("mix", "mix\r\nother"));
    assert_eq!(vec!["mix", "other"], search("", "mix\r\nother"));
}

#[test]
fn bare_final_carriage_return_is_kept() {
    assert_eq!(vec!["head", "tail\r"], search("", "head\ntail\r"));
    assert_eq!(vec!["tail\r"], search("\r", "head\ntail\r"));
}

#[test]
fn repeated_search_is_identical() {
    let contents = "alpha\nbeta\ngamma";
    let first = search("a", contents);
    let second = search("a", contents);
    assert_eq!(first, second);
    assert_eq!(count(&first), count(&second));
}

#[test]
fn matches_keep_document_order_and_duplicates() {
    let contents = "dup\nother\ndup";
    assert_eq!(vec!["dup", "dup"], search("dup", contents));
}

#[test]
fn insensitive_returns_original_text() {
    assert_eq!(vec!["ShOuT"], search_case_insensitive("shout", "ShOuT"));
}
