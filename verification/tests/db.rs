use voters_verdict::common::{Candidate, Criterion, Voting};
use voters_verdict::time::Timestamp;
use voters_verdict::db::common::{Query, UpdatePlan};
use voters_verdict::db::sqlite::EmptySelectable;
use voters_verdict::db::sqlx_sqlite::{
    column_type, get_column_value_by_column_name, get_columns, is_ascending, is_unique,
    is_unique_sql, list_row, list_rows_sql, listed_columns, save, save_sql, select, select_sql,
    strip_tail, update, update_sql, ColumnType, Pair,
};
use voters_verdict::error::VoteErrorKind;

fn texts(items: &[&str]) -> Vec<String> {
    items.iter().map(|s| String::from(*s)).collect()
}

fn pair(column: &str, value: &str) -> Pair {
    Pair { column: String::from(column), value: String::from(value) }
}

#[test]
fn selected_or_blank() {
    let found = Voting::blank("Found", Timestamp { secs: 1, nanos: 2 });
    assert_eq!(Voting::query_voting(Some(found)).name, "Found");
    assert_eq!(Voting::query_voting(None).name, "Empty");
}

#[test]
fn columns() {
    assert_eq!(get_columns("name, min, max"), vec!["name", " min", " max"]);
    assert_eq!(get_columns(""), vec![""]);
    assert_eq!(get_columns("a,"), vec!["a", ""]);
    assert_eq!(listed_columns("name, min , max"), vec!["name", "min", "max"]);
    assert_eq!(column_type("criteria", "min"), ColumnType::Integer);
    assert_eq!(column_type("criteria", "max"), ColumnType::Integer);
    assert_eq!(column_type("ballots", "sum"), ColumnType::Integer);
    assert_eq!(column_type("criteria", "weight"), ColumnType::Real);
    assert_eq!(column_type("ballots", "weighted"), ColumnType::Real);
    assert_eq!(column_type("ballots", "mean"), ColumnType::Real);
    assert_eq!(column_type("candidates", "voter"), ColumnType::Flag);
    assert_eq!(column_type("ballots", "voter"), ColumnType::Text);
    assert_eq!(column_type("candidates", "label"), ColumnType::Text);
    assert_eq!(get_column_value_by_column_name("Joe"), "Joe,-o-,");
}

#[test]
fn uniqueness() {
    assert_eq!(
        is_unique_sql("votings", "name", "voting"),
        "SELECT name  FROM votings WHERE name = 'voting'"
    );
    assert!(!is_unique(Some(1)));
    assert!(is_unique(Some(0)));
    assert!(!is_unique(Some(2)));
    assert!(!is_unique(None));
}

#[test]
fn update_statements() {
    assert_eq!(
        update_sql("votings", &vec![pair("expires_at", "now")], "name", "voting"),
        Some(String::from("UPDATE votings SET expires_at = 'now' WHERE name = 'voting'"))
    );
    assert_eq!(
        update_sql("criteria", &vec![pair("a", "1"), pair("b", "2,")], "name", "style_0_1"),
        Some(String::from("UPDATE criteria SET a = '1',b = '2,' WHERE name = 'style_0_1'"))
    );
    assert_eq!(update_sql("votings", &vec![], "name", "voting"), None);
    assert_eq!(update(1).ok(), Some(true));
    assert_eq!(update(9).ok(), Some(true));
    match update(0) {
        Err(VoteErrorKind::Conflict(message)) => {
            assert_eq!(message, "Hit multiple rows.Not detailed enough")
        }
        _ => panic!("updated"),
    }
}

#[test]
fn order_of_columns() {
    assert!(is_ascending(&vec![]));
    assert!(is_ascending(&vec![pair("b", "1")]));
    assert!(is_ascending(&vec![pair("a", "1"), pair("b", "2"), pair("ba", "3"), pair("c", "")]));
    assert!(is_ascending(&vec![pair("", "1"), pair("A", "2"), pair("a", "3"), pair("ä", "4")]));
    assert!(!is_ascending(&vec![pair("b", "1"), pair("a", "2")]));
    assert!(!is_ascending(&vec![pair("a", "1"), pair("a", "2")]));
    assert!(!is_ascending(&vec![pair("a", "1"), pair("c", "2"), pair("b", "3")]));
    assert!(!is_ascending(&vec![pair("ab", "1"), pair("a", "2")]));
}

#[test]
fn columns_without_white_space() {
    assert_eq!(listed_columns(" a ,\tb\n,\u{a0}c\u{3000},\u{2003}d\u{85}"), vec!["a", "b", "c", "d"]);
    assert_eq!(listed_columns("\u{200b}a,b\u{180e},  , x y "), vec!["\u{200b}a", "b\u{180e}", "", "x y"]);
}

#[test]
fn select_statements() {
    assert_eq!(
        select_sql("criteria", "name, min", "name", "style_0_10"),
        "SELECT name, min FROM criteria WHERE name = 'style_0_10'"
    );
    assert_eq!(select(Some(texts(&["a", "b"]))), vec!["a,-o-,", "b,-o-,"]);
    assert_eq!(select(Some(vec![])).len(), 0);
    assert_eq!(select(None).len(), 0);
}

#[test]
fn listings() {
    assert_eq!(list_rows_sql("criteria", "name, min"), "SELECT name, min FROM criteria ");
    assert_eq!(list_row(&texts(&["style", "0", "10", "15"]), true), "style_0_10_15");
    assert_eq!(list_row(&texts(&["a,b", "c"]), true), "a_b_c");
    assert_eq!(list_row(&texts(&["style", "0"]), false), "style");
    assert_eq!(list_row(&texts(&["a_"]), false), "a_");
    assert_eq!(list_row(&texts(&[]), true), "");
    assert_eq!(list_row(&texts(&[]), false), "");
    assert_eq!(list_row(&texts(&[""]), true), "");
    assert_eq!(strip_tail(String::from("a_,")), "a_");
    assert_eq!(strip_tail(String::from("a,_")), "a");
    assert_eq!(strip_tail(String::from("a")), "a");
    assert_eq!(strip_tail(String::from("a__")), "a_");
}

#[test]
fn inserts() {
    assert_eq!(
        save_sql("candidates ( voter, id, label )", "true,-o-,\"voter_joe\",-o-,\"Joe\""),
        "INSERT into candidates ( voter, id, label ) VALUES (true,\"voter_joe\",\"Joe\")"
    );
    assert_eq!(save("row", None).ok(), Some(String::from("row")));
    match save("row", Some(String::from("locked"))) {
        Err(VoteErrorKind::DB(message)) => assert_eq!(message, "locked"),
        _ => panic!("saved"),
    }
}

#[test]
fn queries_of_an_entity() {
    let id_of = "lower(name) || '_' || min || '_' || max || '_' || ifnull(cast(weight as integer), 'none')";
    let criterion = Criterion { name: String::from("Style"), min: 10, max: 15, weight: Some(50) };
    let other = Criterion { name: String::from("Style"), min: 0, max: 10, weight: Some(15) };
    let bare = Criterion { name: String::from("Style"), min: 10, max: 15, weight: None };
    assert_eq!(<Criterion as Query>::get_dir(), "dummy");
    assert_eq!(
        criterion.is_unique_sql("style_10_15_50"),
        format!("SELECT {}  FROM criteria  WHERE {} = 'style_10_15_50'", id_of, id_of)
    );
    assert_eq!(
        Query::is_unique(&criterion, "style_10_15_50", Some(1)).ok(),
        Some(String::from("style_10_15_50"))
    );
    assert!(Query::is_unique(&criterion, "style_10_15_50", Some(2)).is_ok());
    match Query::is_unique(&criterion, "style_10_15_50", Some(0)) {
        Err(VoteErrorKind::NotFound(message)) => assert_eq!(message, "Not found"),
        _ => panic!("taken"),
    }
    match Query::is_unique(&criterion, "style_10_15_50", None) {
        Err(VoteErrorKind::DB(message)) => assert_eq!(message, "The database did not answer."),
        _ => panic!("answered"),
    }
    assert_eq!(criterion.list_rows_sql(), "SELECT name, min, max, weight FROM criteria  ");
    assert_eq!(criterion.list_rows(Some(texts(&["a"]))), Ok(texts(&["a"])));
    assert_eq!(criterion.list_rows(None), Err(String::from("No entries")));
    assert_eq!(
        criterion.select_sql(),
        format!("SELECT name, min, max, weight FROM criteria  WHERE {} = 'style_10_15_50'", id_of)
    );
    assert_eq!(
        other.select_sql(),
        format!("SELECT name, min, max, weight FROM criteria  WHERE {} = 'style_0_10_15'", id_of)
    );
    assert_eq!(
        bare.select_sql(),
        format!("SELECT name, min, max, weight FROM criteria  WHERE {} = 'style_10_15_none'", id_of)
    );
    assert!(criterion.select_sql() != other.select_sql());
    assert_eq!(
        Query::save(&criterion, &vec![]).ok(),
        Some(String::from(
            "INSERT into criteria ( name, min, max, weight ) VALUES (\"Style\", 10, 15, 50)"
        ))
    );
    assert_eq!(
        Query::save(&bare, &vec![]).ok(),
        Some(String::from(
            "INSERT into criteria ( name, min, max, weight ) VALUES (\"Style\", 10, 15, NULL)"
        ))
    );
    match Query::save(&criterion, &texts(&["row"])) {
        Err(VoteErrorKind::Conflict(message)) => assert_eq!(message, "Already exist."),
        _ => panic!("saved"),
    }
    assert_eq!(criterion.saved(None).ok(), Some(String::from("style_10_15_50")));
    match criterion.saved(Some(VoteErrorKind::DB(String::from("locked")))) {
        Err(VoteErrorKind::DB(message)) => assert_eq!(message, "locked"),
        _ => panic!("saved"),
    }
    assert!(matches!(Query::update(&criterion, &vec![]), UpdatePlan::Insert));
    match Query::update(&criterion, &vec![pair("max", "20")]) {
        UpdatePlan::Update(sql) => assert_eq!(
            sql,
            format!("UPDATE criteria  SET max = '20' WHERE {} = 'style_10_15_50'", id_of)
        ),
        UpdatePlan::Insert => panic!("insert"),
    }
    let candidate = Candidate { voter: false, id: Some(String::from("candidate_joe")), label: String::from("Joe") };
    assert_eq!(
        candidate.select_sql(),
        "SELECT voter, id, label FROM candidates WHERE id = 'candidate_joe'"
    );
}
