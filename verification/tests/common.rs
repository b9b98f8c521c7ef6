use voters_verdict::common::{
    accumulate_strings_with_delimiter, add_delimiter, cleanup_delimiter, from_optional_str,
    join_with, parse_small, parse_weight, Ballot, Candidate, Candidates, CastBallots, Criteria,
    Criterion, CriterionRow, EmojiCategories, EmojiCategory, Empty, Fill, IdGenerator,
    KnownBallots, Selfaware, Table, Vote, VoteTable, Voting, VotingStyles, VotingTable, Votings,
    DELIMITER,
};
use voters_verdict::error::FromErrorKind;
use voters_verdict::time::Timestamp;

fn candidate(voter: bool, id: Option<&str>, label: &str) -> Candidate {
    Candidate { voter, id: id.map(String::from), label: String::from(label) }
}

#[test]
fn delimiter_helpers() {
    assert_eq!(DELIMITER, ",-o-,");
    assert_eq!(cleanup_delimiter("a,-o-,b,-o-,c"), "a,b,c");
    assert_eq!(cleanup_delimiter("plain"), "plain");
    assert_eq!(cleanup_delimiter(",-o-,-o-,"), ",-o-,");
    assert_eq!(add_delimiter("a"), "a,-o-,");
    assert_eq!(accumulate_strings_with_delimiter("a", "b"), "a,-o-,b");
    assert_eq!(from_optional_str(Some("x")), "x");
    assert_eq!(from_optional_str(None), "");
}

#[test]
fn joining_texts() {
    let parts = vec![String::from("a"), String::from(""), String::from("c")];
    assert_eq!(join_with(&parts, "-"), "a--c");
    assert_eq!(join_with(&vec![String::from("one")], ", "), "one");
    assert_eq!(join_with(&vec![], ", "), "");
}

#[test]
fn default_styles() {
    let styles = VotingStyles::default();
    assert_eq!(styles.background, "#30363d");
    assert_eq!(styles.font, "#ff0000");
    assert_eq!(styles.selection, "white");
    assert_eq!(styles.fields, "#238636");
    assert_eq!(styles.values(), "#30363d, #ff0000, white, #238636");
}

#[test]
fn candidate_ids() {
    assert_eq!(candidate(false, None, "John Doe").generate_id(), "candidate_john-#s-doe");
    assert_eq!(candidate(true, None, "Obama").generate_id(), "voter_obama");
    assert_eq!(candidate(true, None, "Obama").get_id(), "voter_obama");
    assert_eq!(candidate(true, Some("Obama"), "Barack").get_id(), "Obama");
    assert_eq!(candidate(true, Some("Obama"), "Barack").generate_id(), "voter_barack");
    assert_eq!(candidate(false, None, "").generate_id(), "candidate_");
}

#[test]
fn labels_and_ids() {
    assert_eq!(Candidate::get_id_from_label("a b c"), "a-#s-b-#s-c");
    assert_eq!(Candidate::get_id_from_label("a-#s-b"), "a%-%b");
    assert_eq!(Candidate::get_id_from_label("plain"), "plain");
    assert_eq!(Candidate::get_label_from_id("a-#s-b-#s-c"), "a b c");
    assert_eq!(Candidate::get_label_from_id("a%-%b"), "a-#s-b");
    assert_eq!(Candidate::get_label_from_id(&Candidate::get_id_from_label("John F. Doe")), "John F. Doe");
}

#[test]
fn candidate_names_and_types() {
    assert_eq!(candidate(false, None, "Joe").get_type(), "Candidate");
    assert_eq!(candidate(true, None, "Joe").get_type(), "Voter");
    assert_eq!(candidate(true, Some("Voter_Joe"), "Joe").get_name(), "voter_joe");
    assert_eq!(candidate(true, None, "Joe").get_name(), "Joe");
}

#[test]
fn candidate_setters() {
    let mut c = Candidate::voter("Joe");
    assert!(c.voter);
    assert_eq!(c.id, None);
    assert_eq!(c.label, "Joe");
    c.set_id("voter_joe");
    assert_eq!(c.id, Some(String::from("voter_joe")));
    assert_eq!(c.label, "Joe");
    let e = Candidate::empty();
    assert!(!e.voter);
    assert_eq!(e.id, Some(String::new()));
    assert_eq!(e.label, "");
}

#[test]
fn candidate_rows() {
    assert_eq!(Candidate::properties(true), "( voter, id, label )");
    assert_eq!(Candidate::properties(false), "voter, id, label");
    let c = candidate(false, Some("candidate_joe"), "Joe");
    assert_eq!(c.values(), "false,-o-,\"candidate_joe\",-o-,\"Joe\"");
    assert_eq!(c.to_db_row(), c.values());
    assert_eq!(candidate(true, None, "Al B").values(), "true,-o-,\"voter_al-#s-b\",-o-,\"Al B\"");
    assert_eq!(Candidate::get_identity_column_name(), "id");
    assert_eq!(Candidate::get_table(true), "candidates ( voter, id, label )");
    assert_eq!(Candidate::get_table(false), "candidates");
    assert_eq!(Candidate::get_db_columns(), "voter, id, label");
    let read = Candidate::from_str("false,-o-,candidate_joe,-o-,Joe,-o-,");
    assert!(!read.voter);
    assert!(Candidate::from_str("true,-o-,voter_joe,-o-,Joe,-o-,").voter);
    assert_eq!(read.id, Some(String::from("candidate_joe")));
    assert_eq!(read.label, "Joe");
    let short = Candidate::from_str("false");
    assert!(!short.voter);
    assert!(!Candidate::from_str("").voter);
    assert_eq!(short.id, Some(String::new()));
    assert_eq!(short.label, "");
}

#[test]
fn candidates_by_role() {
    let all = || Candidates {
        candidates: vec![
            candidate(true, None, "a"),
            candidate(false, None, "b"),
            candidate(true, Some("x"), "c"),
            candidate(false, None, "d"),
        ],
    };
    let voters = all().voters();
    assert_eq!(voters.candidates.len(), 2);
    assert_eq!(voters.candidates[0].label, "a");
    assert_eq!(voters.candidates[1].label, "c");
    assert_eq!(voters.candidates[1].id, Some(String::from("x")));
    let candidates = all().candidates();
    assert_eq!(candidates.candidates.len(), 2);
    assert_eq!(candidates.candidates[0].label, "b");
    assert_eq!(candidates.candidates[1].label, "d");
    assert_eq!(Candidates::empty().candidates.len(), 0);
}

#[test]
fn criterion_ids() {
    let c = Criterion { name: String::from("Style"), min: 10, max: 15, weight: Some(50) };
    assert_eq!(c.generate_id(), "style_10_15_50");
    assert_eq!(c.get_id(), "style_10_15_50");
    let d = Criterion { name: String::from("Weather"), min: -3, max: 0, weight: None };
    assert_eq!(d.get_id(), "weather_-3_0_none");
    let one = Criterion { name: String::from("Weather"), min: -3, max: 0, weight: Some(1) };
    assert_eq!(one.get_id(), "weather_-3_0_1");
    assert!(one.get_id() != d.get_id());
    let e = Criterion { name: String::new(), min: -128, max: 127, weight: Some(-2147483648) };
    assert_eq!(e.get_id(), "_-128_127_-2147483648");
    assert_eq!(c.get_type(), "Criterion");
    assert_eq!(c.get_name(), "style");
}

#[test]
fn criterion_rows() {
    let c = Criterion { name: String::from("Style"), min: 10, max: 15, weight: Some(50) };
    assert_eq!(c.values(), "\"Style\", 10, 15, 50");
    let d = Criterion { name: String::from("Weather"), min: -3, max: 0, weight: None };
    assert_eq!(d.values(), "\"Weather\", -3, 0, NULL");
    assert_eq!(d.to_db_row(), d.values());
    assert_eq!(Criterion::properties(true), "( name, min, max, weight )");
    assert_eq!(Criterion::properties(false), "name, min, max, weight");
    assert_eq!(Criterion::get_table(true), "criteria ( name, min, max, weight )");
    assert_eq!(Criterion::get_table(false), "criteria ");
    assert_eq!(Criterion::get_identity_column_name(), "name");
    assert_eq!(Criterion::get_db_columns(), "name, min, max, weight");
    assert_eq!(
        Criterion::get_id_expression(),
        "lower(name) || '_' || min || '_' || max || '_' || ifnull(cast(weight as integer), 'none')"
    );
    assert_eq!(Candidate::get_id_expression(), "id");
    let e = Criterion::empty();
    assert_eq!((e.name.as_str(), e.min, e.max, e.weight), ("", 0, 10, None));
}

#[test]
fn criterion_from_text() {
    let c = Criterion::from_str(" Style ,-o-, 10,-o-,15 ,-o-, 50.0 ,-o-,more").ok().unwrap();
    assert_eq!((c.name.as_str(), c.min, c.max, c.weight), ("Style", 10, 15, Some(50)));
    let d = Criterion::from_str("w,-o-,-128,-o-,127,-o-,-7").ok().unwrap();
    assert_eq!((d.min, d.max, d.weight), (-128, 127, Some(-7)));
    let e = Criterion::from_str("w,-o-,0,-o-,10,-o-,NULL,-o-,").ok().unwrap();
    assert_eq!((e.name.as_str(), e.min, e.max, e.weight), ("w", 0, 10, None));
    let f = Criterion::from_str("w,-o-,0,-o-,10,-o-,1,-o-,").ok().unwrap();
    assert_eq!(f.weight, Some(1));
    for bad in ["w,-o-,1,-o-,2", "w,-o-,128,-o-,2,-o-,3", "w,-o-,1,-o-,x,-o-,3", "w,-o-,1,-o-,2,-o-,1.5", ""] {
        match Criterion::from_str(bad) {
            Err(FromErrorKind::Serialize(message)) => assert_eq!(message, "Criterion serialize failed."),
            _ => panic!("read"),
        }
    }
}

#[test]
fn numbers_from_text() {
    assert_eq!(parse_small("127"), Some(127));
    assert_eq!(parse_small("-128"), Some(-128));
    assert_eq!(parse_small("128"), None);
    assert_eq!(parse_small("+5"), Some(5));
    assert_eq!(parse_small(""), None);
    assert_eq!(parse_small("1 "), None);
    assert_eq!(parse_small("-0"), Some(0));
    assert_eq!(parse_small("007"), Some(7));
    assert_eq!(parse_small("+"), None);
    assert_eq!(parse_small("-"), None);
    assert_eq!(parse_small("--1"), None);
    assert_eq!(parse_small("+-1"), None);
    assert_eq!(parse_small("1_0"), None);
    assert_eq!(parse_small("1.0"), None);
    assert_eq!(parse_small("\u{663}"), None);
    assert_eq!(parse_small("00000000000000000000000000127"), Some(127));
    assert_eq!(parse_weight("-9223372036854775809"), None);
    assert_eq!(parse_weight("99999999999999999999999"), None);
    assert_eq!(parse_weight("50"), Some(50));
    assert_eq!(parse_weight("50.0"), Some(50));
    assert_eq!(parse_weight("2147483648"), None);
    assert_eq!(parse_weight("-2147483648.0"), Some(-2147483648));
    assert_eq!(parse_weight(".0"), None);
    assert_eq!(parse_weight("5.00"), None);
}

#[test]
fn rows_read_back() {
    for c in [
        Candidate { voter: false, id: Some(String::from("candidate_joe")), label: String::from("Joe D.") },
        Candidate { voter: true, id: Some(String::new()), label: String::new() },
        Candidate { voter: true, id: Some(String::from("voter_-o-")), label: String::from("-o-") },
    ] {
        let flag = if c.voter { "true" } else { "false" };
        let row = format!("{},-o-,{},-o-,{},-o-,", flag, c.get_id(), c.label);
        let back = Candidate::from_str(&row);
        assert_eq!((back.voter, back.id, back.label), (c.voter, c.id, c.label));
    }
    for c in [
        Criterion { name: String::from("Style"), min: -128, max: 127, weight: None },
        Criterion { name: String::from("my style"), min: 0, max: 0, weight: Some(1) },
        Criterion { name: String::new(), min: 7, max: -7, weight: Some(-2147483648) },
        Criterion { name: String::from("NULL"), min: 1, max: 2, weight: Some(2147483647) },
    ] {
        let weight = c.weight.map(|w| w.to_string()).unwrap_or(String::from("NULL"));
        let row = format!("{},-o-,{},-o-,{},-o-,{},-o-,", c.name, c.min, c.max, weight);
        let back = Criterion::from_str(&row).ok().unwrap();
        assert_eq!((back.name, back.min, back.max, back.weight), (c.name, c.min, c.max, c.weight));
    }
}

#[test]
fn criterion_and_its_row() {
    let c = Criterion { name: String::from("Style"), min: -10, max: 15, weight: Some(50) };
    let row = CriterionRow::from(c);
    assert_eq!((row.name.as_str(), row.min, row.max, row.weight), ("Style", -10, 15, Some(50)));
    assert_eq!(row.values(), "\"Style\", -10, 15, 50");
    assert_eq!(row.to_db_row(), "\"Style\", -10, 15, 50");
    let back = row.to_criterion().unwrap();
    assert_eq!((back.name.as_str(), back.min, back.max, back.weight), ("Style", -10, 15, Some(50)));
    let wide = CriterionRow { name: String::from("w"), min: 0, max: 128, weight: None };
    assert!(wide.to_criterion().is_none());
    assert_eq!(wide.values(), "\"w\", 0, 128, NULL");
    assert_eq!(CriterionRow::get_table(true), "criteria ( name, min, max, weight )");
}

#[test]
fn criteria_listing() {
    let all = Criteria {
        criterias: vec![
            Criterion { name: String::from("a"), min: 0, max: 1, weight: None },
            Criterion { name: String::from("b"), min: 2, max: 3, weight: Some(4) },
        ],
    };
    assert_eq!(all.values(), "\"a\", 0, 1, NULL,-o-,\"b\", 2, 3, 4");
    assert_eq!(all.to_db_row(), all.values());
    assert_eq!(Criteria::empty().values(), "");
    assert_eq!(all.get_id(), "Criteria");
    assert_eq!(all.generate_id(), "Criteria");
    assert_eq!(all.get_type(), "Criteria");
    assert_eq!(all.get_name(), "Criteria");
    assert_eq!(Criteria::properties(true), "( name, min, max, weight )");
    assert_eq!(Criteria::from_str("a,-o-,b").criterias.len(), 0);
    assert_eq!(Criteria::get_table(false), "criteria ");
}

#[test]
fn vote_rows() {
    let v = Vote { name: String::from("Style"), point: -7 };
    assert_eq!(v.get_name(), "style");
    assert_eq!(v.values(), "Style,-o-,-7");
    assert_eq!(Vote::properties(true), "( name, point )");
    assert_eq!(Vote::properties(false), "name, point");
    let e = Vote::empty();
    assert_eq!((e.name.as_str(), e.point), ("", 0));
    let t = VoteTable::from(v);
    assert_eq!((t.name.as_str(), t.point), ("Style", -7));
    assert_eq!(t.values(), "\"Style\",-o-,-7");
    assert_eq!(t.get_name(), "style");
    assert_eq!(VoteTable::properties(false), "name, point");
}

fn ballot(candidate: &str, points: &[i8], notes: Option<&str>, voted_on: Option<Timestamp>) -> Ballot {
    Ballot {
        candidate: String::from(candidate),
        votes: points.iter().map(|p| Vote { name: String::from("S"), point: *p }).collect(),
        notes: notes.map(String::from),
        voted_on,
    }
}

#[test]
fn ballot_rows() {
    let when = Timestamp { secs: 1431648000, nanos: 0 };
    assert_eq!(
        ballot("Joe", &[1, 2], Some("ok"), Some(when)).values(),
        "Joe,-o-,S,-o-,1,-o-,S,-o-,2,-o-,ok,-o-,2015-05-15 00:00:00 UTC"
    );
    assert_eq!(ballot("Joe", &[], None, None).values(), "Joe,-o-,,-o-,no-notes,-o-,n/a");
    let never = Timestamp { secs: i64::MIN, nanos: 0 };
    assert_eq!(ballot("Joe", &[3], None, Some(never)).values(), "Joe,-o-,S,-o-,3,-o-,no-notes,-o-,n/a");
    let known = KnownBallots {
        voter: String::from("Obama"),
        ballots: vec![ballot("Joe", &[1], None, None), ballot("Doe", &[2], None, None)],
    };
    assert_eq!(known.get_name(), "obama");
    assert_eq!(
        known.values(),
        "Obama,-o-,Joe,-o-,S,-o-,1,-o-,no-notes,-o-,n/a,-o-,Doe,-o-,S,-o-,2,-o-,no-notes,-o-,n/a"
    );
    let e = KnownBallots::empty();
    assert_eq!(e.voter, "");
    assert_eq!(e.ballots.len(), 0);
}

#[test]
fn cast_ballots_ids() {
    let full = CastBallots {
        voting: Some(String::from("Voting")),
        ballots: vec![KnownBallots {
            voter: String::from("Obama"),
            ballots: vec![ballot("Joe", &[1], None, None), ballot("Doe", &[1], None, None)],
        }],
    };
    assert_eq!(full.generate_id(), "voting-obama-joe");
    assert_eq!(full.get_id(), "voting-obama-joe");
    let no_ballot = CastBallots {
        voting: Some(String::from("Voting")),
        ballots: vec![KnownBallots { voter: String::from("Obama"), ballots: vec![] }],
    };
    assert_eq!(no_ballot.get_id(), "voting-obama");
    let nameless = CastBallots { voting: None, ballots: vec![] };
    assert_eq!(nameless.get_id(), "dummy-voting-index");
    assert_eq!(CastBallots::empty().get_id(), "-index");
    let listing = CastBallots { voting: Some(String::from("Voting")), ballots: vec![] };
    assert_eq!(listing.get_id(), "voting-index");
    assert_eq!(full.get_type(), "CBallots");
    assert_eq!(full.get_name(), "CBallots");
}

#[test]
fn cast_ballots_rows() {
    let columns = "human_identifier, candidate, voter, sum, weighted, mean, notes, votes, voted_on";
    assert_eq!(CastBallots::properties(false), columns);
    assert_eq!(CastBallots::properties(true), format!("( {} )", columns));
    assert_eq!(CastBallots::get_table(true), format!("ballots( {} )", columns));
    assert_eq!(CastBallots::get_table(false), "ballots");
    assert_eq!(CastBallots::get_db_columns(), columns);
    assert_eq!(CastBallots::get_identity_column_name(), "human_identifier");
    assert_eq!(CastBallots::empty().to_db_row(), "");
    assert_eq!(CastBallots::get_id_expression(), "human_identifier");
    let e = CastBallots::empty();
    assert_eq!(e.voting, Some(String::new()));
    assert_eq!(e.ballots.len(), 0);
}

#[test]
fn voting_names() {
    let voting = Voting::blank("My Voting", Timestamp { secs: 5, nanos: 6 });
    assert_eq!(voting.name, "My Voting");
    assert_eq!(voting.created_at, Some(Timestamp { secs: 5, nanos: 6 }));
    assert_eq!(voting.expires_at, Some(Timestamp { secs: 5, nanos: 6 }));
    assert_eq!(voting.candidates.len(), 0);
    assert_eq!(voting.categories.len(), 0);
    assert_eq!(voting.styles.background, "#30363d");
    assert_eq!(voting.invite_code, "access");
    assert_eq!(voting.get_id(), "my voting");
    assert_eq!(voting.generate_id(), "my voting");
    assert_eq!(voting.get_name(), "my voting");
    assert_eq!(voting.get_type(), "voting");
    let empty = Voting::empty();
    assert_eq!(empty.name, "Empty");
    assert_eq!(empty.invite_code, "access");
    assert!(empty.created_at.is_some());
    assert_eq!(empty.created_at, empty.expires_at);
    assert_eq!(Voting::confident_voting("x").name, "x");
    assert_eq!(
        Voting::properties(true),
        "( name, expires_at, created_at, candidates, categories, styles, invite_code )"
    );
    assert_eq!(
        Voting::properties(false),
        "name, expires_at, created_at, candidates, categories, styles, invite_code"
    );
}

#[test]
fn votings_listing() {
    let all = Votings::empty();
    assert_eq!(all.votings.len(), 0);
    assert_eq!(all.get_id(), "Votings");
    assert_eq!(all.generate_id(), "Votings");
    assert_eq!(all.get_type(), "Votings");
    assert_eq!(all.get_name(), "Votings");
    assert_eq!(Votings::from_str("a,-o-,b").votings.len(), 0);
}

#[test]
fn lookup_ids() {
    assert_eq!(<Voting as Fill>::convert("Style_0_10", "criteria"), "style_0_10");
    assert_eq!(<Voting as Fill>::convert("Joe", "candidate"), "candidate_joe");
    assert_eq!(<Voting as Fill>::convert("My Voting", "voting"), "my voting");
    assert_eq!(<CastBallots as Fill>::convert("Voting-A-B", "CBallots"), "voting-a-b");
    assert_eq!(Candidate::fill_id("Joe"), "candidate_joe");
}

#[test]
fn emoji_rows() {
    let smileys = EmojiCategory::new("smileys", &vec![String::from(":)"), String::from(":D")]);
    assert_eq!(smileys.name, "smileys");
    assert_eq!(smileys.emojis, vec![":)", ":D"]);
    assert_eq!(smileys.values(), "smileys,-o-,:),-o-,:D");
    assert_eq!(EmojiCategory::properties(true), "( name, emojis )");
    assert_eq!(EmojiCategory::properties(false), "name, emojis");
    assert_eq!(EmojiCategory::get_identity_column_name(), "name");
    let hands = EmojiCategory::new("hands", &vec![]);
    assert_eq!(hands.values(), "hands,-o-,");
    let all = EmojiCategories { emojis: vec![smileys, hands] };
    assert_eq!(all.values(), "smileys,-o-,:),-o-,:D,-o-,hands,-o-,");
    assert_eq!(all.to_db_row(), all.values());
    assert_eq!(all.get_id(), "emojis");
    assert_eq!(all.get_type(), "emojis");
    assert_eq!(all.get_name(), "emojis");
    assert_eq!(EmojiCategories::get_table(true), "emojis( name, emojis )");
    assert_eq!(EmojiCategories::get_table(false), "emojis");
    assert_eq!(EmojiCategories::get_db_columns(), "name, emojis");
    assert_eq!(EmojiCategories::empty().emojis.len(), 0);
    assert_eq!(EmojiCategories::from_str("x").emojis.len(), 0);
}

#[test]
fn voting_rows() {
    let row = VotingTable {
        name: String::from("Voting"),
        expires_at: Timestamp { secs: 1431648000, nanos: 0 },
        created_at: Timestamp { secs: 1431648001, nanos: 500_000_000 },
        candidates: String::from("[]"),
        categories: String::from("[1]"),
        styles: String::from("{}"),
        invite_code: String::from("T1234"),
    };
    assert_eq!(row.get_name(), "voting");
    assert_eq!(
        row.values(),
        Some(String::from(
            "\"Voting\", '2015-05-15 00:00:00 UTC', '2015-05-15 00:00:01.500 UTC', '[]', '[1]', '{}', 'T1234'"
        ))
    );
    assert_eq!(VotingTable::properties(false), Voting::properties(false));
    let text = "Voting,-o-,2015-05-15T00:00:00Z,-o-,2015-05-15 00:00:01.5+00:00,-o-,[],-o-,[1],-o-,{},-o-,T1234";
    let read = VotingTable::from_str(text).ok().unwrap();
    assert_eq!(read.name, "Voting");
    assert_eq!(read.expires_at, row.expires_at);
    assert_eq!(read.created_at, row.created_at);
    assert_eq!(read.candidates, "[]");
    assert_eq!(read.categories, "[1]");
    assert_eq!(read.styles, "{}");
    assert_eq!(read.invite_code, "T1234");
    for bad in ["Voting,-o-,a,-o-,b", "Voting,-o-,soon,-o-,2015-05-15T00:00:00Z,-o-,[],-o-,[1],-o-,{},-o-,T1234"] {
        match VotingTable::from_str(bad) {
            Err(FromErrorKind::Serialize(message)) => assert_eq!(message, "Voting serialize failed."),
            _ => panic!("read"),
        }
    }
    let voting = Voting::from(read, None, Some(vec![Criterion::empty()]), None);
    assert_eq!(voting.name, "Voting");
    assert_eq!(voting.expires_at, Some(row.expires_at));
    assert_eq!(voting.candidates.len(), 0);
    assert_eq!(voting.categories.len(), 1);
    assert_eq!(voting.styles.font, "#ff0000");
    assert_eq!(voting.invite_code, "T1234");
    let back = VotingTable::from(&voting, String::from("c"), String::from("k"), String::from("s")).unwrap();
    assert_eq!(back.candidates, "c");
    assert_eq!(back.categories, "k");
    assert_eq!(back.styles, "s");
    assert_eq!(back.created_at, row.created_at);
    let undated = Voting { expires_at: None, ..voting };
    assert!(VotingTable::from(&undated, String::new(), String::new(), String::new()).is_none());
}
