use voters_verdict::common::{Ballot, Candidate, Criterion, Vote, VoteKind, Voting, VotingStyles};
use voters_verdict::criteria::{get_criterion, post_criterion};
use voters_verdict::error::VoteErrorKind;
use voters_verdict::routes::Status;
use voters_verdict::validator::{
    compare_pattern_file_names, compare_styles_file_names, is_correct_formated_value,
    validate, validate_candidate, validate_notes, validate_points, validate_requested_voting,
    validate_voter_name, validate_voting, PATTERN,
};

fn texts(items: &[&str]) -> Vec<String> {
    items.iter().map(|s| String::from(*s)).collect()
}

fn voting() -> Voting {
    Voting {
        name: String::from("Voting"),
        expires_at: None,
        created_at: None,
        candidates: vec![
            Candidate { voter: false, id: Some(String::from("candidate_joe")), label: String::from("Joe") },
            Candidate { voter: true, id: Some(String::from("voter_obama")), label: String::from("Obama") },
            Candidate { voter: false, id: None, label: String::from("Nameless") },
        ],
        categories: vec![
            Criterion { name: String::from("Weather"), min: 0, max: 15, weight: Some(15) },
            Criterion { name: String::from("Style"), min: 0, max: 10, weight: Some(15) },
        ],
        styles: VotingStyles::default(),
        invite_code: String::from("T1234"),
    }
}

fn ballot(candidate: &str, names: &[&str], notes: Option<&str>) -> Ballot {
    Ballot {
        candidate: String::from(candidate),
        votes: names.iter().map(|n| Vote { name: String::from(*n), point: 1 }).collect(),
        notes: notes.map(String::from),
        voted_on: None,
    }
}

#[test]
fn test_string_compare() {
    assert_eq!(compare_styles_file_names("test_0_15_15", "test"), true);
    assert_eq!(compare_styles_file_names("test_0_15_15", "Test_0"), true);
    assert_eq!(compare_styles_file_names("test_0_15_15", "test_0"), true);
    assert_eq!(compare_styles_file_names("test_0_15_15", "test_0_15"), true);
}

#[test]
fn names_that_do_not_start_alike() {
    assert!(!compare_styles_file_names("test_0_15_15", "est"));
    assert!(!compare_styles_file_names("test", "test_0"));
    assert!(compare_styles_file_names("TEST", ""));
    assert!(compare_pattern_file_names("Obama", "oba"));
    assert!(compare_pattern_file_names("obama", "OBAMA"));
    assert!(!compare_pattern_file_names("obama", "michelle"));
}

#[test]
fn accepted_forms() {
    assert_eq!(PATTERN, r"[a-zA-Z0-9\.\!-\?]+");
    assert!(validate_requested_voting("voting"));
    assert!(validate_requested_voting("Voting.1"));
    assert!(!validate_requested_voting(""));
    assert!(!validate_requested_voting("{}"));
    assert!(validate_requested_voting("{a}"));
    assert!(validate_voter_name("obama"));
    assert!(validate_voter_name("<o>"));
    assert!(!validate_voter_name(""));
    assert!(!validate_voter_name("_ _"));
    assert!(validate_candidate("candidate_joe"));
    assert!(!validate_candidate("__"));
    assert!(validate_notes(&None));
    assert!(validate_notes(&Some(String::from("well done"))));
    assert!(validate_notes(&Some(String::from("  "))));
    assert!(!validate_notes(&Some(String::new())));
    assert!(is_correct_formated_value("abc", Some("^a")));
    assert!(!is_correct_formated_value("bcd", Some("^a")));
    assert!(!is_correct_formated_value("abc", Some("(")));
    assert!(is_correct_formated_value("x", None));
}

#[test]
fn listed_votings() {
    let index = texts(&["other", "Voting"]);
    assert!(validate_voting("voting", &index));
    assert!(validate_voting("VOTING", &index));
    assert!(!validate_voting("votin", &index));
    assert!(!validate_voting("voting", &vec![]));
}

fn scored(candidate: &str, points: &[(&str, i8)]) -> Ballot {
    Ballot {
        candidate: String::from(candidate),
        votes: points.iter().map(|(n, p)| Vote { name: String::from(*n), point: *p }).collect(),
        notes: None,
        voted_on: None,
    }
}

#[test]
fn points_of_a_ballot() {
    let v = voting();
    assert!(validate_points(&v, &scored("candidate_joe", &[("Style", 0), ("Weather", 15)])));
    assert!(validate_points(&v, &scored("candidate_joe", &[("Weather", 7), ("Style", 10)])));
    assert!(validate_points(&v, &scored("candidate_joe", &[("Style", 5)])));
    assert!(validate_points(&v, &scored("candidate_joe", &[])));
    assert!(!validate_points(&v, &scored("candidate_joe", &[("Style", 11)])));
    assert!(!validate_points(&v, &scored("candidate_joe", &[("Style", -1)])));
    assert!(!validate_points(&v, &scored("candidate_joe", &[("Weather", 16)])));
    assert!(!validate_points(&v, &scored("candidate_joe", &[("Style", 5), ("Weather", 16)])));
    assert!(!validate_points(&v, &scored("candidate_joe", &[("Colour", 1), ("Style", 1)])));
    assert!(!validate_points(&v, &scored("candidate_doe", &[("Colour", 1)])));
    assert!(!validate_points(&v, &scored("candidate_doe", &[("style", 1)])));
}

#[test]
fn validation_of_entities() {
    let v = voting();
    let index = texts(&["voting"]);
    let good = VoteKind::Ballot(ballot("candidate_joe", &["Style", "Weather"], Some("fine")));
    assert_eq!(validate(&good, "Voting", "obama", &index, &v), Ok(true));
    assert_eq!(validate(&good, "", "obama", &index, &v), Err(Status::UnprocessableEntity));
    assert_eq!(validate(&good, "Other", "obama", &index, &v), Err(Status::UnprocessableEntity));
    assert_eq!(validate(&good, "Voting", "", &index, &v), Err(Status::UnprocessableEntity));
    let nameless = VoteKind::Ballot(ballot("", &["Style", "Weather"], None));
    assert_eq!(validate(&nameless, "Voting", "obama", &index, &v), Err(Status::UnprocessableEntity));
    let noted = VoteKind::Ballot(ballot("candidate_joe", &["Style", "Weather"], Some("")));
    assert_eq!(validate(&noted, "Voting", "obama", &index, &v), Err(Status::UnprocessableEntity));
    let unknown = VoteKind::Ballot(ballot("candidate_doe", &["Colour"], None));
    assert_eq!(validate(&unknown, "Voting", "obama", &index, &v), Err(Status::UnprocessableEntity));
    let high = VoteKind::Ballot(scored("candidate_joe", &[("Style", 11)]));
    assert_eq!(validate(&high, "Voting", "obama", &index, &v), Err(Status::UnprocessableEntity));
    let other = VoteKind::Criterion(Criterion { name: String::new(), min: 0, max: 0, weight: None });
    assert_eq!(validate(&other, "", "", &vec![], &v), Ok(true));
    assert_eq!(validate(&VoteKind::Voting(voting()), "", "", &vec![], &v), Ok(true));
}

#[test]
fn criteria_by_name() {
    let index = texts(&["style_0_10_15", "weather_0_15_15", "style_10_15_50"]);
    assert_eq!(get_criterion(&index, "Style"), vec!["style_0_10_15", "style_10_15_50"]);
    assert_eq!(get_criterion(&index, "Style_10"), vec!["style_10_15_50"]);
    assert_eq!(get_criterion(&index, "colour").len(), 0);
    assert_eq!(get_criterion(&index, "").len(), 3);
}

#[test]
fn answers_to_stored_criteria() {
    assert_eq!(
        post_criterion(Ok(String::from("style_10_15_50"))).ok(),
        Some(String::from("style_10_15_50"))
    );
    let twice = VoteErrorKind::Conflict(String::from("Criterion already exist."));
    let conflict = post_criterion(Err(twice)).err().unwrap();
    assert_eq!(conflict.status, Status::Conflict);
    assert_eq!(conflict.message, "Criterion already exist.");
    let down = post_criterion(Err(VoteErrorKind::IO(String::from("disk full")))).err().unwrap();
    assert_eq!(down.status, Status::InternalServerError);
    assert_eq!(down.message, "disk full");
}
