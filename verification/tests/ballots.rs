use voters_verdict::ballots::{
    ballots_by_candidate as rows_by_candidate, ballots_by_voted_on as rows_by_voted_on,
    ballots_by_voter as rows_by_voter, ballots_sorted as rows_sorted, cast_ballot,
    collect_ballots as collect_rows, filter_by_candidate, filter_by_voter, has_votes, map_ballot,
    map_ballots, mean_precedes, post_ballot, precedes, rows_of_poll, same_poll, select_cast_ids,
    sort_key, sort_rows, sum_up_sum, sum_up_weight, tally_ballot, verify_correct_voting_id as scoped_table, weighted_contribution,
    BallotsTable, CompleteBallotsTable, Mean, SortKey, Table, TableRow, TallyError, Voter,
};
use voters_verdict::common::{
    Ballot, CastBallots, Criterion, IdGenerator, KnownBallots, Table as DbTable, Vote, Voting,
    VotingStyles,
};
use voters_verdict::error::{FromErrorKind, VoteErrorKind};
use voters_verdict::routes::Status;
use voters_verdict::time::Timestamp;

fn voting_named(name: &str) -> Voting {
    Voting {
        name: String::from(name),
        expires_at: None,
        created_at: None,
        candidates: vec![],
        categories: vec![],
        styles: VotingStyles::default(),
        invite_code: String::from("T1234"),
    }
}

fn criterion(name: &str, weight: Option<i32>) -> Criterion {
    Criterion { name: String::from(name), min: 0, max: 15, weight }
}

fn vote(name: &str, point: i8) -> Vote {
    Vote { name: String::from(name), point }
}

fn at(second: i64) -> Timestamp {
    Timestamp { secs: 1_700_000_000 + second, nanos: 0 }
}

fn unit(voter: &str, candidate: &str, style: i8, weather: i8, second: i64) -> CastBallots {
    CastBallots {
        voting: Some(String::from("Voting")),
        ballots: vec![KnownBallots {
            voter: String::from(voter),
            ballots: vec![Ballot {
                candidate: String::from(candidate),
                votes: vec![vote("Style", style), vote("Weather", weather)],
                notes: None,
                voted_on: Some(at(second)),
            }],
        }],
    }
}

fn stored_voting() -> Voting {
    let mut voting = voting_named("Voting");
    voting.categories = vec![criterion("Style", Some(15)), criterion("Weather", Some(15))];
    voting
}

fn stored_units() -> Vec<CastBallots> {
    vec![
        unit("Obama", "Joe", 5, 7, 2),
        unit("Michelle", "Joe", 6, 8, 3),
        unit("Obama", "Doe", 8, 7, 1),
    ]
}

fn row(voter: &str, candidate: &str, sum: i128, second: i64) -> TableRow {
    TableRow {
        voting: String::from("voting"),
        voter: String::from(voter),
        candidate: String::from(candidate),
        sum,
        weighted: sum * 10,
        mean: Mean { total: sum, count: 1 },
        notes: String::from("n/a"),
        votes: vec![],
        voted_on: at(second),
    }
}

fn sums(rows: &Vec<TableRow>) -> Vec<i128> {
    rows.iter().map(|r| r.sum).collect()
}

#[test]
fn verify_correct_voting_id() {
    let voting = voting_named("Voting");
    let response = scoped_table(voting, "voting", vec![]);
    assert_eq!(response.headers.len(), 0);
    assert_eq!(response.rows.len(), 0);
}

#[test]
fn verify_correct_voting_id_with_rows() {
    let voting = voting_named("Voting");
    let rows = vec![TableRow {
        voting: String::from("voting"),
        voter: String::from("test"),
        candidate: String::from("test"),
        sum: 9,
        weighted: 90,
        notes: String::from("note"),
        mean: Mean { total: 1, count: 1 },
        votes: vec![],
        voted_on: Timestamp::now(),
    }];
    let response = scoped_table(voting, "voting", rows);
    assert_eq!(response.headers.len(), 0);
    assert_eq!(response.rows.len(), 1);
}

#[test]
fn get_ballots_by_voting_by_lowercase_candidates() {
    let cast = stored_units();
    assert!(has_votes(&cast));
    let table = rows_by_candidate(stored_voting(), "Voting", "doe", cast).unwrap();
    assert_eq!(table.rows.len(), 1);
    assert_eq!(table.rows.get(0).unwrap().sum, 15);
}

#[test]
fn get_ballots_by_voting_by_uppercase_candidates() {
    let cast = stored_units();
    assert!(has_votes(&cast));
    let table = rows_by_candidate(stored_voting(), "Voting", "Doe", cast).unwrap();
    assert_eq!(table.rows.len(), 1);
    assert_eq!(table.rows.get(0).unwrap().sum, 15);
}

#[test]
fn scoped_table_keeps_headers_of_the_poll_asked_for() {
    let mut voting = voting_named("Voting");
    voting.categories = vec![criterion("A", None)];
    let response = scoped_table(voting, "VOTING", vec![row("a", "b", 1, 0)]);
    assert_eq!(response.headers.len(), 1);
    assert_eq!(response.rows.len(), 1);
}

#[test]
fn scoped_table_of_another_poll_is_empty() {
    let mut voting = voting_named("Other");
    voting.categories = vec![criterion("A", None), criterion("B", None)];
    let response = scoped_table(voting, "voting", vec![row("a", "b", 1, 0)]);
    assert_eq!(response.headers.len(), 0);
    assert_eq!(response.rows.len(), 0);
}

#[test]
fn collect_of_another_poll_is_empty() {
    let mut voting = stored_voting();
    voting.name = String::from("Other");
    let table = collect_rows(voting, "voting", stored_units()).unwrap();
    assert_eq!(table.headers.len(), 0);
    assert_eq!(table.rows.len(), 0);
}

fn tally(votes: Vec<Vote>, categories: &Vec<Criterion>) -> Result<(i128, i128), TallyError> {
    let ballot =
        Ballot { candidate: String::from("Joe"), votes, notes: None, voted_on: Some(at(0)) };
    tally_ballot(&ballot, categories).map(|t| (t.sum, t.weighted))
}

#[test]
fn sum_of_three_votes() {
    let votes = vec![vote("A", 3), vote("B", 5), vote("C", 4)];
    let categories = vec![criterion("A", None), criterion("B", None), criterion("C", None)];
    assert_eq!(tally(votes, &categories), Ok((12, 120)));
}

#[test]
fn sum_of_negative_points() {
    let votes = vec![vote("A", -128), vote("A", -128), vote("A", 127)];
    assert_eq!(tally(votes, &vec![criterion("A", Some(-3))]), Ok((-129, 387)));
}

#[test]
fn mean_of_three_votes() {
    let ballot = Ballot {
        candidate: String::from("Joe"),
        votes: vec![vote("A", 3), vote("B", 5), vote("C", 4)],
        notes: None,
        voted_on: Some(at(0)),
    };
    let categories = vec![criterion("A", None), criterion("B", None), criterion("C", None)];
    let tally = tally_ballot(&ballot, &categories).unwrap();
    assert_eq!(tally.sum, 12);
    assert_eq!(tally.mean, Mean { total: 12, count: 3 });
    assert_eq!(tally.mean.total as f64 / tally.mean.count as f64, 4.0);
    assert_eq!(tally.notes, "n/a");
}

#[test]
fn weighted_score_of_three_votes() {
    let votes = vec![vote("A", 3), vote("B", 5), vote("C", 4)];
    let categories = vec![criterion("A", None), criterion("B", Some(50)), criterion("C", None)];
    let (sum, weighted) = tally(votes, &categories).unwrap();
    assert_eq!(sum, 12);
    assert_eq!(weighted, 320);
    assert_eq!(weighted as f64 / 10.0, 32.0);
}

#[test]
fn point_without_weight_counts_once() {
    let c = criterion("A", None);
    assert_eq!(weighted_contribution(7, &c), 70);
    assert_eq!(weighted_contribution(-3, &c), -30);
    assert_eq!(weighted_contribution(0, &c), 0);
}

#[test]
fn point_with_weight_counts_by_tenths() {
    assert_eq!(weighted_contribution(4, &criterion("A", Some(50))), 200);
    assert_eq!(weighted_contribution(4, &criterion("A", Some(15))), 60);
    assert_eq!(weighted_contribution(-128, &criterion("A", Some(i32::MAX))), -128 * (i32::MAX as i64));
    assert_eq!(weighted_contribution(127, &criterion("A", Some(i32::MIN))), 127 * (i32::MIN as i64));
}

#[test]
fn vote_on_unknown_criterion_is_an_error() {
    let votes = vec![vote("A", 3), vote("Z", 5)];
    let categories = vec![criterion("A", None)];
    assert_eq!(tally(votes, &categories), Err(TallyError::UnknownCriterion));
}

#[test]
fn criterion_is_found_by_exact_name() {
    let votes = vec![vote("a", 3)];
    let categories = vec![criterion("A", None)];
    assert_eq!(tally(votes, &categories), Err(TallyError::UnknownCriterion));
}

#[test]
fn first_criterion_of_a_name_counts() {
    let votes = vec![vote("A", 2)];
    let categories = vec![criterion("A", Some(30)), criterion("A", Some(70))];
    assert_eq!(tally(votes, &categories), Ok((2, 60)));
}

#[test]
fn ballot_without_date_is_an_error() {
    let ballot = Ballot {
        candidate: String::from("Joe"),
        votes: vec![vote("A", 3)],
        notes: Some(String::from("fine")),
        voted_on: None,
    };
    let categories = vec![criterion("A", None)];
    assert_eq!(tally_ballot(&ballot, &categories).err(), Some(TallyError::MissingDate));
}

#[test]
fn unknown_criterion_comes_before_missing_date() {
    let ballot = Ballot {
        candidate: String::from("Joe"),
        votes: vec![vote("Z", 3)],
        notes: None,
        voted_on: None,
    };
    let categories = vec![criterion("A", None)];
    assert_eq!(tally_ballot(&ballot, &categories).err(), Some(TallyError::UnknownCriterion));
}

#[test]
fn unit_without_poll_is_an_error() {
    let mut cast = stored_units();
    cast[1].voting = None;
    let categories = stored_voting().categories;
    assert_eq!(TableRow::from_cast_ballots(cast, &categories).err(), Some(TallyError::MissingVoting));
}

#[test]
fn unit_without_ballots_has_no_rows() {
    let cast = vec![CastBallots { voting: None, ballots: vec![] }];
    let rows = TableRow::from_cast_ballots(cast, &vec![]).unwrap();
    assert_eq!(rows.len(), 0);
}

#[test]
fn no_units_map_to_nothing() {
    assert!(map_ballots(vec![], &vec![]).unwrap().is_none());
    let rows = map_ballots(stored_units(), &stored_voting().categories).unwrap().unwrap();
    assert_eq!(rows.len(), 3);
}

#[test]
fn ballots_without_votes_are_found() {
    let mut cast = stored_units();
    assert!(has_votes(&cast));
    cast[2].ballots[0].ballots[0].votes.clear();
    assert!(!has_votes(&cast));
}

#[test]
fn rows_of_one_voter() {
    let known = KnownBallots {
        voter: String::from("Obama"),
        ballots: vec![
            Ballot {
                candidate: String::from("Joe"),
                votes: vec![vote("Style", 5), vote("Weather", 7)],
                notes: Some(String::from("well done")),
                voted_on: Some(at(5)),
            },
            Ballot {
                candidate: String::from("Doe"),
                votes: vec![vote("Weather", 1)],
                notes: None,
                voted_on: Some(at(6)),
            },
        ],
    };
    let rows = map_ballot(known, &stored_voting().categories, "Voting").unwrap();
    assert_eq!(rows.len(), 2);
    assert_eq!(rows[0].voting, "Voting");
    assert_eq!(rows[0].voter, "Obama");
    assert_eq!(rows[0].candidate, "Joe");
    assert_eq!(rows[0].sum, 12);
    assert_eq!(rows[0].weighted, 180);
    assert_eq!(rows[0].mean, Mean { total: 12, count: 2 });
    assert_eq!(rows[0].notes, "well done");
    assert_eq!(rows[0].votes.len(), 2);
    assert_eq!(rows[0].voted_on, at(5));
    assert_eq!(rows[1].candidate, "Doe");
    assert_eq!(rows[1].sum, 1);
    assert_eq!(rows[1].weighted, 15);
    assert_eq!(rows[1].notes, "n/a");
}

#[test]
fn collected_rows_keep_stored_order() {
    let table = collect_rows(stored_voting(), "voting", stored_units()).unwrap();
    assert_eq!(table.headers.len(), 2);
    assert_eq!(sums(&table.rows), vec![12, 14, 15]);
}

#[test]
fn rows_by_date() {
    let table = rows_by_voted_on(stored_voting(), "voting", stored_units()).unwrap();
    assert_eq!(table.headers.len(), 2);
    assert_eq!(table.rows.len(), 3);
    assert_eq!(table.rows.get(0).unwrap().sum, 15);
    assert_eq!(table.rows.get(1).unwrap().sum, 12);
    assert_eq!(sums(&table.rows), vec![15, 12, 14]);
}

#[test]
fn rows_by_sum() {
    let table = rows_sorted(stored_voting(), "voting", "sum", stored_units()).unwrap();
    assert_eq!(table.headers.len(), 2);
    assert_eq!(table.rows.len(), 3);
    assert_eq!(table.rows.get(1).unwrap().sum, 14);
    assert_eq!(sums(&table.rows), vec![12, 14, 15]);
}

#[test]
fn rows_by_weight() {
    let mut units = stored_units();
    units[0].ballots[0].ballots[0].votes[0].point = 15;
    let mut voting = stored_voting();
    voting.categories[0].weight = Some(1);
    let by_weight = rows_sorted(voting.clone(), "Voting", "weighted", units.clone()).unwrap();
    assert_eq!(sums(&by_weight.rows), vec![15, 22, 14]);
    assert_eq!(by_weight.rows.get(0).unwrap().weighted, 113);
    let by_sum = rows_sorted(voting.clone(), "Voting", "sum", units.clone()).unwrap();
    let by_word = rows_sorted(voting, "Voting", "weight", units).unwrap();
    assert_eq!(sums(&by_sum.rows), vec![14, 15, 22]);
    assert_eq!(sums(&by_word.rows), sums(&by_sum.rows));
}

#[test]
fn rows_of_a_voter() {
    let table = rows_by_voter(stored_voting(), "voting", "obama", stored_units()).unwrap();
    assert_eq!(table.headers.len(), 2);
    assert_eq!(table.rows.len(), 2);
    let by_date = sort_rows(table.rows, SortKey::VotedOn);
    assert_eq!(by_date.get(1).unwrap().sum, 12);
}

#[test]
fn rows_of_a_voter_in_either_case() {
    let lower = rows_by_voter(stored_voting(), "Voting", "michelle", stored_units()).unwrap();
    let upper = rows_by_voter(stored_voting(), "Voting", "Michelle", stored_units()).unwrap();
    assert_eq!(lower.rows.len(), 1);
    assert_eq!(lower.rows[0].sum, 14);
    assert_eq!(sums(&lower.rows), sums(&upper.rows));
}

#[test]
fn rows_of_a_candidate() {
    let table = rows_by_candidate(stored_voting(), "voting", "joe", stored_units()).unwrap();
    assert_eq!(table.headers.len(), 2);
    assert_eq!(table.rows.len(), 2);
}

#[test]
fn rows_of_a_candidate_that_is_not_there() {
    let table =
        rows_by_candidate(stored_voting(), "voting", "candidate_Joe", stored_units()).unwrap();
    assert_eq!(table.headers.len(), 2);
    assert_eq!(table.rows.len(), 0);
}

#[test]
fn filter_by_obama_in_either_case() {
    let rows = vec![
        row("Obama", "Joe", 1, 0),
        row("michelle", "Joe", 2, 1),
        row("OBAMA jr", "Doe", 3, 2),
        row("Ob", "Doe", 4, 3),
    ];
    let upper = filter_by_voter(&rows, "Obama");
    let lower = filter_by_voter(&rows, "obama");
    assert_eq!(sums(&upper), vec![1, 3]);
    assert_eq!(sums(&upper), sums(&lower));
    assert_eq!(sums(&filter_by_voter(&rows, "")), vec![1, 2, 3, 4]);
    assert_eq!(sums(&filter_by_candidate(&rows, "DOE")), vec![3, 4]);
    assert_eq!(sums(&filter_by_candidate(&rows, "doe")), vec![3, 4]);
}

#[test]
fn sorting_three_rows_by_sum() {
    let rows = vec![row("a", "x", 15, 0), row("b", "x", 12, 1), row("c", "x", 14, 2)];
    assert_eq!(sums(&sort_rows(rows, SortKey::Sum)), vec![12, 14, 15]);
}

#[test]
fn unknown_sort_key_means_sum() {
    assert_eq!(sort_key("sum"), SortKey::Sum);
    assert_eq!(sort_key("mean"), SortKey::Mean);
    assert_eq!(sort_key("weight"), SortKey::Sum);
    assert_eq!(sort_key("weighted"), SortKey::Weighted);
    assert_eq!(sort_key("colour"), SortKey::Sum);
    assert_eq!(sort_key(""), SortKey::Sum);
    assert_eq!(sort_key("Mean"), SortKey::Sum);
    let rows = vec![row("a", "x", 15, 0), row("b", "x", 12, 1), row("c", "x", 14, 2)];
    assert_eq!(sums(&sort_rows(rows, sort_key("colour"))), vec![12, 14, 15]);
}

#[test]
fn sorting_keeps_equal_rows_in_order() {
    let rows = vec![
        row("first", "x", 5, 0),
        row("second", "x", 3, 1),
        row("third", "x", 5, 2),
        row("fourth", "x", 3, 3),
    ];
    let sorted = sort_rows(rows, SortKey::Sum);
    let voters: Vec<&str> = sorted.iter().map(|r| r.voter.as_str()).collect();
    assert_eq!(voters, vec!["second", "fourth", "first", "third"]);
    assert_eq!(sort_rows(vec![], SortKey::Sum).len(), 0);
}

#[test]
fn sorting_by_mean_compares_fractions() {
    let mut a = row("a", "x", 0, 0);
    a.mean = Mean { total: 7, count: 2 };
    let mut b = row("b", "x", 1, 1);
    b.mean = Mean { total: 10, count: 3 };
    let mut c = row("c", "x", 2, 2);
    c.mean = Mean { total: -1, count: 4 };
    assert!(precedes(SortKey::Mean, &b, &a));
    assert!(!precedes(SortKey::Mean, &a, &b));
    assert!(precedes(SortKey::Mean, &a, &a));
    assert_eq!(sums(&sort_rows(vec![a, b, c], SortKey::Mean)), vec![2, 1, 0]);
}

#[test]
fn means_as_fractions() {
    let mean = |total: i128, count: usize| Mean { total, count };
    assert!(mean_precedes(mean(1, 3), mean(1, 2)));
    assert!(!mean_precedes(mean(1, 2), mean(1, 3)));
    assert!(mean_precedes(mean(2, 4), mean(1, 2)));
    assert!(mean_precedes(mean(1, 2), mean(2, 4)));
    assert!(mean_precedes(mean(-1, 2), mean(-1, 3)));
    assert!(!mean_precedes(mean(-1, 3), mean(-1, 2)));
    assert!(mean_precedes(mean(-7, 2), mean(-10, 3)));
    assert!(!mean_precedes(mean(-10, 3), mean(-7, 2)));
    assert!(mean_precedes(mean(-1, 1), mean(1, 1)));
    assert!(mean_precedes(mean(i128::MIN, 1), mean(i128::MAX, 1)));
    assert!(!mean_precedes(mean(i128::MAX, 1), mean(i128::MIN, 1)));
    assert!(mean_precedes(mean(i128::MAX, usize::MAX), mean(i128::MAX, usize::MAX - 1)));
    assert!(!mean_precedes(mean(i128::MAX, usize::MAX - 1), mean(i128::MAX, usize::MAX)));
    assert!(mean_precedes(mean(i128::MIN, usize::MAX - 1), mean(i128::MIN, usize::MAX)));
    assert!(mean_precedes(
        mean(127 * (usize::MAX as i128) - 1, usize::MAX),
        mean(127 * (usize::MAX as i128 - 1), usize::MAX - 1)
    ));
    assert!(mean_precedes(mean(5, 0), mean(7, 0)));
    assert!(!mean_precedes(mean(5, 0), mean(0, 3)));
    assert!(mean_precedes(mean(0, 0), mean(0, 3)));
    assert!(mean_precedes(mean(5, 2), mean(0, 0)));
    assert!(!mean_precedes(mean(5, 2), mean(-1, 0)));
    assert!(!mean_precedes(mean(1, 0), mean(5, 2)));
    assert!(mean_precedes(mean(-1, 0), mean(5, 2)));
}

#[test]
fn sums_of_points() {
    let votes = vec![vote("A", 3), vote("B", 5), vote("C", 4)];
    assert_eq!(sum_up_sum(&votes), 12);
    assert_eq!(sum_up_sum(&vec![vote("A", -128), vote("A", -128)]), -256);
    assert_eq!(sum_up_sum(&vec![vote("A", 127), vote("A", 127)]), 254);
    let categories = vec![criterion("A", None), criterion("B", Some(50)), criterion("C", None)];
    assert_eq!(sum_up_weight(&votes, &categories), Ok(320));
    assert_eq!(sum_up_weight(&votes, &vec![]), Err(TallyError::UnknownCriterion));
}

#[test]
fn sorting_by_date_looks_at_nanoseconds() {
    let mut a = row("a", "x", 0, 0);
    a.voted_on = Timestamp { secs: 10, nanos: 5 };
    let mut b = row("b", "x", 1, 0);
    b.voted_on = Timestamp { secs: 10, nanos: 4 };
    let mut c = row("c", "x", 2, 0);
    c.voted_on = Timestamp { secs: -1, nanos: 999_999_999 };
    assert_eq!(sums(&sort_rows(vec![a, b, c], SortKey::VotedOn)), vec![2, 1, 0]);
}

#[test]
fn cast_ids_of_a_poll() {
    let ids = vec![
        String::from("voting-obama-joe"),
        String::from("other-obama-joe"),
        String::from("voting2-x-y"),
        String::from("Voting-a-b"),
    ];
    assert_eq!(select_cast_ids(&ids, "Voting"), vec!["voting-obama-joe"]);
}

#[test]
fn ballots_of_another_poll_are_not_tallied() {
    let mut units = stored_units();
    units[1].voting = Some(String::from("Voting2"));
    units.push(CastBallots { voting: None, ballots: vec![] });
    let table = collect_rows(stored_voting(), "voting", units).unwrap();
    assert_eq!(sums(&table.rows), vec![12, 15]);
    for row in &table.rows {
        assert_eq!(row.voting.to_lowercase(), "voting");
    }
    let mut foreign = stored_units();
    foreign[0].voting = Some(String::from("Other"));
    foreign[0].ballots[0].ballots[0].votes[0].name = String::from("Unknown");
    let table = collect_rows(stored_voting(), "voting", foreign).unwrap();
    assert_eq!(sums(&table.rows), vec![14, 15]);
    assert!(same_poll("Voting", "vOTING"));
    assert!(!same_poll("Voting", "Voting2"));
    let rows = rows_of_poll(stored_units(), "other", &vec![]).unwrap();
    assert_eq!(rows.len(), 0);
}

#[test]
fn table_of_a_poll_that_is_not_stored_is_empty() {
    let mut units = stored_units();
    units[0].ballots[0].ballots[0].votes[0].name = String::from("Unknown");
    let table = collect_rows(voting_named("Empty"), "voting", units).unwrap();
    assert_eq!(table.headers.len(), 0);
    assert_eq!(table.rows.len(), 0);
}

#[test]
fn voter_needs_code_and_name() {
    let voting = voting_named("Voting");
    assert_eq!(Voter::from_request(Some("T1234"), Some("obama"), &voting).unwrap().0, "obama");
    for (code, user) in [
        (Some("T1234"), None),
        (Some("t1234"), Some("obama")),
        (None, Some("obama")),
        (None, None),
    ] {
        match Voter::from_request(code, user, &voting) {
            Err(VoteErrorKind::Unauthorized(message)) => assert_eq!(message, "Supply an invite code."),
            _ => panic!("accepted"),
        }
    }
}

#[test]
fn voter_as_candidate() {
    let candidate = Voter("voter_john-#s-doe").into_candidate();
    assert!(candidate.voter);
    assert_eq!(candidate.id, Some(String::from("voter_john-#s-doe")));
    assert_eq!(candidate.label, "voter_john doe");
}

#[test]
fn cast_ballot_is_dated_and_filed() {
    let ballot = Ballot {
        candidate: String::from("Joe"),
        votes: vec![vote("Style", 5)],
        notes: None,
        voted_on: None,
    };
    let cast = cast_ballot("Obama", "Voting", ballot, at(9));
    assert_eq!(cast.voting, Some(String::from("Voting")));
    assert_eq!(cast.ballots.len(), 1);
    assert_eq!(cast.ballots[0].voter, "Obama");
    assert_eq!(cast.ballots[0].ballots.len(), 1);
    assert_eq!(cast.ballots[0].ballots[0].voted_on, Some(at(9)));
    assert_eq!(cast.ballots[0].ballots[0].candidate, "Joe");
    assert_eq!(cast.get_id(), "voting-obama-joe");
}

#[test]
fn answer_to_a_cast_ballot() {
    let voter = Voter("obama");
    assert_eq!(
        post_ballot(&voter, "Voting", Ok(true), Ok(String::from("voting-obama-joe"))).ok(),
        Some(String::from("/api/v1/ballots/Voting/voter/obama"))
    );
    let invalid =
        post_ballot(&voter, "Voting", Err(Status::UnprocessableEntity), Ok(String::new()))
            .err()
            .unwrap();
    assert_eq!(invalid.status, Status::UnprocessableEntity);
    assert_eq!(invalid.message, "The ballot is not valid.");
    let twice = VoteErrorKind::Conflict(String::from("CBallots already exist."));
    let conflict = post_ballot(&voter, "Voting", Ok(true), Err(twice)).err().unwrap();
    assert_eq!(conflict.status, Status::Conflict);
    assert_eq!(conflict.message, "CBallots already exist.");
    let down = VoteErrorKind::IO(String::from("disk full"));
    let failed = post_ballot(&voter, "Voting", Ok(true), Err(down)).err().unwrap();
    assert_eq!(failed.status, Status::InternalServerError);
    assert_eq!(failed.message, "disk full");
}

fn ballots_row() -> BallotsTable {
    BallotsTable {
        voting: String::from("Voting"),
        voter: String::from("Obama"),
        candidate: String::from("Joe"),
        sum: 12,
        weighted: String::from("18"),
        mean: String::from("6"),
        notes: String::from("n/a"),
        votes: String::from("[]"),
        voted_on: Timestamp { secs: 1431648000, nanos: 0 },
    }
}

#[test]
fn ballots_row_values() {
    let table = ballots_row();
    assert_eq!(table.get_id(), "voting-obama-joe");
    assert_eq!(
        table.values(),
        Some(String::from(
            "'voting-obama-joe', 'Joe', 'Obama', '12', '18', '6', 'n/a', '[]', '2015-05-15 00:00:00 UTC'"
        ))
    );
    assert_eq!(table.to_db_row(), table.values().unwrap());
    let mut late = ballots_row();
    late.voted_on = Timestamp { secs: i64::MAX, nanos: 0 };
    assert_eq!(late.values(), None);
    assert_eq!(late.to_db_row(), "");
    assert_eq!(BallotsTable::get_id_expression(), "human_identifier");
}

#[test]
fn cast_ballots_from_text() {
    let text = "voting-obama-joe,-o-,Joe,-o-,Obama,-o-,12,-o-,18,-o-,6,-o-,fine,-o-,[],-o-,2015-05-15T00:00:00Z";
    let cast = CastBallots::from_str(text, vec![vote("Style", 5), vote("Weather", 7)]).ok().unwrap();
    assert_eq!(cast.voting, Some(String::from("voting")));
    assert_eq!(cast.ballots.len(), 1);
    assert_eq!(cast.ballots[0].voter, "Obama");
    assert_eq!(cast.ballots[0].ballots.len(), 1);
    let ballot = &cast.ballots[0].ballots[0];
    assert_eq!(ballot.candidate, "Joe");
    assert_eq!(ballot.votes.len(), 2);
    assert_eq!(ballot.votes[1].point, 7);
    assert_eq!(ballot.notes, Some(String::from("fine")));
    assert_eq!(ballot.voted_on, Some(Timestamp { secs: 1431648000, nanos: 0 }));
    assert_eq!(cast.get_id(), "voting-obama-joe");
    match CastBallots::from_str("voting-a-b,-o-,x", vec![]) {
        Err(FromErrorKind::Serialize(message)) => assert_eq!(message, "Ballot serialize failed."),
        _ => panic!("read"),
    }
    let row = BallotsTable::from_str(text).ok().unwrap();
    let shown = TableRow::from_table(&row, 180, vec![vote("Style", 5), vote("Weather", 7)]);
    assert_eq!(shown.sum, 12);
    assert_eq!(shown.weighted, 180);
    assert_eq!(shown.mean, Mean { total: 12, count: 2 });
    assert_eq!(shown.voter, "Obama");
}

#[test]
fn ballots_row_from_text() {
    let text = "voting-obama-joe,-o-,Joe,-o-,Obama,-o-,12,-o-,18,-o-,6,-o-,n/a,-o-,[],-o-,2015-05-15T00:00:00Z";
    let table = BallotsTable::from_str(text).ok().unwrap();
    assert_eq!(table.voting, "voting");
    assert_eq!(table.candidate, "Joe");
    assert_eq!(table.voter, "Obama");
    assert_eq!(table.sum, 12);
    assert_eq!(table.weighted, "18");
    assert_eq!(table.mean, "6");
    assert_eq!(table.notes, "n/a");
    assert_eq!(table.votes, "[]");
    assert_eq!(table.voted_on, Timestamp { secs: 1431648000, nanos: 0 });
    let hyphened = "my-poll-o-bama-jo-e,-o-,Jo-E,-o-,O-bama,-o-,9223372036854775807,-o-,1,-o-,1,-o-,,-o-,,-o-,2015-05-15T00:00:00Z";
    let table = BallotsTable::from_str(hyphened).ok().unwrap();
    assert_eq!(table.voting, "my-poll");
    assert_eq!(table.sum, 9223372036854775807);
    let empty_poll = "-a-b,-o-,B,-o-,A,-o-,-1,-o-,1,-o-,1,-o-,,-o-,,-o-,2015-05-15T00:00:00Z";
    assert_eq!(BallotsTable::from_str(empty_poll).ok().unwrap().voting, "");
    for bad in [
        "voting-obama-joe,-o-,Joe,-o-,Obama,-o-,9223372036854775808,-o-,18,-o-,6,-o-,n/a,-o-,[],-o-,2015-05-15T00:00:00Z",
        "voting-obama-joe,-o-,Joe",
        "votingobamajoe,-o-,Joe,-o-,Obama,-o-,12,-o-,18,-o-,6,-o-,n/a,-o-,[],-o-,2015-05-15T00:00:00Z",
        "voting-obama-doe,-o-,Joe,-o-,Obama,-o-,12,-o-,18,-o-,6,-o-,n/a,-o-,[],-o-,2015-05-15T00:00:00Z",
        "obama-joe,-o-,Joe,-o-,Obama,-o-,12,-o-,18,-o-,6,-o-,n/a,-o-,[],-o-,2015-05-15T00:00:00Z",
        "voting-obama-joe,-o-,Joe,-o-,Obama,-o-,twelve,-o-,18,-o-,6,-o-,n/a,-o-,[],-o-,2015-05-15T00:00:00Z",
        "voting-obama-joe,-o-,Joe,-o-,Obama,-o-,12,-o-,18,-o-,6,-o-,n/a,-o-,[],-o-,yesterday",
    ] {
        match BallotsTable::from_str(bad) {
            Err(FromErrorKind::Serialize(message)) => assert_eq!(message, "Ballot serialize failed."),
            _ => panic!("read"),
        }
    }
}

#[test]
fn all_of_a_ballot() {
    let cast = unit("Obama", "Joe", 5, 7, 2);
    let complete = CompleteBallotsTable::aggregate_all(
        cast,
        stored_voting().categories,
        String::from("[..]"),
    )
    .unwrap()
    .unwrap();
    assert_eq!(complete.categories.len(), 2);
    assert_eq!(complete.voting, "Voting");
    assert_eq!(complete.voter, "Obama");
    assert_eq!(complete.candidate, "Joe");
    assert_eq!(complete.sum, 12);
    assert_eq!(complete.weighted, 180);
    assert_eq!(complete.mean, Mean { total: 12, count: 2 });
    assert_eq!(complete.notes, "n/a");
    assert_eq!(complete.votes, "[..]");
    let table = complete.into_table(String::from("18"), String::from("6"));
    assert_eq!(table.sum, 12);
    assert_eq!(table.weighted, "18");
    assert!(CompleteBallotsTable::aggregate_all(
        CastBallots { voting: Some(String::new()), ballots: vec![] },
        vec![],
        String::new()
    )
    .is_none());
}

#[test]
fn table_holds_what_it_is_given() {
    let table: Table<u8, u16> = Table::new(vec![1, 2], vec![3]);
    assert_eq!(table.headers, vec![1, 2]);
    assert_eq!(table.rows, vec![3]);
}
