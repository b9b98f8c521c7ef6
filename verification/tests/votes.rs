use voters_verdict::authentication::ElevatedUser;
use voters_verdict::common::{Candidate, CreateVoting, Criterion, Voting, VotingStyles};
use voters_verdict::error::VoteErrorKind;
use voters_verdict::routes::{Status, API_ADMIN, API_BALLOTS, API_CRITERIA, API_USERS, API_VOTINGS};
use voters_verdict::templates::{format_critera, VotingGuard};
use voters_verdict::time::Timestamp;
use voters_verdict::users::{get_users_by_type, post_user, user_not_found, get_users_internal, User, Users};
use voters_verdict::votes::{
    accepts_invite_code, candidate_ids, close_vote as closed, criterion_ids, get_full_vote,
    matches_candidate, matches_criterion, modify_voting, post_vote, query_full_voting as full_voting,
    requested_candidates, requested_categories, update_answer, voting_location,
    PossibleVotingModification,
};

fn texts(items: &[&str]) -> Vec<String> {
    items.iter().map(|s| String::from(*s)).collect()
}

fn request(styles: Option<VotingStyles>) -> CreateVoting {
    CreateVoting {
        name: "name".to_string(),
        expires_at: Timestamp { secs: 100, nanos: 0 },
        candidates: texts(&["Joe", "John Doe"]),
        criterias: texts(&["style_0_10_15"]),
        styles,
        invite_code: "T1234".to_string(),
    }
}

fn voting() -> Voting {
    Voting {
        name: String::from("Voting"),
        expires_at: Some(Timestamp { secs: 100, nanos: 0 }),
        created_at: Some(Timestamp { secs: 50, nanos: 0 }),
        candidates: vec![
            Candidate { voter: false, id: Some(String::from("candidate_joe")), label: String::from("Joe") },
            Candidate { voter: false, id: Some(String::from("joe")), label: String::from("Odd") },
            Candidate { voter: false, id: None, label: String::from("Nameless") },
        ],
        categories: vec![Criterion { name: String::from("Style"), min: 0, max: 10, weight: None }],
        styles: VotingStyles::default(),
        invite_code: String::from("T1234"),
    }
}

#[test]
fn query_full_voting() {
    let response = full_voting(request(None), vec![], vec![], Timestamp { secs: 7, nanos: 8 });
    assert_eq!(response.styles.background, "#30363d");
    assert_eq!(response.name, "name");
    assert_eq!(response.expires_at, Some(Timestamp { secs: 100, nanos: 0 }));
    assert_eq!(response.created_at, Some(Timestamp { secs: 7, nanos: 8 }));
    assert_eq!(response.invite_code, "T1234");
    assert_eq!(response.candidates.len(), 0);
    assert_eq!(response.categories.len(), 0);
}

#[test]
fn query_full_voting_no_color() {
    let styles = VotingStyles {
        background: String::from("1"),
        font: String::from("2"),
        selection: String::from("3"),
        fields: String::from("4"),
    };
    let found = vec![Criterion { name: String::from("Style"), min: 0, max: 10, weight: Some(15) }];
    let people = vec![Candidate::voter("a"), Candidate::voter("b")];
    let response = full_voting(request(Some(styles)), found, people, Timestamp { secs: 7, nanos: 8 });
    assert_eq!(response.styles.background, "1");
    assert_eq!(response.styles.fields, "4");
    assert_eq!(response.categories.len(), 1);
    assert_eq!(response.candidates.len(), 2);
    assert_eq!(response.candidates[1].label, "b");
}

#[test]
fn ids_of_a_request() {
    let r = request(None);
    assert_eq!(criterion_ids(&r.criterias), vec!["style_0_10_15"]);
    assert_eq!(criterion_ids(&texts(&["Style_0_10_None"])), vec!["style_0_10_none"]);
    assert_eq!(candidate_ids(&r.candidates), vec!["candidate_joe", "candidate_john doe"]);
    assert_eq!(candidate_ids(&vec![]).len(), 0);
}

#[test]
fn request_for_a_stored_voting() {
    let again = get_full_vote(voting()).unwrap();
    assert_eq!(again.name, "Voting");
    assert_eq!(again.expires_at, Timestamp { secs: 100, nanos: 0 });
    assert_eq!(again.candidates.len(), 0);
    assert_eq!(again.criterias.len(), 0);
    assert!(again.styles.is_none());
    assert_eq!(again.invite_code, "T1234");
    let mut undated = voting();
    undated.expires_at = None;
    assert!(get_full_vote(undated).is_none());
}

#[test]
fn invite_codes() {
    assert!(accepts_invite_code("T1234"));
    assert!(accepts_invite_code("abcde"));
    assert!(accepts_invite_code("--T1234--"));
    assert!(!accepts_invite_code("12345"));
    assert!(!accepts_invite_code("T123"));
    assert!(!accepts_invite_code(""));
}

#[test]
fn answers_to_a_new_voting() {
    assert_eq!(voting_location("Voting"), "/api/v1/votings/Voting");
    assert_eq!(
        post_vote("Voting", "T1234", Ok(String::from("voting"))).ok(),
        Some(String::from("/api/v1/votings/Voting"))
    );
    let twice = VoteErrorKind::Conflict(String::from("voting already exist."));
    let conflict = post_vote("Voting", "T1234", Err(twice)).err().unwrap();
    assert_eq!(conflict.status, Status::Conflict);
    assert_eq!(conflict.message, "voting already exist.");
    let down = post_vote("Voting", "T1234", Err(VoteErrorKind::IO(String::from("x")))).err().unwrap();
    assert_eq!(down.status, Status::InternalServerError);
    let coded = post_vote("Voting", "1", Ok(String::new())).err().unwrap();
    assert_eq!(coded.status, Status::UnprocessableEntity);
    assert_eq!(coded.message, "The invite code has not the form of one.");
    assert_eq!(update_answer(Ok(String::from("Done"))).ok(), Some(String::from("Done")));
    let failed = update_answer(Err(VoteErrorKind::IO(String::from("x")))).err().unwrap();
    assert_eq!(failed.status, Status::InternalServerError);
    assert_eq!(failed.message, "x");
    let gone = update_answer(Err(VoteErrorKind::NotFound(String::from("n")))).err().unwrap();
    assert_eq!(gone.status, Status::NotFound);
}

#[test]
fn close_vote() {
    let now = Timestamp { secs: 75, nanos: 1 };
    let elevated_user = ElevatedUser::new_maintainer();
    let response = closed(&elevated_user, voting(), now);
    assert_eq!(response.expires_at, Some(now));
    assert_eq!(response.created_at, Some(Timestamp { secs: 50, nanos: 0 }));
    assert_eq!(response.name, "Voting");
    assert_eq!(response.candidates.len(), 3);
    assert_eq!(response.categories.len(), 1);
    assert_eq!(response.invite_code, "T1234");
}

#[test]
fn names_that_a_voting_has() {
    let v = voting();
    assert!(matches_candidate(&v.candidates, "joe"));
    assert!(matches_candidate(&v.candidates, "Joe"));
    assert!(!matches_candidate(&v.candidates, "big joe jr"));
    assert!(!matches_candidate(&v.candidates, "jo"));
    assert!(matches_candidate(&v.candidates, "nameless"));
    assert!(!matches_candidate(&vec![], "joe"));
    assert!(matches_criterion(&v.categories, "style_0_10_none"));
    assert!(matches_criterion(&v.categories, "Style_0_10_None"));
    assert!(!matches_criterion(&v.categories, "style_0_10_15"));
    assert!(!matches_criterion(&v.categories, "style"));
    assert_eq!(requested_candidates(&v, &texts(&["joe", "doe", "x joe"])), vec!["doe", "x joe"]);
    assert_eq!(
        requested_categories(&v, &texts(&["weather_0_15_15", "STYLE_0_10_NONE", "style_0_10_15"])),
        vec!["weather_0_15_15", "style_0_10_15"]
    );
    assert_eq!(requested_candidates(&v, &vec![]).len(), 0);
}

#[test]
fn changes_of_a_voting() {
    let both = PossibleVotingModification { candidates: Some(vec![]), categories: Some(vec![]) };
    let more = vec![Candidate::voter("new")];
    let wider = vec![Criterion { name: String::from("New"), min: 0, max: 1, weight: None }];
    let admin = ElevatedUser::new_admin();
    let changed = modify_voting(&admin, voting(), &both, more, wider).unwrap();
    assert_eq!(changed.candidates.len(), 4);
    assert_eq!(changed.candidates[0].label, "Joe");
    assert_eq!(changed.candidates[3].label, "new");
    assert_eq!(changed.categories.len(), 2);
    assert_eq!(changed.categories[1].name, "New");
    assert_eq!(changed.name, "Voting");
    for (candidates, categories) in [(None, Some(vec![])), (Some(vec![]), None), (None, None)] {
        let half = PossibleVotingModification { candidates, categories };
        assert_eq!(modify_voting(&admin, voting(), &half, vec![], vec![]).err(), Some(Status::Conflict));
    }
}

#[test]
fn mounts() {
    assert_eq!(API_BALLOTS, "/api/v1/ballots");
    assert_eq!(API_CRITERIA, "/api/v1/criteria");
    assert_eq!(API_USERS, "/api/v1/users");
    assert_eq!(API_VOTINGS, "/api/v1/votings");
    assert_eq!(API_ADMIN, "/api/v1/admin");
}

#[test]
fn users_of_a_listing() {
    let index = texts(&["voter_obama", "candidate_joe", "candidate_doe", "voter_michelle", "voter_"]);
    let users = get_users_internal(&index).unwrap();
    assert_eq!(users.candidates, vec!["joe", "doe"]);
    assert_eq!(users.voters, vec!["obama", "michelle", ""]);
    assert!(get_users_internal(&texts(&["voter_obama", "voterobama"])).is_none());
    assert!(get_users_internal(&texts(&["joe"])).is_none());
    assert!(get_users_internal(&texts(&["candidate"])).is_none());
    let none = get_users_internal(&vec![]).unwrap();
    assert_eq!(none.voters.len() + none.candidates.len(), 0);
    let all = || Users { voters: texts(&["v"]), candidates: texts(&["c", "d"]) };
    assert_eq!(get_users_by_type(User::Candidate, all()), vec!["c", "d"]);
    assert_eq!(get_users_by_type(User::Voter, all()), vec!["v"]);
    assert_eq!(user_not_found("john"), "john not found.");
}

#[test]
fn stored_user_gets_its_id() {
    let sent = Candidate { id: Some("john".to_string()), label: "John".to_string(), voter: true };
    let stored = post_user(sent);
    assert_eq!(stored.id, Some(String::from("voter_john")));
    assert_eq!(stored.label, "John");
    assert!(stored.voter);
    let candidate = post_user(Candidate { id: None, label: "Al B".to_string(), voter: false });
    assert_eq!(candidate.id, Some(String::from("candidate_al-#s-b")));
}

#[test]
fn guard_of_a_voting() {
    assert_eq!(VotingGuard::from_request(Some("T1234"), voting()).ok().unwrap().voting.name, "Voting");
    for code in [Some("t1234"), Some(""), None] {
        match VotingGuard::from_request(code, voting()) {
            Err(VoteErrorKind::Unauthorized(message)) => assert_eq!(message, "Supply an invite code."),
            _ => panic!("let in"),
        }
    }
}

#[test]
fn criteria_as_shown() {
    assert_eq!(format_critera("style_0_10_15"), "style (Min:0) (Max:10) (W:15)");
    assert_eq!(format_critera("my_style_0_10_15"), "style (Min:0) (Max:10) (W:15)");
    assert_eq!(format_critera("style_0_10_15_"), "style (Min:0) (Max:10) (W:15)");
    assert_eq!(format_critera("style_0_10"), "n/a");
    assert_eq!(format_critera("style"), "n/a");
    assert_eq!(format_critera(""), "n/a");
    assert_eq!(format_critera("___"), "n/a");
    assert_eq!(format_critera("____"), " (Min:) (Max:) (W:)");
}
