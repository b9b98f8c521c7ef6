//! The rules that a ballot has to meet before it is stored.
use vstd::prelude::*;
use crate::common::{
    Ballot, BallotView, CandidateView, Criterion, CriterionView, Vote, VoteKind, VoteView, Voting,
    VotingView,
};
use crate::ballots::{criterion_named, find_criterion};
use crate::routes::Status;
use crate::text::{lowercase, same_text, starts_with, to_lowercase};

verus! {

/// The characters that the name of a poll or of a candidate is made of.
pub const PATTERN: &'static str = r"[a-zA-Z0-9\.\!-\?]+";

/// The characters that the name of a voter is made of.
pub const VOTER_PATTERN: &'static str = r"[a-zA-Z0-9\.<>\-\)\(\!\?]+";

/// The characters that a note is made of.
pub const NOTES_PATTERN: &'static str = r"[a-zA-Z0-9\. \!-\?]+";

/// Whether the regular expression `pattern` finds a match somewhere in
/// `value`; `None` where `pattern` is no regular expression.
pub uninterp spec fn regex_search(pattern: Seq<char>, value: Seq<char>) -> Option<bool>;

/// Calls `regex::Regex::new` on `pattern` and `Regex::is_match` on `value`.
/// `None` where `new` refuses the pattern. What matches is left to the
/// regex crate; the answer depends on the two texts alone.
#[verifier::external_body]
pub(crate) fn search(pattern: &str, value: &str) -> (r: Option<bool>)
    ensures
        r == regex_search(pattern@, value@),
{
    match regex::Regex::new(pattern) {
        Ok(re) => Some(re.is_match(value)),
        Err(_) => None,
    }
}

/// Whether `a` starts with `b`, letter case aside.
pub open spec fn starts_alike(a: Seq<char>, b: Seq<char>) -> bool {
    lowercase(b).is_prefix_of(lowercase(a))
}

/// Whether the stored name `a` starts with the asked-for `b`, letter case
/// aside.
pub fn compare_styles_file_names(a: &str, b: &str) -> (r: bool)
    ensures
        r == starts_alike(a@, b@),
{
    let left = to_lowercase(a);
    let right = to_lowercase(b);
    starts_with(left.as_str(), right.as_str())
}

/// Whether the name `a` starts with the asked-for `b`, letter case aside.
pub fn compare_pattern_file_names(a: &str, b: &str) -> (r: bool)
    ensures
        r == starts_alike(a@, b@),
{
    compare_styles_file_names(a, b)
}

/// Whether `value` holds a run of the characters that `pattern` allows; the
/// voter pattern where none is given.
pub open spec fn well_formed(value: Seq<char>, pattern: Option<Seq<char>>) -> bool {
    regex_search(
        match pattern {
            Some(p) => p,
            None => VOTER_PATTERN@,
        },
        value,
    ) == Some(true)
}

/// Whether `value` holds a run of the characters that `pattern` allows.
pub fn is_correct_formated_value(value: &str, pattern: Option<&str>) -> (r: bool)
    ensures
        r == well_formed(
            value@,
            match pattern {
                Some(p) => Some(p@),
                None => None,
            },
        ),
{
    let pattern = match pattern {
        Some(p) => p,
        None => VOTER_PATTERN,
    };
    match search(pattern, value) {
        Some(found) => found,
        None => false,
    }
}

/// Whether the asked-for poll is named in an accepted form.
pub fn validate_requested_voting(voting_id: &str) -> (r: bool)
    ensures
        r == well_formed(voting_id@, Some(PATTERN@)),
{
    is_correct_formated_value(voting_id, Some(PATTERN))
}

/// Whether the voter is named in an accepted form.
pub fn validate_voter_name(voter_name: &str) -> (r: bool)
    ensures
        r == well_formed(voter_name@, None),
{
    is_correct_formated_value(voter_name, None)
}

/// Whether the candidate is named in an accepted form.
pub fn validate_candidate(candidate: &str) -> (r: bool)
    ensures
        r == well_formed(candidate@, Some(PATTERN@)),
{
    is_correct_formated_value(candidate, Some(PATTERN))
}

/// Whether a note, if there is one, is written in an accepted form.
pub open spec fn notes_valid(note: Option<Seq<char>>) -> bool {
    match note {
        Some(n) => well_formed(n, Some(NOTES_PATTERN@)),
        None => true,
    }
}

/// Whether a note, if there is one, is written in an accepted form.
pub fn validate_notes(note: &Option<String>) -> (r: bool)
    ensures
        r == notes_valid(note.deep_view()),
{
    match note {
        Some(n) => is_correct_formated_value(n.as_str(), Some(NOTES_PATTERN)),
        None => true,
    }
}

/// Whether one of the listed polls is `voting_id`, letter case aside.
pub open spec fn voting_listed(voting_index: Seq<Seq<char>>, voting_id: Seq<char>) -> bool {
    exists|i: int|
        0 <= i < voting_index.len() && lowercase(#[trigger] voting_index[i]) == lowercase(
            voting_id,
        )
}

/// Whether the asked-for poll is among the listed ones.
pub fn validate_voting(voting_id: &str, voting_index: &Vec<String>) -> (r: bool)
    ensures
        r == voting_listed(voting_index.deep_view(), voting_id@),
{
    let wanted = to_lowercase(voting_id);
    let mut i: usize = 0;
    while i < voting_index.len()
        invariant
            i <= voting_index.len(),
            wanted@ == lowercase(voting_id@),
            forall|j: int|
                0 <= j < i ==> lowercase(#[trigger] voting_index.deep_view()[j]) != lowercase(
                    voting_id@,
                ),
        decreases voting_index.len() - i,
    {
        assert(voting_index.deep_view()[i as int] == voting_index[i as int]@);
        let listed = to_lowercase(voting_index[i].as_str());
        if same_text(listed.as_str(), wanted.as_str()) {
            return true;
        }
        i += 1;
    }
    false
}

/// Whether the votes fit the criteria: each names one of them, and its
/// point lies within the range of the criterion it names.
pub open spec fn points_valid(categories: Seq<CriterionView>, votes: Seq<VoteView>) -> bool {
    forall|i: int|
        0 <= i < votes.len() ==> (match find_criterion(categories, (#[trigger] votes[i]).name) {
            Some(c) => c.min <= votes[i].point <= c.max,
            None => false,
        })
}

/// Whether the votes of a ballot fit the criteria of the poll.
pub fn validate_points(voting: &Voting, ballot: &Ballot) -> (r: bool)
    ensures
        r == points_valid(voting@.categories, ballot@.votes),
{
    let mut i: usize = 0;
    while i < ballot.votes.len()
        invariant
            i <= ballot.votes.len(),
            forall|j: int|
                0 <= j < i ==> (match find_criterion(
                    voting@.categories,
                    (#[trigger] ballot@.votes[j]).name,
                ) {
                    Some(c) => c.min <= ballot@.votes[j].point <= c.max,
                    None => false,
                }),
        decreases ballot.votes.len() - i,
    {
        let vote = &ballot.votes[i];
        assert(ballot@.votes[i as int] == vote@);
        match criterion_named(&voting.categories, vote.name.as_str()) {
            Some(c) => {
                if vote.point < c.min || vote.point > c.max {
                    return false;
                }
            },
            None => {
                return false;
            },
        }
        i += 1;
    }
    true
}

/// Whether the fields of a ballot are written in accepted forms and name a
/// listed poll.
pub open spec fn ballot_well_formed(
    ballot: BallotView,
    voting_id: Seq<char>,
    voter_name: Seq<char>,
    voting_index: Seq<Seq<char>>,
) -> bool {
    &&& well_formed(voting_id, Some(PATTERN@))
    &&& voting_listed(voting_index, voting_id)
    &&& well_formed(voter_name, None)
    &&& well_formed(ballot.candidate, Some(PATTERN@))
    &&& notes_valid(ballot.notes)
}

/// Whether an entity may be stored: a ballot has to be well formed and its
/// votes have to fit the criteria of the poll it is cast in; every other
/// entity passes.
pub open spec fn entity_valid(
    kind: VoteKind,
    voting_id: Seq<char>,
    voter_name: Seq<char>,
    voting_index: Seq<Seq<char>>,
    voting: VotingView,
) -> bool {
    match kind {
        VoteKind::Ballot(ballot) => ballot_well_formed(
            ballot@,
            voting_id,
            voter_name,
            voting_index,
        ) && points_valid(voting.categories, ballot@.votes),
        _ => true,
    }
}

/// Checks an entity before it is stored. `voting` is the stored poll that
/// a ballot is cast in, `voting_index` the listing of the polls.
pub fn validate(
    kind: &VoteKind,
    voting_id: &str,
    voter_name: &str,
    voting_index: &Vec<String>,
    voting: &Voting,
) -> (r: Result<bool, Status>)
    ensures
        entity_valid(*kind, voting_id@, voter_name@, voting_index.deep_view(), voting@) ==> r
            == Ok::<bool, Status>(true),
        !entity_valid(*kind, voting_id@, voter_name@, voting_index.deep_view(), voting@) ==> r
            == Err::<bool, Status>(Status::UnprocessableEntity),
{
    let valid = match kind {
        VoteKind::Ballot(ballot) => {
            validate_requested_voting(voting_id) && validate_voting(voting_id, voting_index)
                && validate_voter_name(voter_name) && validate_candidate(
                ballot.candidate.as_str(),
            ) && validate_notes(&ballot.notes) && validate_points(voting, ballot)
        },
        _ => true,
    };
    match valid {
        true => Ok(valid),
        false => Err(Status::UnprocessableEntity),
    }
}

} // verus!
