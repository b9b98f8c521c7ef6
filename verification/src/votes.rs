//! Opening, closing and changing polls.
use vstd::prelude::*;
use crate::authentication::ElevatedUser;
use crate::common::{
    candidate_id, criterion_id, default_styles, Candidate, CandidateView, CreateVoting, Criterion,
    CriterionView, IdGenerator, Voting, VotingStyles, VotingStylesView, VotingView,
};
use crate::error::VoteErrorKind;
use crate::routes::{refusal, status_of, Refusal, Status, API_VOTINGS};
use crate::text::{concat, lowercase, same_text, to_lowercase};
use crate::time::{not_after, Timestamp};
use crate::validator::{regex_search, search};

verus! {

/// The form of an invite code: a letter followed by four letters or digits,
/// somewhere in the code.
pub const INVITE_CODE_PATTERN: &'static str = r"[a-zA-Z]{1}[a-zA-Z0-9]{4}";

/// Whether a poll can be opened under this invite code.
pub open spec fn invite_code_accepted(code: Seq<char>) -> bool {
    regex_search(INVITE_CODE_PATTERN@, code) == Some(true)
}

/// Whether a poll can be opened under this invite code.
pub fn accepts_invite_code(code: &str) -> (r: bool)
    ensures
        r == invite_code_accepted(code@),
{
    match search(INVITE_CODE_PATTERN, code) {
        Some(found) => found,
        None => false,
    }
}

/// The styles of a poll that is being opened: those that were asked for, or
/// the default ones.
pub open spec fn styles_or_default(styles: Option<VotingStyles>) -> VotingStylesView {
    match styles {
        Some(s) => s@,
        None => default_styles(),
    }
}

/// The ids under which criteria are looked up: their names in lower
/// case.
pub fn criterion_ids(names: &Vec<String>) -> (r: Vec<String>)
    ensures
        r.deep_view() == names.deep_view().map_values(|name: Seq<char>| lowercase(name)),
{
    let mut out: Vec<String> = Vec::new();
    let mut i: usize = 0;
    while i < names.len()
        invariant
            i <= names.len(),
            out.deep_view() == names.deep_view().take(i as int).map_values(
                |name: Seq<char>| lowercase(name),
            ),
        decreases names.len() - i,
    {
        let ghost before = out.deep_view();
        out.push(to_lowercase(names[i].as_str()));
        assert(out.deep_view() =~= before.push(lowercase(names[i as int]@)));
        assert(names.deep_view().take(i + 1).map_values(|name: Seq<char>| lowercase(name))
            =~= before.push(lowercase(names[i as int]@)));
        i += 1;
    }
    assert(names.deep_view().take(names.len() as int) =~= names.deep_view());
    out
}

/// The ids under which the candidates of a request are looked up: their
/// names in lower case behind the candidates' prefix.
pub fn candidate_ids(names: &Vec<String>) -> (r: Vec<String>)
    ensures
        r.deep_view() == names.deep_view().map_values(
            |name: Seq<char>| "candidate_"@ + lowercase(name),
        ),
{
    let mut out: Vec<String> = Vec::new();
    let mut i: usize = 0;
    while i < names.len()
        invariant
            i <= names.len(),
            out.deep_view() == names.deep_view().take(i as int).map_values(
                |name: Seq<char>| "candidate_"@ + lowercase(name),
            ),
        decreases names.len() - i,
    {
        let ghost before = out.deep_view();
        let id = Candidate::fill_id(names[i].as_str());
        out.push(id);
        assert(out.deep_view() =~= before.push("candidate_"@ + lowercase(names[i as int]@)));
        assert(names.deep_view().take(i + 1).map_values(
            |name: Seq<char>| "candidate_"@ + lowercase(name),
        ) =~= before.push("candidate_"@ + lowercase(names[i as int]@)));
        i += 1;
    }
    assert(names.deep_view().take(names.len() as int) =~= names.deep_view());
    out
}

/// The poll that a request opens: named and coded as asked, created at
/// `now`, with the criteria and candidates that were found for it.
pub fn query_full_voting(
    voting: CreateVoting,
    criterias: Vec<Criterion>,
    candidates: Vec<Candidate>,
    now: Timestamp,
) -> (r: Voting)
    ensures
        r@ == (VotingView {
            name: voting.name@,
            expires_at: Some(voting.expires_at),
            created_at: Some(now),
            candidates: candidates.deep_view(),
            categories: criterias.deep_view(),
            styles: styles_or_default(voting.styles),
            invite_code: voting.invite_code@,
        }),
{
    let styles = match voting.styles {
        Some(s) => s,
        None => VotingStyles::default(),
    };
    Voting {
        name: voting.name,
        expires_at: Some(voting.expires_at),
        created_at: Some(now),
        candidates,
        categories: criterias,
        styles,
        invite_code: voting.invite_code,
    }
}

/// The request that opens a stored poll anew, without candidates,
/// criteria and styles. `None` where the poll has no date of expiry.
pub fn get_full_vote(voting: Voting) -> (r: Option<CreateVoting>)
    ensures
        r is Some <==> voting.expires_at is Some,
        r is Some ==> {
            &&& r->0.name@ == voting.name@
            &&& r->0.expires_at == voting.expires_at->0
            &&& r->0.candidates@.len() == 0
            &&& r->0.criterias@.len() == 0
            &&& r->0.styles is None
            &&& r->0.invite_code@ == voting.invite_code@
        },
{
    match voting.expires_at {
        Some(expires_at) => Some(
            CreateVoting {
                name: voting.name,
                expires_at,
                candidates: Vec::new(),
                criterias: Vec::new(),
                styles: None,
                invite_code: voting.invite_code,
            },
        ),
        None => None,
    }
}

/// Where a poll that was opened can be found.
pub fn voting_location(name: &str) -> (r: String)
    ensures
        r@ == API_VOTINGS@ + "/"@ + name@,
{
    let head = concat(API_VOTINGS, "/");
    concat(head.as_str(), name)
}

/// The answer to a request to open a poll: unprocessable where the invite
/// code has not the form of one; else the place of the poll where it was
/// saved, and the failure of the save with its message where it was not: a
/// poll of that name is a conflict that names what exists. `saved` is only
/// looked at for an accepted code.
pub fn post_vote<'r>(
    name: &str,
    invite_code: &str,
    saved: Result<String, VoteErrorKind<'r>>,
) -> (r: Result<String, Refusal>)
    ensures
        !invite_code_accepted(invite_code@) ==> r is Err && r->Err_0.status
            == Status::UnprocessableEntity && r->Err_0.message@
            == "The invite code has not the form of one."@,
        invite_code_accepted(invite_code@) ==> (match saved {
            Err(e) => r is Err && r->Err_0.status == status_of(e@) && r->Err_0.message@
                == e@.message(),
            Ok(_) => r is Ok && r->Ok_0@ == API_VOTINGS@ + "/"@ + name@,
        }),
{
    if accepts_invite_code(invite_code) {
        match saved {
            Ok(_done) => Ok(voting_location(name)),
            Err(e) => Err(refusal(&e)),
        }
    } else {
        Err(
            Refusal {
                status: Status::UnprocessableEntity,
                message: "The invite code has not the form of one.".to_owned(),
            },
        )
    }
}

/// Whether a poll still takes votes at the time `now`: it expires later.
pub open spec fn is_open(voting: VotingView, now: Timestamp) -> bool {
    match voting.expires_at {
        Some(expiry) => !not_after(expiry, now),
        None => false,
    }
}

/// The poll, closed at `now` by a caller who may do so.
pub fn close_vote(_elevated_user: &ElevatedUser, voting: Voting, now: Timestamp) -> (r: Voting)
    ensures
        r@ == (VotingView { expires_at: Some(now), ..voting@ }),
{
    let mut voting = voting;
    voting.expires_at = Some(now);
    voting
}

/// A poll that was closed is open at no later time.
pub proof fn lemma_closed_stays_closed(voting: VotingView, closed_at: Timestamp, later: Timestamp)
    requires
        not_after(closed_at, later),
    ensures
        !is_open(VotingView { expires_at: Some(closed_at), ..voting }, later),
{
}

/// The answer to a request to close or change a poll, from what the
/// storage said to the update: what it said, or its failure with its
/// status and message.
pub fn update_answer<'r>(updated: Result<String, VoteErrorKind<'r>>) -> (r: Result<String, Refusal>)
    ensures
        (match updated {
            Ok(done) => r == Ok::<String, Refusal>(done),
            Err(e) => r is Err && r->Err_0.status == status_of(e@) && r->Err_0.message@
                == e@.message(),
        }),
{
    match updated {
        Ok(done) => Ok(done),
        Err(e) => Err(refusal(&e)),
    }
}

/// Candidates and criteria to add to a poll, by name.
#[derive(Debug)]
pub struct PossibleVotingModification {
    pub candidates: Option<Vec<String>>,
    pub categories: Option<Vec<String>>,
}

/// The id that a stored candidate or voter answers to.
pub open spec fn stored_id(c: CandidateView) -> Seq<char> {
    match c.id {
        Some(id) => id,
        None => candidate_id(c.voter, c.label),
    }
}

/// Whether the candidate called `name` is one of the poll's: one of them
/// answers to the id that `name` is looked up under.
pub open spec fn has_candidate(existing: Seq<CandidateView>, name: Seq<char>) -> bool {
    exists|i: int|
        0 <= i < existing.len() && stored_id(#[trigger] existing[i]) == "candidate_"@ + lowercase(
            name,
        )
}

/// Whether the criterion called `name` is one of the poll's: one of them
/// has the id that `name` is looked up under.
pub open spec fn has_criterion(existing: Seq<CriterionView>, name: Seq<char>) -> bool {
    exists|i: int|
        0 <= i < existing.len() && criterion_id(#[trigger] existing[i]) == lowercase(name)
}

/// Whether the candidate called `name` is one of the poll's.
pub fn matches_candidate(existing: &Vec<Candidate>, name: &str) -> (r: bool)
    ensures
        r == has_candidate(existing.deep_view(), name@),
{
    let wanted = Candidate::fill_id(name);
    let mut i: usize = 0;
    while i < existing.len()
        invariant
            i <= existing.len(),
            wanted@ == "candidate_"@ + lowercase(name@),
            forall|j: int| 0 <= j < i ==> stored_id(#[trigger] existing.deep_view()[j]) != wanted@,
        decreases existing.len() - i,
    {
        assert(existing.deep_view()[i as int] == existing[i as int]@);
        let id = existing[i].get_id();
        if same_text(id.as_str(), wanted.as_str()) {
            return true;
        }
        i += 1;
    }
    false
}

/// Whether the criterion called `name` is one of the poll's.
pub fn matches_criterion(existing: &Vec<Criterion>, name: &str) -> (r: bool)
    ensures
        r == has_criterion(existing.deep_view(), name@),
{
    let wanted = to_lowercase(name);
    let mut i: usize = 0;
    while i < existing.len()
        invariant
            i <= existing.len(),
            wanted@ == lowercase(name@),
            forall|j: int|
                0 <= j < i ==> criterion_id(#[trigger] existing.deep_view()[j]) != wanted@,
        decreases existing.len() - i,
    {
        assert(existing.deep_view()[i as int] == existing[i as int]@);
        let id = existing[i].get_id();
        if same_text(id.as_str(), wanted.as_str()) {
            return true;
        }
        i += 1;
    }
    false
}

/// Those of the named candidates that a change adds to the poll, and that
/// are looked up for it: the ones that the poll does not have yet.
pub fn requested_candidates(voting: &Voting, new_candidates: &Vec<String>) -> (r: Vec<String>)
    ensures
        r.deep_view() == new_candidates.deep_view().filter(
            |name: Seq<char>| !has_candidate(voting@.candidates, name),
        ),
{
    let ghost pred = |name: Seq<char>| !has_candidate(voting@.candidates, name);
    let mut out: Vec<String> = Vec::new();
    let mut i: usize = 0;
    proof {
        reveal(Seq::filter);
        assert(new_candidates.deep_view().take(0).filter(pred) =~= out.deep_view());
    }
    while i < new_candidates.len()
        invariant
            i <= new_candidates.len(),
            pred == (|name: Seq<char>| !has_candidate(voting@.candidates, name)),
            out.deep_view() == new_candidates.deep_view().take(i as int).filter(pred),
        decreases new_candidates.len() - i,
    {
        proof {
            new_candidates.deep_view().lemma_take_succ_push(i as int);
            new_candidates.deep_view().take(i as int).lemma_filter_push(
                new_candidates[i as int]@,
                pred,
            );
        }
        if !matches_candidate(&voting.candidates, new_candidates[i].as_str()) {
            let ghost before = out.deep_view();
            out.push(new_candidates[i].clone());
            assert(out.deep_view() =~= before.push(new_candidates[i as int]@));
        }
        i += 1;
    }
    assert(new_candidates.deep_view().take(new_candidates.len() as int)
        =~= new_candidates.deep_view());
    out
}

/// Those of the named criteria that a change adds to the poll, and that
/// are looked up for it: the ones that the poll does not have yet.
pub fn requested_categories(voting: &Voting, new_categories: &Vec<String>) -> (r: Vec<String>)
    ensures
        r.deep_view() == new_categories.deep_view().filter(
            |name: Seq<char>| !has_criterion(voting@.categories, name),
        ),
{
    let ghost pred = |name: Seq<char>| !has_criterion(voting@.categories, name);
    let mut out: Vec<String> = Vec::new();
    let mut i: usize = 0;
    proof {
        reveal(Seq::filter);
        assert(new_categories.deep_view().take(0).filter(pred) =~= out.deep_view());
    }
    while i < new_categories.len()
        invariant
            i <= new_categories.len(),
            pred == (|name: Seq<char>| !has_criterion(voting@.categories, name)),
            out.deep_view() == new_categories.deep_view().take(i as int).filter(pred),
        decreases new_categories.len() - i,
    {
        proof {
            new_categories.deep_view().lemma_take_succ_push(i as int);
            new_categories.deep_view().take(i as int).lemma_filter_push(
                new_categories[i as int]@,
                pred,
            );
        }
        if !matches_criterion(&voting.categories, new_categories[i].as_str()) {
            let ghost before = out.deep_view();
            out.push(new_categories[i].clone());
            assert(out.deep_view() =~= before.push(new_categories[i as int]@));
        }
        i += 1;
    }
    assert(new_categories.deep_view().take(new_categories.len() as int)
        =~= new_categories.deep_view());
    out
}

/// The poll after a change by a caller who may change it: the candidates
/// and criteria that were found for the request stand behind those it had.
/// A request that does not name both candidates and criteria is a conflict.
pub fn modify_voting(
    _elevated_user: &ElevatedUser,
    voting: Voting,
    modifications: &PossibleVotingModification,
    collected_candidates: Vec<Candidate>,
    collected_criterias: Vec<Criterion>,
) -> (r: Result<Voting, Status>)
    ensures
        r is Ok <==> modifications.candidates is Some && modifications.categories is Some,
        r is Ok ==> r->Ok_0@ == (VotingView {
            candidates: voting@.candidates + collected_candidates.deep_view(),
            categories: voting@.categories + collected_criterias.deep_view(),
            ..voting@
        }),
        r is Err ==> r->Err_0 == Status::Conflict,
{
    if modifications.candidates.is_some() && modifications.categories.is_some() {
        let mut voting = voting;
        let mut collected_candidates = collected_candidates;
        let mut collected_criterias = collected_criterias;
        let ghost candidates_before = voting.candidates.deep_view();
        let ghost categories_before = voting.categories.deep_view();
        let ghost more_candidates = collected_candidates.deep_view();
        let ghost more_criterias = collected_criterias.deep_view();
        voting.candidates.append(&mut collected_candidates);
        voting.categories.append(&mut collected_criterias);
        assert(voting.candidates.deep_view() =~= candidates_before + more_candidates);
        assert(voting.categories.deep_view() =~= categories_before + more_criterias);
        Ok(voting)
    } else {
        Err(Status::Conflict)
    }
}

} // verus!
