//! Candidates and voters by name.
use vstd::prelude::*;
use crate::common::{Candidate, CandidateView, IdGenerator};
use crate::text::{starts_with, strip_prefix};

verus! {

/// The two roles that a stored person can have.
#[derive(Clone, Copy, Debug, PartialEq, Eq, Structural)]
pub enum User {
    Candidate,
    Voter,
}

/// The names of all voters and of all candidates.
#[derive(Debug)]
pub struct Users {
    pub voters: Vec<String>,
    pub candidates: Vec<String>,
}

/// What `Users` holds.
pub struct UsersView {
    pub voters: Seq<Seq<char>>,
    pub candidates: Seq<Seq<char>>,
}

impl View for Users {
    type V = UsersView;

    open spec fn view(&self) -> UsersView {
        UsersView { voters: self.voters.deep_view(), candidates: self.candidates.deep_view() }
    }
}

/// Whether an id is filed among the voters.
pub open spec fn filed_as_voter(id: Seq<char>) -> bool {
    "voter"@.is_prefix_of(id)
}

/// Whether an id carries the prefix of the role it is filed under.
pub open spec fn well_prefixed(id: Seq<char>) -> bool {
    if filed_as_voter(id) {
        "voter_"@.is_prefix_of(id)
    } else {
        "candidate_"@.is_prefix_of(id)
    }
}

/// Whether each of `ids` carries the prefix of its role.
pub open spec fn all_well_prefixed(ids: Seq<Seq<char>>) -> bool {
    forall|i: int| 0 <= i < ids.len() ==> well_prefixed(#[trigger] ids[i])
}

/// The names behind the ids of one role, in their order.
pub open spec fn names_of(ids: Seq<Seq<char>>, voters: bool) -> Seq<Seq<char>>
    decreases ids.len(),
{
    if ids.len() == 0 {
        Seq::empty()
    } else {
        let rest = names_of(ids.drop_last(), voters);
        let id = ids.last();
        if filed_as_voter(id) == voters {
            rest.push(
                id.skip(
                    if voters {
                        "voter_"@.len() as int
                    } else {
                        "candidate_"@.len() as int
                    },
                ),
            )
        } else {
            rest
        }
    }
}

/// The voters and candidates that a listing of ids names: an id that
/// starts with "voter" is a voter's, any other a candidate's, and the name
/// is what follows the role's prefix. `None` where an id lacks the prefix
/// of its role.
pub fn get_users_internal(ids: &Vec<String>) -> (r: Option<Users>)
    ensures
        r is Some <==> all_well_prefixed(ids.deep_view()),
        r is Some ==> r->0@ == (UsersView {
            voters: names_of(ids.deep_view(), true),
            candidates: names_of(ids.deep_view(), false),
        }),
{
    let mut voters: Vec<String> = Vec::new();
    let mut candidates: Vec<String> = Vec::new();
    let mut i: usize = 0;
    assert(ids.deep_view().take(0) =~= Seq::<Seq<char>>::empty());
    assert(voters.deep_view() =~= Seq::<Seq<char>>::empty());
    assert(candidates.deep_view() =~= Seq::<Seq<char>>::empty());
    while i < ids.len()
        invariant
            i <= ids.len(),
            all_well_prefixed(ids.deep_view().take(i as int)),
            voters.deep_view() == names_of(ids.deep_view().take(i as int), true),
            candidates.deep_view() == names_of(ids.deep_view().take(i as int), false),
        decreases ids.len() - i,
    {
        let ghost next = ids.deep_view().take(i + 1);
        assert(next.drop_last() =~= ids.deep_view().take(i as int));
        assert(next.last() == ids[i as int]@);
        assert(ids.deep_view()[i as int] == ids[i as int]@);
        let id = ids[i].as_str();
        let stripped = if starts_with(id, "voter") {
            strip_prefix(id, "voter_")
        } else {
            strip_prefix(id, "candidate_")
        };
        match stripped {
            Some(name) => {
                if starts_with(id, "voter") {
                    let ghost before = voters.deep_view();
                    voters.push(name);
                    assert(voters.deep_view() =~= before.push(name@));
                } else {
                    let ghost before = candidates.deep_view();
                    candidates.push(name);
                    assert(candidates.deep_view() =~= before.push(name@));
                }
            },
            None => {
                assert(!well_prefixed(ids.deep_view()[i as int]));
                return None;
            },
        }
        assert forall|k: int| 0 <= k < next.len() implies well_prefixed(#[trigger] next[k]) by {
            if k < i {
                assert(next[k] == ids.deep_view().take(i as int)[k]);
            }
        }
        i += 1;
    }
    assert(ids.deep_view().take(ids.len() as int) =~= ids.deep_view());
    Some(Users { voters, candidates })
}

/// The names of one role.
pub fn get_users_by_type(role: User, users: Users) -> (r: Vec<String>)
    ensures
        r == (match role {
            User::Candidate => users.candidates,
            User::Voter => users.voters,
        }),
{
    match role {
        User::Candidate => users.candidates,
        User::Voter => users.voters,
    }
}

/// The answer to a request for a person that is not stored.
pub fn user_not_found(id: &str) -> (r: String)
    ensures
        r@ == id@ + " not found."@,
{
    crate::text::concat(id, " not found.")
}


/// The person that is stored for one that was sent in: the same person,
/// under the id that is derived from the role and the label.
pub fn post_user(user: Candidate) -> (r: Candidate)
    ensures
        r@ == (CandidateView { id: Some(user.generated_id_text()), ..user@ }),
{
    let mut payload = user;
    let id = payload.generate_id();
    payload.set_id(id.as_str());
    payload
}

} // verus!
