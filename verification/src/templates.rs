//! What the pages of a poll need before they are rendered.
use vstd::prelude::*;
use crate::ballots::is_correct_invite_code;
use crate::common::Voting;
use crate::error::{VoteErrorKind, VoteErrorView};
use crate::text::{split, split_by};

verus! {

/// A poll whose invite code was shown.
#[derive(Debug)]
pub struct VotingGuard {
    pub voting: Voting,
}

impl VotingGuard {
    /// The guard for a request to see the poll `voting`: the request has
    /// to carry the poll's invite code.
    pub fn from_request<'r>(invite_code: Option<&str>, voting: Voting) -> (r: Result<
        VotingGuard,
        VoteErrorKind<'r>,
    >)
        ensures
            (match invite_code {
                Some(k) => if k@ == voting.invite_code@ {
                    r is Ok && r->Ok_0.voting == voting
                } else {
                    r is Err
                },
                None => r is Err,
            }),
            r is Err ==> r->Err_0@ == VoteErrorView::Unauthorized("Supply an invite code."@),
    {
        match invite_code {
            Some(k) => {
                if is_correct_invite_code(k, &voting) {
                    Ok(VotingGuard { voting })
                } else {
                    Err(VoteErrorKind::Unauthorized("Supply an invite code.".to_owned()))
                }
            },
            None => Err(VoteErrorKind::Unauthorized("Supply an invite code.".to_owned())),
        }
    }
}

/// The parts of a criterion's id: what stands between its underscores,
/// without an empty part at the end.
pub open spec fn id_parts(value: Seq<char>) -> Seq<Seq<char>> {
    let parts = split_by(value, "_"@);
    if parts.len() > 0 && parts.last().len() == 0 {
        parts.drop_last()
    } else {
        parts
    }
}

/// A criterion's id as it is shown: its name, then its range and weight,
/// each labelled. "n/a" for an id of fewer than four parts.
pub open spec fn shown_criterion(value: Seq<char>) -> Seq<char> {
    let v = id_parts(value);
    if v.len() >= 4 {
        v[v.len() - 4] + " "@ + "(Min:"@ + v[v.len() - 3] + ")"@ + " "@ + "(Max:"@ + v[v.len() - 2]
            + ")"@ + " "@ + "(W:"@ + v[v.len() - 1] + ")"@
    } else {
        "n/a"@
    }
}

/// A criterion's id as it is shown.
pub fn format_critera(value: &str) -> (r: String)
    ensures
        r@ == shown_criterion(value@),
{
    proof {
        reveal_strlit("_");
    }
    let mut v = split(value, "_");
    assert(v.deep_view().len() == v.len());
    if v.len() > 0 {
        assert(v.deep_view().last() == v[v.len() - 1]@);
        if v[v.len() - 1].as_str().unicode_len() == 0 {
            let ghost before = v.deep_view();
            v.pop();
            assert(v.deep_view() =~= before.drop_last());
        }
    }
    assert(v.deep_view() == id_parts(value@));
    let n = v.len();
    if n >= 4 {
        assert(forall|k: int| 0 <= k < n ==> #[trigger] v.deep_view()[k] == v[k]@);
        let mut out = v[n - 4].clone();
        out.append(" ");
        out.append("(Min:");
        out.append(v[n - 3].as_str());
        out.append(")");
        out.append(" ");
        out.append("(Max:");
        out.append(v[n - 2].as_str());
        out.append(")");
        out.append(" ");
        out.append("(W:");
        out.append(v[n - 1].as_str());
        out.append(")");
        out
    } else {
        "n/a".to_owned()
    }
}

} // verus!
