//! Who may close or change a poll.
use vstd::prelude::*;
use crate::error::{VoteErrorKind, VoteErrorView};
use crate::text::same_text;

verus! {

/// The role of a caller who may change polls.
#[derive(Clone, Copy, Debug, PartialEq, Eq, Structural)]
pub enum UserRole {
    Admin,
    Maintainer,
}

/// A caller who showed a valid token.
#[derive(Debug)]
pub struct ElevatedUser {
    pub role: UserRole,
}

/// Whether `token_value` is the configured token.
pub open spec fn token_matches(configured: Option<Seq<char>>, token_value: Seq<char>) -> bool {
    configured == Some(token_value)
}

/// The role that a token gives: maintainer before admin, `None` where the
/// token is neither's or was not sent.
pub open spec fn role_of_token(
    token: Option<Seq<char>>,
    maintainer_token: Option<Seq<char>>,
    admin_token: Option<Seq<char>>,
) -> Option<UserRole> {
    match token {
        Some(t) => if token_matches(maintainer_token, t) {
            Some(UserRole::Maintainer)
        } else if token_matches(admin_token, t) {
            Some(UserRole::Admin)
        } else {
            None
        },
        None => None,
    }
}

/// Whether `token_value` is the configured token.
pub fn is_token_valid(configured: &Option<String>, token_value: &str) -> (r: bool)
    ensures
        r == token_matches(configured.deep_view(), token_value@),
{
    match configured {
        Some(t) => same_text(t.as_str(), token_value),
        None => false,
    }
}

impl ElevatedUser {
    pub fn new_admin() -> (r: Self)
        ensures
            r.role == UserRole::Admin,
    {
        Self { role: UserRole::Admin }
    }

    pub fn new_maintainer() -> (r: Self)
        ensures
            r.role == UserRole::Maintainer,
    {
        Self { role: UserRole::Maintainer }
    }

    /// The caller that a request's token stands for. A request without a
    /// token, or with one that is not configured, is refused.
    pub fn from_token<'r>(
        token: Option<&str>,
        maintainer_token: &Option<String>,
        admin_token: &Option<String>,
    ) -> (r: Result<ElevatedUser, VoteErrorKind<'r>>)
        ensures
            (match role_of_token(
                match token {
                    Some(t) => Some(t@),
                    None => None,
                },
                maintainer_token.deep_view(),
                admin_token.deep_view(),
            ) {
                Some(role) => r is Ok && r->Ok_0.role == role,
                None => r is Err && r->Err_0@ == VoteErrorView::Unauthorized(
                    "Provide a valid token"@,
                ),
            }),
    {
        match token {
            Some(t) => {
                if is_token_valid(maintainer_token, t) {
                    return Ok(ElevatedUser::new_maintainer());
                }
                if is_token_valid(admin_token, t) {
                    return Ok(ElevatedUser::new_admin());
                }
                Err(VoteErrorKind::Unauthorized("Provide a valid token".to_owned()))
            },
            None => Err(VoteErrorKind::Unauthorized("Provide a valid token".to_owned())),
        }
    }
}

} // verus!
