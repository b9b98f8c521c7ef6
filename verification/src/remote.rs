//! The remote mirror: how another instance is asked, and what its answer
//! holds.
use vstd::prelude::*;
use crate::common::{
    Candidate, CastBallots, Criteria, Criterion, EmojiCategories, Voting, Votings,
};
use crate::config::Config;
use crate::local::{json_list_of, read_index};
use crate::text::{after_first, after_mark, before_first, before_mark, concat, same_text};

verus! {

/// How a request to the remote instance is authenticated.
#[derive(Debug)]
pub enum RemoteAuth {
    /// Not at all.
    Anonymous,
    /// By a bearer token.
    Bearer(String),
    /// By a user's name and password.
    Basic(String, String),
}

/// What a `RemoteAuth` holds.
pub enum RemoteAuthView {
    Anonymous,
    Bearer(Seq<char>),
    Basic(Seq<char>, Seq<char>),
}

impl View for RemoteAuth {
    type V = RemoteAuthView;

    open spec fn view(&self) -> RemoteAuthView {
        match self {
            RemoteAuth::Anonymous => RemoteAuthView::Anonymous,
            RemoteAuth::Bearer(t) => RemoteAuthView::Bearer(t@),
            RemoteAuth::Basic(user, pw) => RemoteAuthView::Basic(user@, pw@),
        }
    }
}

/// How requests are authenticated with the given credentials: as a bearer
/// of the credentials, or by the name and the password that stand before
/// and behind their first colon. Without credentials, with a way that is
/// neither "bearer" nor "basic", or with credentials for "basic" that hold
/// no colon, requests are not authenticated.
pub open spec fn remote_auth_of(credentials: Option<Seq<char>>, auth: Option<Seq<char>>) -> RemoteAuthView {
    match (credentials, auth) {
        (Some(t), Some(way)) => if way == "bearer"@ {
            RemoteAuthView::Bearer("Bearer "@ + t)
        } else if way == "basic"@ && t.contains(':') {
            RemoteAuthView::Basic(before_mark(t, ':'), after_mark(t, ':')->0)
        } else {
            RemoteAuthView::Anonymous
        },
        _ => RemoteAuthView::Anonymous,
    }
}

/// The kind of answer that is asked for.
pub const ACCEPT: &'static str = "application/json";

/// A kind of entity whose known ids a remote instance lists.
pub trait RemoteIndex {
    /// The path of the certificate that the remote instance is trusted by,
    /// where one is configured.
    fn prepare(&self, config: &Config) -> (r: Option<String>)
        ensures
            r.deep_view() == config.self_cert.deep_view(),
    {
        crate::common::copy_optional_text(&config.self_cert)
    }

    /// How a request to the remote instance is authenticated.
    fn http_get(&self, config: &Config) -> (r: RemoteAuth)
        ensures
            r@ == remote_auth_of(
                config.remote_credentials.deep_view(),
                config.remote_auth.deep_view(),
            ),
    {
        match (&config.remote_credentials, &config.remote_auth) {
            (Some(t), Some(auths)) => {
                if same_text(auths.as_str(), "bearer") {
                    RemoteAuth::Bearer(concat("Bearer ", t.as_str()))
                } else if same_text(auths.as_str(), "basic") {
                    match (before_first(t.as_str(), ':'), after_first(t.as_str(), ':')) {
                        (Some(user), Some(pw)) => RemoteAuth::Basic(user, pw),
                        _ => {
                            proof {
                                if t@.contains(':') {
                                    crate::text::lemma_mark_has_rest(t@, ':');
                                }
                            }
                            RemoteAuth::Anonymous
                        },
                    }
                } else {
                    RemoteAuth::Anonymous
                }
            },
            _ => RemoteAuth::Anonymous,
        }
    }

    /// The ids that the answer of the remote instance lists. An instance
    /// that could not be reached (`None`), or whose answer is no list,
    /// lists nothing.
    fn get(&self, body: Option<String>) -> (r: Vec<String>)
        ensures
            r.deep_view() == (match body {
                Some(text) => match json_list_of(text@) {
                    Some(ids) => ids,
                    None => Seq::empty(),
                },
                None => Seq::empty(),
            }),
    {
        let listed = match body {
            Some(text) => read_index(text.as_str()),
            None => None,
        };
        match listed {
            Some(ids) => ids,
            None => {
                let none: Vec<String> = Vec::new();
                assert(none.deep_view() =~= Seq::<Seq<char>>::empty());
                none
            },
        }
    }
}

impl RemoteIndex for EmojiCategories {

}

impl RemoteIndex for Criterion {

}

impl RemoteIndex for Criteria {

}

impl RemoteIndex for Candidate {

}

impl RemoteIndex for CastBallots {

}

impl RemoteIndex for Voting {

}

impl RemoteIndex for Votings {

}

} // verus!
