//! What the process was configured with, resolved once at start.
use vstd::prelude::*;

verus! {

/// The settings of the process. A setting that was not given is `None`.
#[derive(Debug)]
pub struct Config {
    /// Which storage is active: "1" or "db", "2" or "local", "3" or "remote".
    pub storage_mode: Option<String>,
    /// The root directory of the file storage.
    pub file_dir: Option<String>,
    /// The root directory of the static assets.
    pub asset_dir: Option<String>,
    /// The connection string of the database.
    pub sqlite_connection: Option<String>,
    /// The address of the instance that a remote mirror reads from.
    pub remote_storage: Option<String>,
    /// The name of the environment, such as "dev".
    pub environment: Option<String>,
    /// The date of the deployment.
    pub date_deploy: Option<String>,
    /// The token that makes a caller an admin.
    pub admin_token: Option<String>,
    /// The token that makes a caller a maintainer.
    pub maintainer_token: Option<String>,
    /// The credentials for the remote instance.
    pub remote_credentials: Option<String>,
    /// How to authenticate at the remote instance: "bearer" or "basic".
    pub remote_auth: Option<String>,
    /// The path of a self-signed certificate of the remote instance.
    pub self_cert: Option<String>,
}

/// The given setting, or `fallback` where it was not given.
pub open spec fn setting_or(setting: Option<Seq<char>>, fallback: Seq<char>) -> Seq<char> {
    match setting {
        Some(s) => s,
        None => fallback,
    }
}

/// The given setting, or `fallback` where it was not given.
pub fn text_or(setting: &Option<String>, fallback: &str) -> (r: String)
    ensures
        r@ == setting_or(setting.deep_view(), fallback@),
{
    match setting {
        Some(s) => s.clone(),
        None => fallback.to_owned(),
    }
}

impl Config {
    /// A configuration in which nothing was given.
    pub fn unset() -> (r: Config)
        ensures
            r.storage_mode is None,
            r.file_dir is None,
            r.asset_dir is None,
            r.sqlite_connection is None,
            r.remote_storage is None,
            r.environment is None,
            r.date_deploy is None,
            r.admin_token is None,
            r.maintainer_token is None,
            r.remote_credentials is None,
            r.remote_auth is None,
            r.self_cert is None,
    {
        Config {
            storage_mode: None,
            file_dir: None,
            asset_dir: None,
            sqlite_connection: None,
            remote_storage: None,
            environment: None,
            date_deploy: None,
            admin_token: None,
            maintainer_token: None,
            remote_credentials: None,
            remote_auth: None,
            self_cert: None,
        }
    }
}

} // verus!
