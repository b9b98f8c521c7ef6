//! Which storage is active, and where it keeps what.
use vstd::prelude::*;
use crate::config::{setting_or, text_or, Config};
use crate::common::{
    Candidate, CastBallots, Criteria, Criterion, EmojiCategories, Voting, Votings,
};
use crate::local::FileDir;
use crate::text::{concat, same_text};

verus! {

/// A remote mirror: another instance that is read from.
#[derive(Debug)]
pub struct RemoteConfig {
    pub url: Option<String>,
}

/// Directories of files on this machine.
#[derive(Debug)]
pub struct FileConfig {
    pub dir: String,
}

/// A relational database.
#[derive(Debug)]
pub struct DatabaseConfig {
    pub url: Option<String>,
}

/// The storage that the process works on.
#[derive(Debug)]
pub enum PersistenceMode {
    DB(DatabaseConfig),
    File(FileConfig),
    Remote(RemoteConfig),
}

/// What a `PersistenceMode` holds.
pub enum ModeView {
    DB(Option<Seq<char>>),
    File(Seq<char>),
    Remote(Option<Seq<char>>),
}

impl View for PersistenceMode {
    type V = ModeView;

    open spec fn view(&self) -> ModeView {
        match self {
            PersistenceMode::DB(d) => ModeView::DB(d.url.deep_view()),
            PersistenceMode::File(d) => ModeView::File(d.dir@),
            PersistenceMode::Remote(d) => ModeView::Remote(d.url.deep_view()),
        }
    }
}

/// The root of the file storage: the configured directory, or "/tmp/".
pub open spec fn file_root(file_dir: Option<Seq<char>>) -> Seq<char> {
    setting_or(file_dir, "/tmp/"@)
}

/// The storage that is active where none is named: files.
pub open spec fn default_mode_of(file_dir: Option<Seq<char>>) -> ModeView {
    ModeView::File(file_root(file_dir))
}

/// The storage that `mode` names: "1" or "db" the database, "2" or "local"
/// files, "3" or "remote" a remote mirror, anything else the default.
/// `None` where the database or the mirror is named and its address is
/// not configured.
pub open spec fn mode_named(
    mode: Seq<char>,
    file_dir: Option<Seq<char>>,
    sqlite_connection: Option<Seq<char>>,
    remote_storage: Option<Seq<char>>,
) -> Option<ModeView> {
    if mode == "1"@ || mode == "db"@ {
        match sqlite_connection {
            Some(c) => Some(ModeView::DB(Some(c))),
            None => None,
        }
    } else if mode == "2"@ || mode == "local"@ {
        Some(ModeView::File(file_root(file_dir)))
    } else if mode == "3"@ || mode == "remote"@ {
        match remote_storage {
            Some(c) => Some(ModeView::Remote(Some(c))),
            None => None,
        }
    } else {
        Some(default_mode_of(file_dir))
    }
}

/// The storage that a configuration selects.
pub open spec fn detected_mode(
    storage_mode: Option<Seq<char>>,
    file_dir: Option<Seq<char>>,
    sqlite_connection: Option<Seq<char>>,
    remote_storage: Option<Seq<char>>,
) -> Option<ModeView> {
    match storage_mode {
        Some(s) => mode_named(s, file_dir, sqlite_connection, remote_storage),
        None => Some(default_mode_of(file_dir)),
    }
}

/// Where a storage keeps its data: a connection string, a directory or an
/// address. `None` where a database or a mirror has no address.
pub open spec fn conform_path(mode: ModeView) -> Option<Seq<char>> {
    match mode {
        ModeView::DB(url) => url,
        ModeView::File(dir) => Some(dir),
        ModeView::Remote(url) => url,
    }
}

/// Where the storage that a configuration selects keeps its data.
pub open spec fn configured_path(
    storage_mode: Option<Seq<char>>,
    file_dir: Option<Seq<char>>,
    sqlite_connection: Option<Seq<char>>,
    remote_storage: Option<Seq<char>>,
) -> Option<Seq<char>> {
    match detected_mode(storage_mode, file_dir, sqlite_connection, remote_storage) {
        Some(m) => conform_path(m),
        None => None,
    }
}

/// Whether the storage that the configuration selects has its address:
/// a database its connection, a mirror the instance it reads from. Files
/// always have their directory.
pub open spec fn addressed(config: Config) -> bool {
    detected_mode(
        config.storage_mode.deep_view(),
        config.file_dir.deep_view(),
        config.sqlite_connection.deep_view(),
        config.remote_storage.deep_view(),
    ) is Some
}

/// Whether the configuration selects the file storage.
pub open spec fn files_selected(config: Config) -> bool {
    detected_mode(
        config.storage_mode.deep_view(),
        config.file_dir.deep_view(),
        config.sqlite_connection.deep_view(),
        config.remote_storage.deep_view(),
    ) matches Some(ModeView::File(_))
}

impl PersistenceMode {
    /// The storage that is active where none is named.
    pub fn default_mode(config: &Config) -> (r: Self)
        ensures
            r@ == default_mode_of(config.file_dir.deep_view()),
    {
        PersistenceMode::File(FileConfig { dir: text_or(&config.file_dir, "/tmp/") })
    }

    /// Whether the storage that `mode` names has its address.
    pub fn has_address(mode: &str, config: &Config) -> (r: bool)
        ensures
            r == mode_named(
                mode@,
                config.file_dir.deep_view(),
                config.sqlite_connection.deep_view(),
                config.remote_storage.deep_view(),
            ) is Some,
    {
        if same_text(mode, "1") || same_text(mode, "db") {
            config.sqlite_connection.is_some()
        } else if same_text(mode, "2") || same_text(mode, "local") {
            true
        } else if same_text(mode, "3") || same_text(mode, "remote") {
            config.remote_storage.is_some()
        } else {
            true
        }
    }

    /// Whether the storage that the configuration selects has its address.
    pub fn is_addressed(config: &Config) -> (r: bool)
        ensures
            r == addressed(*config),
    {
        match &config.storage_mode {
            Some(s) => PersistenceMode::has_address(s.as_str(), config),
            None => true,
        }
    }

    /// The storage that `mode` names. A database or a mirror has to have
    /// its address.
    pub fn from(mode: &str, config: &Config) -> (r: Self)
        requires
            mode_named(
                mode@,
                config.file_dir.deep_view(),
                config.sqlite_connection.deep_view(),
                config.remote_storage.deep_view(),
            ) is Some,
        ensures
            Some(r@) == mode_named(
                mode@,
                config.file_dir.deep_view(),
                config.sqlite_connection.deep_view(),
                config.remote_storage.deep_view(),
            ),
    {
        if same_text(mode, "1") || same_text(mode, "db") {
            match &config.sqlite_connection {
                Some(connection) => PersistenceMode::DB(
                    DatabaseConfig { url: Some(connection.clone()) },
                ),
                None => vstd::pervasive::unreached(),
            }
        } else if same_text(mode, "2") || same_text(mode, "local") {
            PersistenceMode::File(FileConfig { dir: text_or(&config.file_dir, "/tmp/") })
        } else if same_text(mode, "3") || same_text(mode, "remote") {
            match &config.remote_storage {
                Some(connection) => PersistenceMode::Remote(
                    RemoteConfig { url: Some(connection.clone()) },
                ),
                None => vstd::pervasive::unreached(),
            }
        } else {
            PersistenceMode::default_mode(config)
        }
    }

    /// The storage that the configuration selects, which has to have its
    /// address.
    pub fn detect_config_mode(config: &Config) -> (r: Self)
        requires
            addressed(*config),
        ensures
            Some(r@) == detected_mode(
                config.storage_mode.deep_view(),
                config.file_dir.deep_view(),
                config.sqlite_connection.deep_view(),
                config.remote_storage.deep_view(),
            ),
    {
        match &config.storage_mode {
            Some(s) => PersistenceMode::from(s.as_str(), config),
            None => PersistenceMode::default_mode(config),
        }
    }

    /// Where this storage keeps its data.
    pub fn path(&self) -> (r: Option<String>)
        ensures
            r.deep_view() == conform_path(self@),
    {
        match self {
            PersistenceMode::DB(d) => crate::common::copy_optional_text(&d.url),
            PersistenceMode::File(d) => Some(d.dir.clone()),
            PersistenceMode::Remote(d) => crate::common::copy_optional_text(&d.url),
        }
    }

    /// Where the storage that the configuration selects keeps its data:
    /// the connection of the database, the directory of the files, or the
    /// address of the mirror.
    pub fn to_conform_path(config: &Config) -> (r: String)
        requires
            addressed(*config),
        ensures
            Some(r@) == configured_path(
                config.storage_mode.deep_view(),
                config.file_dir.deep_view(),
                config.sqlite_connection.deep_view(),
                config.remote_storage.deep_view(),
            ),
    {
        match PersistenceMode::detect_config_mode(config).path() {
            Some(path) => path,
            None => vstd::pervasive::unreached(),
        }
    }
}

/// The root that entities lie below: where the active storage keeps its
/// data, or, where only this machine's files are meant, the root of the
/// file storage.
pub open spec fn storage_root(config: Config, possible_remote: bool) -> Option<Seq<char>> {
    if possible_remote {
        configured_path(
            config.storage_mode.deep_view(),
            config.file_dir.deep_view(),
            config.sqlite_connection.deep_view(),
            config.remote_storage.deep_view(),
        )
    } else {
        Some(file_root(config.file_dir.deep_view()))
    }
}

/// Whether the root that entities lie below is known: files always have
/// theirs, the active storage has to have its address.
pub open spec fn rooted(config: Config, possible_remote: bool) -> bool {
    possible_remote ==> addressed(config)
}

/// A kind of entity that has a place in the active storage.
pub trait Path: FileDir {
    /// The directory of the kind. Files have to be the active storage.
    fn storage_dir(config: &Config) -> (r: &'static str)
        requires
            files_selected(*config),
        ensures
            r@ == Self::dir_text(),
    {
        <Self as FileDir>::get_dir()
    }

    /// The place of the kind in the storage: its directory below the root.
    fn storage_path(&self, config: &Config, possible_remote: bool) -> (r: String)
        requires
            rooted(*config, possible_remote),
        ensures
            Some(r@) == (match storage_root(*config, possible_remote) {
                Some(root) => Some(root + Self::dir_text()),
                None => None,
            }),
    {
        let root_path = if possible_remote {
            PersistenceMode::to_conform_path(config)
        } else {
            text_or(&config.file_dir, "/tmp/")
        };
        concat(root_path.as_str(), <Self as FileDir>::get_dir())
    }
}

impl Path for Votings {

}

impl Path for Voting {

}

impl Path for CastBallots {

}

impl Path for Candidate {

}

impl Path for Criteria {

}

impl Path for Criterion {

}

impl Path for EmojiCategories {

}

/// A kind of entity whose known ids are listed.
pub trait ToPersistence: Path {
    /// Where the listing of the kind's known ids lies.
    fn index(&self, config: &Config) -> (r: String)
        ensures
            r@ == Self::root_text(*config) + Self::dir_text() + "/index.json"@,
    {
        let dir = FileDir::get_full_path(self, config, true);
        concat(dir.as_str(), "/index.json")
    }
}

impl ToPersistence for Votings {

}

impl ToPersistence for Voting {

}

impl ToPersistence for CastBallots {

}

impl ToPersistence for Candidate {

}

impl ToPersistence for Criteria {

}

impl ToPersistence for Criterion {

}

impl ToPersistence for EmojiCategories {

}

/// How the text of a stored entity is got.
#[derive(Debug)]
pub enum ReadPlan {
    /// Read the file at the path.
    File,
    /// Fetch the path from the remote instance.
    Http,
    /// The database is asked elsewhere; this is its connection string.
    Connection(Option<String>),
}

/// What a `ReadPlan` holds.
pub enum ReadPlanView {
    File,
    Http,
    Connection(Option<Seq<char>>),
}

impl View for ReadPlan {
    type V = ReadPlanView;

    open spec fn view(&self) -> ReadPlanView {
        match self {
            ReadPlan::File => ReadPlanView::File,
            ReadPlan::Http => ReadPlanView::Http,
            ReadPlan::Connection(c) => ReadPlanView::Connection(c.deep_view()),
        }
    }
}

/// How an entity is read in the given storage: a mirror fetches what is not
/// meant for this machine alone, files are read, a database is asked
/// elsewhere.
pub open spec fn read_plan_of(mode: ModeView, internal: bool) -> ReadPlanView {
    match mode {
        ModeView::File(_) => ReadPlanView::File,
        ModeView::Remote(_) => if internal {
            ReadPlanView::File
        } else {
            ReadPlanView::Http
        },
        ModeView::DB(url) => ReadPlanView::Connection(url),
    }
}

/// The text that stands for an entity that could not be read: nothing for
/// a file, an empty object for a fetch.
pub open spec fn unread_text(plan: ReadPlanView) -> Seq<char> {
    match plan {
        ReadPlanView::Http => "{}"@,
        _ => Seq::empty(),
    }
}

/// A kind of entity that is read from the active storage.
pub trait FromPersistence: Path {
    /// How the entity is read.
    fn from_persistence(&self, mode: &PersistenceMode, internal: bool) -> (r: ReadPlan)
        ensures
            r@ == read_plan_of(mode@, internal),
    {
        match mode {
            PersistenceMode::File(_d) => ReadPlan::File,
            PersistenceMode::Remote(_d) => {
                if internal {
                    ReadPlan::File
                } else {
                    ReadPlan::Http
                }
            },
            PersistenceMode::DB(d) => ReadPlan::Connection(
                crate::common::copy_optional_text(&d.url),
            ),
        }
    }

    /// The text that was read, or what stands for it where reading failed.
    fn text_read(&self, plan: &ReadPlan, read: Option<String>) -> (r: String)
        ensures
            r@ == setting_or(read.deep_view(), unread_text(plan@)),
    {
        match read {
            Some(text) => text,
            None => match plan {
                ReadPlan::Http => "{}".to_owned(),
                _ => String::new(),
            },
        }
    }
}

impl FromPersistence for Votings {

}

impl FromPersistence for Voting {

}

impl FromPersistence for CastBallots {

}

impl FromPersistence for Candidate {

}

impl FromPersistence for Criteria {

}

impl FromPersistence for Criterion {

}

impl FromPersistence for EmojiCategories {

}

} // verus!
