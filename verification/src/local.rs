//! The file storage: where each kind of entity lies, what a directory
//! listing means, and what the listing of known ids holds.
use vstd::prelude::*;
use crate::common::{
    Candidate, CastBallots, Criteria, Criterion, EmojiCategories, IdGenerator, Voting, Votings,
};
use crate::config::{setting_or, text_or, Config};
use crate::error::{VoteErrorKind, VoteErrorView};
use crate::persistence::file_root;
use crate::text::{after_first, after_mark, concat, lowercase, same_text, strip_suffix, to_lowercase};

verus! {

/// The ids that a JSON text lists, where it is a list of texts.
pub uninterp spec fn json_list_of(raw: Seq<char>) -> Option<Seq<Seq<char>>>;

/// The JSON text of a list of ids, where it has one.
pub uninterp spec fn json_of_list(ids: Seq<Seq<char>>) -> Option<Seq<char>>;

/// Calls `serde_json::from_str` for a list of texts. `None` where it fails.
/// Which texts are such a list is left to `serde_json`; the result depends
/// on the text alone.
#[verifier::external_body]
pub(crate) fn parse_list(raw: &str) -> (r: Option<Vec<String>>)
    ensures
        r.deep_view() == json_list_of(raw@),
{
    serde_json::from_str::<Vec<String>>(raw).ok()
}

/// Calls `serde_json::to_string` on a list of texts. `None` where it fails.
#[verifier::external_body]
pub(crate) fn render_list(ids: &Vec<String>) -> (r: Option<String>)
    ensures
        r.deep_view() == json_of_list(ids.deep_view()),
{
    serde_json::to_string(ids).ok()
}

/// A kind of entity that has a directory of its own.
pub trait FileDir {
    /// The directory of the kind, below the root.
    spec fn dir_text() -> Seq<char>;

    /// The root that the kind lies below.
    spec fn root_text(config: Config) -> Seq<char>;

    fn get_dir() -> (r: &'static str)
        ensures
            r@ == Self::dir_text(),
    ;

    /// The directory of the kind: the root and the kind's own directory.
    fn get_full_path(&self, config: &Config, _possible_remote: bool) -> (r: String)
        ensures
            r@ == Self::root_text(*config) + Self::dir_text(),
    ;
}

/// The directory `dir` below the root of the file storage.
pub fn below_file_root(config: &Config, dir: &str) -> (r: String)
    ensures
        r@ == file_root(config.file_dir.deep_view()) + dir@,
{
    let root = text_or(&config.file_dir, "/tmp/");
    concat(root.as_str(), dir)
}

impl FileDir for Votings {
    open spec fn dir_text() -> Seq<char> {
        "votings"@
    }

    open spec fn root_text(config: Config) -> Seq<char> {
        file_root(config.file_dir.deep_view())
    }

    fn get_dir() -> (r: &'static str) {
        "votings"
    }

    fn get_full_path(&self, config: &Config, _possible_remote: bool) -> (r: String) {
        below_file_root(config, "votings")
    }
}

impl FileDir for Voting {
    open spec fn dir_text() -> Seq<char> {
        "votings"@
    }

    open spec fn root_text(config: Config) -> Seq<char> {
        file_root(config.file_dir.deep_view())
    }

    fn get_dir() -> (r: &'static str) {
        "votings"
    }

    fn get_full_path(&self, config: &Config, _possible_remote: bool) -> (r: String) {
        below_file_root(config, "votings")
    }
}

impl FileDir for Candidate {
    open spec fn dir_text() -> Seq<char> {
        "candidates"@
    }

    open spec fn root_text(config: Config) -> Seq<char> {
        file_root(config.file_dir.deep_view())
    }

    fn get_dir() -> (r: &'static str) {
        "candidates"
    }

    fn get_full_path(&self, config: &Config, _possible_remote: bool) -> (r: String) {
        below_file_root(config, "candidates")
    }
}

impl FileDir for CastBallots {
    open spec fn dir_text() -> Seq<char> {
        "ballots"@
    }

    open spec fn root_text(config: Config) -> Seq<char> {
        file_root(config.file_dir.deep_view())
    }

    fn get_dir() -> (r: &'static str) {
        "ballots"
    }

    fn get_full_path(&self, config: &Config, _possible_remote: bool) -> (r: String) {
        below_file_root(config, "ballots")
    }
}

impl FileDir for Criteria {
    open spec fn dir_text() -> Seq<char> {
        "criteria"@
    }

    open spec fn root_text(config: Config) -> Seq<char> {
        file_root(config.file_dir.deep_view())
    }

    fn get_dir() -> (r: &'static str) {
        "criteria"
    }

    fn get_full_path(&self, config: &Config, _possible_remote: bool) -> (r: String) {
        below_file_root(config, "criteria")
    }
}

impl FileDir for Criterion {
    open spec fn dir_text() -> Seq<char> {
        "criteria"@
    }

    open spec fn root_text(config: Config) -> Seq<char> {
        file_root(config.file_dir.deep_view())
    }

    fn get_dir() -> (r: &'static str) {
        "criteria"
    }

    fn get_full_path(&self, config: &Config, _possible_remote: bool) -> (r: String) {
        below_file_root(config, "criteria")
    }
}

impl FileDir for EmojiCategories {
    open spec fn dir_text() -> Seq<char> {
        "static"@
    }

    open spec fn root_text(config: Config) -> Seq<char> {
        setting_or(config.asset_dir.deep_view(), "/tmp/"@)
    }

    fn get_dir() -> (r: &'static str) {
        "static"
    }

    fn get_full_path(&self, config: &Config, _possible_remote: bool) -> (r: String) {
        let asset_dir = text_or(&config.asset_dir, "/tmp/");
        concat(asset_dir.as_str(), "static")
    }
}

/// The name of the file without its ".json", where it ends with that.
pub open spec fn json_name(file: Seq<char>) -> Option<Seq<char>> {
    if ".json"@.is_suffix_of(file) {
        Some(file.take(file.len() - ".json"@.len()))
    } else {
        None
    }
}

/// The ids that a directory listing holds: the name of each JSON file, in
/// the order of the listing.
pub open spec fn listed_ids(entries: Seq<Seq<char>>) -> Seq<Seq<char>>
    decreases entries.len(),
{
    if entries.len() == 0 {
        Seq::empty()
    } else {
        match json_name(entries.last()) {
            Some(name) => listed_ids(entries.drop_last()).push(name),
            None => listed_ids(entries.drop_last()),
        }
    }
}

/// The ids that a directory listing holds.
pub fn list_dir(entries: &Vec<String>) -> (r: Vec<String>)
    ensures
        r.deep_view() == listed_ids(entries.deep_view()),
{
    let mut files: Vec<String> = Vec::new();
    let mut i: usize = 0;
    assert(entries.deep_view().take(0) =~= Seq::<Seq<char>>::empty());
    assert(files.deep_view() =~= Seq::<Seq<char>>::empty());
    while i < entries.len()
        invariant
            i <= entries.len(),
            files.deep_view() == listed_ids(entries.deep_view().take(i as int)),
        decreases entries.len() - i,
    {
        let ghost next = entries.deep_view().take(i + 1);
        assert(next.drop_last() =~= entries.deep_view().take(i as int));
        assert(next.last() == entries[i as int]@);
        match strip_suffix(entries[i].as_str(), ".json") {
            Some(cleaned) => {
                let ghost before = files.deep_view();
                files.push(cleaned);
                assert(files.deep_view() =~= before.push(cleaned@));
            },
            None => {},
        }
        i += 1;
    }
    assert(entries.deep_view().take(entries.len() as int) =~= entries.deep_view());
    files
}

/// The ids that the text of a listing holds. `None` where the text is no
/// listing.
pub fn read_index(raw_file: &str) -> (r: Option<Vec<String>>)
    ensures
        r.deep_view() == json_list_of(raw_file@),
{
    parse_list(raw_file)
}

/// Whether the stored name `file` answers to `id`: what follows its first
/// underscore, behind the prefix of its kind, is `id`, letter case aside. A
/// name without an underscore has no such part and answers to no id.
pub open spec fn answers_to(file: Seq<char>, id: Seq<char>) -> bool {
    match after_mark(file, '_') {
        Some(found_id) => lowercase(found_id) == lowercase(id),
        None => false,
    }
}

/// The first of `files` that answers to `id`.
pub open spec fn first_answering(files: Seq<Seq<char>>, id: Seq<char>) -> Option<Seq<char>>
    decreases files.len(),
{
    if files.len() == 0 {
        None
    } else if answers_to(files[0], id) {
        Some(files[0])
    } else {
        first_answering(files.skip(1), id)
    }
}

/// The stored name that `id` is taken by, or `NotFound` where it is free.
pub fn is_unique<'r>(files_exist: &Vec<String>, id: &str) -> (r: Result<String, VoteErrorKind<'r>>)
    ensures
        (match first_answering(files_exist.deep_view(), id@) {
            Some(file) => r is Ok && r->Ok_0@ == file,
            None => r is Err && r->Err_0@ == VoteErrorView::NotFound("Not found"@),
        }),
{
    let wanted = to_lowercase(id);
    let mut i: usize = 0;
    assert(files_exist.deep_view().skip(0) =~= files_exist.deep_view());
    while i < files_exist.len()
        invariant
            i <= files_exist.len(),
            wanted@ == lowercase(id@),
            first_answering(files_exist.deep_view(), id@) == first_answering(
                files_exist.deep_view().skip(i as int),
                id@,
            ),
        decreases files_exist.len() - i,
    {
        assert(files_exist.deep_view().skip(i as int)[0] == files_exist[i as int]@);
        assert(files_exist.deep_view().skip(i as int).skip(1) =~= files_exist.deep_view().skip(
            i + 1,
        ));
        let hit = match after_first(files_exist[i].as_str(), '_') {
            Some(found_id) => {
                let found = to_lowercase(found_id.as_str());
                same_text(found.as_str(), wanted.as_str())
            },
            None => false,
        };
        if hit {
            return Ok(files_exist[i].clone());
        }
        i += 1;
    }
    Err(VoteErrorKind::NotFound("Not found".to_owned()))
}

/// A kind of entity whose directory can be listed.
pub trait DirectoryIndex: FileDir + FromFile {
    /// The ids that a listing of the kind's directory holds.
    fn list_dir(&self, entries: &Vec<String>) -> (r: Vec<String>)
        ensures
            r.deep_view() == listed_ids(entries.deep_view()),
    {
        list_dir(entries)
    }

    /// The ids that the text of the kind's listing holds. `None` where the
    /// text is no listing.
    fn read_index(&self, raw_file: &str) -> (r: Option<Vec<String>>)
        ensures
            r.deep_view() == json_list_of(raw_file@),
    {
        read_index(raw_file)
    }
}

/// A kind of entity whose ids are taken once.
pub trait IsUniqueFile: DirectoryIndex {
    /// The stored name that `id` is taken by, or `NotFound` where it is
    /// free. `files_exist` are the ids that the kind's directory holds.
    fn is_unique<'r>(&self, files_exist: &Vec<String>, id: &str) -> (r: Result<
        String,
        VoteErrorKind<'r>,
    >)
        ensures
            (match first_answering(files_exist.deep_view(), id@) {
                Some(file) => r is Ok && r->Ok_0@ == file,
                None => r is Err && r->Err_0@ == VoteErrorView::NotFound("Not found"@),
            }),
    {
        is_unique(files_exist, id)
    }
}

/// A kind of entity that is read from files.
pub trait FromFile {
    /// What a read file holds; the empty text where it could not be read.
    fn from_file(&self, read: Option<String>) -> (r: String)
        ensures
            r@ == setting_or(read.deep_view(), Seq::empty()),
    {
        match read {
            Some(contents) => contents,
            None => String::new(),
        }
    }
}

impl FromFile for Votings {

}

impl DirectoryIndex for Votings {

}

impl IsUniqueFile for Votings {

}

impl FromFile for Voting {

}

impl DirectoryIndex for Voting {

}

impl IsUniqueFile for Voting {

}

impl FromFile for CastBallots {

}

impl DirectoryIndex for CastBallots {

}

impl IsUniqueFile for CastBallots {

}

impl FromFile for Candidate {

}

impl DirectoryIndex for Candidate {

}

impl IsUniqueFile for Candidate {

}

impl FromFile for Criteria {

}

impl DirectoryIndex for Criteria {

}

impl IsUniqueFile for Criteria {

}

impl FromFile for Criterion {

}

impl DirectoryIndex for Criterion {

}

impl IsUniqueFile for Criterion {

}

impl FromFile for EmojiCategories {

}

impl DirectoryIndex for EmojiCategories {

}

impl IsUniqueFile for EmojiCategories {

}

/// The ids that a listing holds so far: those that its text lists, or none
/// where there is no listing yet. `None` where there is a text that is no
/// listing.
pub open spec fn listed_so_far(current: Option<Seq<char>>) -> Option<Seq<Seq<char>>> {
    match current {
        Some(raw) => json_list_of(raw),
        None => Some(Seq::empty()),
    }
}

/// The text of a listing that holds `id` alone, where it can be written.
pub open spec fn fresh_index(id: Seq<char>) -> Option<Seq<char>> {
    json_of_list(seq![id])
}

/// The text of the listing after `id` was added to it: the text of the ids
/// listed so far with `id` at their end. `None` where the listing so far
/// cannot be read or the new one cannot be written; the ids that were
/// listed are never dropped.
pub open spec fn index_with(current: Option<Seq<char>>, id: Seq<char>) -> Option<Seq<char>> {
    match listed_so_far(current) {
        Some(ids) => json_of_list(ids.push(id)),
        None => None,
    }
}

/// The text of a listing that holds `id` alone.
pub fn init_index(id: &str) -> (r: Option<String>)
    ensures
        r.deep_view() == fresh_index(id@),
{
    let mut ids: Vec<String> = Vec::new();
    ids.push(id.to_owned());
    assert(ids.deep_view() =~= seq![id@]);
    render_list(&ids)
}

/// The text of the listing after `id` was added to it; `current` is the
/// text of the listing so far, if there is one.
pub fn update_index(current: Option<&str>, id: &str) -> (r: Option<String>)
    ensures
        r.deep_view() == index_with(
            match current {
                Some(c) => Some(c@),
                None => None,
            },
            id@,
        ),
{
    let listed = match current {
        Some(contents) => parse_list(contents),
        None => {
            let none: Vec<String> = Vec::new();
            assert(none.deep_view() =~= Seq::<Seq<char>>::empty());
            Some(none)
        },
    };
    match listed {
        Some(mut ids) => {
            let ghost before = ids.deep_view();
            ids.push(id.to_owned());
            assert(ids.deep_view() =~= before.push(id@));
            render_list(&ids)
        },
        None => None,
    }
}

/// A kind of entity that is written to files.
pub trait ToFile: FileDir + IdGenerator {
    /// The text of a listing that holds this entity alone.
    fn init_index(&self) -> (r: Option<String>)
        ensures
            r.deep_view() == fresh_index(self.id_text()),
    {
        init_index(self.get_id().as_str())
    }

    /// The text of the listing after this entity was added; `current` is
    /// the text of the listing so far, if there is one.
    fn update_index(&self, current: Option<&str>) -> (r: Option<String>)
        ensures
            r.deep_view() == index_with(
                match current {
                    Some(c) => Some(c@),
                    None => None,
                },
                self.id_text(),
            ),
    {
        update_index(current, self.get_id().as_str())
    }
}

impl ToFile for Votings {

}

impl ToFile for Voting {

}

impl ToFile for CastBallots {

}

impl ToFile for Candidate {

}

impl ToFile for Criteria {

}

impl ToFile for Criterion {

}

impl ToFile for EmojiCategories {

}

} // verus!
