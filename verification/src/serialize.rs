//! Loading and saving entities: what is asked of the storage, and what its
//! answers mean.
use vstd::prelude::*;
use crate::common::{
    Candidate, CastBallots, Criterion, EmojiCategories, Empty, IdGenerator, Selfaware, Voting,
};
use crate::config::Config;
use crate::error::{VoteErrorKind, VoteErrorView};
use crate::persistence::{addressed, storage_root, FromPersistence, Path};
use crate::text::concat;

verus! {

/// Something that is asked of the storage.
#[derive(Debug)]
pub enum StorageRequest {
    /// Store `body` at `path` unless something is stored there. No two such
    /// requests for one path both succeed.
    WriteIfAbsent { path: String, body: String },
    /// Store `body` at `path`, whatever is there.
    Write { path: String, body: String },
    /// Hand out what is stored at `path`.
    Read { path: String },
    /// Add `id` to the listing of the ids known in `dir`. Additions to one
    /// listing happen one after the other.
    AppendIndex { dir: String, id: String },
}

/// What a `StorageRequest` holds.
pub enum RequestView {
    WriteIfAbsent { path: Seq<char>, body: Seq<char> },
    Write { path: Seq<char>, body: Seq<char> },
    Read { path: Seq<char> },
    AppendIndex { dir: Seq<char>, id: Seq<char> },
}

impl View for StorageRequest {
    type V = RequestView;

    open spec fn view(&self) -> RequestView {
        match self {
            StorageRequest::WriteIfAbsent { path, body } => RequestView::WriteIfAbsent {
                path: path@,
                body: body@,
            },
            StorageRequest::Write { path, body } => RequestView::Write {
                path: path@,
                body: body@,
            },
            StorageRequest::Read { path } => RequestView::Read { path: path@ },
            StorageRequest::AppendIndex { dir, id } => RequestView::AppendIndex {
                dir: dir@,
                id: id@,
            },
        }
    }
}

/// An answer of the storage.
#[derive(Debug)]
pub enum StorageReply {
    /// The body was stored.
    Written,
    /// Nothing was stored, because something is stored at the path.
    AlreadyExists,
    /// What is stored at the path.
    Content(String),
    /// Nothing is stored at the path.
    NotFound,
    /// The id was added to the listing.
    Appended,
    /// The storage could not be reached or refused to work.
    Failed(String),
}

/// What a `StorageReply` holds.
pub enum ReplyView {
    Written,
    AlreadyExists,
    Content(Seq<char>),
    NotFound,
    Appended,
    Failed(Seq<char>),
}

impl View for StorageReply {
    type V = ReplyView;

    open spec fn view(&self) -> ReplyView {
        match self {
            StorageReply::Written => ReplyView::Written,
            StorageReply::AlreadyExists => ReplyView::AlreadyExists,
            StorageReply::Content(c) => ReplyView::Content(c@),
            StorageReply::NotFound => ReplyView::NotFound,
            StorageReply::Appended => ReplyView::Appended,
            StorageReply::Failed(e) => ReplyView::Failed(e@),
        }
    }
}

/// What a storage holds: a body under each path that was written, and for
/// each directory the listing of the ids known in it.
#[verifier::ext_equal]
pub struct Store {
    pub records: Map<Seq<char>, Seq<char>>,
    pub indexes: Map<Seq<char>, Seq<Seq<char>>>,
}

impl Store {
    /// The listing of the ids known in `dir`.
    pub open spec fn index_of(self, dir: Seq<char>) -> Seq<Seq<char>> {
        if self.indexes.contains_key(dir) {
            self.indexes[dir]
        } else {
            Seq::empty()
        }
    }

    /// The storage after `body` was stored at `path`.
    pub open spec fn with_record(self, path: Seq<char>, body: Seq<char>) -> Store {
        Store { records: self.records.insert(path, body), indexes: self.indexes }
    }

    /// The storage after `id` was added to the listing of `dir`.
    pub open spec fn with_id(self, dir: Seq<char>, id: Seq<char>) -> Store {
        Store { records: self.records, indexes: self.indexes.insert(dir, self.index_of(dir).push(id)) }
    }
}

/// What a storage that works holds after a request, and what it answers.
pub open spec fn perform(store: Store, request: RequestView) -> (Store, ReplyView) {
    match request {
        RequestView::WriteIfAbsent { path, body } => if store.records.contains_key(path) {
            (store, ReplyView::AlreadyExists)
        } else {
            (store.with_record(path, body), ReplyView::Written)
        },
        RequestView::Write { path, body } => (store.with_record(path, body), ReplyView::Written),
        RequestView::Read { path } => if store.records.contains_key(path) {
            (store, ReplyView::Content(store.records[path]))
        } else {
            (store, ReplyView::NotFound)
        },
        RequestView::AppendIndex { dir, id } => (store.with_id(dir, id), ReplyView::Appended),
    }
}

/// An entity that is about to be saved: its kind, the directory of the
/// kind, its id and its text.
#[derive(Debug)]
pub struct SaveJob {
    pub kind: String,
    pub dir: String,
    pub id: String,
    pub body: String,
}

/// What a `SaveJob` holds.
pub struct JobView {
    pub kind: Seq<char>,
    pub dir: Seq<char>,
    pub id: Seq<char>,
    pub body: Seq<char>,
}

impl View for SaveJob {
    type V = JobView;

    open spec fn view(&self) -> JobView {
        JobView { kind: self.kind@, dir: self.dir@, id: self.id@, body: self.body@ }
    }
}

/// The path of the entity `id` in the directory `dir`.
pub open spec fn record_path(dir: Seq<char>, id: Seq<char>) -> Seq<char> {
    dir + "/"@ + id + ".json"@
}

/// How far a save has come.
#[derive(Clone, Copy, Debug, PartialEq, Eq, Structural)]
pub enum SaveState {
    /// The entity's text is being written.
    Writing,
    /// The entity's id is being added to the listing.
    Indexing,
}

/// What a save does next.
#[derive(Debug)]
pub enum SaveStep<'r> {
    /// Ask the storage, and come back in the given state with its answer.
    Ask(SaveState, StorageRequest),
    /// The save has ended.
    Done(Result<String, VoteErrorKind<'r>>),
}

/// What a `SaveStep` holds.
pub enum StepView {
    Ask(SaveState, RequestView),
    Done(Result<Seq<char>, VoteErrorView>),
}

impl<'r> View for SaveStep<'r> {
    type V = StepView;

    open spec fn view(&self) -> StepView {
        match self {
            SaveStep::Ask(state, request) => StepView::Ask(*state, request@),
            SaveStep::Done(Ok(done)) => StepView::Done(Ok(done@)),
            SaveStep::Done(Err(e)) => StepView::Done(Err(e@)),
        }
    }
}

/// What a save asks first: to write the entity's text, unless its id is
/// taken.
pub open spec fn save_request(job: JobView) -> RequestView {
    RequestView::WriteIfAbsent { path: record_path(job.dir, job.id), body: job.body }
}

/// The failure of a save whose id is taken.
pub open spec fn conflict(job: JobView) -> VoteErrorView {
    VoteErrorView::Conflict(job.kind + " already exist."@)
}

/// The failure for an answer that does not belong to what was asked.
pub open spec fn unexpected() -> VoteErrorView {
    VoteErrorView::Internal("Unexpected answer from the storage."@)
}

/// What a save does on an answer of the storage. Once the text is written
/// the id is added to the listing, and the save ends with the id; an id
/// that is taken ends the save with a conflict, before the listing is
/// touched.
pub open spec fn save_step(job: JobView, state: SaveState, reply: ReplyView) -> StepView {
    match state {
        SaveState::Writing => match reply {
            ReplyView::Written => StepView::Ask(
                SaveState::Indexing,
                RequestView::AppendIndex { dir: job.dir, id: job.id },
            ),
            ReplyView::AlreadyExists => StepView::Done(Err(conflict(job))),
            ReplyView::Failed(e) => StepView::Done(Err(VoteErrorView::IO(e))),
            _ => StepView::Done(Err(unexpected())),
        },
        SaveState::Indexing => match reply {
            ReplyView::Appended => StepView::Done(Ok(job.id)),
            ReplyView::Failed(e) => StepView::Done(Err(VoteErrorView::IO(e))),
            _ => StepView::Done(Err(unexpected())),
        },
    }
}

impl SaveJob {
    /// The path that the entity is written to.
    pub fn path(&self) -> (r: String)
        ensures
            r@ == record_path(self.dir@, self.id@),
    {
        let mut out = concat(self.dir.as_str(), "/");
        out.append(self.id.as_str());
        out.append(".json");
        out
    }

    /// What the save asks first.
    pub fn start(&self) -> (r: StorageRequest)
        ensures
            r@ == save_request(self@),
    {
        StorageRequest::WriteIfAbsent { path: self.path(), body: self.body.clone() }
    }

    /// What the save does on an answer of the storage.
    pub fn next<'r>(&self, state: SaveState, reply: StorageReply) -> (r: SaveStep<'r>)
        ensures
            r@ == save_step(self@, state, reply@),
    {
        match state {
            SaveState::Writing => match reply {
                StorageReply::Written => SaveStep::Ask(
                    SaveState::Indexing,
                    StorageRequest::AppendIndex { dir: self.dir.clone(), id: self.id.clone() },
                ),
                StorageReply::AlreadyExists => SaveStep::Done(
                    Err(VoteErrorKind::Conflict(concat(self.kind.as_str(), " already exist."))),
                ),
                StorageReply::Failed(e) => SaveStep::Done(Err(VoteErrorKind::IO(e))),
                _ => SaveStep::Done(
                    Err(VoteErrorKind::Internal("Unexpected answer from the storage.".to_owned())),
                ),
            },
            SaveState::Indexing => match reply {
                StorageReply::Appended => SaveStep::Done(Ok(self.id.clone())),
                StorageReply::Failed(e) => SaveStep::Done(Err(VoteErrorKind::IO(e))),
                _ => SaveStep::Done(
                    Err(VoteErrorKind::Internal("Unexpected answer from the storage.".to_owned())),
                ),
            },
        }
    }
}

/// What an update asks: to write the entity's text, whatever is stored.
pub open spec fn update_request(job: JobView) -> RequestView {
    RequestView::Write { path: record_path(job.dir, job.id), body: job.body }
}

/// What an update ends with on the answer of the storage.
pub open spec fn update_result(reply: ReplyView) -> Result<Seq<char>, VoteErrorView> {
    match reply {
        ReplyView::Written => Ok("Done"@),
        ReplyView::Failed(e) => Err(VoteErrorView::IO(e)),
        _ => Err(unexpected()),
    }
}

/// Whether a result, or the failure in its place, is what was expected.
pub open spec fn result_is<'r>(
    r: Result<String, VoteErrorKind<'r>>,
    expected: Result<Seq<char>, VoteErrorView>,
) -> bool {
    match r {
        Ok(done) => expected == Ok::<Seq<char>, VoteErrorView>(done@),
        Err(e) => expected == Err::<Seq<char>, VoteErrorView>(e@),
    }
}

impl SaveJob {
    /// What an update of the entity asks.
    pub fn overwrite(&self) -> (r: StorageRequest)
        ensures
            r@ == update_request(self@),
    {
        StorageRequest::Write { path: self.path(), body: self.body.clone() }
    }
}

/// What an update ends with on the answer of the storage.
pub fn updated<'r>(reply: StorageReply) -> (r: Result<String, VoteErrorKind<'r>>)
    ensures
        result_is(r, update_result(reply@)),
{
    match reply {
        StorageReply::Written => Ok("Done".to_owned()),
        StorageReply::Failed(e) => Err(VoteErrorKind::IO(e)),
        _ => Err(VoteErrorKind::Internal("Unexpected answer from the storage.".to_owned())),
    }
}

/// The job of saving an entity of the given kind, id and text in the
/// directory `dir`, or the failure that keeps it from being saved: its text
/// could not be made.
pub open spec fn save_job(
    kind: Seq<char>,
    dir: Seq<char>,
    id: Seq<char>,
    encoded: Result<Seq<char>, Seq<char>>,
) -> Result<JobView, VoteErrorView> {
    match encoded {
        Err(e) => Err(VoteErrorView::Serialize(e)),
        Ok(body) => Ok(JobView { kind, dir, id, body }),
    }
}

/// A kind of entity that is saved.
pub trait ToStorage: Path + IdGenerator + Selfaware {
    /// The job of saving this entity in the active storage, which has to
    /// have its address. `encoded` is the entity's text, or why the text
    /// could not be made.
    fn save<'r>(&self, config: &Config, encoded: Result<String, String>) -> (r: Result<
        SaveJob,
        VoteErrorKind<'r>,
    >)
        requires
            addressed(*config),
        ensures
            (match save_job(
                self.type_text(),
                storage_root(*config, true)->0 + Self::dir_text(),
                self.id_text(),
                match encoded {
                    Ok(body) => Ok(body@),
                    Err(e) => Err(e@),
                },
            ) {
                Ok(job) => r is Ok && r->Ok_0@ == job,
                Err(e) => r is Err && r->Err_0@ == e,
            }),
    {
        match encoded {
            Err(e) => Err(VoteErrorKind::Serialize(e)),
            Ok(stringified) => Ok(
                SaveJob {
                    kind: self.get_type(),
                    dir: self.storage_path(config, true),
                    id: self.get_id(),
                    body: stringified,
                },
            ),
        }
    }
}

impl ToStorage for Voting {

}

impl ToStorage for CastBallots {

}

impl ToStorage for Candidate {

}

impl ToStorage for Criterion {

}

impl ToStorage for EmojiCategories {

}

/// What loading an entity ends with: the entity that the stored text
/// holds; a failure where text is stored that holds no entity; the blank
/// entity where nothing is stored; and where the storage failed, the blank
/// entity if it is a remote mirror and the failure if it is not.
pub fn load_into<'r, T: Empty>(reply: StorageReply, decoded: Option<T>, remote: bool) -> (r: Result<
    T,
    VoteErrorKind<'r>,
>)
    ensures
        (match reply@ {
            ReplyView::Content(_) => match decoded {
                Some(entity) => r == Ok::<T, VoteErrorKind<'r>>(entity),
                None => r is Err && r->Err_0@ == VoteErrorView::Serialize(
                    "Stored text holds no entity."@,
                ),
            },
            ReplyView::NotFound => r is Ok && r->Ok_0.is_blank(),
            ReplyView::Failed(e) => if remote {
                r is Ok && r->Ok_0.is_blank()
            } else {
                r is Err && r->Err_0@ == VoteErrorView::IO(e)
            },
            _ => r is Err && r->Err_0@ == unexpected(),
        }),
{
    match reply {
        StorageReply::Content(_) => match decoded {
            Some(entity) => Ok(entity),
            None => Err(VoteErrorKind::Serialize("Stored text holds no entity.".to_owned())),
        },
        StorageReply::NotFound => Ok(T::empty()),
        StorageReply::Failed(e) => {
            if remote {
                Ok(T::empty())
            } else {
                Err(VoteErrorKind::IO(e))
            }
        },
        _ => Err(VoteErrorKind::Internal("Unexpected answer from the storage.".to_owned())),
    }
}


/// How far a save has come on a storage that works.
pub enum Progress {
    /// The entity's text is yet to be written.
    Writing,
    /// The text is written, the id is yet to be listed.
    Indexing,
    /// The save has ended with this result.
    Finished(Result<Seq<char>, VoteErrorView>),
}

/// One step of a save on a storage that works: the request that is due is
/// performed, and the save goes on from the answer. A save that has ended
/// stays as it is.
pub open spec fn advance(store: Store, job: JobView, progress: Progress) -> (Store, Progress) {
    match progress {
        Progress::Writing => {
            let (after, reply) = perform(store, save_request(job));
            match save_step(job, SaveState::Writing, reply) {
                StepView::Done(result) => (after, Progress::Finished(result)),
                StepView::Ask(_, _) => (after, Progress::Indexing),
            }
        },
        Progress::Indexing => {
            let (after, reply) = perform(
                store,
                RequestView::AppendIndex { dir: job.dir, id: job.id },
            );
            match save_step(job, SaveState::Indexing, reply) {
                StepView::Done(result) => (after, Progress::Finished(result)),
                StepView::Ask(_, _) => (after, Progress::Finished(Err(unexpected()))),
            }
        },
        Progress::Finished(_) => (store, progress),
    }
}

/// A whole save on a storage that works.
pub open spec fn run_save(store: Store, job: JobView) -> (Store, Progress) {
    let (written, progress) = advance(store, job, Progress::Writing);
    advance(written, job, progress)
}

/// Saving an entity whose id is taken ends in a conflict and leaves the
/// storage as it was: the stored text and the listing are untouched.
pub proof fn lemma_save_on_taken_id(store: Store, job: JobView)
    requires
        store.records.contains_key(record_path(job.dir, job.id)),
    ensures
        run_save(store, job) == (store, Progress::Finished(Err(conflict(job)))),
{
}

/// Saving an entity whose id is free stores its text, adds its id at the
/// end of the listing and leaves everything else as it was.
pub proof fn lemma_save_on_free_id(store: Store, job: JobView)
    requires
        !store.records.contains_key(record_path(job.dir, job.id)),
    ensures
        run_save(store, job) == (
            store.with_record(record_path(job.dir, job.id), job.body).with_id(job.dir, job.id),
            Progress::Finished(Ok(job.id)),
        ),
{
}

/// An id that was saved once stays taken: a later save under it, whatever
/// it brings, ends in a conflict and changes nothing. So a second poll
/// whose name differs in letter case alone, a second criterion of the same
/// name, range and weight, and a second ballot of the same voter for the
/// same candidate in the same poll are rejected, not written over.
pub proof fn lemma_saved_id_stays_taken(store: Store, first: JobView, second: JobView)
    requires
        first.dir == second.dir,
        first.id == second.id,
    ensures
        run_save(run_save(store, first).0, second) == (
            run_save(store, first).0,
            Progress::Finished(Err(conflict(second))),
        ),
{
    let path = record_path(first.dir, first.id);
    if store.records.contains_key(path) {
        lemma_save_on_taken_id(store, first);
        lemma_save_on_taken_id(store, second);
    } else {
        lemma_save_on_free_id(store, first);
        let after = store.with_record(path, first.body).with_id(first.dir, first.id);
        assert(after.records.contains_key(path));
        lemma_save_on_taken_id(after, second);
    }
}

/// Two saves that run at the same time: each step of the schedule lets the
/// first (`true`) or the second (`false`) perform the request that is due.
pub open spec fn interleave(
    store: Store,
    a: JobView,
    pa: Progress,
    b: JobView,
    pb: Progress,
    schedule: Seq<bool>,
) -> (Store, Progress, Progress)
    decreases schedule.len(),
{
    if schedule.len() == 0 {
        (store, pa, pb)
    } else if schedule[0] {
        let (after, p) = advance(store, a, pa);
        interleave(after, a, p, b, pb, schedule.skip(1))
    } else {
        let (after, p) = advance(store, b, pb);
        interleave(after, a, pa, b, p, schedule.skip(1))
    }
}

/// Where a race of two saves for one id can stand, seen from the save that
/// wrote first: the loser has not yet tried or has ended in a conflict,
/// the winner's text is stored, and the id is listed once the winner has
/// ended.
pub open spec fn won_by(
    initial: Store,
    winner: JobView,
    pw: Progress,
    loser: JobView,
    pl: Progress,
    store: Store,
) -> bool {
    let path = record_path(winner.dir, winner.id);
    &&& (pl == Progress::Writing || pl == Progress::Finished(Err(conflict(loser))))
    &&& (pw == Progress::Indexing && store == initial.with_record(path, winner.body) || pw
        == Progress::Finished(Ok(winner.id)) && store == initial.with_record(
        path,
        winner.body,
    ).with_id(winner.dir, winner.id))
}

/// Where a race of two saves for one id can stand.
pub open spec fn racing(
    initial: Store,
    a: JobView,
    pa: Progress,
    b: JobView,
    pb: Progress,
    store: Store,
) -> bool {
    ||| (pa == Progress::Writing && pb == Progress::Writing && store == initial)
    ||| won_by(initial, a, pa, b, pb, store)
    ||| won_by(initial, b, pb, a, pa, store)
}

proof fn lemma_race_goes_on(
    initial: Store,
    a: JobView,
    pa: Progress,
    b: JobView,
    pb: Progress,
    store: Store,
    schedule: Seq<bool>,
)
    requires
        a.dir == b.dir,
        a.id == b.id,
        !initial.records.contains_key(record_path(a.dir, a.id)),
        racing(initial, a, pa, b, pb, store),
    ensures
        ({
            let (end, ea, eb) = interleave(store, a, pa, b, pb, schedule);
            racing(initial, a, ea, b, eb, end)
        }),
    decreases schedule.len(),
{
    if schedule.len() > 0 {
        let path = record_path(a.dir, a.id);
        assert(initial.with_record(path, a.body).records.contains_key(path));
        assert(initial.with_record(path, b.body).records.contains_key(path));
        assert(initial.with_record(path, a.body).with_id(a.dir, a.id).records.contains_key(path));
        assert(initial.with_record(path, b.body).with_id(b.dir, b.id).records.contains_key(path));
        if schedule[0] {
            let (after, p) = advance(store, a, pa);
            assert(racing(initial, a, p, b, pb, after));
            lemma_race_goes_on(initial, a, p, b, pb, after, schedule.skip(1));
        } else {
            let (after, p) = advance(store, b, pb);
            assert(racing(initial, a, pa, b, p, after));
            lemma_race_goes_on(initial, a, pa, b, p, after, schedule.skip(1));
        }
    }
}

/// Two saves for the same id that run at the same time, in whatever order
/// their requests reach the storage: once both have ended, exactly one has
/// succeeded and the other has ended in a conflict, the text of the one
/// that succeeded is stored, and the id was added to the listing once.
pub proof fn lemma_one_of_two_saves_wins(
    store: Store,
    a: JobView,
    b: JobView,
    schedule: Seq<bool>,
)
    requires
        a.dir == b.dir,
        a.id == b.id,
        !store.records.contains_key(record_path(a.dir, a.id)),
        interleave(store, a, Progress::Writing, b, Progress::Writing, schedule).1 is Finished,
        interleave(store, a, Progress::Writing, b, Progress::Writing, schedule).2 is Finished,
    ensures
        ({
            let (end, ea, eb) = interleave(
                store,
                a,
                Progress::Writing,
                b,
                Progress::Writing,
                schedule,
            );
            let path = record_path(a.dir, a.id);
            &&& end.index_of(a.dir) == store.index_of(a.dir).push(a.id)
            &&& end.records.contains_key(path)
            &&& (ea == Progress::Finished(Ok(a.id)) && eb == Progress::Finished(
                Err(conflict(b)),
            ) && end.records[path] == a.body) || (eb == Progress::Finished(Ok(b.id)) && ea
                == Progress::Finished(Err(conflict(a))) && end.records[path] == b.body)
        }),
{
    lemma_race_goes_on(store, a, Progress::Writing, b, Progress::Writing, store, schedule);
}

/// Where the id was not listed before, it is listed exactly once after two
/// saves for it have run at the same time.
pub proof fn lemma_raced_id_is_listed_once(
    store: Store,
    a: JobView,
    b: JobView,
    schedule: Seq<bool>,
)
    requires
        a.dir == b.dir,
        a.id == b.id,
        !store.records.contains_key(record_path(a.dir, a.id)),
        !store.index_of(a.dir).contains(a.id),
        interleave(store, a, Progress::Writing, b, Progress::Writing, schedule).1 is Finished,
        interleave(store, a, Progress::Writing, b, Progress::Writing, schedule).2 is Finished,
    ensures
        interleave(store, a, Progress::Writing, b, Progress::Writing, schedule).0.index_of(
            a.dir,
        ).to_multiset().count(a.id) == 1,
{
    broadcast use vstd::seq_lib::group_to_multiset_ensures;

    lemma_one_of_two_saves_wins(store, a, b, schedule);
    let before = store.index_of(a.dir);
    assert(before.to_multiset().count(a.id) == 0);
    assert(before.push(a.id).to_multiset() =~= before.to_multiset().insert(a.id));
}


/// A kind of entity that is loaded.
pub trait FromStorage: FromPersistence + Empty {
    /// What loading an entity of the kind ends with.
    fn load<'r>(reply: StorageReply, decoded: Option<Self>, remote: bool) -> (r: Result<
        Self,
        VoteErrorKind<'r>,
    >)
        ensures
            (match reply@ {
                ReplyView::Content(_) => match decoded {
                    Some(entity) => r == Ok::<Self, VoteErrorKind<'r>>(entity),
                    None => r is Err && r->Err_0@ == VoteErrorView::Serialize(
                        "Stored text holds no entity."@,
                    ),
                },
                ReplyView::NotFound => r is Ok && r->Ok_0.is_blank(),
                ReplyView::Failed(e) => if remote {
                    r is Ok && r->Ok_0.is_blank()
                } else {
                    r is Err && r->Err_0@ == VoteErrorView::IO(e)
                },
                _ => r is Err && r->Err_0@ == unexpected(),
            }),
    {
        load_into(reply, decoded, remote)
    }
}

impl FromStorage for Voting {

}

impl FromStorage for CastBallots {

}

impl FromStorage for Candidate {

}

impl FromStorage for Criterion {

}

impl FromStorage for EmojiCategories {

}

/// No request takes anything away: what was stored stays stored, and each
/// listing goes on from what it held.
pub proof fn lemma_storage_only_grows(store: Store, request: RequestView)
    ensures
        forall|path: Seq<char>|
            store.records.contains_key(path) ==> #[trigger] perform(
                store,
                request,
            ).0.records.contains_key(path),
        forall|dir: Seq<char>|
            store.index_of(dir).is_prefix_of(#[trigger] perform(store, request).0.index_of(dir)),
{
    let after = perform(store, request).0;
    assert forall|dir: Seq<char>| store.index_of(dir).is_prefix_of(
        #[trigger] after.index_of(dir),
    ) by {
        let before = store.index_of(dir);
        assert(before =~= after.index_of(dir).subrange(0, before.len() as int));
    }
}

/// Only an update changes a text that is stored: all other requests leave
/// the text under every taken path as it is.
pub proof fn lemma_only_updates_overwrite(store: Store, request: RequestView, path: Seq<char>)
    requires
        store.records.contains_key(path),
        !(request is Write),
    ensures
        perform(store, request).0.records[path] == store.records[path],
{
}


/// Reading changes nothing.
pub proof fn lemma_reading_changes_nothing(store: Store, path: Seq<char>)
    ensures
        perform(store, RequestView::Read { path }).0 == store,
{
}

/// Of two updates of one path the later one stays.
pub proof fn lemma_last_update_stays(
    store: Store,
    path: Seq<char>,
    first: Seq<char>,
    second: Seq<char>,
)
    ensures
        perform(
            perform(store, RequestView::Write { path, body: first }).0,
            RequestView::Write { path, body: second },
        ).0 == perform(store, RequestView::Write { path, body: second }).0,
{
    let once = store.with_record(path, second);
    let twice = store.with_record(path, first).with_record(path, second);
    assert(twice.records =~= once.records);
}

} // verus!
