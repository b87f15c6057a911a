//! Running background jobs. A job's kind and arguments decide the work;
//! the outcome of the work is recorded on the job. The incremental scan
//! walks a storage location chunk by chunk: each chunk is stored in the
//! database and then sent to the search index, and the primary-key index is
//! rebuilt at the end.
use vstd::prelude::*;
use crate::app_trait::music_info_provider::{MusicInfo, MusicInfoMeiliSearch};
use crate::domain::job::JobType;
use crate::json::{json_i64_at, json_i64_field};
use crate::text::{clone_strings, concat, views};

verus! {

/// How many scanned files are stored and indexed together.
pub const MUSIC_INFO_CHUNK_SIZE: usize = 500;

#[derive(Debug)]
pub enum RepositoryError {
    DbErr(String),
    JobNotFound,
    StorageNotFound,
}

#[derive(Debug)]
pub enum Error {
    RepositoryError(RepositoryError),
    StorageIdNotFoundError,
    MeilisearchError(String),
}

pub open spec fn repository_error_text(e: RepositoryError) -> Seq<char> {
    match e {
        RepositoryError::DbErr(m) => "Db error: "@ + m@,
        RepositoryError::JobNotFound => "Job not found"@,
        RepositoryError::StorageNotFound => "Storage not found"@,
    }
}

pub open spec fn error_text(e: Error) -> Seq<char> {
    match e {
        Error::RepositoryError(r) => "Repository error: "@ + repository_error_text(r),
        Error::StorageIdNotFoundError => "Storage id not found error"@,
        Error::MeilisearchError(m) => "Meilisearch error: "@ + m@,
    }
}

impl RepositoryError {
    /// The error's text.
    pub fn message(&self) -> (r: String)
        ensures
            r@ == repository_error_text(*self),
    {
        match self {
            RepositoryError::DbErr(m) => concat("Db error: ", m.as_str()),
            RepositoryError::JobNotFound => String::from_str("Job not found"),
            RepositoryError::StorageNotFound => String::from_str("Storage not found"),
        }
    }
}

impl Error {
    /// The error's text, as recorded on a failed job.
    pub fn message(&self) -> (r: String)
        ensures
            r@ == error_text(*self),
    {
        match self {
            Error::RepositoryError(e) => {
                let inner = e.message();
                concat("Repository error: ", inner.as_str())
            },
            Error::StorageIdNotFoundError => String::from_str("Storage id not found error"),
            Error::MeilisearchError(m) => concat("Meilisearch error: ", m.as_str()),
        }
    }
}

/// The lower-case hex digit for a value below 16.
pub open spec fn hex_digit(n: int) -> char {
    if n < 10 {
        (('0' as int) + n) as char
    } else {
        (('a' as int) + n - 10) as char
    }
}

/// Two lower-case hex digits per byte, high nibble first.
pub open spec fn hex_lower(b: Seq<u8>) -> Seq<char>
    decreases b.len(),
{
    if b.len() == 0 {
        Seq::empty()
    } else {
        hex_lower(b.drop_last()) + seq![hex_digit(b.last() as int / 16), hex_digit(b.last() as int % 16)]
    }
}

/// `hex::encode`: every byte as two lower-case hex digits, high nibble
/// first, in order.
#[verifier::external_body]
fn hex_encode(data: &[u8]) -> (r: String)
    ensures
        r@ == hex_lower(data@),
{
    hex::encode(data)
}

/// The search document of one scanned file.
pub open spec fn is_document_of(d: MusicInfoMeiliSearch, id: Seq<u8>, info: MusicInfo) -> bool {
    &&& d.id@ == hex_lower(id)
    &&& views(d.artists@) == views(info.artists@)
    &&& d.album_title@ == info.album_title@
    &&& d.title@ == info.title@
}

pub fn search_document(id: &Vec<u8>, info: &MusicInfo) -> (r: MusicInfoMeiliSearch)
    ensures
        is_document_of(r, id@, *info),
{
    MusicInfoMeiliSearch {
        id: hex_encode(id.as_slice()),
        artists: clone_strings(&info.artists),
        album_title: info.album_title.clone(),
        title: info.title.clone(),
    }
}

/// The search documents of a chunk, one per file, in order.
pub fn search_documents(chunk: &Vec<(Vec<u8>, MusicInfo)>) -> (r: Vec<MusicInfoMeiliSearch>)
    ensures
        r@.len() == chunk@.len(),
        forall|i: int| 0 <= i < chunk@.len() ==> is_document_of(#[trigger] r@[i], chunk@[i].0@, chunk@[i].1),
{
    let mut out: Vec<MusicInfoMeiliSearch> = Vec::new();
    let mut i: usize = 0;
    while i < chunk.len()
        invariant
            0 <= i <= chunk@.len(),
            out@.len() == i,
            forall|j: int| 0 <= j < i ==> is_document_of(#[trigger] out@[j], chunk@[j].0@, chunk@[j].1),
        decreases chunk@.len() - i,
    {
        let (id, info) = &chunk[i];
        out.push(search_document(id, info));
        i = i + 1;
    }
    out
}

/// The statement that rebuilds an index without locking out writers.
pub fn reindex_statement(index: &str) -> (r: String)
    ensures
        r@ == "REINDEX INDEX CONCURRENTLY "@ + index@,
{
    concat("REINDEX INDEX CONCURRENTLY ", index)
}

/// The work a job asks for.
#[derive(Debug, Clone, Copy, PartialEq, Eq, Structural)]
pub enum JobWork {
    Nothing,
    ScanIncremental { storage_id: i64 },
}

/// Only an incremental scan does work, and it needs the id of the storage
/// to scan; the other kinds of job do nothing yet.
pub fn work_for(job_type: JobType, storage_id: Option<i64>) -> (r: Result<JobWork, Error>)
    ensures
        job_type != JobType::ScanIncremental ==> r == Ok::<JobWork, Error>(JobWork::Nothing),
        job_type == JobType::ScanIncremental ==> match storage_id {
            Some(id) => r == Ok::<JobWork, Error>(JobWork::ScanIncremental { storage_id: id }),
            None => r == Err::<JobWork, Error>(Error::StorageIdNotFoundError),
        },
{
    match job_type {
        JobType::ScanIncremental => match storage_id {
            Some(id) => Ok(JobWork::ScanIncremental { storage_id: id }),
            None => Err(Error::StorageIdNotFoundError),
        },
        _ => Ok(JobWork::Nothing),
    }
}

/// The key of a job's arguments that names the storage to scan.
pub open spec fn storage_id_key() -> Seq<char> {
    "storage_id"@
}

/// The storage a job's arguments name, if any.
pub open spec fn storage_id_of(job_args: serde_json::Value) -> Option<i64> {
    json_i64_field(job_args, storage_id_key())
}

/// The work a job of kind `job_type` with arguments `job_args` asks for.
pub open spec fn planned_work(job_type: JobType, job_args: serde_json::Value) -> Result<JobWork, Error> {
    if job_type == JobType::ScanIncremental {
        match storage_id_of(job_args) {
            Some(id) => Ok(JobWork::ScanIncremental { storage_id: id }),
            None => Err(Error::StorageIdNotFoundError),
        }
    } else {
        Ok(JobWork::Nothing)
    }
}

/// The work a job asks for, reading the storage id from its arguments.
/// Kinds of job other than the incremental scan do nothing whatever the
/// arguments hold; a scan scans the storage its arguments name, or fails
/// when they name none.
pub fn plan_job(job_type: JobType, job_args: &serde_json::Value) -> (r: Result<JobWork, Error>)
    ensures
        r == planned_work(job_type, *job_args),
{
    match job_type {
        JobType::ScanIncremental => {
            proof {
                reveal_strlit("storage_id");
            }
            work_for(job_type, json_i64_at(job_args, "storage_id"))
        },
        _ => Ok(JobWork::Nothing),
    }
}

/// What the job runner asks its environment to do next.
pub enum JobAction {
    ScanIncremental { storage_id: i64 },
    /// Record the job as completed, successfully or with the error text.
    FinishJob { job_id: i64, success: bool, error_message: String },
    /// Nothing more to do; a failure to record the job is only logged.
    Done(Result<(), RepositoryError>),
}

pub enum JobEvent {
    ScanFinished(Result<(), Error>),
    JobFinished(Result<(), RepositoryError>),
}

#[derive(Debug, Clone, Copy, PartialEq, Eq, Structural)]
pub enum JobPhase {
    Working,
    Recording,
    Done,
}

pub struct JobRun {
    pub job_id: i64,
    pub phase: JobPhase,
}

impl JobRun {
    pub open spec fn accepts_spec(&self, event: &JobEvent) -> bool {
        match event {
            JobEvent::ScanFinished(_) => self.phase == JobPhase::Working,
            JobEvent::JobFinished(_) => self.phase == JobPhase::Recording,
        }
    }

    pub fn accepts(&self, event: &JobEvent) -> (r: bool)
        ensures
            r == self.accepts_spec(event),
    {
        match event {
            JobEvent::ScanFinished(_) => self.phase == JobPhase::Working,
            JobEvent::JobFinished(_) => self.phase == JobPhase::Recording,
        }
    }

    /// A job with nothing to do is recorded as a success at once; a job
    /// whose work cannot even be planned is recorded as a failure with the
    /// error's text.
    pub fn start(job_id: i64, job_type: JobType, job_args: &serde_json::Value) -> (r: (JobRun, JobAction))
        ensures
            r.0.job_id == job_id,
            job_type != JobType::ScanIncremental ==> r.0.phase == JobPhase::Recording && (r.1 matches JobAction::FinishJob {
                job_id: id, success, error_message } && id == job_id && success && error_message@ == Seq::<char>::empty()),
            job_type == JobType::ScanIncremental ==> match storage_id_of(*job_args) {
                Some(storage_id) => r.0.phase == JobPhase::Working && r.1 == (JobAction::ScanIncremental {
                    storage_id,
                }),
                None => r.0.phase == JobPhase::Recording && (r.1 matches JobAction::FinishJob {
                    job_id: id, success, error_message } && id == job_id && !success && error_message@ == error_text(
                    Error::StorageIdNotFoundError,
                )),
            },
    {
        match plan_job(job_type, job_args) {
            Ok(JobWork::ScanIncremental { storage_id }) => (
                JobRun { job_id, phase: JobPhase::Working },
                JobAction::ScanIncremental { storage_id },
            ),
            Ok(JobWork::Nothing) => (
                JobRun { job_id, phase: JobPhase::Recording },
                JobAction::FinishJob { job_id, success: true, error_message: String::new() },
            ),
            Err(e) => {
                let error_message = e.message();
                (JobRun { job_id, phase: JobPhase::Recording }, JobAction::FinishJob { job_id, success: false, error_message })
            },
        }
    }

    pub fn on_event(&mut self, event: JobEvent) -> (action: JobAction)
        requires
            old(self).accepts_spec(&event),
        ensures
            final(self).job_id == old(self).job_id,
            match event {
                JobEvent::ScanFinished(Ok(())) => final(self).phase == JobPhase::Recording && (action matches JobAction::FinishJob {
                    job_id, success, error_message } && job_id == old(self).job_id && success && error_message@
                    == Seq::<char>::empty()),
                JobEvent::ScanFinished(Err(e)) => final(self).phase == JobPhase::Recording && (action matches JobAction::FinishJob {
                    job_id, success, error_message } && job_id == old(self).job_id && !success && error_message@
                    == error_text(e)),
                JobEvent::JobFinished(r) => final(self).phase == JobPhase::Done && action == JobAction::Done(r),
            },
    {
        match event {
            JobEvent::ScanFinished(Ok(())) => {
                self.phase = JobPhase::Recording;
                JobAction::FinishJob { job_id: self.job_id, success: true, error_message: String::new() }
            },
            JobEvent::ScanFinished(Err(e)) => {
                self.phase = JobPhase::Recording;
                let error_message = e.message();
                JobAction::FinishJob { job_id: self.job_id, success: false, error_message }
            },
            JobEvent::JobFinished(r) => {
                self.phase = JobPhase::Done;
                JobAction::Done(r)
            },
        }
    }
}

/// What the incremental scan asks its environment to do next.
pub enum ScanAction {
    GetStoragePath { storage_id: i64 },
    /// Start scanning `path`, delivering the files in chunks of
    /// `MUSIC_INFO_CHUNK_SIZE`.
    OpenChunkStream { path: String },
    /// Insert the chunk's files, updating the path of files already stored.
    StoreChunk { storage_id: i64, items: Vec<(Vec<u8>, MusicInfo)> },
    /// Add the documents to the search index, keyed by "id".
    AddDocuments { documents: Vec<MusicInfoMeiliSearch> },
    NextChunk,
    /// Run the statement that rebuilds the primary-key index of the files.
    Reindex { statement: String },
    Finish(Result<(), Error>),
}

pub enum ScanEvent {
    StoragePath(Result<String, RepositoryError>),
    /// The next chunk, or `None` when the scan is over.
    Chunk(Option<Vec<(Vec<u8>, MusicInfo)>>),
    ChunkStored(Result<(), RepositoryError>),
    DocumentsAdded(Result<(), String>),
    Reindexed(Result<(), RepositoryError>),
}

#[derive(Debug, Clone, Copy, PartialEq, Eq, Structural)]
pub enum ScanPhase {
    ReadingPath,
    AwaitingChunk,
    Storing,
    Indexing,
    Reindexing,
    Finished,
}

pub struct Scan {
    pub storage_id: i64,
    pub phase: ScanPhase,
    /// The documents of the chunk being stored.
    pub pending: Vec<MusicInfoMeiliSearch>,
    /// How many chunks have been stored, and how many sent to the index.
    pub stored: Ghost<nat>,
    pub indexed: Ghost<nat>,
}

impl Scan {
    /// Every chunk sent to the index was stored first; only the chunk being
    /// indexed (or one whose indexing failed) is stored but not yet indexed.
    pub open spec fn wf(&self) -> bool {
        &&& self.indexed@ <= self.stored@
        &&& self.stored@ <= self.indexed@ + 1
        &&& (self.phase == ScanPhase::Indexing ==> self.stored@ == self.indexed@ + 1)
        &&& (self.phase != ScanPhase::Indexing && self.phase != ScanPhase::Finished ==> self.stored@
            == self.indexed@)
    }

    pub open spec fn accepts_spec(&self, event: &ScanEvent) -> bool {
        match event {
            ScanEvent::StoragePath(_) => self.phase == ScanPhase::ReadingPath,
            ScanEvent::Chunk(_) => self.phase == ScanPhase::AwaitingChunk,
            ScanEvent::ChunkStored(_) => self.phase == ScanPhase::Storing,
            ScanEvent::DocumentsAdded(_) => self.phase == ScanPhase::Indexing,
            ScanEvent::Reindexed(_) => self.phase == ScanPhase::Reindexing,
        }
    }

    pub fn accepts(&self, event: &ScanEvent) -> (r: bool)
        ensures
            r == self.accepts_spec(event),
    {
        match event {
            ScanEvent::StoragePath(_) => self.phase == ScanPhase::ReadingPath,
            ScanEvent::Chunk(_) => self.phase == ScanPhase::AwaitingChunk,
            ScanEvent::ChunkStored(_) => self.phase == ScanPhase::Storing,
            ScanEvent::DocumentsAdded(_) => self.phase == ScanPhase::Indexing,
            ScanEvent::Reindexed(_) => self.phase == ScanPhase::Reindexing,
        }
    }

    pub fn start(storage_id: i64) -> (r: (Scan, ScanAction))
        ensures
            r.0.storage_id == storage_id,
            r.0.phase == ScanPhase::ReadingPath,
            r.0.wf(),
            r.1 == (ScanAction::GetStoragePath { storage_id }),
    {
        (
            Scan { storage_id, phase: ScanPhase::ReadingPath, pending: Vec::new(), stored: Ghost(0), indexed: Ghost(0) },
            ScanAction::GetStoragePath { storage_id },
        )
    }

    pub fn on_event(&mut self, event: ScanEvent) -> (action: ScanAction)
        requires
            old(self).wf(),
            old(self).accepts_spec(&event),
        ensures
            final(self).wf(),
            final(self).storage_id == old(self).storage_id,
            match event {
                ScanEvent::StoragePath(Ok(path)) => final(self).phase == ScanPhase::AwaitingChunk && action == (
                ScanAction::OpenChunkStream { path }),
                ScanEvent::StoragePath(Err(e)) => final(self).phase == ScanPhase::Finished && action == ScanAction::Finish(
                    Err(Error::RepositoryError(e)),
                ),
                ScanEvent::Chunk(Some(items)) => final(self).phase == ScanPhase::Storing && final(self).pending@.len()
                    == items@.len() && (forall|i: int| 0 <= i < items@.len() ==> is_document_of(
                    #[trigger] final(self).pending@[i],
                    items@[i].0@,
                    items@[i].1,
                )) && action == (ScanAction::StoreChunk { storage_id: old(self).storage_id, items }),
                ScanEvent::Chunk(None) => final(self).phase == ScanPhase::Reindexing && (action matches ScanAction::Reindex {
                    statement } && statement@ == "REINDEX INDEX CONCURRENTLY app.music_info_pkey"@),
                ScanEvent::ChunkStored(Ok(())) => final(self).phase == ScanPhase::Indexing && (action matches ScanAction::AddDocuments {
                    documents } && documents@ == old(self).pending@) && final(self).stored@ == old(self).stored@ + 1,
                ScanEvent::ChunkStored(Err(e)) => final(self).phase == ScanPhase::Finished && action == ScanAction::Finish(
                    Err(Error::RepositoryError(e)),
                ),
                ScanEvent::DocumentsAdded(Ok(())) => final(self).phase == ScanPhase::AwaitingChunk && action
                    == ScanAction::NextChunk && final(self).indexed@ == old(self).indexed@ + 1,
                ScanEvent::DocumentsAdded(Err(m)) => final(self).phase == ScanPhase::Finished && action == ScanAction::Finish(
                    Err(Error::MeilisearchError(m)),
                ),
                ScanEvent::Reindexed(Ok(())) => final(self).phase == ScanPhase::Finished && action == ScanAction::Finish(
                    Ok(()),
                ),
                ScanEvent::Reindexed(Err(e)) => final(self).phase == ScanPhase::Finished && action == ScanAction::Finish(
                    Err(Error::RepositoryError(e)),
                ),
            },
            // Documents go to the search index only for a chunk already stored.
            action is AddDocuments ==> final(self).stored@ == final(self).indexed@ + 1,
            // The index is rebuilt only once every stored chunk was indexed.
            action is Reindex ==> final(self).stored@ == final(self).indexed@,
    {
        match event {
            ScanEvent::StoragePath(Err(e)) => {
                self.phase = ScanPhase::Finished;
                ScanAction::Finish(Err(Error::RepositoryError(e)))
            },
            ScanEvent::Chunk(Some(items)) => {
                self.pending = search_documents(&items);
                self.phase = ScanPhase::Storing;
                ScanAction::StoreChunk { storage_id: self.storage_id, items }
            },
            ScanEvent::Chunk(None) => {
                self.phase = ScanPhase::Reindexing;
                proof {
                    reveal_strlit("app.music_info_pkey");
                    reveal_strlit("REINDEX INDEX CONCURRENTLY ");
                    reveal_strlit("REINDEX INDEX CONCURRENTLY app.music_info_pkey");
                }
                let statement = reindex_statement("app.music_info_pkey");
                assert(statement@ =~= "REINDEX INDEX CONCURRENTLY app.music_info_pkey"@);
                ScanAction::Reindex { statement }
            },
            ScanEvent::ChunkStored(Ok(())) => {
                self.phase = ScanPhase::Indexing;
                self.stored = Ghost(self.stored@ + 1);
                let mut documents: Vec<MusicInfoMeiliSearch> = Vec::new();
                core::mem::swap(&mut documents, &mut self.pending);
                ScanAction::AddDocuments { documents }
            },
            ScanEvent::ChunkStored(Err(e)) => {
                self.phase = ScanPhase::Finished;
                ScanAction::Finish(Err(Error::RepositoryError(e)))
            },
            ScanEvent::DocumentsAdded(Ok(())) => {
                self.phase = ScanPhase::AwaitingChunk;
                self.indexed = Ghost(self.indexed@ + 1);
                ScanAction::NextChunk
            },
            ScanEvent::DocumentsAdded(Err(m)) => {
                self.phase = ScanPhase::Finished;
                ScanAction::Finish(Err(Error::MeilisearchError(m)))
            },
            ScanEvent::Reindexed(Ok(())) => {
                self.phase = ScanPhase::Finished;
                ScanAction::Finish(Ok(()))
            },
            ScanEvent::Reindexed(Err(e)) => {
                self.phase = ScanPhase::Finished;
                ScanAction::Finish(Err(Error::RepositoryError(e)))
            },
            ScanEvent::StoragePath(Ok(path)) => {
                self.phase = ScanPhase::AwaitingChunk;
                ScanAction::OpenChunkStream { path }
            },
        }
    }
}

} // verus!
