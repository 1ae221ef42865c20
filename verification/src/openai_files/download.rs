//! Downloading a stored file into a directory of its own below the working
//! directory.

use crate::http::outcome_view;
use crate::http::success_status;
use crate::http::Body;
use crate::http::HttpBody;
use crate::http::HttpMethod;
use crate::http::HttpReply;
use crate::http::HttpRequest;
use crate::http::Reply;
use crate::http::Request;
use crate::openai_files::auth::anonymous_request;
use crate::openai_files::auth::opt_auth;
use crate::openai_files::auth::plain_request;
use crate::openai_files::auth::Auth;
use crate::openai_files::auth::CodexAuth;
use crate::openai_files::endpoints::Config;
use crate::openai_files::endpoints::DownloadLinkResponse;
use crate::openai_files::endpoints::Link;
use crate::openai_files::error::result_view;
use crate::openai_files::error::FileError;
use crate::openai_files::error::OpenAiFileError;
use crate::openai_files::names::download_place;
use crate::openai_files::names::place_of;
use crate::openai_files::names::sanitized_name;
use crate::openai_files::names::stays_below;
use crate::openai_files::names::DownloadPlace;
use crate::openai_files::names::Place;
use crate::openai_files::reference::file_id_of;
use crate::openai_files::reference::reference_and_its_uri_agree;
use crate::openai_files::resolve::resolve_call;
use crate::openai_files::resolve::resolve_decoding;
use crate::openai_files::resolve::resolve_openai_file;
use crate::openai_files::resolve::resolved_file;
use crate::openai_files::resolve::Call;
use crate::openai_files::resolve::Decoding;
use crate::openai_files::resolve::Resolved;
use crate::openai_files::resolve::ResolveCall;
use crate::openai_files::resolve::ResolveDecode;
use crate::openai_files::resolve::ResolvedOpenAiFile;
use crate::text::opt_text;
use vstd::prelude::*;

verus! {

/// A downloaded file.
#[derive(Debug, Clone, PartialEq, Eq)]
pub struct DownloadedOpenAiFile {
    pub file_id: String,
    pub uri: String,
    pub file_name: String,
    pub mime_type: Option<String>,
    pub destination_path: std::path::PathBuf,
    pub bytes_written: u64,
}

/// What a downloaded file holds.
pub ghost struct Downloaded {
    pub file_id: Seq<char>,
    pub uri: Seq<char>,
    pub file_name: Seq<char>,
    pub mime_type: Option<Seq<char>>,
    pub destination_path: std::path::PathBuf,
    pub bytes_written: u64,
}

impl View for DownloadedOpenAiFile {
    type V = Downloaded;

    open spec fn view(&self) -> Downloaded {
        Downloaded {
            file_id: self.file_id@,
            uri: self.uri@,
            file_name: self.file_name@,
            mime_type: opt_text(self.mime_type),
            destination_path: self.destination_path,
            bytes_written: self.bytes_written,
        }
    }
}

/// What a download was asked to do.
#[derive(Debug)]
pub struct DownloadTarget {
    pub cwd: std::path::PathBuf,
    pub scope: String,
    pub max_bytes: u64,
}

/// What the orders of a download hold.
pub ghost struct Target {
    pub cwd: std::path::PathBuf,
    pub scope: Seq<char>,
    pub max_bytes: u64,
}

impl View for DownloadTarget {
    type V = Target;

    open spec fn view(&self) -> Target {
        Target { cwd: self.cwd, scope: self.scope@, max_bytes: self.max_bytes }
    }
}

/// A file that is being downloaded.
#[derive(Debug)]
pub struct Download {
    pub resolved: ResolvedOpenAiFile,
    pub place: DownloadPlace,
    pub max_bytes: u64,
}

/// What a download holds.
pub ghost struct Fetching {
    pub resolved: Resolved,
    pub place: Place,
    pub max_bytes: u64,
}

impl View for Download {
    type V = Fetching;

    open spec fn view(&self) -> Fetching {
        Fetching { resolved: self.resolved@, place: self.place@, max_bytes: self.max_bytes }
    }
}

/// The request for a download link waits for its reply.
#[derive(Debug)]
pub struct DownloadResolve {
    pub target: DownloadTarget,
    pub call: ResolveCall,
}

/// The reply waits to be decoded.
#[derive(Debug)]
pub struct DownloadResolveDecode {
    pub target: DownloadTarget,
    pub decode: ResolveDecode,
}

/// The directory of the download waits to be created.
#[derive(Debug)]
pub struct DownloadDirectory {
    pub download: Download,
}

/// The request for the content waits for its reply.
#[derive(Debug)]
pub struct DownloadFetch {
    pub download: Download,
    pub request: HttpRequest,
}

/// The request for the content was refused; the body of the reply tells why.
#[derive(Debug)]
pub struct DownloadRefused {
    pub url: String,
    pub status: reqwest::StatusCode,
}

/// The destination waits to be created.
#[derive(Debug)]
pub struct DownloadCreate {
    pub download: Download,
}

/// The content comes in.
#[derive(Debug)]
pub struct DownloadWrite {
    pub download: Download,
    pub bytes_written: u64,
}

/// What the request for the content comes to.
#[derive(Debug)]
pub enum FetchAnswer {
    /// The body of the reply is to be read.
    Refused(DownloadRefused),
    /// The destination is to be created.
    Accepted(DownloadCreate),
}

/// What a piece of the content comes to.
#[derive(Debug)]
pub enum ChunkStep {
    /// The piece is to be written.
    Write(DownloadWrite),
    /// The destination is to be removed, and the download fails.
    Abandon { destination: std::path::PathBuf, error: OpenAiFileError },
}

/// What a refused request holds.
pub ghost struct Refusal {
    pub url: Seq<char>,
    pub status: reqwest::StatusCode,
}

/// What content that comes in holds.
pub ghost struct Writing {
    pub download: Fetching,
    pub bytes_written: u64,
}

/// What an answer holds.
pub ghost enum Answer {
    Refused(Refusal),
    Accepted(Fetching),
}

/// What a step holds.
pub ghost enum Step {
    Write(Writing),
    Abandon { destination: std::path::PathBuf, error: FileError },
}

impl View for DownloadResolve {
    type V = (Target, Call);

    open spec fn view(&self) -> (Target, Call) {
        (self.target@, self.call@)
    }
}

impl View for DownloadResolveDecode {
    type V = (Target, Decoding);

    open spec fn view(&self) -> (Target, Decoding) {
        (self.target@, self.decode@)
    }
}

impl View for DownloadDirectory {
    type V = Fetching;

    open spec fn view(&self) -> Fetching {
        self.download@
    }
}

impl View for DownloadFetch {
    type V = (Fetching, Request);

    open spec fn view(&self) -> (Fetching, Request) {
        (self.download@, self.request@)
    }
}

impl View for DownloadRefused {
    type V = Refusal;

    open spec fn view(&self) -> Refusal {
        Refusal { url: self.url@, status: self.status }
    }
}

impl View for DownloadCreate {
    type V = Fetching;

    open spec fn view(&self) -> Fetching {
        self.download@
    }
}

impl View for DownloadWrite {
    type V = Writing;

    open spec fn view(&self) -> Writing {
        Writing { download: self.download@, bytes_written: self.bytes_written }
    }
}

impl View for FetchAnswer {
    type V = Answer;

    open spec fn view(&self) -> Answer {
        match self {
            FetchAnswer::Refused(refused) => Answer::Refused(refused@),
            FetchAnswer::Accepted(create) => Answer::Accepted(create@),
        }
    }
}

impl View for ChunkStep {
    type V = Step;

    open spec fn view(&self) -> Step {
        match self {
            ChunkStep::Write(write) => Step::Write(write@),
            ChunkStep::Abandon { destination, error } => Step::Abandon {
                destination: *destination,
                error: error@,
            },
        }
    }
}

/// The request that finds out about the file, or why there is none.
pub open spec fn download_call(
    configured: Seq<char>,
    auth: Option<Auth>,
    reference: Seq<char>,
    target: Target,
) -> Result<(Target, Call), FileError> {
    match resolve_call(configured, auth, reference) {
        Ok(call) => Ok((target, call)),
        Err(error) => Err(error),
    }
}

/// The reply to be decoded, or why there is none.
pub open spec fn download_decoding(
    call: (Target, Call),
    reply: Result<Reply, Seq<char>>,
) -> Result<(Target, Decoding), FileError> {
    match resolve_decoding(call.1, reply) {
        Ok(decoding) => Ok((call.0, decoding)),
        Err(error) => Err(error),
    }
}

/// What the file is called: its name, or its id where it has none.
pub open spec fn called(resolved: Resolved) -> Seq<char> {
    match resolved.file_name {
        Some(name) => name,
        None => resolved.file_id,
    }
}

/// The download of a file that is known, if it is small enough.
pub open spec fn download_of(target: Target, resolved: Resolved) -> Result<Fetching, FileError> {
    if resolved.file_size_bytes matches Some(size) && size > target.max_bytes {
        Err(
            FileError::RemoteFileTooLarge {
                file_id: resolved.file_id,
                size_bytes: resolved.file_size_bytes->0,
                limit_bytes: target.max_bytes,
            },
        )
    } else {
        Ok(
            Fetching {
                resolved,
                place: place_of(target.cwd, target.scope, called(resolved)),
                max_bytes: target.max_bytes,
            },
        )
    }
}

/// The download that a decoded reply leads to.
pub open spec fn download_known(
    decoding: (Target, Decoding),
    link: Result<Link, Seq<char>>,
) -> Result<Fetching, FileError> {
    match resolved_file(decoding.1, link) {
        Ok(resolved) => download_of(decoding.0, resolved),
        Err(error) => Err(error),
    }
}

/// The request for the content, if the directory could be created.
pub open spec fn fetch_call(
    download: Fetching,
    created: Result<(), String>,
) -> Result<(Fetching, Request), FileError> {
    match created {
        Ok(_) => Ok(
            (
                download,
                plain_request(HttpMethod::Get, download.resolved.download_url, Body::Empty),
            ),
        ),
        Err(source) => Err(
            FileError::CreateDirectory { path: download.place.dir, source: source@ },
        ),
    }
}

/// What the request for the content comes to.
pub open spec fn fetch_answer(
    fetch: (Fetching, Request),
    status: Result<reqwest::StatusCode, String>,
) -> Result<Answer, FileError> {
    match status {
        Err(source) => Err(FileError::Request { url: fetch.1.url, source: source@ }),
        Ok(status) => if success_status(status) {
            Ok(Answer::Accepted(fetch.0))
        } else {
            Ok(Answer::Refused(Refusal { url: fetch.1.url, status }))
        },
    }
}

/// How many bytes have come when `len` more have come.
pub open spec fn more_bytes(bytes_written: u64, len: usize) -> u64 {
    if bytes_written + len > u64::MAX {
        u64::MAX
    } else {
        (bytes_written + len) as u64
    }
}

/// What a piece of `len` bytes comes to.
pub open spec fn chunk_step(writing: Writing, len: usize) -> Step {
    let size_bytes = more_bytes(writing.bytes_written, len);
    if size_bytes > writing.download.max_bytes {
        Step::Abandon {
            destination: writing.download.place.destination,
            error: FileError::RemoteFileTooLarge {
                file_id: writing.download.resolved.file_id,
                size_bytes,
                limit_bytes: writing.download.max_bytes,
            },
        }
    } else {
        Step::Write(Writing { download: writing.download, bytes_written: size_bytes })
    }
}

/// What the next piece of the content comes to, if it comes.
pub open spec fn next_step(writing: Writing, next: Result<usize, String>) -> Result<
    Step,
    FileError,
> {
    match next {
        Ok(len) => Ok(chunk_step(writing, len)),
        Err(source) => Err(
            FileError::Request {
                url: writing.download.resolved.download_url,
                source: source@,
            },
        ),
    }
}

/// Why writing to the destination failed, if it did.
pub open spec fn write_failure(download: Fetching, done: Result<(), String>) -> Option<FileError> {
    match done {
        Ok(_) => None,
        Err(source) => Some(
            FileError::WriteFile { path: download.place.destination, source: source@ },
        ),
    }
}

/// The content that comes in once the destination is created.
pub open spec fn write_start(download: Fetching, created: Result<(), String>) -> Result<
    Writing,
    FileError,
> {
    match write_failure(download, created) {
        None => Ok(Writing { download, bytes_written: 0 }),
        Some(error) => Err(error),
    }
}

/// The content that comes in once a piece is written.
pub open spec fn write_on(writing: Writing, written: Result<(), String>) -> Result<
    Writing,
    FileError,
> {
    match write_failure(writing.download, written) {
        None => Ok(writing),
        Some(error) => Err(error),
    }
}

/// The downloaded file.
pub open spec fn downloaded_file(writing: Writing) -> Downloaded {
    Downloaded {
        file_id: writing.download.resolved.file_id,
        uri: writing.download.resolved.uri,
        file_name: writing.download.place.file_name,
        mime_type: writing.download.resolved.mime_type,
        destination_path: writing.download.place.destination,
        bytes_written: writing.bytes_written,
    }
}

/// The downloaded file, once everything is written.
pub open spec fn write_end(writing: Writing, flushed: Result<(), String>) -> Result<
    Downloaded,
    FileError,
> {
    match write_failure(writing.download, flushed) {
        None => Ok(downloaded_file(writing)),
        Some(error) => Err(error),
    }
}

/// Begins the download of the file that `reference` stands for into the
/// directory of `scope` below `cwd`, of at most `max_bytes`.
pub fn download_file_to_managed_temp(
    config: &Config,
    auth: Option<&CodexAuth>,
    cwd: &std::path::PathBuf,
    reference: &str,
    scope: &str,
    max_bytes: u64,
) -> (r: Result<DownloadResolve, OpenAiFileError>)
    ensures
        result_view(r) == download_call(
            config.chatgpt_base_url@,
            opt_auth(auth),
            reference@,
            (Target { cwd: *cwd, scope: scope@, max_bytes }),
        ),
{
    match resolve_openai_file(config, auth, reference) {
        Ok(call) => Ok(
            DownloadResolve {
                target: DownloadTarget { cwd: cwd.clone(), scope: scope.to_owned(), max_bytes },
                call,
            },
        ),
        Err(error) => Err(error),
    }
}

impl DownloadResolve {
    /// Takes the reply to the request for a download link.
    pub fn on_reply(self, reply: Result<HttpReply, String>) -> (r: Result<
        DownloadResolveDecode,
        OpenAiFileError,
    >)
        ensures
            result_view(r) == download_decoding(self@, outcome_view(reply)),
    {
        match self.call.on_reply(reply) {
            Ok(decode) => Ok(DownloadResolveDecode { target: self.target, decode }),
            Err(error) => Err(error),
        }
    }
}

impl DownloadResolveDecode {
    /// Takes the decoded reply. The download that it leads to stays below the
    /// working directory.
    pub fn on_payload(self, payload: Result<DownloadLinkResponse, String>) -> (r: Result<
        DownloadDirectory,
        OpenAiFileError,
    >)
        ensures
            result_view(r) == download_known(self@, outcome_view(payload)),
            r matches Ok(next) ==> stays_below(
                self.target.cwd,
                self.target.scope@,
                next.download.place@,
            ),
    {
        let resolved = match self.decode.on_payload(payload) {
            Ok(resolved) => resolved,
            Err(error) => {
                return Err(error);
            },
        };
        let max_bytes: u64 = self.target.max_bytes;
        if let Some(size_bytes) = resolved.file_size_bytes {
            if size_bytes > max_bytes {
                return Err(
                    OpenAiFileError::RemoteFileTooLarge {
                        file_id: resolved.file_id,
                        size_bytes,
                        limit_bytes: max_bytes,
                    },
                );
            }
        }
        let name: &str = match &resolved.file_name {
            Some(name) => name.as_str(),
            None => resolved.file_id.as_str(),
        };
        let place = download_place(&self.target.cwd, self.target.scope.as_str(), name);
        Ok(DownloadDirectory { download: Download { resolved, place, max_bytes } })
    }
}

impl DownloadDirectory {
    /// Takes what came of creating the directory.
    pub fn on_created(self, created: Result<(), String>) -> (r: Result<
        DownloadFetch,
        OpenAiFileError,
    >)
        ensures
            result_view(r) == fetch_call(self@, created),
    {
        match created {
            Ok(_) => {
                let request = anonymous_request(
                    HttpMethod::Get,
                    self.download.resolved.download_url.as_str(),
                    HttpBody::Empty,
                );
                Ok(DownloadFetch { download: self.download, request })
            },
            Err(source) => Err(
                OpenAiFileError::CreateDirectory { path: self.download.place.dir, source },
            ),
        }
    }
}

impl DownloadFetch {
    /// Takes the status of the reply to the request for the content.
    pub fn on_response(self, status: Result<reqwest::StatusCode, String>) -> (r: Result<
        FetchAnswer,
        OpenAiFileError,
    >)
        ensures
            result_view(r) == fetch_answer(self@, status),
    {
        match status {
            Err(source) => Err(OpenAiFileError::Request { url: self.request.url, source }),
            Ok(status) => if status.is_success() {
                Ok(FetchAnswer::Accepted(DownloadCreate { download: self.download }))
            } else {
                Ok(FetchAnswer::Refused(DownloadRefused { url: self.request.url, status }))
            },
        }
    }
}

impl DownloadRefused {
    /// Takes the body of the reply.
    pub fn on_body(self, body: String) -> (r: OpenAiFileError)
        ensures
            r@ == (FileError::UnexpectedStatus {
                url: self.url@,
                status: self.status,
                body: body@,
            }),
    {
        OpenAiFileError::UnexpectedStatus { url: self.url, status: self.status, body }
    }
}

impl DownloadCreate {
    /// Takes what came of creating the destination.
    pub fn on_created(self, created: Result<(), String>) -> (r: Result<
        DownloadWrite,
        OpenAiFileError,
    >)
        ensures
            result_view(r) == write_start(self@, created),
    {
        match created {
            Ok(_) => Ok(DownloadWrite { download: self.download, bytes_written: 0 }),
            Err(source) => Err(
                OpenAiFileError::WriteFile { path: self.download.place.destination, source },
            ),
        }
    }
}

impl DownloadWrite {
    /// Takes the length of the next piece of the content.
    pub fn on_chunk(self, next: Result<usize, String>) -> (r: Result<ChunkStep, OpenAiFileError>)
        ensures
            result_view(r) == next_step(self@, next),
    {
        let len: u64 = match next {
            Ok(len) => len as u64,
            Err(source) => {
                return Err(
                    OpenAiFileError::Request { url: self.download.resolved.download_url, source },
                );
            },
        };
        let bytes_written: u64 = self.bytes_written.saturating_add(len);
        if bytes_written > self.download.max_bytes {
            Ok(
                ChunkStep::Abandon {
                    destination: self.download.place.destination,
                    error: OpenAiFileError::RemoteFileTooLarge {
                        file_id: self.download.resolved.file_id,
                        size_bytes: bytes_written,
                        limit_bytes: self.download.max_bytes,
                    },
                },
            )
        } else {
            Ok(ChunkStep::Write(DownloadWrite { download: self.download, bytes_written }))
        }
    }

    /// Takes what came of writing a piece.
    pub fn on_written(self, written: Result<(), String>) -> (r: Result<
        DownloadWrite,
        OpenAiFileError,
    >)
        ensures
            result_view(r) == write_on(self@, written),
    {
        match written {
            Ok(_) => Ok(self),
            Err(source) => Err(
                OpenAiFileError::WriteFile { path: self.download.place.destination, source },
            ),
        }
    }

    /// Takes what came of the last writes, once the content has ended.
    pub fn on_flushed(self, flushed: Result<(), String>) -> (r: Result<
        DownloadedOpenAiFile,
        OpenAiFileError,
    >)
        ensures
            result_view(r) == write_end(self@, flushed),
    {
        let download = self.download;
        match flushed {
            Ok(_) => Ok(
                DownloadedOpenAiFile {
                    file_id: download.resolved.file_id,
                    uri: download.resolved.uri,
                    file_name: download.place.file_name,
                    mime_type: download.resolved.mime_type,
                    destination_path: download.place.destination,
                    bytes_written: self.bytes_written,
                },
            ),
            Err(source) => Err(
                OpenAiFileError::WriteFile { path: download.place.destination, source },
            ),
        }
    }
}

/// How many bytes pieces of these lengths hold.
pub open spec fn total_len(lens: Seq<usize>) -> nat
    decreases lens.len(),
{
    if lens.len() == 0 {
        0
    } else {
        total_len(lens.drop_last()) + lens.last() as nat
    }
}

/// What pieces of these lengths come to, one after the other, each written
/// before the next comes.
pub open spec fn chunks_step(start: Writing, lens: Seq<usize>) -> Step
    decreases lens.len(),
{
    if lens.len() == 0 {
        Step::Write(start)
    } else {
        match chunks_step(start, lens.drop_last()) {
            Step::Write(writing) => chunk_step(writing, lens.last()),
            abandoned => abandoned,
        }
    }
}

/// A download takes in exactly what does not exceed its limit. What it has
/// taken in is what it counts; what exceeds the limit is abandoned with the
/// destination removed.
pub proof fn download_keeps_to_its_limit(download: Fetching, lens: Seq<usize>)
    requires
        total_len(lens) <= u64::MAX || download.max_bytes < u64::MAX,
    ensures
        total_len(lens) <= download.max_bytes ==> chunks_step(
            Writing { download, bytes_written: 0 },
            lens,
        ) == Step::Write(Writing { download, bytes_written: total_len(lens) as u64 }),
        total_len(lens) > download.max_bytes ==> (chunks_step(
            Writing { download, bytes_written: 0 },
            lens,
        ) matches Step::Abandon { destination, error } && destination == download.place.destination
            && error is RemoteFileTooLarge),
    decreases lens.len(),
{
    if lens.len() > 0 {
        download_keeps_to_its_limit(download, lens.drop_last());
    }
}

/// What came of the outside work of a download up to its content.
pub ghost struct DownloadWork {
    pub reply: Result<Reply, Seq<char>>,
    pub link: Result<Link, Seq<char>>,
    pub dir_created: Result<(), String>,
    pub status: Result<reqwest::StatusCode, String>,
    pub file_created: Result<(), String>,
}

/// The point at which the content of a download comes in, if it comes so far.
pub open spec fn download_begun(
    configured: Seq<char>,
    auth: Option<Auth>,
    reference: Seq<char>,
    target: Target,
    work: DownloadWork,
) -> Option<Writing> {
    match download_call(configured, auth, reference, target) {
        Err(_) => None,
        Ok(call) => match download_decoding(call, work.reply) {
            Err(_) => None,
            Ok(decoding) => match download_known(decoding, work.link) {
                Err(_) => None,
                Ok(known) => match fetch_call(known, work.dir_created) {
                    Err(_) => None,
                    Ok(fetch) => match fetch_answer(fetch, work.status) {
                        Ok(Answer::Accepted(download)) => match write_start(
                            download,
                            work.file_created,
                        ) {
                            Err(_) => None,
                            Ok(writing) => Some(writing),
                        },
                        _ => None,
                    },
                },
            },
        },
    }
}

/// A file that is downloaded is the one referred to, goes to the place that
/// its name has in the scope, and is no larger than was asked for.
pub proof fn download_brings_the_file_referred_to(
    configured: Seq<char>,
    auth: Option<Auth>,
    reference: Seq<char>,
    target: Target,
    work: DownloadWork,
    lens: Seq<usize>,
)
    requires
        total_len(lens) <= u64::MAX || target.max_bytes < u64::MAX,
    ensures
        download_begun(configured, auth, reference, target, work) matches Some(start) ==> {
            &&& start.bytes_written == 0
            &&& chunks_step(start, lens) matches Step::Write(end) ==> {
                let file = downloaded_file(end);
                let resolved = start.download.resolved;
                &&& file_id_of(reference) == Some(file.file_id)
                &&& file_id_of(file.uri) == Some(file.file_id)
                &&& file.bytes_written == total_len(lens) <= target.max_bytes
                &&& resolved.file_size_bytes matches Some(size) ==> size <= target.max_bytes
                &&& file.file_name == sanitized_name(called(resolved))
                &&& file.destination_path == place_of(
                    target.cwd,
                    target.scope,
                    called(resolved),
                ).destination
            }
        },
{
    if let Some(start) = download_begun(configured, auth, reference, target, work) {
        reference_and_its_uri_agree(reference);
        download_keeps_to_its_limit(start.download, lens);
    }
}

/// A file that the storage says is too large is not asked for: the download
/// fails before its directory is created.
pub proof fn large_files_are_not_fetched(target: Target, resolved: Resolved)
    ensures
        download_of(target, resolved) is Err <==> (resolved.file_size_bytes matches Some(size)
            && size > target.max_bytes),
        download_of(target, resolved) matches Err(error) ==> error
            == (FileError::RemoteFileTooLarge {
            file_id: resolved.file_id,
            size_bytes: resolved.file_size_bytes->0,
            limit_bytes: target.max_bytes,
        }),
{
}

} // verus!
