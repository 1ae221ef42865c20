//! Uploading a local file: it is created in the storage, its content is sent,
//! and the upload is reported as finished.

use crate::http::outcome_view;
use crate::http::Body;
use crate::http::HttpBody;
use crate::http::HttpMethod;
use crate::http::HttpReply;
use crate::http::HttpRequest;
use crate::http::Reply;
use crate::http::Request;
use crate::json::entries_of;
use crate::json::integer_value;
use crate::json::new_object;
use crate::json::object_insert;
use crate::json::object_value;
use crate::json::text_value;
use crate::json::Json;
use crate::openai_files::auth::anonymous_request;
use crate::openai_files::auth::auth_refusal;
use crate::openai_files::auth::authorized_request;
use crate::openai_files::auth::ensure_chatgpt_auth;
use crate::openai_files::auth::opt_auth;
use crate::openai_files::auth::plain_request;
use crate::openai_files::auth::request_of;
use crate::openai_files::auth::Auth;
use crate::openai_files::auth::CodexAuth;
use crate::openai_files::endpoints::accept_reply;
use crate::openai_files::endpoints::accepted_reply;
use crate::openai_files::endpoints::files_url;
use crate::openai_files::endpoints::uploaded_url;
use crate::openai_files::endpoints::Accepted;
use crate::openai_files::endpoints::AcceptedReply;
use crate::openai_files::endpoints::Config;
use crate::openai_files::endpoints::CreateFileResponse;
use crate::openai_files::endpoints::CreatedFile;
use crate::openai_files::endpoints::DownloadLinkResponse;
use crate::openai_files::endpoints::Link;
use crate::openai_files::error::result_view;
use crate::openai_files::error::FileError;
use crate::openai_files::error::OpenAiFileError;
use crate::openai_files::reference::file_id_of;
use crate::openai_files::reference::file_uri;
use crate::openai_files::reference::openai_file_uri;
use crate::openai_files::reference::uri_leads_back_to_the_id;
use crate::openai_files::reference::OPENAI_FILE_UPLOAD_LIMIT_BYTES;
use crate::openai_files::resolve::link_failure;
use crate::openai_files::resolve::reject_link;
use crate::paths::file_name_of;
use crate::paths::path_file_name;
use crate::paths::path_parts;
use crate::text::opt_text;
use crate::text::same_text;
use vstd::prelude::*;

verus! {

/// What uploaded files are said to be for.
pub const OPENAI_FILE_USE_CASE: &'static str = "codex";

/// An uploaded file.
#[derive(Debug, Clone, PartialEq, Eq)]
pub struct UploadedOpenAiFile {
    pub file_id: String,
    pub uri: String,
    pub file_name: String,
    pub file_size_bytes: u64,
    pub mime_type: Option<String>,
    pub path: std::path::PathBuf,
}

/// What an uploaded file holds.
pub ghost struct Uploaded {
    pub file_id: Seq<char>,
    pub uri: Seq<char>,
    pub file_name: Seq<char>,
    pub file_size_bytes: u64,
    pub mime_type: Option<Seq<char>>,
    pub path: std::path::PathBuf,
}

impl View for UploadedOpenAiFile {
    type V = Uploaded;

    open spec fn view(&self) -> Uploaded {
        Uploaded {
            file_id: self.file_id@,
            uri: self.uri@,
            file_name: self.file_name@,
            file_size_bytes: self.file_size_bytes,
            mime_type: opt_text(self.mime_type),
            path: self.path,
        }
    }
}

/// What the file system tells of a path.
#[derive(Debug, Clone, Copy)]
pub struct FileMetadata {
    pub is_file: bool,
    pub len: u64,
}

/// Why the file system tells nothing of a path.
#[derive(Debug)]
pub enum MetadataFailure {
    NotFound,
    Other(String),
}

/// The file that is uploaded.
#[derive(Debug)]
pub struct LocalFile {
    pub path: std::path::PathBuf,
    pub file_name: String,
    pub size_bytes: u64,
}

/// What the file that is uploaded holds.
pub ghost struct Local {
    pub path: std::path::PathBuf,
    pub file_name: Seq<char>,
    pub size_bytes: u64,
}

impl View for LocalFile {
    type V = Local;

    open spec fn view(&self) -> Local {
        Local { path: self.path, file_name: self.file_name@, size_bytes: self.size_bytes }
    }
}

/// The file system is asked about the path.
#[derive(Debug)]
pub struct UploadStart {
    pub path: std::path::PathBuf,
}

/// The request that creates the file waits for its reply.
#[derive(Debug)]
pub struct UploadCreate {
    pub local: LocalFile,
    pub request: HttpRequest,
}

/// The reply to the creation waits to be decoded.
#[derive(Debug)]
pub struct UploadCreateDecode {
    pub local: LocalFile,
    pub reply: AcceptedReply,
}

/// The local file waits to be opened.
#[derive(Debug)]
pub struct UploadOpen {
    pub local: LocalFile,
    pub created: CreateFileResponse,
}

/// The request with the content waits for its reply.
#[derive(Debug)]
pub struct UploadPut {
    pub local: LocalFile,
    pub file_id: String,
    pub request: HttpRequest,
}

/// The report that the upload is finished waits for its reply.
#[derive(Debug)]
pub struct UploadFinalize {
    pub local: LocalFile,
    pub file_id: String,
    pub request: HttpRequest,
}

/// The reply to the report waits to be decoded.
#[derive(Debug)]
pub struct UploadFinalizeDecode {
    pub local: LocalFile,
    pub file_id: String,
    pub reply: AcceptedReply,
}

impl View for UploadStart {
    type V = std::path::PathBuf;

    open spec fn view(&self) -> std::path::PathBuf {
        self.path
    }
}

impl View for UploadCreate {
    type V = (Local, Request);

    open spec fn view(&self) -> (Local, Request) {
        (self.local@, self.request@)
    }
}

impl View for UploadCreateDecode {
    type V = (Local, Accepted);

    open spec fn view(&self) -> (Local, Accepted) {
        (self.local@, self.reply@)
    }
}

impl View for UploadOpen {
    type V = (Local, CreatedFile);

    open spec fn view(&self) -> (Local, CreatedFile) {
        (self.local@, self.created@)
    }
}

impl View for UploadPut {
    type V = (Local, Seq<char>, Request);

    open spec fn view(&self) -> (Local, Seq<char>, Request) {
        (self.local@, self.file_id@, self.request@)
    }
}

impl View for UploadFinalize {
    type V = (Local, Seq<char>, Request);

    open spec fn view(&self) -> (Local, Seq<char>, Request) {
        (self.local@, self.file_id@, self.request@)
    }
}

impl View for UploadFinalizeDecode {
    type V = (Local, Seq<char>, Accepted);

    open spec fn view(&self) -> (Local, Seq<char>, Accepted) {
        (self.local@, self.file_id@, self.reply@)
    }
}

/// The name under which the file at a path is uploaded.
pub open spec fn upload_name(path: std::path::PathBuf) -> Seq<char> {
    match file_name_of(path_parts(path)) {
        Some(name) => name,
        None => "file"@,
    }
}

/// The file to be uploaded, if there is one at the path and it is small
/// enough.
pub open spec fn local_file(
    path: std::path::PathBuf,
    metadata: Result<FileMetadata, MetadataFailure>,
) -> Result<Local, FileError> {
    match metadata {
        Err(MetadataFailure::NotFound) => Err(FileError::MissingPath { path }),
        Err(MetadataFailure::Other(source)) => Err(FileError::ReadFile { path, source: source@ }),
        Ok(metadata) => if !metadata.is_file {
            Err(FileError::NotAFile { path })
        } else if metadata.len > OPENAI_FILE_UPLOAD_LIMIT_BYTES {
            Err(
                FileError::FileTooLarge {
                    path,
                    size_bytes: metadata.len,
                    limit_bytes: OPENAI_FILE_UPLOAD_LIMIT_BYTES,
                },
            )
        } else {
            Ok(Local { path, file_name: upload_name(path), size_bytes: metadata.len })
        },
    }
}

/// What the creation of a file is asked with.
pub open spec fn create_body(file_name: Seq<char>, size_bytes: u64) -> Json {
    Json::Object(
        map!["file_name"@ => Json::Text(file_name)].insert(
            "file_size"@,
            Json::Integer(size_bytes as int),
        ).insert("use_case"@, Json::Text(OPENAI_FILE_USE_CASE@)),
    )
}

/// The request that creates the file, or why there is none.
pub open spec fn create_call(
    path: std::path::PathBuf,
    configured: Seq<char>,
    auth: Auth,
    metadata: Result<FileMetadata, MetadataFailure>,
) -> Result<(Local, Request), FileError> {
    match local_file(path, metadata) {
        Err(error) => Err(error),
        Ok(local) => {
            let body = Body::Json(create_body(local.file_name, local.size_bytes));
            match request_of(auth, HttpMethod::Post, files_url(configured), body) {
                Ok(request) => Ok((local, request)),
                Err(error) => Err(error),
            }
        },
    }
}

/// The reply to the creation, if it is one to be decoded.
pub open spec fn create_decoding(
    call: (Local, Request),
    reply: Result<Reply, Seq<char>>,
) -> Result<(Local, Accepted), FileError> {
    match accepted_reply(call.1.url, reply) {
        Ok(reply) => Ok((call.0, reply)),
        Err(error) => Err(error),
    }
}

/// The created file, if the reply could be decoded.
pub open spec fn created_file(
    decoding: (Local, Accepted),
    payload: Result<CreatedFile, Seq<char>>,
) -> Result<(Local, CreatedFile), FileError> {
    match payload {
        Ok(created) => Ok((decoding.0, created)),
        Err(source) => Err(FileError::Decode { url: decoding.1.url, source }),
    }
}

/// The request with the content, if the local file could be opened.
pub open spec fn put_call(
    opening: (Local, CreatedFile),
    opened: Result<(), String>,
) -> Result<(Local, Seq<char>, Request), FileError> {
    match opened {
        Ok(_) => Ok(
            (
                opening.0,
                opening.1.file_id,
                plain_request(
                    HttpMethod::Put,
                    opening.1.upload_url,
                    Body::LocalFile(opening.0.path),
                ),
            ),
        ),
        Err(source) => Err(FileError::ReadFile { path: opening.0.path, source: source@ }),
    }
}

/// The report that the upload is finished, or why there is none.
pub open spec fn finalize_call(
    put: (Local, Seq<char>, Request),
    configured: Seq<char>,
    auth: Auth,
    reply: Result<Reply, Seq<char>>,
) -> Result<(Local, Seq<char>, Request), FileError> {
    match accepted_reply(put.2.url, reply) {
        Err(error) => Err(error),
        Ok(_) => {
            let body = Body::Json(Json::Object(Map::empty()));
            match request_of(auth, HttpMethod::Post, uploaded_url(configured, put.1), body) {
                Ok(request) => Ok((put.0, put.1, request)),
                Err(error) => Err(error),
            }
        },
    }
}

/// The reply to the report, if it is one to be decoded.
pub open spec fn finalize_decoding(
    call: (Local, Seq<char>, Request),
    reply: Result<Reply, Seq<char>>,
) -> Result<(Local, Seq<char>, Accepted), FileError> {
    match accepted_reply(call.2.url, reply) {
        Ok(reply) => Ok((call.0, call.1, reply)),
        Err(error) => Err(error),
    }
}

/// The uploaded file, or why the upload failed.
pub open spec fn uploaded_file(
    decoding: (Local, Seq<char>, Accepted),
    link: Result<Link, Seq<char>>,
) -> Result<Uploaded, FileError> {
    match link {
        Err(source) => Err(FileError::Decode { url: decoding.2.url, source }),
        Ok(link) => if link.status == "success"@ {
            Ok(
                Uploaded {
                    file_id: decoding.1,
                    uri: file_uri(decoding.1),
                    file_name: match link.file_name {
                        Some(name) => name,
                        None => decoding.0.file_name,
                    },
                    file_size_bytes: decoding.0.size_bytes,
                    mime_type: link.mime_type,
                    path: decoding.0.path,
                },
            )
        } else {
            Err(link_failure(link, decoding.1, "upload finalization returned an error"@))
        },
    }
}

/// Begins the upload of the file at `path`.
pub fn upload_local_file(auth: Option<&CodexAuth>, path: &std::path::PathBuf) -> (r: Result<
    UploadStart,
    OpenAiFileError,
>)
    ensures
        r is Ok <==> auth_refusal(opt_auth(auth)) is None,
        r matches Ok(start) ==> start.path == *path,
        r matches Err(error) ==> auth_refusal(opt_auth(auth)) == Some(error@),
{
    match ensure_chatgpt_auth(auth) {
        Ok(_) => Ok(UploadStart { path: path.clone() }),
        Err(error) => Err(error),
    }
}

impl UploadStart {
    /// Takes what the file system tells of the path.
    pub fn on_metadata(
        self,
        config: &Config,
        auth: &CodexAuth,
        metadata: Result<FileMetadata, MetadataFailure>,
    ) -> (r: Result<UploadCreate, OpenAiFileError>)
        ensures
            result_view(r) == create_call(
                self.path,
                config.chatgpt_base_url@,
                auth@,
                metadata,
            ),
    {
        let path = self.path;
        let metadata = match metadata {
            Ok(metadata) => metadata,
            Err(MetadataFailure::NotFound) => {
                return Err(OpenAiFileError::MissingPath { path });
            },
            Err(MetadataFailure::Other(source)) => {
                return Err(OpenAiFileError::ReadFile { path, source });
            },
        };
        if !metadata.is_file {
            return Err(OpenAiFileError::NotAFile { path });
        }
        let size_bytes: u64 = metadata.len;
        if size_bytes > OPENAI_FILE_UPLOAD_LIMIT_BYTES {
            return Err(
                OpenAiFileError::FileTooLarge {
                    path,
                    size_bytes,
                    limit_bytes: OPENAI_FILE_UPLOAD_LIMIT_BYTES,
                },
            );
        }
        let file_name: String = match path_file_name(&path) {
            Some(name) => name,
            None => "file".to_owned(),
        };
        let mut body = new_object();
        object_insert(&mut body, "file_name", text_value(file_name.clone()));
        object_insert(&mut body, "file_size", integer_value(size_bytes));
        object_insert(&mut body, "use_case", text_value(OPENAI_FILE_USE_CASE.to_owned()));
        assert(Json::Object(entries_of(body)) == create_body(file_name@, size_bytes));
        let url = config.files_url();
        let body = HttpBody::Json(object_value(body));
        match authorized_request(auth, HttpMethod::Post, url.as_str(), body) {
            Ok(request) => Ok(
                UploadCreate { local: LocalFile { path, file_name, size_bytes }, request },
            ),
            Err(error) => Err(error),
        }
    }
}

impl UploadCreate {
    /// Takes the reply to the creation.
    pub fn on_reply(self, reply: Result<HttpReply, String>) -> (r: Result<
        UploadCreateDecode,
        OpenAiFileError,
    >)
        ensures
            result_view(r) == create_decoding(self@, outcome_view(reply)),
    {
        match accept_reply(self.request.url, reply) {
            Ok(reply) => Ok(UploadCreateDecode { local: self.local, reply }),
            Err(error) => Err(error),
        }
    }
}

impl UploadCreateDecode {
    /// Takes the decoded reply.
    pub fn on_payload(self, payload: Result<CreateFileResponse, String>) -> (r: Result<
        UploadOpen,
        OpenAiFileError,
    >)
        ensures
            result_view(r) == created_file(self@, outcome_view(payload)),
    {
        match payload {
            Ok(created) => Ok(UploadOpen { local: self.local, created }),
            Err(source) => Err(OpenAiFileError::Decode { url: self.reply.url, source }),
        }
    }
}

impl UploadOpen {
    /// Takes what came of opening the local file.
    pub fn on_opened(self, opened: Result<(), String>) -> (r: Result<UploadPut, OpenAiFileError>)
        ensures
            result_view(r) == put_call(self@, opened),
    {
        match opened {
            Ok(_) => {
                let body = HttpBody::LocalFile(self.local.path.clone());
                let request = anonymous_request(
                    HttpMethod::Put,
                    self.created.upload_url.as_str(),
                    body,
                );
                Ok(UploadPut { local: self.local, file_id: self.created.file_id, request })
            },
            Err(source) => Err(OpenAiFileError::ReadFile { path: self.local.path, source }),
        }
    }
}

impl UploadPut {
    /// Takes the reply to the content.
    pub fn on_reply(
        self,
        config: &Config,
        auth: &CodexAuth,
        reply: Result<HttpReply, String>,
    ) -> (r: Result<UploadFinalize, OpenAiFileError>)
        ensures
            result_view(r) == finalize_call(
                self@,
                config.chatgpt_base_url@,
                auth@,
                outcome_view(reply),
            ),
    {
        if let Err(error) = accept_reply(self.request.url, reply) {
            return Err(error);
        }
        let url = config.uploaded_url(self.file_id.as_str());
        let body = HttpBody::Json(object_value(new_object()));
        match authorized_request(auth, HttpMethod::Post, url.as_str(), body) {
            Ok(request) => Ok(
                UploadFinalize { local: self.local, file_id: self.file_id, request },
            ),
            Err(error) => Err(error),
        }
    }
}

impl UploadFinalize {
    /// Takes the reply to the report.
    pub fn on_reply(self, reply: Result<HttpReply, String>) -> (r: Result<
        UploadFinalizeDecode,
        OpenAiFileError,
    >)
        ensures
            result_view(r) == finalize_decoding(self@, outcome_view(reply)),
    {
        match accept_reply(self.request.url, reply) {
            Ok(reply) => Ok(
                UploadFinalizeDecode { local: self.local, file_id: self.file_id, reply },
            ),
            Err(error) => Err(error),
        }
    }
}

impl UploadFinalizeDecode {
    /// Takes the decoded reply.
    pub fn on_payload(self, payload: Result<DownloadLinkResponse, String>) -> (r: Result<
        UploadedOpenAiFile,
        OpenAiFileError,
    >)
        ensures
            result_view(r) == uploaded_file(self@, outcome_view(payload)),
    {
        match payload {
            Err(source) => Err(OpenAiFileError::Decode { url: self.reply.url, source }),
            Ok(link) => {
                if same_text(link.status.as_str(), "success") {
                    let uri = openai_file_uri(self.file_id.as_str());
                    let file_name = match link.file_name {
                        Some(name) => name,
                        None => self.local.file_name,
                    };
                    Ok(
                        UploadedOpenAiFile {
                            file_id: self.file_id,
                            uri,
                            file_name,
                            file_size_bytes: self.local.size_bytes,
                            mime_type: link.mime_type,
                            path: self.local.path,
                        },
                    )
                } else {
                    Err(reject_link(link, self.file_id, "upload finalization returned an error"))
                }
            },
        }
    }
}

/// What came of the outside work of an upload, step by step.
pub ghost struct UploadWork {
    pub metadata: Result<FileMetadata, MetadataFailure>,
    pub create_reply: Result<Reply, Seq<char>>,
    pub created: Result<CreatedFile, Seq<char>>,
    pub opened: Result<(), String>,
    pub put_reply: Result<Reply, Seq<char>>,
    pub finalize_reply: Result<Reply, Seq<char>>,
    pub link: Result<Link, Seq<char>>,
}

/// The request with the content that an upload comes to, if it comes so far.
pub open spec fn upload_put(
    configured: Seq<char>,
    auth: Auth,
    path: std::path::PathBuf,
    work: UploadWork,
) -> Result<(Local, Seq<char>, Request), FileError> {
    match create_call(path, configured, auth, work.metadata) {
        Err(error) => Err(error),
        Ok(call) => match create_decoding(call, work.create_reply) {
            Err(error) => Err(error),
            Ok(decoding) => match created_file(decoding, work.created) {
                Err(error) => Err(error),
                Ok(opening) => put_call(opening, work.opened),
            },
        },
    }
}

/// What a whole upload comes to. The credentials are read anew for its report.
pub open spec fn upload(
    configured: Seq<char>,
    auth: Option<Auth>,
    auth_at_report: Auth,
    path: std::path::PathBuf,
    work: UploadWork,
) -> Result<Uploaded, FileError> {
    match auth_refusal(auth) {
        Some(error) => Err(error),
        None => match upload_put(configured, auth->0, path, work) {
            Err(error) => Err(error),
            Ok(put) => match finalize_call(put, configured, auth_at_report, work.put_reply) {
                Err(error) => Err(error),
                Ok(call) => match finalize_decoding(call, work.finalize_reply) {
                    Err(error) => Err(error),
                    Ok(decoding) => uploaded_file(decoding, work.link),
                },
            },
        },
    }
}

/// An upload gives the id that the storage made, under its canonical URI, and
/// the path and size of a local file within the limit.
pub proof fn upload_returns_the_canonical_uri(
    configured: Seq<char>,
    auth: Option<Auth>,
    auth_at_report: Auth,
    path: std::path::PathBuf,
    work: UploadWork,
)
    ensures
        upload(configured, auth, auth_at_report, path, work) matches Ok(file) ==> {
            &&& work.created matches Ok(created)
            &&& work.metadata matches Ok(metadata)
            &&& file.file_id == created.file_id
            &&& file.uri == file_uri(created.file_id)
            &&& created.file_id.len() > 0 ==> file_id_of(file.uri) == Some(created.file_id)
            &&& file.path == path
            &&& metadata.is_file
            &&& file.file_size_bytes == metadata.len <= OPENAI_FILE_UPLOAD_LIMIT_BYTES
        },
{
    if upload(configured, auth, auth_at_report, path, work) is Ok {
        let id = work.created->Ok_0.file_id;
        if id.len() > 0 {
            uri_leads_back_to_the_id(id);
        }
    }
}

/// Without a ChatGPT account nothing is uploaded, whatever the path.
pub proof fn upload_needs_a_chatgpt_account(
    configured: Seq<char>,
    auth: Option<Auth>,
    auth_at_report: Auth,
    path: std::path::PathBuf,
    work: UploadWork,
)
    ensures
        auth is None ==> upload(configured, auth, auth_at_report, path, work) == Err::<
            Uploaded,
            FileError,
        >(FileError::AuthRequired),
        auth matches Some(a) && !a.chatgpt ==> upload(configured, auth, auth_at_report, path, work)
            == Err::<Uploaded, FileError>(FileError::UnsupportedAuthMode),
{
}

/// The content goes where the storage says, and no credentials go with it.
pub proof fn content_is_sent_without_credentials(
    configured: Seq<char>,
    auth: Auth,
    path: std::path::PathBuf,
    work: UploadWork,
)
    ensures
        upload_put(configured, auth, path, work) matches Ok(put) ==> {
            &&& work.created matches Ok(created)
            &&& put.2.method == HttpMethod::Put
            &&& put.2.url == created.upload_url
            &&& put.2.body == Body::LocalFile(path)
            &&& put.2.bearer_token is None
            &&& put.2.headers.len() == 0
        },
{
}

} // verus!
