//! Where the file storage is reached, and what it answers.

use crate::http::Reply;
use crate::http::outcome_view;
use crate::http::success_status;
use crate::http::HttpReply;
use crate::openai_files::error::result_view;
use crate::openai_files::error::FileError;
use crate::openai_files::error::OpenAiFileError;
use crate::text::equal_to;
use crate::text::opt_text;
use crate::text::trim_end_while;
use crate::text::trim_text_end_of;
use crate::text::trimmed_end_of;
use vstd::prelude::*;

verus! {

/// What the file storage needs to know of the configuration.
#[derive(Debug)]
pub struct Config {
    pub chatgpt_base_url: String,
}

/// The base URL without trailing slashes.
pub open spec fn base_url(configured: Seq<char>) -> Seq<char> {
    trimmed_end_of(configured, '/')
}

/// Where the download link of a file is asked for.
pub open spec fn download_link_url(configured: Seq<char>, file_id: Seq<char>) -> Seq<char> {
    base_url(configured) + "/files/download/"@ + file_id
}

/// Where files are created.
pub open spec fn files_url(configured: Seq<char>) -> Seq<char> {
    base_url(configured) + "/files"@
}

/// Where the upload of a file is reported.
pub open spec fn uploaded_url(configured: Seq<char>, file_id: Seq<char>) -> Seq<char> {
    base_url(configured) + "/files/"@ + file_id + "/uploaded"@
}

impl Config {
    /// Where the download link of a file is asked for.
    pub fn download_link_url(&self, file_id: &str) -> (r: String)
        ensures
            r@ == download_link_url(self.chatgpt_base_url@, file_id@),
    {
        let mut url: String = trim_text_end_of(self.chatgpt_base_url.as_str(), '/');
        url.append("/files/download/");
        url.append(file_id);
        url
    }

    /// Where files are created.
    pub fn files_url(&self) -> (r: String)
        ensures
            r@ == files_url(self.chatgpt_base_url@),
    {
        let mut url: String = trim_text_end_of(self.chatgpt_base_url.as_str(), '/');
        url.append("/files");
        url
    }

    /// Where the upload of a file is reported.
    pub fn uploaded_url(&self, file_id: &str) -> (r: String)
        ensures
            r@ == uploaded_url(self.chatgpt_base_url@, file_id@),
    {
        let mut url: String = trim_text_end_of(self.chatgpt_base_url.as_str(), '/');
        url.append("/files/");
        url.append(file_id);
        url.append("/uploaded");
        url
    }
}

/// Slashes at the end of the configured URL make no difference.
pub proof fn trailing_slashes_make_no_difference(configured: Seq<char>, file_id: Seq<char>)
    ensures
        download_link_url(configured.push('/'), file_id) == download_link_url(configured, file_id),
        files_url(configured.push('/')) == files_url(configured),
        uploaded_url(configured.push('/'), file_id) == uploaded_url(configured, file_id),
{
    assert(configured.push('/').drop_last() == configured);
    assert(configured.push('/').last() == '/');
    assert(trim_end_while(configured.push('/'), equal_to('/')) == trim_end_while(
        configured,
        equal_to('/'),
    ));
}

/// The answer to the creation of a file.
#[derive(Debug)]
pub struct CreateFileResponse {
    pub file_id: String,
    pub upload_url: String,
}

/// The answer to a finished upload and to the request for a download link.
#[derive(Debug)]
pub struct DownloadLinkResponse {
    pub status: String,
    pub download_url: Option<String>,
    pub file_name: Option<String>,
    pub file_size_bytes: Option<u64>,
    pub mime_type: Option<String>,
    pub error_message: Option<String>,
}

/// What the answer to a creation holds.
pub ghost struct CreatedFile {
    pub file_id: Seq<char>,
    pub upload_url: Seq<char>,
}

/// What a download link answer holds.
pub ghost struct Link {
    pub status: Seq<char>,
    pub download_url: Option<Seq<char>>,
    pub file_name: Option<Seq<char>>,
    pub file_size_bytes: Option<u64>,
    pub mime_type: Option<Seq<char>>,
    pub error_message: Option<Seq<char>>,
}

impl View for CreateFileResponse {
    type V = CreatedFile;

    open spec fn view(&self) -> CreatedFile {
        CreatedFile { file_id: self.file_id@, upload_url: self.upload_url@ }
    }
}

impl View for DownloadLinkResponse {
    type V = Link;

    open spec fn view(&self) -> Link {
        Link {
            status: self.status@,
            download_url: opt_text(self.download_url),
            file_name: opt_text(self.file_name),
            file_size_bytes: self.file_size_bytes,
            mime_type: opt_text(self.mime_type),
            error_message: opt_text(self.error_message),
        }
    }
}

/// A reply that reports success and waits to be decoded.
#[derive(Debug)]
pub struct AcceptedReply {
    pub url: String,
    pub body: String,
}

/// What a reply that waits to be decoded holds.
pub ghost struct Accepted {
    pub url: Seq<char>,
    pub body: Seq<char>,
}

impl View for AcceptedReply {
    type V = Accepted;

    open spec fn view(&self) -> Accepted {
        Accepted { url: self.url@, body: self.body@ }
    }
}

/// The reply from `url`, if there is one and it reports success.
pub open spec fn accepted_reply(url: Seq<char>, reply: Result<Reply, Seq<char>>) -> Result<
    Accepted,
    FileError,
> {
    match reply {
        Err(source) => Err(FileError::Request { url, source }),
        Ok(reply) => if success_status(reply.status) {
            Ok(Accepted { url, body: reply.body })
        } else {
            Err(FileError::UnexpectedStatus { url, status: reply.status, body: reply.body })
        },
    }
}

/// The reply from `url`, if there is one and it reports success.
pub fn accept_reply(url: String, reply: Result<HttpReply, String>) -> (r: Result<
    AcceptedReply,
    OpenAiFileError,
>)
    ensures
        result_view(r) == accepted_reply(url@, outcome_view(reply)),
{
    match reply {
        Err(source) => Err(OpenAiFileError::Request { url, source }),
        Ok(reply) => if reply.status.is_success() {
            Ok(AcceptedReply { url, body: reply.body })
        } else {
            Err(
                OpenAiFileError::UnexpectedStatus {
                    url,
                    status: reply.status,
                    body: reply.body,
                },
            )
        },
    }
}

} // verus!
