//! Finding out where a stored file can be downloaded.

use crate::http::outcome_view;
use crate::http::Body;
use crate::http::HttpBody;
use crate::http::HttpMethod;
use crate::http::HttpReply;
use crate::http::HttpRequest;
use crate::http::Reply;
use crate::http::Request;
use crate::openai_files::auth::auth_refusal;
use crate::openai_files::auth::authorized_request;
use crate::openai_files::auth::ensure_chatgpt_auth;
use crate::openai_files::auth::opt_auth;
use crate::openai_files::auth::request_of;
use crate::openai_files::auth::Auth;
use crate::openai_files::auth::CodexAuth;
use crate::openai_files::endpoints::accept_reply;
use crate::openai_files::endpoints::accepted_reply;
use crate::openai_files::endpoints::download_link_url;
use crate::openai_files::endpoints::Accepted;
use crate::openai_files::endpoints::AcceptedReply;
use crate::openai_files::endpoints::Config;
use crate::openai_files::endpoints::DownloadLinkResponse;
use crate::openai_files::endpoints::Link;
use crate::openai_files::error::result_view;
use crate::openai_files::error::FileError;
use crate::openai_files::error::OpenAiFileError;
use crate::openai_files::reference::file_id_of;
use crate::openai_files::reference::file_uri;
use crate::openai_files::reference::openai_file_uri;
use crate::openai_files::reference::parse_openai_file_id;
use crate::openai_files::reference::reference_and_its_uri_agree;
use crate::text::opt_text;
use crate::text::same_text;
use vstd::prelude::*;

verus! {

/// A stored file and where it can be downloaded.
#[derive(Debug, Clone, PartialEq, Eq)]
pub struct ResolvedOpenAiFile {
    pub file_id: String,
    pub uri: String,
    pub download_url: String,
    pub file_name: Option<String>,
    pub mime_type: Option<String>,
    pub file_size_bytes: Option<u64>,
}

/// What a resolved file holds.
pub ghost struct Resolved {
    pub file_id: Seq<char>,
    pub uri: Seq<char>,
    pub download_url: Seq<char>,
    pub file_name: Option<Seq<char>>,
    pub mime_type: Option<Seq<char>>,
    pub file_size_bytes: Option<u64>,
}

impl View for ResolvedOpenAiFile {
    type V = Resolved;

    open spec fn view(&self) -> Resolved {
        Resolved {
            file_id: self.file_id@,
            uri: self.uri@,
            download_url: self.download_url@,
            file_name: opt_text(self.file_name),
            mime_type: opt_text(self.mime_type),
            file_size_bytes: self.file_size_bytes,
        }
    }
}

/// The request for a download link waits for its reply.
#[derive(Debug)]
pub struct ResolveCall {
    pub file_id: String,
    pub request: HttpRequest,
}

/// The reply waits to be decoded.
#[derive(Debug)]
pub struct ResolveDecode {
    pub file_id: String,
    pub reply: AcceptedReply,
}

/// What a waiting request holds.
pub ghost struct Call {
    pub file_id: Seq<char>,
    pub request: Request,
}

/// What a waiting reply holds.
pub ghost struct Decoding {
    pub file_id: Seq<char>,
    pub reply: Accepted,
}

impl View for ResolveCall {
    type V = Call;

    open spec fn view(&self) -> Call {
        Call { file_id: self.file_id@, request: self.request@ }
    }
}

impl View for ResolveDecode {
    type V = Decoding;

    open spec fn view(&self) -> Decoding {
        Decoding { file_id: self.file_id@, reply: self.reply@ }
    }
}

/// The request that finds out about `reference`, or why there is none.
pub open spec fn resolve_call(
    configured: Seq<char>,
    auth: Option<Auth>,
    reference: Seq<char>,
) -> Result<Call, FileError> {
    match auth_refusal(auth) {
        Some(error) => Err(error),
        None => match file_id_of(reference) {
            None => Err(FileError::InvalidFileReference { reference }),
            Some(file_id) => {
                let url = download_link_url(configured, file_id);
                match request_of(auth->0, HttpMethod::Get, url, Body::Empty) {
                    Ok(request) => Ok(Call { file_id, request }),
                    Err(error) => Err(error),
                }
            },
        },
    }
}

/// The reply to be decoded, or why there is none.
pub open spec fn resolve_decoding(call: Call, reply: Result<Reply, Seq<char>>) -> Result<
    Decoding,
    FileError,
> {
    match accepted_reply(call.request.url, reply) {
        Ok(reply) => Ok(Decoding { file_id: call.file_id, reply }),
        Err(error) => Err(error),
    }
}

/// Why a link that is not ready cannot be used.
pub open spec fn link_failure(link: Link, file_id: Seq<char>, otherwise: Seq<char>) -> FileError {
    if link.status == "retry"@ {
        FileError::UploadNotReady { file_id }
    } else {
        FileError::UploadFailed {
            file_id,
            message: match link.error_message {
                Some(message) => message,
                None => otherwise,
            },
        }
    }
}

/// The file that a decoded reply tells of, or why it tells of none.
pub open spec fn resolved_file(decoding: Decoding, link: Result<Link, Seq<char>>) -> Result<
    Resolved,
    FileError,
> {
    match link {
        Err(source) => Err(FileError::Decode { url: decoding.reply.url, source }),
        Ok(link) => if link.status == "success"@ {
            match link.download_url {
                Some(download_url) => Ok(
                    Resolved {
                        file_id: decoding.file_id,
                        uri: file_uri(decoding.file_id),
                        download_url,
                        file_name: link.file_name,
                        mime_type: link.mime_type,
                        file_size_bytes: link.file_size_bytes,
                    },
                ),
                None => Err(
                    FileError::UploadFailed {
                        file_id: decoding.file_id,
                        message: "missing download_url"@,
                    },
                ),
            }
        } else {
            Err(
                link_failure(link, decoding.file_id, "download link request returned an error"@),
            )
        },
    }
}

/// Why a link that is not ready cannot be used.
pub fn reject_link(link: DownloadLinkResponse, file_id: String, otherwise: &str) -> (r:
    OpenAiFileError)
    ensures
        r@ == link_failure(link@, file_id@, otherwise@),
{
    if same_text(link.status.as_str(), "retry") {
        OpenAiFileError::UploadNotReady { file_id }
    } else {
        let message: String = match link.error_message {
            Some(message) => message,
            None => otherwise.to_owned(),
        };
        OpenAiFileError::UploadFailed { file_id, message }
    }
}

/// Begins to find out where the file that `reference` stands for can be
/// downloaded.
pub fn resolve_openai_file(config: &Config, auth: Option<&CodexAuth>, reference: &str) -> (r:
    Result<ResolveCall, OpenAiFileError>)
    ensures
        result_view(r) == resolve_call(config.chatgpt_base_url@, opt_auth(auth), reference@),
{
    let auth = match ensure_chatgpt_auth(auth) {
        Ok(auth) => auth,
        Err(error) => {
            return Err(error);
        },
    };
    let file_id = match parse_openai_file_id(reference) {
        Some(file_id) => file_id,
        None => {
            return Err(
                OpenAiFileError::InvalidFileReference { reference: reference.to_owned() },
            );
        },
    };
    let url = config.download_link_url(file_id);
    match authorized_request(auth, HttpMethod::Get, url.as_str(), HttpBody::Empty) {
        Ok(request) => Ok(ResolveCall { file_id: file_id.to_owned(), request }),
        Err(error) => Err(error),
    }
}

impl ResolveCall {
    /// Takes the reply to the request.
    pub fn on_reply(self, reply: Result<HttpReply, String>) -> (r: Result<
        ResolveDecode,
        OpenAiFileError,
    >)
        ensures
            result_view(r) == resolve_decoding(self@, outcome_view(reply)),
    {
        match accept_reply(self.request.url, reply) {
            Ok(reply) => Ok(ResolveDecode { file_id: self.file_id, reply }),
            Err(error) => Err(error),
        }
    }
}

impl ResolveDecode {
    /// Takes the decoded reply.
    pub fn on_payload(self, payload: Result<DownloadLinkResponse, String>) -> (r: Result<
        ResolvedOpenAiFile,
        OpenAiFileError,
    >)
        ensures
            result_view(r) == resolved_file(self@, outcome_view(payload)),
    {
        match payload {
            Err(source) => Err(OpenAiFileError::Decode { url: self.reply.url, source }),
            Ok(link) => {
                if same_text(link.status.as_str(), "success") {
                    match link.download_url {
                        Some(download_url) => {
                            let uri = openai_file_uri(self.file_id.as_str());
                            Ok(
                                ResolvedOpenAiFile {
                                    file_id: self.file_id,
                                    uri,
                                    download_url,
                                    file_name: link.file_name,
                                    mime_type: link.mime_type,
                                    file_size_bytes: link.file_size_bytes,
                                },
                            )
                        },
                        None => Err(
                            OpenAiFileError::UploadFailed {
                                file_id: self.file_id,
                                message: "missing download_url".to_owned(),
                            },
                        ),
                    }
                } else {
                    Err(
                        reject_link(
                            link,
                            self.file_id,
                            "download link request returned an error",
                        ),
                    )
                }
            },
        }
    }
}

/// What a whole lookup comes to, given what came of its request and of the
/// decoding of the reply.
pub open spec fn lookup(
    configured: Seq<char>,
    auth: Option<Auth>,
    reference: Seq<char>,
    reply: Result<Reply, Seq<char>>,
    link: Result<Link, Seq<char>>,
) -> Result<Resolved, FileError> {
    match resolve_call(configured, auth, reference) {
        Err(error) => Err(error),
        Ok(call) => match resolve_decoding(call, reply) {
            Err(error) => Err(error),
            Ok(decoding) => resolved_file(decoding, link),
        },
    }
}

/// A reference and the URI of the id that it stands for lead to the same
/// request, so that a URI is as good as the id that it was made of.
pub proof fn uri_and_reference_lead_to_the_same_request(
    configured: Seq<char>,
    auth: Option<Auth>,
    reference: Seq<char>,
)
    requires
        file_id_of(reference) is Some,
    ensures
        resolve_call(configured, auth, file_uri(file_id_of(reference)->0)) == resolve_call(
            configured,
            auth,
            reference,
        ),
        resolve_call(configured, auth, reference) matches Ok(call) ==> call.request.url
            == download_link_url(configured, file_id_of(reference)->0),
{
    reference_and_its_uri_agree(reference);
}

/// A lookup finds exactly the file that the reference stands for, and the URI
/// that it gives stands for the same file.
pub proof fn lookup_finds_the_file_referred_to(
    configured: Seq<char>,
    auth: Option<Auth>,
    reference: Seq<char>,
    reply: Result<Reply, Seq<char>>,
    link: Result<Link, Seq<char>>,
)
    ensures
        lookup(configured, auth, reference, reply, link) matches Ok(file) ==> {
            &&& file_id_of(reference) == Some(file.file_id)
            &&& file_id_of(file.uri) == Some(file.file_id)
            &&& auth_refusal(auth) is None
        },
{
    if lookup(configured, auth, reference, reply, link) is Ok {
        reference_and_its_uri_agree(reference);
    }
}

} // verus!
