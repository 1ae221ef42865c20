//! What holds of file storage as a whole: each operation asks for just what it
//! is about, and gives back just what the storage sent.

use crate::http::outcome_view;
use crate::http::status_number;
use crate::http::status_words;
use crate::http::Body;
use crate::http::HttpBody;
use crate::http::HttpMethod;
use crate::http::HttpReply;
use crate::http::HttpRequest;
use crate::http::Reply;
use crate::http::Request;
use crate::json::json_of;
use crate::json::Json;
use crate::openai_files::auth::auth_refusal;
use crate::openai_files::auth::opt_auth;
use crate::openai_files::auth::plain_request;
use crate::openai_files::auth::request_of;
use crate::openai_files::auth::Auth;
use crate::openai_files::auth::CodexAuth;
use crate::openai_files::download::chunk_step;
use crate::openai_files::download::download_call;
use crate::openai_files::download::download_decoding;
use crate::openai_files::download::download_known;
use crate::openai_files::download::fetch_answer;
use crate::openai_files::download::fetch_call;
use crate::openai_files::download::next_step;
use crate::openai_files::download::write_end;
use crate::openai_files::download::write_on;
use crate::openai_files::download::write_start;
use crate::openai_files::download::Answer;
use crate::openai_files::download::ChunkStep;
use crate::openai_files::download::Download;
use crate::openai_files::download::DownloadCreate;
use crate::openai_files::download::DownloadDirectory;
use crate::openai_files::download::DownloadFetch;
use crate::openai_files::download::DownloadRefused;
use crate::openai_files::download::DownloadResolve;
use crate::openai_files::download::DownloadResolveDecode;
use crate::openai_files::download::DownloadTarget;
use crate::openai_files::download::DownloadWrite;
use crate::openai_files::download::Downloaded;
use crate::openai_files::download::DownloadedOpenAiFile;
use crate::openai_files::download::FetchAnswer;
use crate::openai_files::download::Fetching;
use crate::openai_files::download::Refusal;
use crate::openai_files::download::Step;
use crate::openai_files::download::Target;
use crate::openai_files::download::Writing;
use crate::openai_files::endpoints::accepted_reply;
use crate::openai_files::endpoints::download_link_url;
use crate::openai_files::endpoints::files_url;
use crate::openai_files::endpoints::uploaded_url;
use crate::openai_files::endpoints::Accepted;
use crate::openai_files::endpoints::AcceptedReply;
use crate::openai_files::endpoints::CreateFileResponse;
use crate::openai_files::endpoints::CreatedFile;
use crate::openai_files::endpoints::DownloadLinkResponse;
use crate::openai_files::endpoints::Link;
use crate::openai_files::error::error_words;
use crate::openai_files::error::result_view;
use crate::openai_files::error::FileError;
use crate::openai_files::error::OpenAiFileError;
use crate::openai_files::names::fit_for_names;
use crate::openai_files::names::manual_scope;
use crate::openai_files::names::place_of;
use crate::openai_files::names::sanitized_name;
use crate::openai_files::names::DownloadPlace;
use crate::openai_files::reference::file_id_of;
use crate::openai_files::reference::file_uri;
use crate::openai_files::reference::OPENAI_FILE_AUTO_DOWNLOAD_BUDGET_BYTES;
use crate::openai_files::reference::OPENAI_FILE_AUTO_DOWNLOAD_LIMIT_BYTES;
use crate::openai_files::reference::OPENAI_FILE_DOWNLOAD_LIMIT_BYTES;
use crate::openai_files::reference::OPENAI_FILE_UPLOAD_LIMIT_BYTES;
use crate::openai_files::resolve::link_failure;
use crate::openai_files::resolve::lookup;
use crate::openai_files::resolve::resolve_call;
use crate::openai_files::resolve::resolve_decoding;
use crate::openai_files::resolve::resolved_file;
use crate::openai_files::resolve::Call;
use crate::openai_files::resolve::Decoding;
use crate::openai_files::resolve::ResolveCall;
use crate::openai_files::resolve::ResolveDecode;
use crate::openai_files::resolve::Resolved;
use crate::openai_files::resolve::ResolvedOpenAiFile;
use crate::openai_files::upload::create_call;
use crate::openai_files::upload::create_decoding;
use crate::openai_files::upload::created_file;
use crate::openai_files::upload::finalize_call;
use crate::openai_files::upload::finalize_decoding;
use crate::openai_files::upload::put_call;
use crate::openai_files::upload::upload;
use crate::openai_files::upload::upload_put;
use crate::openai_files::upload::uploaded_file;
use crate::openai_files::upload::FileMetadata;
use crate::openai_files::upload::Local;
use crate::openai_files::upload::LocalFile;
use crate::openai_files::upload::MetadataFailure;
use crate::openai_files::upload::UploadCreate;
use crate::openai_files::upload::UploadCreateDecode;
use crate::openai_files::upload::UploadFinalize;
use crate::openai_files::upload::UploadFinalizeDecode;
use crate::openai_files::upload::UploadOpen;
use crate::openai_files::upload::UploadPut;
use crate::openai_files::upload::UploadStart;
use crate::openai_files::upload::UploadWork;
use crate::openai_files::upload::Uploaded;
use crate::openai_files::upload::UploadedOpenAiFile;
use crate::paths::file_name_of;
use crate::paths::path_joined;
use crate::paths::path_parts;
use crate::paths::path_shown;
use crate::text::decimal;
use crate::text::trimming_takes_off_one_character_only;
use crate::text::what_was_put_behind_is_trimmed_off;
use vstd::prelude::*;

verus! {

/// A reference is the scheme with an id behind it, which stands for the id, or
/// a bare id, which begins with `file_` or `file-` and stands for itself;
/// anything else is none. The URI of an id is the scheme with the id behind it.
pub proof fn references_are_uris_or_bare_ids(reference: Seq<char>, rest: Seq<char>)
    ensures
        file_uri(rest) == "sediment://"@ + rest,
        rest.len() > 0 ==> file_id_of("sediment://"@ + rest) == Some(rest),
        file_id_of("sediment://"@) is None,
        file_id_of("file_"@ + rest) == Some("file_"@ + rest),
        file_id_of("file-"@ + rest) == Some("file-"@ + rest),
        !"sediment://"@.is_prefix_of(reference) && !"file_"@.is_prefix_of(reference)
            && !"file-"@.is_prefix_of(reference) ==> file_id_of(reference) is None,
{
    reveal_strlit("sediment://");
    reveal_strlit("file_");
    reveal_strlit("file-");
    let scheme = "sediment://"@;
    let uri = scheme + rest;
    assert(uri.subrange(0, scheme.len() as int) == scheme);
    assert(uri.skip(scheme.len() as int) == rest);
    assert(scheme.subrange(0, scheme.len() as int) == scheme);
    assert(scheme.skip(scheme.len() as int).len() == 0);
    let low = "file_"@ + rest;
    let dash = "file-"@ + rest;
    assert(low.subrange(0, 5) == "file_"@);
    assert(dash.subrange(0, 5) == "file-"@);
    assert(low[0] == 'f' && dash[0] == 'f' && scheme[0] == 's');
    if scheme.is_prefix_of(low) {
        assert(low.subrange(0, scheme.len() as int)[0] == low[0]);
    }
    if scheme.is_prefix_of(dash) {
        assert(dash.subrange(0, scheme.len() as int)[0] == dash[0]);
    }
}

/// Every URL stands on the base, however many slashes are put behind that.
pub proof fn urls_stand_on_the_base(base: Seq<char>, slashes: nat, file_id: Seq<char>)
    requires
        base.len() > 0 ==> base.last() != '/',
    ensures
        ({
            let configured = base + Seq::new(slashes, |i: int| '/');
            &&& download_link_url(configured, file_id) == base + "/files/download/"@ + file_id
            &&& files_url(configured) == base + "/files"@
            &&& uploaded_url(configured, file_id) == base + "/files/"@ + file_id + "/uploaded"@
        }),
{
    what_was_put_behind_is_trimmed_off(base, '/', slashes);
}

/// Who may use the storage, and what their requests bear: the token, the
/// account where it is known, and a time limit of a minute; a request without
/// credentials bears the time limit alone.
pub proof fn requests_bear_the_credentials(
    auth: &CodexAuth,
    method: HttpMethod,
    url: Seq<char>,
    body: Body,
)
    ensures
        auth_refusal(opt_auth(None)) == Some(FileError::AuthRequired),
        auth_refusal(opt_auth(Some(auth))) == if auth.chatgpt {
            None
        } else {
            Some(FileError::UnsupportedAuthMode)
        },
        auth.token matches Ok(token) ==> request_of(auth@, method, url, body) == Ok::<
            Request,
            FileError,
        >(
            Request {
                method,
                url,
                timeout_secs: 60,
                bearer_token: Some(token@),
                headers: match auth.account_id {
                    Some(id) => seq![("chatgpt-account-id"@, id@)],
                    None => Seq::empty(),
                },
                body,
            },
        ),
        auth.token matches Err(reason) ==> request_of(auth@, method, url, body) == Err::<
            Request,
            FileError,
        >(FileError::AuthToken { source: reason@ }),
        plain_request(method, url, body) == (Request {
            method,
            url,
            timeout_secs: 60,
            bearer_token: None,
            headers: Seq::empty(),
            body,
        }),
{
}

/// What a link that is not a success comes to.
pub open spec fn refused_link(link: Link, file_id: Seq<char>, otherwise: Seq<char>) -> FileError {
    if link.status == "retry"@ {
        FileError::UploadNotReady { file_id }
    } else if link.error_message is Some {
        FileError::UploadFailed { file_id, message: link.error_message->0 }
    } else {
        FileError::UploadFailed { file_id, message: otherwise }
    }
}

/// The status is one of success: 200 or more, and less than 300.
pub open spec fn succeeds(status: reqwest::StatusCode) -> bool {
    200 <= status_number(status) && status_number(status) < 300
}

/// A lookup asks for the link of the file referred to, in the name of whoever
/// asks, and with nothing else.
pub proof fn lookups_ask_for_the_file_referred_to(
    configured: Seq<char>,
    auth: Option<Auth>,
    reference: Seq<char>,
)
    ensures
        resolve_call(configured, auth, reference) == (if auth is None {
            Err::<Call, FileError>(FileError::AuthRequired)
        } else if !auth->0.chatgpt {
            Err(FileError::UnsupportedAuthMode)
        } else if file_id_of(reference) is None {
            Err(FileError::InvalidFileReference { reference })
        } else if auth->0.token is Err {
            Err(FileError::AuthToken { source: auth->0.token->Err_0 })
        } else {
            Ok(
                Call {
                    file_id: file_id_of(reference)->0,
                    request: Request {
                        method: HttpMethod::Get,
                        url: download_link_url(configured, file_id_of(reference)->0),
                        timeout_secs: 60,
                        bearer_token: Some(auth->0.token->Ok_0),
                        headers: match auth->0.account_id {
                            Some(id) => seq![("chatgpt-account-id"@, id)],
                            None => Seq::empty(),
                        },
                        body: Body::Empty,
                    },
                },
            )
        }),
{
}

/// Once the request is sent, a lookup gives the link that the storage sent,
/// unchanged, if it sent one; else it tells what is in the way.
pub proof fn lookups_give_what_the_storage_sent(
    configured: Seq<char>,
    auth: Option<Auth>,
    reference: Seq<char>,
    reply: Result<Reply, Seq<char>>,
    link: Result<Link, Seq<char>>,
)
    requires
        auth matches Some(a) && a.chatgpt && a.token is Ok,
        file_id_of(reference) is Some,
    ensures
        ({
            let file_id = file_id_of(reference)->0;
            let url = download_link_url(configured, file_id);
            lookup(configured, auth, reference, reply, link) == (match reply {
                Err(source) => Err::<Resolved, FileError>(FileError::Request { url, source }),
                Ok(reply) => if !succeeds(reply.status) {
                    Err(FileError::UnexpectedStatus { url, status: reply.status, body: reply.body })
                } else {
                    match link {
                        Err(source) => Err(FileError::Decode { url, source }),
                        Ok(link) => if link.status != "success"@ {
                            Err(
                                refused_link(
                                    link,
                                    file_id,
                                    "download link request returned an error"@,
                                ),
                            )
                        } else if link.download_url is None {
                            Err(
                                FileError::UploadFailed {
                                    file_id,
                                    message: "missing download_url"@,
                                },
                            )
                        } else {
                            Ok(
                                Resolved {
                                    file_id,
                                    uri: "sediment://"@ + file_id,
                                    download_url: link.download_url->0,
                                    file_name: link.file_name,
                                    mime_type: link.mime_type,
                                    file_size_bytes: link.file_size_bytes,
                                },
                            )
                        },
                    }
                },
            })
        }),
{
}

/// The file that is to be uploaded: its name is that of the path, as far as
/// that has one, and its size is what the file system says.
pub open spec fn sent_name(path: std::path::PathBuf) -> Seq<char> {
    match file_name_of(path_parts(path)) {
        Some(name) => name,
        None => "file"@,
    }
}

/// An upload begins by creating the file, by name and size, in the name of
/// whoever asks, unless the path holds no file or one that is too large.
pub proof fn uploads_create_the_file_at_the_path(
    path: std::path::PathBuf,
    configured: Seq<char>,
    auth: Auth,
    metadata: Result<FileMetadata, MetadataFailure>,
)
    ensures
        metadata matches Err(MetadataFailure::NotFound) ==> create_call(
            path,
            configured,
            auth,
            metadata,
        ) matches Err(FileError::MissingPath { path: named }) && named == path,
        metadata matches Err(MetadataFailure::Other(reason)) ==> (create_call(
            path,
            configured,
            auth,
            metadata,
        ) matches Err(FileError::ReadFile { path: named, source }) && named == path && source
            == reason@),
        metadata matches Ok(found) ==> {
            let call = create_call(path, configured, auth, metadata);
            if !found.is_file {
                call matches Err(FileError::NotAFile { path: named }) && named == path
            } else if found.len > 512 * 1024 * 1024 {
                call matches Err(
                    FileError::FileTooLarge { path: named, size_bytes, limit_bytes },
                ) && named == path && size_bytes == found.len && limit_bytes == 512 * 1024 * 1024
            } else {
                match auth.token {
                    Err(reason) => call matches Err(FileError::AuthToken { source }) && source
                        == reason,
                    Ok(token) => {
                        &&& call matches Ok((local, request))
                        &&& local.path == path
                        &&& local.file_name == sent_name(path)
                        &&& local.size_bytes == found.len
                        &&& request.method == HttpMethod::Post
                        &&& request.url == files_url(configured)
                        &&& request.timeout_secs == 60
                        &&& request.bearer_token == Some(token)
                        &&& request.headers == (match auth.account_id {
                            Some(id) => seq![("chatgpt-account-id"@, id)],
                            None => Seq::empty(),
                        })
                        &&& request.body matches Body::Json(Json::Object(body))
                        &&& body.get("file_name"@) == Some(Json::Text(sent_name(path)))
                        &&& body.get("file_size"@) == Some(Json::Integer(found.len as int))
                        &&& body.get("use_case"@) == Some(Json::Text("codex"@))
                        &&& forall|key: Seq<char>| #[trigger]
                            body.contains_key(key) ==> key == "file_name"@ || key == "file_size"@
                                || key == "use_case"@
                    },
                }
            }
        },
{
    reveal_strlit("file_name");
    reveal_strlit("file_size");
    reveal_strlit("use_case");
    assert("file_name"@[5] == 'n' && "file_size"@[5] == 's');
    assert("use_case"@.len() == 8 && "file_name"@.len() == 9 && "file_size"@.len() == 9);
}

/// Once the file is created, its content goes, whole, to the address that the
/// storage gave, without credentials; if anything is in the way, that is told.
pub proof fn uploads_send_the_file_where_the_storage_says(
    configured: Seq<char>,
    auth: Auth,
    path: std::path::PathBuf,
    work: UploadWork,
)
    requires
        create_call(path, configured, auth, work.metadata) is Ok,
    ensures
        ({
            let local = create_call(path, configured, auth, work.metadata)->Ok_0.0;
            let url = files_url(configured);
            let put = upload_put(configured, auth, path, work);
            match work.create_reply {
                Err(reason) => put matches Err(FileError::Request { url: at, source }) && at == url
                    && source == reason,
                Ok(reply) => if !succeeds(reply.status) {
                    put matches Err(FileError::UnexpectedStatus { url: at, status, body }) && at
                        == url && status == reply.status && body == reply.body
                } else {
                    match work.created {
                        Err(reason) => put matches Err(FileError::Decode { url: at, source }) && at
                            == url && source == reason,
                        Ok(created) => match work.opened {
                            Err(reason) => put matches Err(
                                FileError::ReadFile { path: named, source },
                            ) && named == path && source == reason@,
                            Ok(_) => put == Ok::<_, FileError>(
                                (
                                    local,
                                    created.file_id,
                                    Request {
                                        method: HttpMethod::Put,
                                        url: created.upload_url,
                                        timeout_secs: 60,
                                        bearer_token: None,
                                        headers: Seq::empty(),
                                        body: Body::LocalFile(path),
                                    },
                                ),
                            ),
                        },
                    }
                },
            }
        }),
{
}

/// Once the content is sent, an upload is reported under the id that the
/// storage gave, with an empty object, and the result is made of that id, of
/// what the storage sent, and of what was uploaded; if anything is in the way,
/// that is told.
pub proof fn uploads_give_what_was_uploaded(
    configured: Seq<char>,
    auth: Option<Auth>,
    auth_at_report: Auth,
    path: std::path::PathBuf,
    work: UploadWork,
)
    requires
        auth matches Some(a) && a.chatgpt,
        upload_put(configured, auth->0, path, work) is Ok,
    ensures
        ({
            let put = upload_put(configured, auth->0, path, work)->Ok_0;
            let file_id = put.1;
            let report = finalize_call(put, configured, auth_at_report, work.put_reply);
            let url = uploaded_url(configured, file_id);
            let outcome = upload(configured, auth, auth_at_report, path, work);
            match work.put_reply {
                Err(source) => outcome == Err::<Uploaded, FileError>(
                    FileError::Request { url: put.2.url, source },
                ),
                Ok(reply) => if !succeeds(reply.status) {
                    outcome == Err::<Uploaded, FileError>(
                        FileError::UnexpectedStatus {
                            url: put.2.url,
                            status: reply.status,
                            body: reply.body,
                        },
                    )
                } else {
                    match auth_at_report.token {
                        Err(source) => outcome == Err::<Uploaded, FileError>(
                            FileError::AuthToken { source },
                        ),
                        Ok(token) => {
                            &&& report == Ok::<_, FileError>(
                                (
                                    put.0,
                                    file_id,
                                    Request {
                                        method: HttpMethod::Post,
                                        url,
                                        timeout_secs: 60,
                                        bearer_token: Some(token),
                                        headers: match auth_at_report.account_id {
                                            Some(id) => seq![("chatgpt-account-id"@, id)],
                                            None => Seq::empty(),
                                        },
                                        body: Body::Json(Json::Object(Map::empty())),
                                    },
                                ),
                            )
                            &&& outcome == (match work.finalize_reply {
                                Err(source) => Err::<Uploaded, FileError>(
                                    FileError::Request { url, source },
                                ),
                                Ok(reply) => if !succeeds(reply.status) {
                                    Err(
                                        FileError::UnexpectedStatus {
                                            url,
                                            status: reply.status,
                                            body: reply.body,
                                        },
                                    )
                                } else {
                                    match work.link {
                                        Err(source) => Err(FileError::Decode { url, source }),
                                        Ok(link) => if link.status != "success"@ {
                                            Err(
                                                refused_link(
                                                    link,
                                                    file_id,
                                                    "upload finalization returned an error"@,
                                                ),
                                            )
                                        } else {
                                            Ok(
                                                Uploaded {
                                                    file_id,
                                                    uri: "sediment://"@ + file_id,
                                                    file_name: match link.file_name {
                                                        Some(name) => name,
                                                        None => put.0.file_name,
                                                    },
                                                    file_size_bytes: put.0.size_bytes,
                                                    mime_type: link.mime_type,
                                                    path: put.0.path,
                                                },
                                            )
                                        },
                                    }
                                },
                            })
                        },
                    }
                },
            }
        }),
{
}

/// A download begins with the very lookup that its reference asks for, and
/// carries its orders along.
pub proof fn downloads_begin_with_a_lookup(
    configured: Seq<char>,
    auth: Option<Auth>,
    reference: Seq<char>,
    target: Target,
    reply: Result<Reply, Seq<char>>,
    link: Result<Link, Seq<char>>,
)
    ensures
        match resolve_call(configured, auth, reference) {
            Err(error) => download_call(configured, auth, reference, target) == Err::<
                (Target, Call),
                FileError,
            >(error),
            Ok(call) => {
                &&& download_call(configured, auth, reference, target) == Ok::<_, FileError>(
                    (target, call),
                )
                &&& match download_decoding((target, call), reply) {
                    Err(error) => lookup(configured, auth, reference, reply, link) == Err::<
                        Resolved,
                        FileError,
                    >(error),
                    Ok(decoding) => match lookup(configured, auth, reference, reply, link) {
                        Err(error) => download_known(decoding, link) == Err::<Fetching, FileError>(
                            error,
                        ),
                        Ok(resolved) => if resolved.file_size_bytes is Some
                            && resolved.file_size_bytes->0 > target.max_bytes {
                            download_known(decoding, link) == Err::<Fetching, FileError>(
                                FileError::RemoteFileTooLarge {
                                    file_id: resolved.file_id,
                                    size_bytes: resolved.file_size_bytes->0,
                                    limit_bytes: target.max_bytes,
                                },
                            )
                        } else {
                            download_known(decoding, link) == Ok::<Fetching, FileError>(
                                Fetching {
                                    resolved,
                                    place: place_of(
                                        target.cwd,
                                        target.scope,
                                        match resolved.file_name {
                                            Some(name) => name,
                                            None => resolved.file_id,
                                        },
                                    ),
                                    max_bytes: target.max_bytes,
                                },
                            )
                        },
                    },
                }
            },
        },
{
}

/// Whenever a download gets as far as the request for the content, that is a
/// plain request, without credentials, to exactly the address that the storage
/// sent as the link of the file.
pub proof fn downloads_fetch_what_the_storage_linked(
    configured: Seq<char>,
    auth: Option<Auth>,
    reference: Seq<char>,
    target: Target,
    reply: Result<Reply, Seq<char>>,
    link: Result<Link, Seq<char>>,
    created: Result<(), String>,
)
    ensures
        download_call(configured, auth, reference, target) matches Ok(call) ==> (download_decoding(
            call,
            reply,
        ) matches Ok(decoding) ==> (download_known(decoding, link) matches Ok(known) ==> {
            &&& link matches Ok(sent)
            &&& sent.download_url is Some
            &&& created is Ok ==> fetch_call(known, created) == Ok::<_, FileError>(
                (
                    known,
                    Request {
                        method: HttpMethod::Get,
                        url: sent.download_url->0,
                        timeout_secs: 60,
                        bearer_token: None,
                        headers: Seq::empty(),
                        body: Body::Empty,
                    },
                ),
            )
            &&& created matches Err(reason) ==> fetch_call(known, created) == Err::<
                (Fetching, Request),
                FileError,
            >(FileError::CreateDirectory { path: known.place.dir, source: reason@ })
        })),
{
}

/// What is asked for is taken in from the address it was asked at, or refused
/// with the status that came from there.
pub proof fn fetches_go_by_the_status(
    download: Fetching,
    request: Request,
    status: Result<reqwest::StatusCode, String>,
)
    ensures
        fetch_answer((download, request), status) == (match status {
            Err(reason) => Err::<Answer, FileError>(
                FileError::Request { url: request.url, source: reason@ },
            ),
            Ok(status) => if succeeds(status) {
                Ok(Answer::Accepted(download))
            } else {
                Ok(Answer::Refused(Refusal { url: request.url, status }))
            },
        }),
{
}

/// Content is written from nothing on, and every failure to write it names the
/// destination.
pub proof fn content_is_written_to_its_place(
    download: Fetching,
    writing: Writing,
    done: Result<(), String>,
)
    ensures
        done is Ok ==> write_start(download, done) == Ok::<Writing, FileError>(
            Writing { download, bytes_written: 0 },
        ),
        done matches Err(reason) ==> write_start(download, done) == Err::<Writing, FileError>(
            FileError::WriteFile { path: download.place.destination, source: reason@ },
        ),
        done is Ok ==> write_on(writing, done) == Ok::<Writing, FileError>(writing),
        done matches Err(reason) ==> write_on(writing, done) == Err::<Writing, FileError>(
            FileError::WriteFile { path: writing.download.place.destination, source: reason@ },
        ),
        done is Ok ==> write_end(writing, done) == Ok::<Downloaded, FileError>(
            Downloaded {
                file_id: writing.download.resolved.file_id,
                uri: writing.download.resolved.uri,
                file_name: writing.download.place.file_name,
                mime_type: writing.download.resolved.mime_type,
                destination_path: writing.download.place.destination,
                bytes_written: writing.bytes_written,
            },
        ),
        done matches Err(reason) ==> write_end(writing, done) == Err::<Downloaded, FileError>(
            FileError::WriteFile { path: writing.download.place.destination, source: reason@ },
        ),
{
}

/// Each piece that comes is added to what has been written, up to the largest
/// number; if that is within the limit, it is written, and else the download
/// is given up, its destination removed, and the numbers told.
pub proof fn pieces_add_up(writing: Writing, len: usize, next: Result<usize, String>)
    ensures
        ({
            let limit = writing.download.max_bytes;
            let sum = writing.bytes_written + len;
            &&& sum <= limit ==> chunk_step(writing, len) == Step::Write(
                Writing { download: writing.download, bytes_written: sum as u64 },
            )
            &&& sum > limit && limit < u64::MAX ==> (chunk_step(writing, len) matches Step::Abandon {
                destination,
                error: FileError::RemoteFileTooLarge { file_id, size_bytes, limit_bytes },
            } && destination == writing.download.place.destination && file_id
                == writing.download.resolved.file_id && limit_bytes == limit && size_bytes == (if sum
                > u64::MAX {
                u64::MAX as int
            } else {
                sum
            }))
            &&& sum > limit && limit == u64::MAX ==> chunk_step(writing, len) == Step::Write(
                Writing { download: writing.download, bytes_written: u64::MAX },
            )
        }),
        next matches Ok(n) ==> next_step(writing, next) == Ok::<Step, FileError>(
            chunk_step(writing, n),
        ),
        next matches Err(reason) ==> next_step(writing, next) == Err::<Step, FileError>(
            FileError::Request {
                url: writing.download.resolved.download_url,
                source: reason@,
            },
        ),
{
}

/// The character is a slash of either kind or an ASCII control character.
pub open spec fn must_go(c: char) -> bool {
    c == '/' || c == '\\' || c <= '\u{1f}' || c == '\u{7f}'
}

/// The name under which a file is kept is its own name, character by
/// character, with an underscore for each slash and control character, and
/// without the dots at its ends; one that holds nothing but dots is kept as
/// `downloaded-file`.
pub proof fn kept_names_are_the_names_files_have(name: Seq<char>) -> (bounds: (int, int))
    ensures
        0 <= bounds.0 <= bounds.1 <= name.len(),
        forall|i: int| 0 <= i < bounds.0 ==> #[trigger] name[i] == '.',
        forall|i: int| bounds.1 <= i < name.len() ==> #[trigger] name[i] == '.',
        bounds.0 < bounds.1 ==> {
            &&& name[bounds.0] != '.' && name[bounds.1 - 1] != '.'
            &&& sanitized_name(name).len() == bounds.1 - bounds.0
            &&& forall|i: int|
                0 <= i < bounds.1 - bounds.0 ==> #[trigger] sanitized_name(name)[i] == (if must_go(
                    name[bounds.0 + i],
                ) {
                    '_'
                } else {
                    name[bounds.0 + i]
                })
        },
        bounds.0 == bounds.1 ==> sanitized_name(name) == "downloaded-file"@,
{
    let fit = fit_for_names(name);
    assert forall|i: int| 0 <= i < name.len() implies #[trigger] fit[i] == (if must_go(name[i]) {
        '_'
    } else {
        name[i]
    }) by {}
    let bounds = trimming_takes_off_one_character_only(fit, '.');
    let (from, to) = bounds;
    assert forall|i: int| 0 <= i < from implies #[trigger] name[i] == '.' by {
        assert(fit[i] == '.');
    }
    assert forall|i: int| to <= i < name.len() implies #[trigger] name[i] == '.' by {
        assert(fit[i] == '.');
    }
    if from < to {
        assert(fit[from] != '.' && fit[to - 1] != '.');
        assert(!must_go('.'));
        let kept = sanitized_name(name);
        assert(kept == fit.subrange(from, to));
        assert forall|i: int| 0 <= i < to - from implies #[trigger] kept[i] == (if must_go(
            name[from + i],
        ) {
            '_'
        } else {
            name[from + i]
        }) by {
            assert(kept[i] == fit[from + i]);
        }
    }
    bounds
}

/// Downloads go into a directory of the scope's own within the settings of the
/// working directory, under the name that the file is kept under; the scope of
/// one that was asked for by hand tells so and bears its UUID.
pub proof fn downloads_have_their_place(
    cwd: std::path::PathBuf,
    scope: Seq<char>,
    name: Seq<char>,
    uuid: Seq<char>,
)
    ensures
        ({
            let place = place_of(cwd, scope, name);
            let settings = path_joined(cwd, ".codex"@);
            let tmp = path_joined(settings, "tmp"@);
            let files = path_joined(tmp, "openai-files"@);
            &&& place.dir == path_joined(files, scope)
            &&& place.file_name == sanitized_name(name)
            &&& place.destination == path_joined(place.dir, sanitized_name(name))
        }),
        manual_scope(uuid) == "manual/"@ + uuid,
{
}

/// The reply that comes from `url`: taken in if it reports success.
pub open spec fn taken(url: Seq<char>, reply: Result<Reply, Seq<char>>) -> Result<
    Accepted,
    FileError,
> {
    match reply {
        Err(source) => Err(FileError::Request { url, source }),
        Ok(reply) => if succeeds(reply.status) {
            Ok(Accepted { url, body: reply.body })
        } else {
            Err(FileError::UnexpectedStatus { url, status: reply.status, body: reply.body })
        },
    }
}

/// Every reply that is waited for is taken in or refused in the same way, by
/// its own status and with its own body, and what was known before stays known.
pub proof fn replies_are_taken_as_they_come(
    url: Seq<char>,
    call: Call,
    create: (Local, Request),
    report: (Local, Seq<char>, Request),
    reply: Result<Reply, Seq<char>>,
)
    ensures
        accepted_reply(url, reply) == taken(url, reply),
        match taken(call.request.url, reply) {
            Ok(accepted) => resolve_decoding(call, reply) == Ok::<Decoding, FileError>(
                Decoding { file_id: call.file_id, reply: accepted },
            ),
            Err(error) => resolve_decoding(call, reply) == Err::<Decoding, FileError>(error),
        },
        match taken(create.1.url, reply) {
            Ok(accepted) => create_decoding(create, reply) == Ok::<_, FileError>(
                (create.0, accepted),
            ),
            Err(error) => create_decoding(create, reply) == Err::<(Local, Accepted), FileError>(
                error,
            ),
        },
        match taken(report.2.url, reply) {
            Ok(accepted) => finalize_decoding(report, reply) == Ok::<_, FileError>(
                (report.0, report.1, accepted),
            ),
            Err(error) => finalize_decoding(report, reply) == Err::<
                (Local, Seq<char>, Accepted),
                FileError,
            >(error),
        },
{
}

/// What a decoded answer tells of a file is given on as it is, under the id
/// that was asked about.
pub proof fn answers_are_given_on_as_they_are(
    asked: Decoding,
    creating: (Local, Accepted),
    created: Result<CreatedFile, Seq<char>>,
    link: Result<Link, Seq<char>>,
)
    ensures
        match created {
            Ok(file) => created_file(creating, created) == Ok::<_, FileError>((creating.0, file)),
            Err(source) => created_file(creating, created) == Err::<
                (Local, CreatedFile),
                FileError,
            >(FileError::Decode { url: creating.1.url, source }),
        },
        match link {
            Err(source) => resolved_file(asked, link) == Err::<Resolved, FileError>(
                FileError::Decode { url: asked.reply.url, source },
            ),
            Ok(sent) => {
                &&& sent.status != "success"@ ==> resolved_file(asked, link) == Err::<
                    Resolved,
                    FileError,
                >(
                    refused_link(
                        sent,
                        asked.file_id,
                        "download link request returned an error"@,
                    ),
                )
                &&& sent.status == "success"@ && sent.download_url is None ==> resolved_file(
                    asked,
                    link,
                ) == Err::<Resolved, FileError>(
                    FileError::UploadFailed {
                        file_id: asked.file_id,
                        message: "missing download_url"@,
                    },
                )
                &&& sent.status == "success"@ && sent.download_url is Some ==> resolved_file(
                    asked,
                    link,
                ) == Ok::<Resolved, FileError>(
                    Resolved {
                        file_id: asked.file_id,
                        uri: "sediment://"@ + asked.file_id,
                        download_url: sent.download_url->0,
                        file_name: sent.file_name,
                        mime_type: sent.mime_type,
                        file_size_bytes: sent.file_size_bytes,
                    },
                )
            },
        },
{
}

/// What an upload that failed on the way fails with in the end.
pub proof fn uploads_fail_where_they_fail(
    configured: Seq<char>,
    auth: Option<Auth>,
    auth_at_report: Auth,
    path: std::path::PathBuf,
    work: UploadWork,
)
    ensures
        auth matches Some(a) ==> (create_call(path, configured, a, work.metadata) matches Err(error)
            ==> upload_put(configured, a, path, work) == Err::<(Local, Seq<char>, Request), _>(
            error,
        )),
        auth matches Some(a) ==> (a.chatgpt ==> (upload_put(configured, a, path, work) matches Err(
            error,
        ) ==> upload(configured, auth, auth_at_report, path, work) == Err::<Uploaded, _>(error))),
{
}

/// The content of an opened file goes to where its creation was answered with,
/// and without credentials; and the link that the report is answered with tells
/// the name and the type.
pub proof fn uploads_go_on_with_what_was_answered(
    opening: (Local, CreatedFile),
    opened: Result<(), String>,
    reported: (Local, Seq<char>, Accepted),
    link: Result<Link, Seq<char>>,
)
    ensures
        opened is Ok ==> put_call(opening, opened) == Ok::<_, FileError>(
            (
                opening.0,
                opening.1.file_id,
                Request {
                    method: HttpMethod::Put,
                    url: opening.1.upload_url,
                    timeout_secs: 60,
                    bearer_token: None,
                    headers: Seq::empty(),
                    body: Body::LocalFile(opening.0.path),
                },
            ),
        ),
        opened matches Err(reason) ==> put_call(opening, opened) == Err::<
            (Local, Seq<char>, Request),
            FileError,
        >(FileError::ReadFile { path: opening.0.path, source: reason@ }),
        match link {
            Err(source) => uploaded_file(reported, link) == Err::<Uploaded, FileError>(
                FileError::Decode { url: reported.2.url, source },
            ),
            Ok(sent) => {
                &&& sent.status != "success"@ ==> uploaded_file(reported, link) == Err::<
                    Uploaded,
                    FileError,
                >(refused_link(sent, reported.1, "upload finalization returned an error"@))
                &&& sent.status == "success"@ ==> uploaded_file(reported, link) == Ok::<
                    Uploaded,
                    FileError,
                >(
                    Uploaded {
                        file_id: reported.1,
                        uri: "sediment://"@ + reported.1,
                        file_name: match sent.file_name {
                            Some(name) => name,
                            None => reported.0.file_name,
                        },
                        file_size_bytes: reported.0.size_bytes,
                        mime_type: sent.mime_type,
                        path: reported.0.path,
                    },
                )
            },
        },
{
}

/// A link that is no success is not ready if its status asks to retry, and has
/// failed otherwise, for the reason that it gives.
pub proof fn links_are_refused_for_their_reason(
    link: Link,
    file_id: Seq<char>,
    otherwise: Seq<char>,
)
    ensures
        link.status == "retry"@ ==> link_failure(link, file_id, otherwise)
            == (FileError::UploadNotReady { file_id }),
        link.status != "retry"@ && link.error_message is Some ==> link_failure(
            link,
            file_id,
            otherwise,
        ) == (FileError::UploadFailed { file_id, message: link.error_message->0 }),
        link.status != "retry"@ && link.error_message is None ==> link_failure(
            link,
            file_id,
            otherwise,
        ) == (FileError::UploadFailed { file_id, message: otherwise }),
{
}

/// Every error names, in its words, all that it is about.
pub proof fn errors_tell_what_they_are_about(error: OpenAiFileError)
    ensures
        error_words(error@) == (match error {
            OpenAiFileError::AuthRequired =>
                "chatgpt authentication is required to use OpenAI file storage"@,
            OpenAiFileError::UnsupportedAuthMode =>
                "chatgpt authentication is required to use OpenAI file storage; api key auth is not supported"@,
            OpenAiFileError::AuthToken { source } =>
                "failed to read chatgpt auth token for OpenAI file storage: "@ + source@,
            OpenAiFileError::MissingPath { path } => "path `"@ + path_shown(path)
                + "` does not exist"@,
            OpenAiFileError::NotAFile { path } => "path `"@ + path_shown(path) + "` is not a file"@,
            OpenAiFileError::ReadFile { path, source } => "path `"@ + path_shown(path)
                + "` cannot be read: "@ + source@,
            OpenAiFileError::FileTooLarge { path, size_bytes, limit_bytes } => "file `"@
                + path_shown(path) + "` is too large: "@ + decimal(size_bytes as nat)
                + " bytes exceeds the limit of "@ + decimal(limit_bytes as nat) + " bytes"@,
            OpenAiFileError::RemoteFileTooLarge { file_id, size_bytes, limit_bytes } => "file `"@
                + file_id@ + "` is too large to download automatically: "@ + decimal(
                size_bytes as nat,
            ) + " bytes exceeds the limit of "@ + decimal(limit_bytes as nat) + " bytes"@,
            OpenAiFileError::InvalidFileReference { reference } => "invalid OpenAI file reference `"@
                + reference@ + "`"@,
            OpenAiFileError::Request { url, source } => "failed to send OpenAI file request to "@
                + url@ + ": "@ + source@,
            OpenAiFileError::UnexpectedStatus { url, status, body } => "OpenAI file request to "@
                + url@ + " failed with status "@ + status_words(status_number(status)) + ": "@
                + body@,
            OpenAiFileError::Decode { url, source } => "failed to parse OpenAI file response from "@
                + url@ + ": "@ + source@,
            OpenAiFileError::UploadNotReady { file_id } => "OpenAI file upload for `"@ + file_id@
                + "` is not ready yet"@,
            OpenAiFileError::UploadFailed { file_id, message } => "OpenAI file upload for `"@
                + file_id@ + "` failed: "@ + message@,
            OpenAiFileError::CreateDirectory { path, source } =>
                "failed to create temp directory `"@ + path_shown(path) + "`: "@ + source@,
            OpenAiFileError::WriteFile { path, source } =>
                "failed to write downloaded file to `"@ + path_shown(path) + "`: "@ + source@,
        }),
{
}

/// Errors are seen as they are.
pub proof fn errors_are_seen_as_they_are(error: OpenAiFileError)
    ensures
        match error {
            OpenAiFileError::AuthRequired => error@ == FileError::AuthRequired,
            OpenAiFileError::UnsupportedAuthMode => error@ == FileError::UnsupportedAuthMode,
            OpenAiFileError::AuthToken { source } => error@ == (FileError::AuthToken {
                source: source@,
            }),
            OpenAiFileError::MissingPath { path } => error@ == (FileError::MissingPath { path }),
            OpenAiFileError::NotAFile { path } => error@ == (FileError::NotAFile { path }),
            OpenAiFileError::ReadFile { path, source } => error@ == (FileError::ReadFile {
                path,
                source: source@,
            }),
            OpenAiFileError::FileTooLarge { path, size_bytes, limit_bytes } => error@
                == (FileError::FileTooLarge { path, size_bytes, limit_bytes }),
            OpenAiFileError::RemoteFileTooLarge { file_id, size_bytes, limit_bytes } => error@
                == (FileError::RemoteFileTooLarge { file_id: file_id@, size_bytes, limit_bytes }),
            OpenAiFileError::InvalidFileReference { reference } => error@
                == (FileError::InvalidFileReference { reference: reference@ }),
            OpenAiFileError::Request { url, source } => error@ == (FileError::Request {
                url: url@,
                source: source@,
            }),
            OpenAiFileError::UnexpectedStatus { url, status, body } => error@
                == (FileError::UnexpectedStatus { url: url@, status, body: body@ }),
            OpenAiFileError::Decode { url, source } => error@ == (FileError::Decode {
                url: url@,
                source: source@,
            }),
            OpenAiFileError::UploadNotReady { file_id } => error@ == (FileError::UploadNotReady {
                file_id: file_id@,
            }),
            OpenAiFileError::UploadFailed { file_id, message } => error@
                == (FileError::UploadFailed { file_id: file_id@, message: message@ }),
            OpenAiFileError::CreateDirectory { path, source } => error@
                == (FileError::CreateDirectory { path, source: source@ }),
            OpenAiFileError::WriteFile { path, source } => error@ == (FileError::WriteFile {
                path,
                source: source@,
            }),
        },
{
}

/// What came of an operation is seen as it is: a value as the value, and an
/// error as the error.
pub proof fn outcomes_are_seen_as_they_are<T: View>(
    result: Result<T, OpenAiFileError>,
    outcome: Result<T, String>,
)
    ensures
        match result {
            Ok(value) => result_view(result) == Ok::<T::V, FileError>(value@),
            Err(error) => result_view(result) == Err::<T::V, FileError>(error@),
        },
        match outcome {
            Ok(value) => outcome_view(outcome) == Ok::<T::V, Seq<char>>(value@),
            Err(reason) => outcome_view(outcome) == Err::<T::V, Seq<char>>(reason@),
        },
{
}

/// Text that may be missing, as it is.
pub open spec fn as_is(text: Option<String>) -> Option<Seq<char>> {
    match text {
        Some(text) => Some(text@),
        None => None,
    }
}

/// Requests and replies are seen as they are.
pub proof fn requests_are_seen_as_they_are(request: HttpRequest, reply: HttpReply)
    ensures
        request@.method == request.method,
        request@.url == request.url@,
        request@.timeout_secs == request.timeout_secs,
        request@.bearer_token == as_is(request.bearer_token),
        request@.headers.len() == request.headers@.len(),
        forall|i: int|
            0 <= i < request.headers@.len() ==> #[trigger] request@.headers[i] == (
                request.headers@[i].0@,
                request.headers@[i].1@,
            ),
        match request.body {
            HttpBody::Empty => request@.body == Body::Empty,
            HttpBody::Json(value) => request@.body == Body::Json(json_of(value)),
            HttpBody::LocalFile(path) => request@.body == Body::LocalFile(path),
        },
        reply@.status == reply.status,
        reply@.body == reply.body@,
{
}

/// Credentials and the answers of the storage are seen as they are.
pub proof fn answers_are_seen_as_they_are(
    auth: CodexAuth,
    created: CreateFileResponse,
    link: DownloadLinkResponse,
    accepted: AcceptedReply,
)
    ensures
        opt_auth(Some(&auth)) == Some(auth@),
        opt_auth(None) is None,
        auth@.chatgpt == auth.chatgpt,
        match auth.token {
            Ok(token) => auth@.token == Ok::<Seq<char>, Seq<char>>(token@),
            Err(reason) => auth@.token == Err::<Seq<char>, Seq<char>>(reason@),
        },
        auth@.account_id == as_is(auth.account_id),
        created@.file_id == created.file_id@,
        created@.upload_url == created.upload_url@,
        link@.status == link.status@,
        link@.download_url == as_is(link.download_url),
        link@.file_name == as_is(link.file_name),
        link@.file_size_bytes == link.file_size_bytes,
        link@.mime_type == as_is(link.mime_type),
        link@.error_message == as_is(link.error_message),
        accepted@.url == accepted.url@,
        accepted@.body == accepted.body@,
{
}

/// Files are seen as they are: those that were found, uploaded and downloaded.
pub proof fn files_are_seen_as_they_are(
    resolved: ResolvedOpenAiFile,
    local: LocalFile,
    uploaded: UploadedOpenAiFile,
    downloaded: DownloadedOpenAiFile,
)
    ensures
        resolved@.file_id == resolved.file_id@,
        resolved@.uri == resolved.uri@,
        resolved@.download_url == resolved.download_url@,
        resolved@.file_name == as_is(resolved.file_name),
        resolved@.mime_type == as_is(resolved.mime_type),
        resolved@.file_size_bytes == resolved.file_size_bytes,
        local@.path == local.path,
        local@.file_name == local.file_name@,
        local@.size_bytes == local.size_bytes,
        uploaded@.file_id == uploaded.file_id@,
        uploaded@.uri == uploaded.uri@,
        uploaded@.file_name == uploaded.file_name@,
        uploaded@.file_size_bytes == uploaded.file_size_bytes,
        uploaded@.mime_type == as_is(uploaded.mime_type),
        uploaded@.path == uploaded.path,
        downloaded@.file_id == downloaded.file_id@,
        downloaded@.uri == downloaded.uri@,
        downloaded@.file_name == downloaded.file_name@,
        downloaded@.mime_type == as_is(downloaded.mime_type),
        downloaded@.destination_path == downloaded.destination_path,
        downloaded@.bytes_written == downloaded.bytes_written,
{
}

/// The steps of a lookup and of an upload are seen as they are.
pub proof fn upload_steps_are_seen_as_they_are(
    resolve: ResolveCall,
    resolving: ResolveDecode,
    start: UploadStart,
    create: UploadCreate,
    creating: UploadCreateDecode,
    open: UploadOpen,
    put: UploadPut,
    report: UploadFinalize,
    reported: UploadFinalizeDecode,
)
    ensures
        resolve@.file_id == resolve.file_id@,
        resolve@.request == resolve.request@,
        resolving@.file_id == resolving.file_id@,
        resolving@.reply == resolving.reply@,
        start@ == start.path,
        create@ == (create.local@, create.request@),
        creating@ == (creating.local@, creating.reply@),
        open@ == (open.local@, open.created@),
        put@ == (put.local@, put.file_id@, put.request@),
        report@ == (report.local@, report.file_id@, report.request@),
        reported@ == (reported.local@, reported.file_id@, reported.reply@),
{
}

/// The steps of a download are seen as they are.
pub proof fn download_steps_are_seen_as_they_are(
    target: DownloadTarget,
    place: DownloadPlace,
    download: Download,
    resolve: DownloadResolve,
    resolving: DownloadResolveDecode,
    directory: DownloadDirectory,
    fetch: DownloadFetch,
    refused: DownloadRefused,
    create: DownloadCreate,
    write: DownloadWrite,
)
    ensures
        target@.cwd == target.cwd,
        target@.scope == target.scope@,
        target@.max_bytes == target.max_bytes,
        place@.dir == place.dir,
        place@.file_name == place.file_name@,
        place@.destination == place.destination,
        download@.resolved == download.resolved@,
        download@.place == download.place@,
        download@.max_bytes == download.max_bytes,
        resolve@ == (resolve.target@, resolve.call@),
        resolving@ == (resolving.target@, resolving.decode@),
        directory@ == directory.download@,
        fetch@ == (fetch.download@, fetch.request@),
        refused@.url == refused.url@,
        refused@.status == refused.status,
        create@ == create.download@,
        write@.download == write.download@,
        write@.bytes_written == write.bytes_written,
{
}

/// What the steps of a download come to is seen as it is.
pub proof fn download_answers_are_seen_as_they_are(answer: FetchAnswer, step: ChunkStep)
    ensures
        match answer {
            FetchAnswer::Refused(refused) => answer@ == Answer::Refused(refused@),
            FetchAnswer::Accepted(create) => answer@ == Answer::Accepted(create@),
        },
        match step {
            ChunkStep::Write(write) => step@ == Step::Write(write@),
            ChunkStep::Abandon { destination, error } => step@ == (Step::Abandon {
                destination,
                error: error@,
            }),
        },
{
}

/// Files of up to half a gibibyte are stored and downloaded; what is downloaded
/// unasked is limited to an eighth of a gibibyte a file, and to half of one in
/// all.
pub proof fn limits_are_counted_in_mebibytes()
    ensures
        OPENAI_FILE_UPLOAD_LIMIT_BYTES == 512 * 1024 * 1024,
        OPENAI_FILE_DOWNLOAD_LIMIT_BYTES == 512 * 1024 * 1024,
        OPENAI_FILE_AUTO_DOWNLOAD_LIMIT_BYTES == 128 * 1024 * 1024,
        OPENAI_FILE_AUTO_DOWNLOAD_BUDGET_BYTES == 512 * 1024 * 1024,
{
}

} // verus!
