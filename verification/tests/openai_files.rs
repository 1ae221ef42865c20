use codex_bridge::http::HttpBody;
use codex_bridge::http::HttpMethod;
use codex_bridge::http::HttpReply;
use codex_bridge::http::HttpRequest;
use codex_bridge::openai_files::auth::CodexAuth;
use codex_bridge::openai_files::download::download_file_to_managed_temp;
use codex_bridge::openai_files::download::ChunkStep;
use codex_bridge::openai_files::download::DownloadDirectory;
use codex_bridge::openai_files::download::DownloadWrite;
use codex_bridge::openai_files::download::DownloadedOpenAiFile;
use codex_bridge::openai_files::download::FetchAnswer;
use codex_bridge::openai_files::endpoints::Config;
use codex_bridge::openai_files::endpoints::CreateFileResponse;
use codex_bridge::openai_files::endpoints::DownloadLinkResponse;
use codex_bridge::openai_files::error::OpenAiFileError;
use codex_bridge::openai_files::names::managed_download_dir;
use codex_bridge::openai_files::names::manual_download_scope;
use codex_bridge::openai_files::names::sanitize_download_file_name;
use codex_bridge::openai_files::names::unique_manual_download_scope;
use codex_bridge::openai_files::reference::is_openai_file_uri;
use codex_bridge::openai_files::reference::openai_file_uri;
use codex_bridge::openai_files::reference::parse_openai_file_id;
use codex_bridge::openai_files::reference::OPENAI_FILE_AUTO_DOWNLOAD_BUDGET_BYTES;
use codex_bridge::openai_files::reference::OPENAI_FILE_AUTO_DOWNLOAD_LIMIT_BYTES;
use codex_bridge::openai_files::reference::OPENAI_FILE_DOWNLOAD_LIMIT_BYTES;
use codex_bridge::openai_files::reference::OPENAI_FILE_UPLOAD_LIMIT_BYTES;
use codex_bridge::openai_files::resolve::resolve_openai_file;
use codex_bridge::openai_files::resolve::ResolveDecode;
use codex_bridge::openai_files::upload::upload_local_file;
use codex_bridge::openai_files::upload::FileMetadata;
use codex_bridge::openai_files::upload::MetadataFailure;
use codex_bridge::openai_files::upload::UploadCreate;
use codex_bridge::openai_files::upload::UploadFinalize;
use codex_bridge::openai_files::upload::UploadOpen;
use codex_bridge::openai_files::upload::UploadPut;
use reqwest::StatusCode;
use std::path::PathBuf;

const SERVER: &str = "http://127.0.0.1:9";

fn chatgpt_auth() -> CodexAuth {
    CodexAuth {
        chatgpt: true,
        token: Ok("Access Token".to_string()),
        account_id: Some("account_id".to_string()),
    }
}

fn test_config() -> Config {
    Config {
        chatgpt_base_url: format!("{SERVER}/backend-api"),
    }
}

fn reply(status: u16, body: &str) -> Result<HttpReply, String> {
    Ok(HttpReply {
        status: StatusCode::from_u16(status).expect("status"),
        body: body.to_string(),
    })
}

fn link(status: &str, download_url: Option<&str>, file_name: Option<&str>, size: Option<u64>) -> DownloadLinkResponse {
    DownloadLinkResponse {
        status: status.to_string(),
        download_url: download_url.map(str::to_string),
        file_name: file_name.map(str::to_string),
        file_size_bytes: size,
        mime_type: Some("text/plain".to_string()),
        error_message: None,
    }
}

fn assert_authorized(request: &HttpRequest) {
    assert_eq!(request.bearer_token.as_deref(), Some("Access Token"));
    assert_eq!(
        request.headers,
        vec![("chatgpt-account-id".to_string(), "account_id".to_string())]
    );
    assert_eq!(request.timeout_secs, 60);
}

fn assert_anonymous(request: &HttpRequest) {
    assert_eq!(request.bearer_token, None);
    assert!(request.headers.is_empty());
    assert_eq!(request.timeout_secs, 60);
}

fn json_body(request: &HttpRequest) -> &serde_json::Value {
    match &request.body {
        HttpBody::Json(value) => value,
        other => panic!("unexpected body: {other:?}"),
    }
}

fn begun_upload(path: &str, len: u64) -> UploadCreate {
    upload_local_file(Some(&chatgpt_auth()), &PathBuf::from(path))
        .expect("start")
        .on_metadata(&test_config(), &chatgpt_auth(), Ok(FileMetadata { is_file: true, len }))
        .expect("create")
}

fn created() -> CreateFileResponse {
    CreateFileResponse {
        file_id: "file_123".to_string(),
        upload_url: format!("{SERVER}/upload/file_123"),
    }
}

fn opening_upload() -> UploadOpen {
    begun_upload("/work/hello.txt", 5)
        .on_reply(reply(200, "{}"))
        .expect("reply")
        .on_payload(Ok(created()))
        .expect("payload")
}

fn putting_upload() -> UploadPut {
    opening_upload().on_opened(Ok(())).expect("opened")
}

fn finishing_upload() -> UploadFinalize {
    putting_upload()
        .on_reply(&test_config(), &chatgpt_auth(), reply(200, ""))
        .expect("put")
}

fn resolving(reference: &str) -> ResolveDecode {
    resolve_openai_file(&test_config(), Some(&chatgpt_auth()), reference)
        .expect("call")
        .on_reply(reply(200, "{}"))
        .expect("reply")
}

fn known_download(
    scope: &str,
    max_bytes: u64,
    link: DownloadLinkResponse,
) -> Result<DownloadDirectory, OpenAiFileError> {
    download_file_to_managed_temp(
        &test_config(),
        Some(&chatgpt_auth()),
        &PathBuf::from("/workspace"),
        "sediment://file_123",
        scope,
        max_bytes,
    )
    .expect("call")
    .on_reply(reply(200, "{}"))
    .expect("reply")
    .on_payload(Ok(link))
}

fn writing_download(max_bytes: u64) -> DownloadWrite {
    let fetch = known_download(
        "call-1",
        max_bytes,
        link("success", Some("http://blob"), Some("report.txt"), None),
    )
    .expect("known")
    .on_created(Ok(()))
    .expect("directory");
    match fetch.on_response(Ok(StatusCode::OK)).expect("response") {
        FetchAnswer::Accepted(create) => create.on_created(Ok(())).expect("file"),
        other => panic!("unexpected answer: {other:?}"),
    }
}

/// Takes in pieces that are all written, as long as they are asked for.
fn take_pieces(mut write: DownloadWrite, pieces: &[&str]) -> Result<(DownloadedOpenAiFile, String), OpenAiFileError> {
    let mut content = String::new();
    for piece in pieces {
        match write.on_chunk(Ok(piece.len()))? {
            ChunkStep::Write(next) => {
                content.push_str(piece);
                write = next.on_written(Ok(()))?;
            }
            ChunkStep::Abandon { destination, error } => {
                assert_eq!(destination, PathBuf::from("/workspace/.codex/tmp/openai-files/call-1/report.txt"));
                return Err(error);
            }
        }
    }
    Ok((write.on_flushed(Ok(()))?, content))
}

#[test]
fn parse_openai_file_id_accepts_uri_and_bare_ids() {
    assert_eq!(
        parse_openai_file_id("sediment://file_123"),
        Some("file_123")
    );
    assert_eq!(parse_openai_file_id("file_123"), Some("file_123"));
    assert_eq!(parse_openai_file_id("file-123"), Some("file-123"));
    assert_eq!(parse_openai_file_id("nope"), None);
}

#[test]
fn upload_local_file_returns_canonical_uri() {
    let create = begun_upload("/work/hello.txt", 5);
    assert_eq!(create.request.method, HttpMethod::Post);
    assert_eq!(create.request.url, format!("{SERVER}/backend-api/files"));
    assert_authorized(&create.request);
    let wanted: serde_json::Value = serde_json::from_str(
        r#"{"file_name": "hello.txt", "file_size": 5, "use_case": "codex"}"#,
    )
    .expect("json");
    assert_eq!(json_body(&create.request), &wanted);

    let decode = create.on_reply(reply(200, "created")).expect("reply");
    assert_eq!(decode.reply.body, "created");
    let put = decode
        .on_payload(Ok(created()))
        .expect("payload")
        .on_opened(Ok(()))
        .expect("opened");
    assert_eq!(put.request.method, HttpMethod::Put);
    assert_eq!(put.request.url, format!("{SERVER}/upload/file_123"));
    assert_anonymous(&put.request);
    assert!(
        matches!(&put.request.body, HttpBody::LocalFile(path) if path == &PathBuf::from("/work/hello.txt"))
    );

    let finalize = put
        .on_reply(&test_config(), &chatgpt_auth(), reply(200, ""))
        .expect("put");
    assert_eq!(finalize.request.method, HttpMethod::Post);
    assert_eq!(finalize.request.url, format!("{SERVER}/backend-api/files/file_123/uploaded"));
    assert_authorized(&finalize.request);
    let wanted: serde_json::Value = serde_json::from_str("{}").expect("json");
    assert_eq!(json_body(&finalize.request), &wanted);

    let uploaded = finalize
        .on_reply(reply(200, "finished"))
        .expect("reply")
        .on_payload(Ok(link("success", Some("http://download"), Some("hello.txt"), Some(5))))
        .expect("upload succeeds");

    assert_eq!(uploaded.file_id, "file_123");
    assert_eq!(uploaded.uri, "sediment://file_123");
    assert_eq!(uploaded.file_name, "hello.txt");
    assert_eq!(uploaded.mime_type, Some("text/plain".to_string()));
    assert_eq!(uploaded.file_size_bytes, 5);
    assert_eq!(uploaded.path, PathBuf::from("/work/hello.txt"));
}

#[test]
fn download_file_to_managed_temp_writes_under_workspace_tmp() {
    let workspace = PathBuf::from("/workspace");
    let call = download_file_to_managed_temp(
        &test_config(),
        Some(&chatgpt_auth()),
        &workspace,
        "sediment://file_123",
        "call-1",
        OPENAI_FILE_DOWNLOAD_LIMIT_BYTES,
    )
    .expect("call");
    assert_eq!(call.call.request.method, HttpMethod::Get);
    assert_eq!(
        call.call.request.url,
        format!("{SERVER}/backend-api/files/download/file_123")
    );
    assert!(matches!(call.call.request.body, HttpBody::Empty));
    assert_authorized(&call.call.request);

    let known = call
        .on_reply(reply(200, "link"))
        .expect("reply")
        .on_payload(Ok(link(
            "success",
            Some("http://127.0.0.1:9/blob/file_123"),
            Some("report.txt"),
            Some(4),
        )))
        .expect("known");
    assert_eq!(known.download.place.dir, workspace.join(".codex/tmp/openai-files/call-1"));
    let fetch = known.on_created(Ok(())).expect("directory");
    assert_eq!(fetch.request.method, HttpMethod::Get);
    assert_eq!(fetch.request.url, "http://127.0.0.1:9/blob/file_123");
    assert_anonymous(&fetch.request);
    let write = match fetch.on_response(Ok(StatusCode::OK)).expect("response") {
        FetchAnswer::Accepted(create) => create.on_created(Ok(())).expect("file"),
        other => panic!("unexpected answer: {other:?}"),
    };
    let (downloaded, content) = take_pieces(write, &["te", "", "st"]).expect("download succeeds");

    assert_eq!(downloaded.file_id, "file_123");
    assert_eq!(downloaded.uri, "sediment://file_123");
    assert_eq!(downloaded.file_name, "report.txt");
    assert_eq!(downloaded.mime_type.as_deref(), Some("text/plain"));
    assert_eq!(downloaded.bytes_written, 4);
    assert!(
        downloaded
            .destination_path
            .starts_with(workspace.join(".codex/tmp/openai-files/call-1"))
    );
    assert_eq!(content, "test");
}

#[test]
fn download_file_to_managed_temp_enforces_max_bytes() {
    let error = download_file_to_managed_temp(
        &test_config(),
        Some(&chatgpt_auth()),
        &PathBuf::from("/workspace"),
        "file_123",
        "call-2",
        128,
    )
    .expect("call")
    .on_reply(reply(200, "link"))
    .expect("reply")
    .on_payload(Ok(link("success", Some("http://blob"), Some("big.txt"), Some(200))))
    .expect_err("download should fail");

    assert_eq!(
        error.message(),
        "file `file_123` is too large to download automatically: 200 bytes exceeds the limit of 128 bytes"
    );
}

#[test]
fn limits_are_given_in_mebibytes() {
    assert_eq!(OPENAI_FILE_UPLOAD_LIMIT_BYTES, 512 * 1024 * 1024);
    assert_eq!(OPENAI_FILE_DOWNLOAD_LIMIT_BYTES, 512 * 1024 * 1024);
    assert_eq!(OPENAI_FILE_AUTO_DOWNLOAD_LIMIT_BYTES, 128 * 1024 * 1024);
    assert_eq!(OPENAI_FILE_AUTO_DOWNLOAD_BUDGET_BYTES, 512 * 1024 * 1024);
}

#[test]
fn uris_lead_back_to_their_ids() {
    for id in ["file_1", "x", "sediment://", "\u{e9}/?"] {
        let uri = openai_file_uri(id);
        assert!(is_openai_file_uri(&uri));
        assert_eq!(parse_openai_file_id(&uri), Some(id));
    }
    assert_ne!(openai_file_uri("a"), openai_file_uri("b"));
    assert!(!is_openai_file_uri("file_1"));
    assert!(!is_openai_file_uri("sediment:/"));
    assert_eq!(parse_openai_file_id("sediment://"), None);
    assert_eq!(parse_openai_file_id("file_"), Some("file_"));
    assert_eq!(parse_openai_file_id("file"), None);
    assert_eq!(parse_openai_file_id(""), None);
}

#[test]
fn slashes_at_the_end_of_the_base_url_make_no_difference() {
    let bare = Config { chatgpt_base_url: "https://h/api".to_string() };
    let slashed = Config { chatgpt_base_url: "https://h/api//".to_string() };
    assert_eq!(bare.files_url(), "https://h/api/files");
    assert_eq!(slashed.files_url(), bare.files_url());
    assert_eq!(slashed.download_link_url("f"), "https://h/api/files/download/f");
    assert_eq!(slashed.uploaded_url("f"), "https://h/api/files/f/uploaded");
}

#[test]
fn file_storage_needs_a_chatgpt_account() {
    let key = CodexAuth { chatgpt: false, token: Ok("key".to_string()), account_id: None };
    let path = PathBuf::from("/work/hello.txt");
    for (auth, message) in [
        (None, "chatgpt authentication is required to use OpenAI file storage"),
        (
            Some(&key),
            "chatgpt authentication is required to use OpenAI file storage; api key auth is not supported",
        ),
    ] {
        let error = upload_local_file(auth, &path).expect_err("upload");
        assert_eq!(error.message(), message);
        let error = resolve_openai_file(&test_config(), auth, "nope").expect_err("resolve");
        assert_eq!(error.message(), message);
        let error = download_file_to_managed_temp(&test_config(), auth, &path, "file_1", "s", 1)
            .expect_err("download");
        assert_eq!(error.message(), message);
    }
}

#[test]
fn a_token_that_cannot_be_read_stops_a_request() {
    let auth = CodexAuth {
        chatgpt: true,
        token: Err("locked".to_string()),
        account_id: None,
    };
    let message = "failed to read chatgpt auth token for OpenAI file storage: locked";
    let error = resolve_openai_file(&test_config(), Some(&auth), "file_1").expect_err("resolve");
    assert_eq!(error.message(), message);
    let error = upload_local_file(Some(&auth), &PathBuf::from("/a"))
        .expect("start")
        .on_metadata(&test_config(), &auth, Ok(FileMetadata { is_file: true, len: 1 }))
        .expect_err("create");
    assert_eq!(error.message(), message);
    let error = putting_upload()
        .on_reply(&test_config(), &auth, reply(200, ""))
        .expect_err("finalize");
    assert_eq!(error.message(), message);
}

#[test]
fn requests_name_the_account_only_where_it_is_known() {
    let auth = CodexAuth {
        chatgpt: true,
        token: Ok("t".to_string()),
        account_id: None,
    };
    let call = resolve_openai_file(&test_config(), Some(&auth), "file_1").expect("call");
    assert!(call.request.headers.is_empty());
    assert_eq!(call.request.bearer_token.as_deref(), Some("t"));
}

#[test]
fn only_files_within_the_limit_are_uploaded() {
    let path = PathBuf::from("/work/data.bin");
    let failure = |metadata: Result<FileMetadata, MetadataFailure>| {
        upload_local_file(Some(&chatgpt_auth()), &path)
            .expect("start")
            .on_metadata(&test_config(), &chatgpt_auth(), metadata)
            .expect_err("refused")
            .message()
    };
    assert_eq!(
        failure(Err(MetadataFailure::NotFound)),
        "path `/work/data.bin` does not exist"
    );
    assert_eq!(
        failure(Err(MetadataFailure::Other("denied".to_string()))),
        "path `/work/data.bin` cannot be read: denied"
    );
    assert_eq!(
        failure(Ok(FileMetadata { is_file: false, len: 0 })),
        "path `/work/data.bin` is not a file"
    );
    assert_eq!(
        failure(Ok(FileMetadata { is_file: true, len: 536_870_913 })),
        "file `/work/data.bin` is too large: 536870913 bytes exceeds the limit of 536870912 bytes"
    );
    assert_eq!(begun_upload("/work/data.bin", 536_870_912).local.size_bytes, 536_870_912);
}

#[test]
fn a_path_without_a_file_name_is_uploaded_as_file() {
    assert_eq!(begun_upload("/work/..", 1).local.file_name, "file");
    assert_eq!(begun_upload("/work/a.txt/", 1).local.file_name, "a.txt");
}

#[test]
fn uploads_fail_where_their_requests_fail() {
    let url = format!("{SERVER}/backend-api/files");
    let error = begun_upload("/a", 1).on_reply(Err("refused".to_string())).expect_err("reply");
    assert_eq!(
        error.message(),
        format!("failed to send OpenAI file request to {url}: refused")
    );
    let error = begun_upload("/a", 1).on_reply(reply(500, "oops")).expect_err("reply");
    assert_eq!(
        error.message(),
        format!("OpenAI file request to {url} failed with status 500 Internal Server Error: oops")
    );
    let error = begun_upload("/a", 1)
        .on_reply(reply(201, "not json"))
        .expect("reply")
        .on_payload(Err("expected value".to_string()))
        .expect_err("payload");
    assert_eq!(
        error.message(),
        format!("failed to parse OpenAI file response from {url}: expected value")
    );
    let error = opening_upload().on_opened(Err("gone".to_string())).expect_err("open");
    assert_eq!(error.message(), "path `/work/hello.txt` cannot be read: gone");
    let error = putting_upload()
        .on_reply(&test_config(), &chatgpt_auth(), reply(403, "no"))
        .expect_err("put");
    assert_eq!(
        error.message(),
        format!("OpenAI file request to {SERVER}/upload/file_123 failed with status 403 Forbidden: no")
    );
    let error = finishing_upload().on_reply(reply(199, "")).expect_err("finalize");
    assert!(error.message().contains("/files/file_123/uploaded failed with status 199"));
    let error = finishing_upload()
        .on_reply(reply(299, ""))
        .expect("finalize")
        .on_payload(Err("eof".to_string()))
        .expect_err("payload");
    assert!(error.message().ends_with("/files/file_123/uploaded: eof"));
}

#[test]
fn uploads_that_are_not_finished_fail() {
    let finish = |link: DownloadLinkResponse| {
        finishing_upload().on_reply(reply(200, "")).expect("reply").on_payload(Ok(link))
    };
    assert_eq!(
        finish(link("retry", None, None, None)).expect_err("retry").message(),
        "OpenAI file upload for `file_123` is not ready yet"
    );
    assert_eq!(
        finish(link("error", None, None, None)).expect_err("error").message(),
        "OpenAI file upload for `file_123` failed: upload finalization returned an error"
    );
    let mut refused = link("error", None, None, None);
    refused.error_message = Some("virus".to_string());
    assert_eq!(
        finish(refused).expect_err("error").message(),
        "OpenAI file upload for `file_123` failed: virus"
    );
    let uploaded = finish(link("success", None, None, Some(99))).expect("success");
    assert_eq!(uploaded.file_name, "hello.txt");
    assert_eq!(uploaded.file_size_bytes, 5);
}

#[test]
fn lookups_find_the_file_referred_to() {
    let resolved = resolving("file-9")
        .on_payload(Ok(link("success", Some("http://blob"), None, Some(3))))
        .expect("resolved");
    assert_eq!(resolved.file_id, "file-9");
    assert_eq!(resolved.uri, "sediment://file-9");
    assert_eq!(resolved.download_url, "http://blob");
    assert_eq!(resolved.file_name, None);
    assert_eq!(resolved.file_size_bytes, Some(3));
    assert_eq!(parse_openai_file_id(&resolved.uri), Some("file-9"));
}

#[test]
fn a_uri_is_as_good_as_the_id_it_was_made_of() {
    let url = |reference: &str| {
        let call = resolve_openai_file(&test_config(), Some(&chatgpt_auth()), reference).expect("call");
        assert_eq!(call.file_id, "file_7");
        call.request.url
    };
    assert_eq!(url("file_7"), format!("{SERVER}/backend-api/files/download/file_7"));
    assert_eq!(url(&openai_file_uri("file_7")), url("file_7"));
}

#[test]
fn lookups_fail_with_the_reason() {
    let error = resolve_openai_file(&test_config(), Some(&chatgpt_auth()), "nope").expect_err("id");
    assert_eq!(error.message(), "invalid OpenAI file reference `nope`");
    let failure = |link: DownloadLinkResponse| {
        resolving("file_1").on_payload(Ok(link)).expect_err("failure").message()
    };
    assert_eq!(
        failure(link("success", None, None, None)),
        "OpenAI file upload for `file_1` failed: missing download_url"
    );
    assert_eq!(
        failure(link("retry", Some("u"), None, None)),
        "OpenAI file upload for `file_1` is not ready yet"
    );
    assert_eq!(
        failure(link("Success", Some("u"), None, None)),
        "OpenAI file upload for `file_1` failed: download link request returned an error"
    );
    let error = resolving("file_1").on_payload(Err("eof".to_string())).expect_err("payload");
    assert_eq!(
        error.message(),
        format!("failed to parse OpenAI file response from {SERVER}/backend-api/files/download/file_1: eof")
    );
    let error = resolve_openai_file(&test_config(), Some(&chatgpt_auth()), "file_1")
        .expect("call")
        .on_reply(reply(404, "none"))
        .expect_err("status");
    assert!(error.message().ends_with("failed with status 404 Not Found: none"));
}

#[test]
fn downloads_keep_to_their_limit() {
    let (downloaded, content) = take_pieces(writing_download(4), &["abc", "d"]).expect("within");
    assert_eq!(downloaded.bytes_written, 4);
    assert_eq!(content, "abcd");
    let error = take_pieces(writing_download(4), &["abc", "de", "f"]).expect_err("beyond");
    assert_eq!(
        error.message(),
        "file `file_123` is too large to download automatically: 5 bytes exceeds the limit of 4 bytes"
    );
}

#[test]
fn counting_never_runs_over() {
    let write = DownloadWrite { bytes_written: u64::MAX - 1, ..writing_download(u64::MAX - 1) };
    match write.on_chunk(Ok(7)).expect("step") {
        ChunkStep::Abandon { error, .. } => assert!(
            matches!(error, OpenAiFileError::RemoteFileTooLarge { size_bytes: u64::MAX, .. })
        ),
        other => panic!("unexpected step: {other:?}"),
    }
}

#[test]
fn downloads_fail_where_their_work_fails() {
    let known = || {
        known_download("call-1", 9, link("success", Some("http://blob"), Some("a"), None)).expect("known")
    };
    assert_eq!(
        known().on_created(Err("full".to_string())).expect_err("directory").message(),
        "failed to create temp directory `/workspace/.codex/tmp/openai-files/call-1`: full"
    );
    let fetch = || known().on_created(Ok(())).expect("directory");
    assert_eq!(
        fetch().on_response(Err("reset".to_string())).expect_err("response").message(),
        "failed to send OpenAI file request to http://blob: reset"
    );
    match fetch().on_response(Ok(StatusCode::GONE)).expect("response") {
        FetchAnswer::Refused(refused) => assert_eq!(
            refused.on_body("bye".to_string()).message(),
            "OpenAI file request to http://blob failed with status 410 Gone: bye"
        ),
        other => panic!("unexpected answer: {other:?}"),
    }
    match fetch().on_response(Ok(StatusCode::OK)).expect("response") {
        FetchAnswer::Accepted(create) => assert_eq!(
            create.on_created(Err("denied".to_string())).expect_err("file").message(),
            "failed to write downloaded file to `/workspace/.codex/tmp/openai-files/call-1/a`: denied"
        ),
        other => panic!("unexpected answer: {other:?}"),
    }
    let destination = "/workspace/.codex/tmp/openai-files/call-1/report.txt";
    assert_eq!(
        writing_download(9).on_chunk(Err("cut".to_string())).expect_err("chunk").message(),
        "failed to send OpenAI file request to http://blob: cut"
    );
    assert_eq!(
        writing_download(9).on_written(Err("full".to_string())).expect_err("write").message(),
        format!("failed to write downloaded file to `{destination}`: full")
    );
    assert_eq!(
        writing_download(9).on_flushed(Err("late".to_string())).expect_err("flush").message(),
        format!("failed to write downloaded file to `{destination}`: late")
    );
}

#[test]
fn downloads_without_a_name_are_kept_under_their_id() {
    let known = known_download("call-1", 9, link("success", Some("u"), None, Some(9))).expect("known");
    assert_eq!(known.download.place.file_name, "file_123");
}

#[test]
fn names_are_made_fit_to_keep_files_under() {
    assert_eq!(sanitize_download_file_name("report.txt"), "report.txt");
    assert_eq!(sanitize_download_file_name("../../etc/passwd"), "_.._etc_passwd");
    assert_eq!(sanitize_download_file_name("a\\b\u{0}c\u{1f}d\u{7f}e\u{80}"), "a_b_c_d_e\u{80}");
    assert_eq!(sanitize_download_file_name("..."), "downloaded-file");
    assert_eq!(sanitize_download_file_name(""), "downloaded-file");
    assert_eq!(sanitize_download_file_name(".hidden."), "hidden");
    for name in ["..a/.", "x", "...", "\n"] {
        let once = sanitize_download_file_name(name);
        assert_eq!(sanitize_download_file_name(&once), once);
    }
}

#[test]
fn downloads_go_below_the_working_directory() {
    let cwd = PathBuf::from("/workspace/project");
    assert_eq!(
        managed_download_dir(&cwd, "manual/1"),
        PathBuf::from("/workspace/project/.codex/tmp/openai-files/manual/1")
    );
    let known = known_download(
        "s",
        9,
        link("success", Some("u"), Some("/etc/passwd"), Some(0)),
    )
    .expect("known");
    assert_eq!(
        known.download.place.destination,
        PathBuf::from("/workspace/.codex/tmp/openai-files/s/_etc_passwd")
    );
}

#[test]
fn names_that_look_like_drives_stay_below_where_there_are_none() {
    let known = known_download("s", 9, link("success", Some("u"), Some("C:evil"), Some(0)))
        .expect("known");
    assert_eq!(known.download.place.file_name, "C:evil");
    assert_eq!(
        known.download.place.destination,
        PathBuf::from("/workspace/.codex/tmp/openai-files/s/C:evil")
    );
}

#[test]
fn manual_scopes_hold_a_random_uuid() {
    assert_eq!(manual_download_scope("u"), "manual/u");
    let scope = unique_manual_download_scope();
    let uuid = scope.strip_prefix("manual/").expect("prefix");
    assert_eq!(uuid.len(), 36);
    for (i, c) in uuid.chars().enumerate() {
        match i {
            8 | 13 | 18 | 23 => assert_eq!(c, '-'),
            14 => assert_eq!(c, '4'),
            19 => assert!("89ab".contains(c)),
            _ => assert!(c.is_ascii_digit() || ('a'..='f').contains(&c)),
        }
    }
    assert_ne!(unique_manual_download_scope(), scope);
}
