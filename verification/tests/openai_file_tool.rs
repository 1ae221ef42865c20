use codex_bridge::openai_files::download::DownloadedOpenAiFile;
use codex_bridge::openai_files::error::OpenAiFileError;
use codex_bridge::openai_files::reference::OPENAI_FILE_DOWNLOAD_LIMIT_BYTES;
use codex_bridge::tools::openai_file::DownloadOpenAiFileArgs;
use codex_bridge::tools::openai_file::DownloadOpenAiFileHandler;
use codex_bridge::tools::openai_file::FunctionCallError;
use codex_bridge::tools::openai_file::ToolKind;
use codex_bridge::tools::openai_file::ToolPayload;
use std::path::PathBuf;

fn told<T: std::fmt::Debug>(result: Result<T, FunctionCallError>) -> String {
    match result.expect_err("error") {
        FunctionCallError::RespondToModel(message) => message,
    }
}

#[test]
fn only_function_calls_are_handled() {
    let handler = DownloadOpenAiFileHandler;
    assert_eq!(handler.kind(), ToolKind::Function);
    let arguments = handler
        .handle(ToolPayload::Function { arguments: "{}".to_string() })
        .expect("arguments");
    assert_eq!(arguments, "{}");
    assert_eq!(
        told(handler.handle(ToolPayload::Other)),
        "download_openai_file handler received unsupported payload"
    );
}

#[test]
fn a_call_asks_for_a_download_in_a_scope_of_its_own() {
    let handler = DownloadOpenAiFileHandler;
    let args = || Ok(DownloadOpenAiFileArgs { file_id: "file_1".to_string() });
    let order = handler.on_arguments(args()).expect("order");
    assert_eq!(order.reference, "file_1");
    assert_eq!(order.max_bytes, OPENAI_FILE_DOWNLOAD_LIMIT_BYTES);
    assert!(order.scope.starts_with("manual/"));
    assert_ne!(handler.on_arguments(args()).expect("order").scope, order.scope);

    let order = handler.order_download(args(), "s".to_string()).expect("order");
    assert_eq!(order.scope, "s");
    let failed = Err(FunctionCallError::RespondToModel("bad arguments".to_string()));
    assert_eq!(told(handler.on_arguments(failed)), "bad arguments");
}

#[test]
fn the_model_is_told_of_the_file_or_why_there_is_none() {
    let handler = DownloadOpenAiFileHandler;
    let result = handler
        .on_downloaded(Ok(DownloadedOpenAiFile {
            file_id: "file_1".to_string(),
            uri: "sediment://file_1".to_string(),
            file_name: "a.txt".to_string(),
            mime_type: None,
            destination_path: PathBuf::from("/w/a.txt"),
            bytes_written: 3,
        }))
        .expect("result");
    assert_eq!(result.file_id, "file_1");
    assert_eq!(result.uri, "sediment://file_1");
    assert_eq!(result.file_name, "a.txt");
    assert_eq!(result.mime_type, None);
    assert_eq!(result.destination_path, PathBuf::from("/w/a.txt"));
    assert_eq!(result.bytes_written, 3);
    assert_eq!(
        told(handler.on_downloaded(Err(OpenAiFileError::UploadNotReady {
            file_id: "file_1".to_string()
        }))),
        "OpenAI file upload for `file_1` is not ready yet"
    );
}

#[test]
fn an_encoded_answer_is_a_success() {
    let handler = DownloadOpenAiFileHandler;
    let output = handler.on_encoded(Ok("{}".to_string())).expect("output");
    assert_eq!(output.body, "{}");
    assert_eq!(output.success, Some(true));
    assert_eq!(
        told(handler.on_encoded(Err("path contains invalid UTF-8".to_string()))),
        "path contains invalid UTF-8"
    );
}
